//! Routing, output actuation and the dispatcher's connection cycle.

use vstd::prelude::*;
use crate::http::{
    err_response,
    err_response_spec,
    ok_response,
    ok_response_spec,
    request_path,
    spec_request_path,
};

verus! {

/// Where a request path leads: turn the outputs on, off, or nowhere.
#[derive(Clone, Copy, PartialEq, Eq, Structural, Debug)]
pub enum Route {
    AlarmOn,
    AlarmOff,
    Unknown,
}

/// The bytes of the path `/on`.
pub open spec fn on_path() -> Seq<u8> {
    seq![47u8, 111u8, 110u8]
}

/// The bytes of the path `/off`.
pub open spec fn off_path() -> Seq<u8> {
    seq![47u8, 111u8, 102u8, 102u8]
}

/// The static route table: exactly `/on` and `/off` are recognized;
/// every other path routes nowhere and earns the failure response.
pub open spec fn spec_route(path: Seq<u8>) -> Route {
    if path == on_path() {
        Route::AlarmOn
    } else if path == off_path() {
        Route::AlarmOff
    } else {
        Route::Unknown
    }
}

/// Routes a parsed path exactly as the route table says.
pub fn route_of(path: &[u8]) -> (r: Route)
    ensures
        r == spec_route(path@),
{
    if path.len() == 3 && path[0] == 47 && path[1] == 111 && path[2] == 110 {
        proof {
            assert(path@ =~= on_path());
        }
        Route::AlarmOn
    } else if path.len() == 4 && path[0] == 47 && path[1] == 111 && path[2] == 102 && path[3]
        == 102 {
        proof {
            assert(path@ =~= off_path());
        }
        Route::AlarmOff
    } else {
        proof {
            assert(path@ != on_path() && path@ != off_path()) by {
                assert(on_path().len() == 3 && on_path()[0] == 47 && on_path()[1] == 111
                    && on_path()[2] == 110);
                assert(off_path().len() == 4 && off_path()[0] == 47 && off_path()[1] == 111
                    && off_path()[2] == 102 && off_path()[3] == 102);
            }
        }
        Route::Unknown
    }
}

/// The digital lines the dispatcher drives: the radio module's
/// auxiliary GPIO and the three device output pins, each `true` when
/// active.
#[derive(Clone, Copy, PartialEq, Eq, Structural, Debug)]
pub struct Outputs {
    pub radio_gpio: bool,
    pub alarm_device: bool,
    pub left_eye: bool,
    pub right_eye: bool,
}

impl Outputs {
    /// All four lines active.
    pub open spec fn all_active(self) -> bool {
        self.radio_gpio && self.alarm_device && self.left_eye && self.right_eye
    }

    /// All four lines inactive.
    pub open spec fn all_inactive(self) -> bool {
        !self.radio_gpio && !self.alarm_device && !self.left_eye && !self.right_eye
    }
}

/// What a route does to the outputs: `/on` drives every line active,
/// `/off` drives every line inactive, an unknown path touches nothing.
pub open spec fn spec_actuate(o: Outputs, r: Route) -> Outputs {
    match r {
        Route::AlarmOn => Outputs {
            radio_gpio: true,
            alarm_device: true,
            left_eye: true,
            right_eye: true,
        },
        Route::AlarmOff => Outputs {
            radio_gpio: false,
            alarm_device: false,
            left_eye: false,
            right_eye: false,
        },
        Route::Unknown => o,
    }
}

/// Drives the output lines as the route commands.
pub fn actuate(o: &mut Outputs, r: Route)
    ensures
        *final(o) == spec_actuate(*old(o), r),
{
    match r {
        Route::AlarmOn => {
            o.radio_gpio = true;
            o.alarm_device = true;
            o.left_eye = true;
            o.right_eye = true;
        },
        Route::AlarmOff => {
            o.radio_gpio = false;
            o.alarm_device = false;
            o.left_eye = false;
            o.right_eye = false;
        },
        Route::Unknown => {},
    }
}

/// Serves the bytes of one read: parses the path, actuates the route,
/// and returns the response to write back — or nothing when the read
/// held no parseable path, upon which the connection is to close
/// without a response and with the outputs untouched.  A recognized
/// path always earns the success response with every line driven;
/// an unrecognized path always earns the failure response with every
/// line as it was.
pub fn serve_request(buf: &[u8], outputs: &mut Outputs) -> (r: Option<&'static str>)
    ensures
        spec_request_path(buf@) is None ==> r is None && *final(outputs) == *old(outputs),
        spec_request_path(buf@) matches Some(p) ==> {
            &&& *final(outputs) == spec_actuate(*old(outputs), spec_route(p))
            &&& (spec_route(p) == Route::AlarmOn ==> *final(outputs) === (Outputs {
                radio_gpio: true,
                alarm_device: true,
                left_eye: true,
                right_eye: true,
            }))
            &&& (spec_route(p) == Route::AlarmOff ==> *final(outputs) === (Outputs {
                radio_gpio: false,
                alarm_device: false,
                left_eye: false,
                right_eye: false,
            }))
            &&& (spec_route(p) == Route::Unknown ==> *final(outputs) == *old(outputs))
            &&& r matches Some(resp) && resp@ == (if spec_route(p) is Unknown {
                err_response_spec()
            } else {
                ok_response_spec()
            })
        },
{
    match request_path(buf) {
        None => None,
        Some(path) => {
            let route = route_of(path.as_slice());
            actuate(outputs, route);
            match route {
                Route::Unknown => Some(err_response()),
                Route::AlarmOn => Some(ok_response()),
                Route::AlarmOff => Some(ok_response()),
            }
        },
    }
}

/// Where the dispatcher stands: waiting for a client, or serving one.
#[derive(Clone, Copy, PartialEq, Eq, Structural, Debug)]
pub enum ServerPhase {
    Listening,
    Serving,
}

/// What happens at a suspension point of the dispatcher's loop.
#[derive(Clone, Copy, PartialEq, Eq, Structural, Debug)]
pub enum ServerEvent {
    AcceptOk,
    AcceptFailed,
    ReadEof,
    ReadFailed,
    IdleTimeout,
    RequestUnparseable,
    Responded,
    WriteFailed,
}

/// The dispatcher's connection cycle.  A failed accept retries the
/// listen; a served response keeps the connection open for the next
/// read; everything that ends a connection — end of stream, a read or
/// write failure, the idle timeout, an unparseable request — goes back
/// to listening, never out of the loop.
pub open spec fn spec_server_next(p: ServerPhase, e: ServerEvent) -> ServerPhase {
    match (p, e) {
        (ServerPhase::Listening, ServerEvent::AcceptOk) => ServerPhase::Serving,
        (ServerPhase::Listening, _) => ServerPhase::Listening,
        (ServerPhase::Serving, ServerEvent::Responded) => ServerPhase::Serving,
        (ServerPhase::Serving, _) => ServerPhase::Listening,
    }
}

/// Advances the dispatcher's phase by one event.
pub fn server_step(p: ServerPhase, e: ServerEvent) -> (r: ServerPhase)
    ensures
        r == spec_server_next(p, e),
{
    match (p, e) {
        (ServerPhase::Listening, ServerEvent::AcceptOk) => ServerPhase::Serving,
        (ServerPhase::Listening, _) => ServerPhase::Listening,
        (ServerPhase::Serving, ServerEvent::Responded) => ServerPhase::Serving,
        (ServerPhase::Serving, _) => ServerPhase::Listening,
    }
}

/// Whatever ends a connection — end of stream, a read or write
/// failure, the idle timeout, an unparseable request — the dispatcher
/// is listening again at once, and the very next accepted client is
/// served; a failed accept never leaves the listening state either.
pub proof fn lemma_server_recovers(e: ServerEvent)
    requires
        e is ReadEof || e is ReadFailed || e is IdleTimeout || e is RequestUnparseable
            || e is WriteFailed,
    ensures
        spec_server_next(ServerPhase::Serving, e) == ServerPhase::Listening,
        spec_server_next(spec_server_next(ServerPhase::Serving, e), ServerEvent::AcceptOk)
            == ServerPhase::Serving,
        spec_server_next(ServerPhase::Listening, ServerEvent::AcceptFailed)
            == ServerPhase::Listening,
{
}

} // verus!
