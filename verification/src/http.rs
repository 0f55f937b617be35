//! Request parsing and the fixed wire responses.
//!
//! A request is parsed from the bytes of a single read: the request
//! line runs to the first carriage return or line feed, and holds
//! method, path and version as space-separated tokens.  Only the path
//! — the second token — is extracted; method, version, headers and
//! body are ignored.  A line with fewer than two tokens has no path
//! and the connection is closed.

use vstd::prelude::*;

verus! {

/// Whether this byte ends the request line.
pub open spec fn is_line_break(b: u8) -> bool {
    b == 13 || b == 10
}

/// The first index at or after `i` holding a line break, or the length.
pub open spec fn find_eol(s: Seq<u8>, i: int) -> int
    decreases s.len() - i,
{
    if i < 0 || i >= s.len() {
        s.len() as int
    } else if is_line_break(s[i]) {
        i
    } else {
        find_eol(s, i + 1)
    }
}

/// The first index in `[i, end)` holding a space, or `end`.
pub open spec fn find_space(s: Seq<u8>, i: int, end: int) -> int
    decreases end - i,
{
    if i < 0 || i >= end || end > s.len() {
        end
    } else if s[i] == 32 {
        i
    } else {
        find_space(s, i + 1, end)
    }
}

/// The first index in `[i, end)` holding a non-space, or `end`.
pub open spec fn find_non_space(s: Seq<u8>, i: int, end: int) -> int
    decreases end - i,
{
    if i < 0 || i >= end || end > s.len() {
        end
    } else if s[i] != 32 {
        i
    } else {
        find_non_space(s, i + 1, end)
    }
}

/// The request path of a buffer: the second space-separated token of
/// the first line, or nothing when the line has fewer than two tokens.
pub open spec fn spec_request_path(s: Seq<u8>) -> Option<Seq<u8>> {
    let end = find_eol(s, 0);
    let m0 = find_non_space(s, 0, end);
    let m1 = find_space(s, m0, end);
    let p0 = find_non_space(s, m1, end);
    let p1 = find_space(s, p0, end);
    if p0 < end {
        Some(s.subrange(p0, p1))
    } else {
        None
    }
}

/// Scans for the end of the request line.
fn scan_eol(buf: &[u8]) -> (r: usize)
    ensures
        r == find_eol(buf@, 0),
        r <= buf@.len(),
{
    let n = buf.len();
    let mut i: usize = 0;
    while i < n && buf[i] != 13 && buf[i] != 10
        invariant
            0 <= i <= n,
            n == buf@.len(),
            find_eol(buf@, 0) == find_eol(buf@, i as int),
        decreases n - i,
    {
        proof {
            assert(find_eol(buf@, i as int) == find_eol(buf@, i as int + 1));
        }
        i = i + 1;
    }
    i
}

/// Scans for the first space in `[from, end)`.
fn scan_space(buf: &[u8], from: usize, end: usize) -> (r: usize)
    requires
        from <= end <= buf@.len(),
    ensures
        r == find_space(buf@, from as int, end as int),
        from <= r <= end,
{
    let mut i: usize = from;
    while i < end && buf[i] != 32
        invariant
            from <= i <= end,
            end <= buf@.len(),
            find_space(buf@, from as int, end as int) == find_space(buf@, i as int, end as int),
        decreases end - i,
    {
        proof {
            assert(find_space(buf@, i as int, end as int) == find_space(
                buf@,
                i as int + 1,
                end as int,
            ));
        }
        i = i + 1;
    }
    i
}

/// Scans for the first non-space in `[from, end)`.
fn scan_non_space(buf: &[u8], from: usize, end: usize) -> (r: usize)
    requires
        from <= end <= buf@.len(),
    ensures
        r == find_non_space(buf@, from as int, end as int),
        from <= r <= end,
{
    let mut i: usize = from;
    while i < end && buf[i] == 32
        invariant
            from <= i <= end,
            end <= buf@.len(),
            find_non_space(buf@, from as int, end as int) == find_non_space(
                buf@,
                i as int,
                end as int,
            ),
        decreases end - i,
    {
        proof {
            assert(find_non_space(buf@, i as int, end as int) == find_non_space(
                buf@,
                i as int + 1,
                end as int,
            ));
        }
        i = i + 1;
    }
    i
}

/// Extracts the request path from the bytes of one read, exactly as
/// `spec_request_path` defines it.
pub fn request_path(buf: &[u8]) -> (r: Option<Vec<u8>>)
    ensures
        match r {
            Some(p) => spec_request_path(buf@) == Some(p@),
            None => spec_request_path(buf@) is None,
        },
{
    let end = scan_eol(buf);
    let m0 = scan_non_space(buf, 0, end);
    let m1 = scan_space(buf, m0, end);
    let p0 = scan_non_space(buf, m1, end);
    let p1 = scan_space(buf, p0, end);
    if p0 < end {
        let mut path: Vec<u8> = Vec::new();
        let mut i: usize = p0;
        while i < p1
            invariant
                p0 <= i <= p1 <= buf@.len(),
                path@ == buf@.subrange(p0 as int, i as int),
            decreases p1 - i,
        {
            path.push(buf[i]);
            proof {
                assert(buf@.subrange(p0 as int, i as int).push(buf@[i as int]) =~= buf@.subrange(
                    p0 as int,
                    i as int + 1,
                ));
            }
            i = i + 1;
        }
        Some(path)
    } else {
        None
    }
}

/// The literal success response, written whole after `/on` and `/off`.
pub open spec fn ok_response_spec() -> Seq<char> {
    "HTTP/1.1 200 OK\r\nContent-Length: 2\r\nContent-Type: text/plain\r\n\r\nok"@
}

/// The literal failure response, written whole after any other path.
pub open spec fn err_response_spec() -> Seq<char> {
    "HTTP/1.1 400 Bad Request\r\nContent-Length: 3\r\nContent-Type: text/plain\r\n\r\nerr"@
}

/// The bytes sent back for a recognized path.
pub fn ok_response() -> (r: &'static str)
    ensures
        r@ == ok_response_spec(),
{
    "HTTP/1.1 200 OK\r\nContent-Length: 2\r\nContent-Type: text/plain\r\n\r\nok"
}

/// The bytes sent back for an unrecognized path.
pub fn err_response() -> (r: &'static str)
    ensures
        r@ == err_response_spec(),
{
    "HTTP/1.1 400 Bad Request\r\nContent-Length: 3\r\nContent-Type: text/plain\r\n\r\nerr"
}

} // verus!
