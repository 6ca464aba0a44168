//! Choosing the response to an HTTP request from its first bytes.
use vstd::prelude::*;

verus! {

pub const HELLO_REQUEST: &'static str = "GET / HTTP/1.1\r\n";

pub const SLEEP_REQUEST: &'static str = "GET /sleep HTTP/1.1\r\n";

pub const OK_HEAD: &'static str = "HTTP/1.1 200 OK\r\n\r\n";

pub const NOT_FOUND_HEAD: &'static str = "HTTP/1.1 404 NOT FOUND\r\n\r\n";

pub const HELLO_PAGE: &'static str = "assets/hello.html";

pub const NOT_FOUND_PAGE: &'static str = "assets/404.html";

/// What a request asks for.
#[derive(Debug, Clone, Copy, PartialEq, Eq, Structural)]
pub enum Route {
    /// The greeting page.
    Hello,
    /// The greeting page, after a pause.
    SlowHello,
    /// Anything else.
    NotFound,
}

/// `s` begins with the bytes whose values are the characters of `p`, one
/// byte each (the UTF-8 encoding of `p` where `p` is ASCII).
pub open spec fn has_prefix(s: Seq<u8>, p: Seq<char>) -> bool {
    p.len() <= s.len() && forall|k: int| 0 <= k < p.len() ==> s[k] as u32 == #[trigger] p[k] as u32
}

/// Whether `bytes` begins with the characters of `prefix`, one byte each.
pub fn starts_with(bytes: &[u8], prefix: &str) -> (r: bool)
    ensures
        r == has_prefix(bytes@, prefix@),
{
    let n = prefix.unicode_len();
    if n > bytes.len() {
        return false;
    }
    let mut i: usize = 0;
    while i < n
        invariant
            n == prefix@.len(),
            n <= bytes@.len(),
            i <= n,
            forall|k: int| 0 <= k < i ==> bytes@[k] as u32 == #[trigger] prefix@[k] as u32,
        decreases n - i,
    {
        let c = prefix.get_char(i);
        if bytes[i] as u32 != c as u32 {
            return false;
        }
        i = i + 1;
    }
    true
}

/// The route for a request whose first bytes are `request`; the slow route
/// exists only where `with_sleep` is set.
pub fn route(request: &[u8], with_sleep: bool) -> (r: Route)
    ensures
        r == if has_prefix(request@, HELLO_REQUEST@) {
            Route::Hello
        } else if with_sleep && has_prefix(request@, SLEEP_REQUEST@) {
            Route::SlowHello
        } else {
            Route::NotFound
        },
{
    if starts_with(request, HELLO_REQUEST) {
        Route::Hello
    } else if with_sleep && starts_with(request, SLEEP_REQUEST) {
        Route::SlowHello
    } else {
        Route::NotFound
    }
}

impl Route {
    /// The status line and blank line that start the response.
    pub fn head(self) -> (r: &'static str)
        ensures
            r == if self == Route::NotFound { NOT_FOUND_HEAD } else { OK_HEAD },
    {
        match self {
            Route::NotFound => NOT_FOUND_HEAD,
            _ => OK_HEAD,
        }
    }

    /// The file whose contents make the body of the response.
    pub fn body_file(self) -> (r: &'static str)
        ensures
            r == if self == Route::NotFound { NOT_FOUND_PAGE } else { HELLO_PAGE },
    {
        match self {
            Route::NotFound => NOT_FOUND_PAGE,
            _ => HELLO_PAGE,
        }
    }
}

/// The response: `head` followed by `body`.
pub fn response(head: &str, body: &str) -> (r: String)
    ensures
        r@ == head@ + body@,
{
    String::from_str(head).concat(body)
}

} // verus!
