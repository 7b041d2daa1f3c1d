//! Plain descriptions of HTTP requests and responses, and the small pieces of
//! text handling that building and reading them needs.
use vstd::prelude::*;

verus! {

/// The HTTP methods that the table protocol uses.
#[derive(Debug, Clone, Copy, PartialEq, Eq, Structural)]
pub enum Method {
    Get,
    Post,
}

/// A request to one endpoint of a service.
#[derive(Debug, Clone)]
pub struct HttpRequest {
    pub method: Method,
    /// The service's host, such as `https://db.region.api.lancedb.com`.
    pub host: String,
    /// Path of the endpoint, starting with `/`.
    pub path: String,
    /// Query parameters, in the order they are attached.
    pub query: Vec<(String, String)>,
    /// Headers, in the order they are attached.
    pub headers: Vec<(String, String)>,
    /// Request body; `None` sends no body at all.
    pub body: Option<Vec<u8>>,
}

/// What the service answered: a status code and the body as text.
#[derive(Debug, Clone)]
pub struct HttpResponse {
    pub status: u16,
    pub body: String,
}

/// Name/value pairs seen as character sequences.
pub open spec fn pairs_view(v: Seq<(String, String)>) -> Seq<(Seq<char>, Seq<char>)> {
    v.map_values(|p: (String, String)| (p.0@, p.1@))
}

/// A 2xx status.
pub open spec fn is_success_code(status: u16) -> bool {
    200 <= status && status < 300
}

pub const STATUS_BAD_REQUEST: u16 = 400;

pub const STATUS_NOT_FOUND: u16 = 404;

/// Relies on http's `StatusCode::from_u16` (accepts exactly 100..=999) and
/// `StatusCode::is_success` (true exactly for 200..300).
#[verifier::external_body]
pub(crate) fn status_is_success(status: u16) -> (r: bool)
    ensures
        r == is_success_code(status),
{
    match http::StatusCode::from_u16(status) {
        Ok(code) => code.is_success(),
        Err(_) => false,
    }
}

/// `needle` occurs in `hay` as a contiguous run of characters.
pub open spec fn occurs_in(needle: Seq<char>, hay: Seq<char>) -> bool {
    exists|i: int|
        0 <= i && i + needle.len() <= hay.len() && #[trigger] hay.subrange(i, i + needle.len())
            == needle
}

/// Whether `needle` occurs in `hay`.
pub fn contains_text(hay: &str, needle: &str) -> (r: bool)
    ensures
        r == occurs_in(needle@, hay@),
{
    let h = hay.unicode_len();
    let n = needle.unicode_len();
    if n > h {
        return false;
    }
    let target = String::from_str(needle);
    let mut i: usize = 0;
    loop
        invariant
            h == hay@.len(),
            n == needle@.len(),
            n <= h,
            target@ == needle@,
            i <= h - n,
            forall|j: int| 0 <= j < i ==> #[trigger] hay@.subrange(j, j + needle@.len()) != needle@,
        decreases h - n - i,
    {
        let window = String::from_str(hay.substring_char(i, i + n));
        if window == target {
            return true;
        }
        if i == h - n {
            proof {
                assert forall|j: int|
                    0 <= j && j + needle@.len() <= hay@.len() implies #[trigger] hay@.subrange(
                    j,
                    j + needle@.len(),
                ) != needle@ by {
                    if j == i {
                    } else {
                        assert(j < i);
                    }
                }
            }
            return false;
        }
        i = i + 1;
    }
}

/// The decimal digits of `n`, most significant first, without leading zeros.
pub open spec fn decimal(n: nat) -> Seq<char>
    decreases n,
{
    if n < 10 {
        "0123456789"@.subrange(n as int, n + 1int)
    } else {
        decimal(n / 10) + "0123456789"@.subrange((n % 10) as int, (n % 10) + 1int)
    }
}

/// The decimal text of `n`.
pub fn decimal_string(n: u32) -> (r: String)
    ensures
        r@ == decimal(n as nat),
    decreases n,
{
    let digits = "0123456789";
    proof {
        reveal_strlit("0123456789");
    }
    if n < 10 {
        let d = n as usize;
        String::from_str(digits.substring_char(d, d + 1))
    } else {
        let mut s = decimal_string(n / 10);
        let d = (n % 10) as usize;
        s.append(digits.substring_char(d, d + 1));
        s
    }
}

} // verus!
