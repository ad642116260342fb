use vstd::prelude::*;

use crate::exchange::Rejection;
use crate::text::starts_with;

verus! {

/// What `regex` answers when the pattern `pattern` is searched in `haystack`:
/// `Some(found)`, or `None` where the pattern does not compile.
pub uninterp spec fn regex_finds(pattern: Seq<char>, haystack: Seq<char>) -> Option<bool>;

/// `pattern` is `^` followed by at most 63 ASCII letters and digits: a short
/// literal anchored at the start of the text.
pub open spec fn anchored_literal(pattern: Seq<char>) -> bool {
    &&& 1 <= pattern.len() <= 64
    &&& pattern[0] == '^'
    &&& forall|i: int|
        1 <= i < pattern.len() ==> ('a' <= #[trigger] pattern[i] <= 'z' || 'A' <= pattern[i] <= 'Z'
            || '0' <= pattern[i] <= '9')
}

/// Calls `regex::Regex::new(pattern)` and then `is_match(haystack)`.
/// Trusted: the answer is `regex_finds(pattern@, haystack@)`; for a pattern made
/// of `^` and at most 63 letters or digits (no other syntax, and far below the
/// crate's 10 MiB limit on a compiled pattern, so it compiles), the crate's
/// documentation gives the answer: whether the text starts with those letters.
/// Of longer patterns nothing is claimed: they may exceed that limit.
#[verifier::external_body]
pub(crate) fn regex_is_match(pattern: &str, haystack: &str) -> (r: Option<bool>)
    ensures
        r == regex_finds(pattern@, haystack@),
        anchored_literal(pattern@) ==> r == Some(starts_with(haystack@, pattern@.drop_first())),
{
    match regex::Regex::new(pattern) {
        Ok(re) => Some(re.is_match(haystack)),
        Err(_) => None,
    }
}

/// The pattern an authorization header must match.
pub const BEARER_PATTERN: &'static str = "^Bearer";

/// The header starts with `Bearer`.
pub open spec fn is_bearer(header: Seq<char>) -> bool {
    starts_with(header, "Bearer"@)
}

/// Whether `header` matches `^Bearer`.
pub fn matches_bearer(header: &str) -> (r: bool)
    ensures
        r == is_bearer(header@),
{
    proof {
        reveal_strlit("^Bearer");
        reveal_strlit("Bearer");
        assert(BEARER_PATTERN@.drop_first() =~= "Bearer"@);
    }
    match regex_is_match(BEARER_PATTERN, header) {
        Some(found) => found,
        None => false,
    }
}

/// Lets a request through when its `Authorization` header starts with
/// `Bearer`; turns it away 401 otherwise, or where there is no such header.
pub fn auth_middleware(header: Option<&str>) -> (r: Result<(), Rejection>)
    ensures
        r is Ok <==> (header matches Some(h) && is_bearer(h@)),
        r matches Err(e) ==> e == Rejection::Unauthorized,
{
    match header {
        Some(h) => {
            if matches_bearer(h) {
                Ok(())
            } else {
                Err(Rejection::Unauthorized)
            }
        },
        None => Err(Rejection::Unauthorized),
    }
}

} // verus!
