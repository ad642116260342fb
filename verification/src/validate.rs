use vstd::prelude::*;

verus! {

/// What `validator`'s e-mail check (`ValidateEmail::validate_email`, the HTML5
/// rule with length limits and IDN fallback) answers for the text `s`.
pub uninterp spec fn email_accepted(s: Seq<char>) -> bool;

/// Calls `validator::ValidateEmail::validate_email` on `s`.
/// Trusted: the answer is `email_accepted(s@)`; it is `false` for a text that
/// holds no `@` (the check begins by rejecting such a text).
#[verifier::external_body]
fn validator_email(s: &str) -> (r: bool)
    ensures
        r == email_accepted(s@),
        r ==> s@.contains('@'),
{
    validator::ValidateEmail::validate_email(&s)
}

/// The `#[validate(email)]` rule on a field.
pub fn is_valid_email(s: &String) -> (r: bool)
    ensures
        r == email_accepted(s@),
{
    validator_email(s.as_str())
}

/// The `#[validate(length(min, max))]` rule on a text: its number of characters
/// lies within the bounds that are given.
pub open spec fn length_within(s: Seq<char>, min: Option<u64>, max: Option<u64>) -> bool {
    &&& (min matches Some(m) ==> s.len() >= m)
    &&& (max matches Some(m) ==> s.len() <= m)
}

/// Checks the `#[validate(length(..))]` rule: counts the characters of `s`
/// and compares the count with the bounds.
pub fn length_ok(s: &String, min: Option<u64>, max: Option<u64>) -> (r: bool)
    ensures
        r == length_within(s@, min, max),
{
    let n = s.as_str().unicode_len();
    let count: u64 = n as u64;
    match min {
        Some(m) => {
            if count < m {
                return false;
            }
        },
        None => {},
    }
    match max {
        Some(m) => {
            if count > m {
                return false;
            }
        },
        None => {},
    }
    true
}

/// The failed rule `e`, listed where `failed` holds.
pub open spec fn rule_error(failed: bool, e: crate::exchange::FieldError) -> Seq<crate::exchange::FieldError> {
    if failed {
        seq![e]
    } else {
        Seq::empty()
    }
}

/// Lists the failed rule `e` in `errors` where `failed` holds.
pub fn note_error(errors: &mut Vec<crate::exchange::FieldError>, failed: bool, e: crate::exchange::FieldError)
    ensures
        final(errors)@ == old(errors)@ + rule_error(failed, e),
{
    if failed {
        errors.push(e);
    } else {
        assert(old(errors)@ + rule_error(failed, e) =~= old(errors)@);
    }
}

} // verus!
