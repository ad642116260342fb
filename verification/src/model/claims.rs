use vstd::prelude::*;

use crate::model::users::{UserModel, UserModelToken};
use crate::text::push_char;

verus! {

/// The decimal digit `d` (below ten) as a character.
pub open spec fn digit_char(d: nat) -> char {
    ((d + 48) as u8) as char
}

/// The decimal text of `n`, without leading zeros.
pub open spec fn nat_text(n: nat) -> Seq<char>
    decreases n,
{
    if n < 10 {
        seq![digit_char(n)]
    } else {
        nat_text(n / 10).push(digit_char(n % 10))
    }
}

/// The decimal text of `i`, with a leading `-` where it is negative.
pub open spec fn int_text(i: int) -> Seq<char> {
    if i < 0 {
        seq!['-'] + nat_text((-i) as nat)
    } else {
        nat_text(i as nat)
    }
}

/// Appends the decimal text of `n`.
fn write_nat(out: &mut String, n: u64)
    ensures
        final(out)@ == old(out)@ + nat_text(n as nat),
    decreases n,
{
    if n >= 10 {
        write_nat(out, n / 10);
    }
    let d: u8 = (n % 10) as u8;
    let c: char = (d + 48) as char;
    assert(c == digit_char((n % 10) as nat));
    push_char(out, c);
    assert(n >= 10 ==> nat_text(n as nat) == nat_text((n / 10) as nat).push(c));
}

/// Appends the decimal text of `i`.
fn write_int(out: &mut String, i: i64)
    ensures
        final(out)@ == old(out)@ + int_text(i as int),
{
    if i < 0 {
        push_char(out, '-');
        let m: i128 = -(i as i128);
        write_nat(out, m as u64);
        assert(old(out)@ + int_text(i as int) =~= old(out)@.push('-') + nat_text((-i) as nat));
    } else {
        write_nat(out, i as u64);
    }
}

/// The lowercase hexadecimal digit `d` (below sixteen).
pub open spec fn hex_char(d: nat) -> char {
    if d < 10 {
        ((d + 48) as u8) as char
    } else {
        ((d + 87) as u8) as char
    }
}

/// How a JSON string writes the character `c`: `"` and `\` behind a backslash,
/// the control characters with a short escape where JSON has one and as
/// `\u00XX` otherwise, every other character as it is.
pub open spec fn json_escape_char(c: char) -> Seq<char> {
    if c == '"' {
        seq!['\\', '"']
    } else if c == '\\' {
        seq!['\\', '\\']
    } else if c == '\n' {
        seq!['\\', 'n']
    } else if c == '\r' {
        seq!['\\', 'r']
    } else if c == '\t' {
        seq!['\\', 't']
    } else if (c as u32) == 8 {
        seq!['\\', 'b']
    } else if (c as u32) == 12 {
        seq!['\\', 'f']
    } else if (c as u32) < 32 {
        seq!['\\', 'u', '0', '0', hex_char((c as u32 / 16) as nat), hex_char((c as u32 % 16) as nat)]
    } else {
        seq![c]
    }
}

/// The characters of `s` as a JSON string writes them between its quotes.
pub open spec fn json_escaped(s: Seq<char>) -> Seq<char>
    decreases s.len(),
{
    if s.len() == 0 {
        Seq::empty()
    } else {
        json_escaped(s.drop_last()) + json_escape_char(s.last())
    }
}

/// `s` as a JSON string: between double quotes, escaped.
pub open spec fn json_string(s: Seq<char>) -> Seq<char> {
    seq!['"'] + json_escaped(s) + seq!['"']
}

/// `b` as a JSON literal.
pub open spec fn json_bool(b: bool) -> Seq<char> {
    if b {
        "true"@
    } else {
        "false"@
    }
}

/// Appends the hexadecimal digit `d` (below sixteen).
fn push_hex(out: &mut String, d: u32)
    requires
        d < 16,
    ensures
        final(out)@ == old(out)@.push(hex_char(d as nat)),
{
    let b: u8 = d as u8;
    let c: char = if b < 10 {
        (b + 48) as char
    } else {
        (b + 87) as char
    };
    push_char(out, c);
}

/// Appends `c` as a JSON string writes it.
fn push_escaped(out: &mut String, c: char)
    ensures
        final(out)@ == old(out)@ + json_escape_char(c),
{
    let code: u32 = c as u32;
    if c == '"' {
        push_char(out, '\\');
        push_char(out, '"');
    } else if c == '\\' {
        push_char(out, '\\');
        push_char(out, '\\');
    } else if c == '\n' {
        push_char(out, '\\');
        push_char(out, 'n');
    } else if c == '\r' {
        push_char(out, '\\');
        push_char(out, 'r');
    } else if c == '\t' {
        push_char(out, '\\');
        push_char(out, 't');
    } else if code == 8 {
        push_char(out, '\\');
        push_char(out, 'b');
    } else if code == 12 {
        push_char(out, '\\');
        push_char(out, 'f');
    } else if code < 32 {
        push_char(out, '\\');
        push_char(out, 'u');
        push_char(out, '0');
        push_char(out, '0');
        push_hex(out, code / 16);
        push_hex(out, code % 16);
    } else {
        push_char(out, c);
    }
    assert(final(out)@ =~= old(out)@ + json_escape_char(c));
}

/// Appends `s` as a JSON string.
fn write_json_string(out: &mut String, s: &str)
    ensures
        final(out)@ == old(out)@ + json_string(s@),
{
    let ghost start = out@;
    push_char(out, '"');
    for c in it: s.chars()
        invariant
            it.seq() == s@,
            out@ == start.push('"') + json_escaped(it.seq().take(it.index() as int)),
    {
        let ghost before = out@;
        push_escaped(out, c);
        proof {
            let i = it.index() as int;
            let t = it.seq().take(i + 1);
            assert(t.drop_last() =~= it.seq().take(i));
            assert(t.last() == c);
            assert(out@ =~= start.push('"') + json_escaped(t));
        }
    }
    proof {
        assert(s@.take(s@.len() as int) =~= s@);
    }
    push_char(out, '"');
    assert(out@ =~= start + json_string(s@));
}

/// The JSON text of the session claims `c`, as the token carries them: the
/// fields in their order, with no spaces.
pub open spec fn session_claims_json(c: UserModelToken) -> Seq<char> {
    "{\"id\":"@ + int_text(c.id as int) + ",\"image\":"@ + json_string(c.image@) + ",\"email\":"@
        + json_string(c.email@) + ",\"role\":"@ + json_string(c.role@) + ",\"verified\":"@ + json_bool(
        c.verified,
    ) + ",\"username\":"@ + json_string(c.username@) + ",\"exp\":"@ + nat_text(c.exp as nat) + "}"@
}

/// `s` is the JSON text of some session claims.
pub open spec fn is_session_claims_json(s: Seq<char>) -> bool {
    exists|c: UserModelToken| s == #[trigger] session_claims_json(c)
}

/// Writes the session claims `c` as JSON.
pub fn session_claims_text(c: &UserModelToken) -> (r: String)
    ensures
        r@ == session_claims_json(*c),
        is_session_claims_json(r@),
{
    let mut out = String::new();
    out.append("{\"id\":");
    write_int(&mut out, c.id as i64);
    out.append(",\"image\":");
    write_json_string(&mut out, c.image.as_str());
    out.append(",\"email\":");
    write_json_string(&mut out, c.email.as_str());
    out.append(",\"role\":");
    write_json_string(&mut out, c.role.as_str());
    out.append(",\"verified\":");
    if c.verified {
        out.append("true");
    } else {
        out.append("false");
    }
    out.append(",\"username\":");
    write_json_string(&mut out, c.username.as_str());
    out.append(",\"exp\":");
    write_nat(&mut out, c.exp as u64);
    out.append("}");
    assert(out@ =~= session_claims_json(*c));
    out
}

/// What `chrono` writes for the date and time `secs` seconds and `nanos`
/// nanoseconds after 1970-01-01T00:00:00 (`NaiveDateTime`'s `Debug`, which is
/// also its serde form, such as `2024-05-01T12:30:00.250`), or `None` where
/// `chrono` holds no such date and time.
pub uninterp spec fn naive_datetime_text(secs: i64, nanos: u32) -> Option<Seq<char>>;

/// Calls `chrono::DateTime::from_timestamp(secs, nanos)` and writes the
/// date and time with `{:?}` of its `naive_utc()`.
/// Trusted: the result is `naive_datetime_text(secs, nanos)`.
#[verifier::external_body]
fn naive_datetime_debug(secs: i64, nanos: u32) -> (r: Option<String>)
    ensures
        match r {
            Some(t) => naive_datetime_text(secs, nanos) == Some(t@),
            None => naive_datetime_text(secs, nanos) is None,
        },
{
    match chrono::DateTime::from_timestamp(secs, nanos) {
        Some(d) => Some(format!("{:?}", d.naive_utc())),
        None => None,
    }
}

/// The JSON text of the user record `u` whose creation time is written
/// `created`: the fields in their order, with no spaces.
pub open spec fn record_claims_json(u: UserModel, created: Seq<char>) -> Seq<char> {
    "{\"id\":"@ + int_text(u.id as int) + ",\"image\":"@ + json_string(u.image@) + ",\"email\":"@
        + json_string(u.email@) + ",\"role\":"@ + json_string(u.role@) + ",\"verified\":"@ + json_bool(
        u.verified,
    ) + ",\"password\":"@ + json_string(u.password@) + ",\"username\":"@ + json_string(u.username@)
        + ",\"created_at\":"@ + json_string(created) + "}"@
}

/// The JSON text of the user record `u`, where its creation time is one that
/// `chrono` can write.
pub open spec fn record_json(u: UserModel) -> Option<Seq<char>> {
    match naive_datetime_text(u.created_at.secs, u.created_at.nanos) {
        Some(t) => Some(record_claims_json(u, t)),
        None => None,
    }
}

/// Writes the user record `u` as JSON; `None` where its creation time is not
/// one that `chrono` holds.
pub fn record_claims_text(u: &UserModel) -> (r: Option<String>)
    ensures
        match r {
            Some(j) => record_json(*u) == Some(j@),
            None => record_json(*u) is None,
        },
{
    let created = match naive_datetime_debug(u.created_at.secs, u.created_at.nanos) {
        Some(t) => t,
        None => {
            return None;
        },
    };
    let mut out = String::new();
    out.append("{\"id\":");
    write_int(&mut out, u.id as i64);
    out.append(",\"image\":");
    write_json_string(&mut out, u.image.as_str());
    out.append(",\"email\":");
    write_json_string(&mut out, u.email.as_str());
    out.append(",\"role\":");
    write_json_string(&mut out, u.role.as_str());
    out.append(",\"verified\":");
    if u.verified {
        out.append("true");
    } else {
        out.append("false");
    }
    out.append(",\"password\":");
    write_json_string(&mut out, u.password.as_str());
    out.append(",\"username\":");
    write_json_string(&mut out, u.username.as_str());
    out.append(",\"created_at\":");
    write_json_string(&mut out, created.as_str());
    out.append("}");
    assert(out@ =~= record_claims_json(*u, created@));
    Some(out)
}

/// The JSON text of session claims writes the user's verified flag as it is:
/// two claims that differ in that flag alone have different texts, and the
/// text holds `"verified":false` for claims of a user who is not verified and
/// `"verified":true` for one who is.
pub proof fn lemma_claims_text_tells_verified(c1: UserModelToken, c2: UserModelToken)
    requires
        c1.id == c2.id,
        c1.image@ == c2.image@,
        c1.email@ == c2.email@,
        c1.role@ == c2.role@,
        c1.username@ == c2.username@,
        c1.exp == c2.exp,
    ensures
        (session_claims_json(c1) == session_claims_json(c2)) <==> (c1.verified == c2.verified),
        !c1.verified ==> exists|i: int|
            0 <= i && i + 16 <= session_claims_json(c1).len() && #[trigger] session_claims_json(c1).subrange(
                i,
                i + 16,
            ) == "\"verified\":false"@,
        c1.verified ==> exists|i: int|
            0 <= i && i + 15 <= session_claims_json(c1).len() && #[trigger] session_claims_json(c1).subrange(
                i,
                i + 15,
            ) == "\"verified\":true"@,
{
    reveal_strlit("true");
    reveal_strlit("false");
    reveal_strlit(",\"verified\":");
    reveal_strlit("\"verified\":false");
    reveal_strlit("\"verified\":true");
    let head = "{\"id\":"@ + int_text(c1.id as int) + ",\"image\":"@ + json_string(c1.image@) + ",\"email\":"@
        + json_string(c1.email@) + ",\"role\":"@ + json_string(c1.role@) + ",\"verified\":"@;
    let tail = ",\"username\":"@ + json_string(c1.username@) + ",\"exp\":"@ + nat_text(c1.exp as nat) + "}"@;
    let t1 = session_claims_json(c1);
    let t2 = session_claims_json(c2);
    assert(t1 =~= head + json_bool(c1.verified) + tail);
    assert(t2 =~= head + json_bool(c2.verified) + tail);
    let n: int = head.len() as int;
    assert(t1[n] == json_bool(c1.verified)[0]);
    assert(t2[n] == json_bool(c2.verified)[0]);
    let i = n - 11;
    assert(head.subrange(n - 12, n) =~= ",\"verified\":"@);
    if c1.verified {
        assert(t1.subrange(i, i + 15) =~= "\"verified\":true"@);
    } else {
        assert(t1.subrange(i, i + 16) =~= "\"verified\":false"@);
    }
}

} // verus!
