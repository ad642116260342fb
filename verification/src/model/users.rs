use vstd::prelude::*;

verus! {

/// A date and time without time zone (`chrono::NaiveDateTime`), held as whole
/// seconds since 1970-01-01T00:00:00 and the nanoseconds past that second.
#[derive(PartialEq, Eq, Structural, Clone, Copy, Debug)]
pub struct NaiveTimestamp {
    pub secs: i64,
    pub nanos: u32,
}

/// A point in time as `std::time::SystemTime` carries it in a request body:
/// seconds and nanoseconds since the Unix epoch.
#[derive(PartialEq, Eq, Structural, Clone, Copy, Debug)]
pub struct SystemTimestamp {
    pub secs_since_epoch: u64,
    pub nanos_since_epoch: u32,
}

/// A user row as the handlers read it.
#[derive(Debug)]
pub struct UserModel {
    pub id: i32,
    pub image: String,
    pub email: String,
    pub role: String,
    pub verified: bool,
    pub password: String,
    pub username: String,
    pub created_at: NaiveTimestamp,
}

/// The claims of an access or refresh token: the public part of a user and
/// the expiry as seconds since the epoch.
#[derive(Debug)]
pub struct UserModelToken {
    pub id: i32,
    pub image: String,
    pub email: String,
    pub role: String,
    pub verified: bool,
    pub username: String,
    pub exp: usize,
}

/// The columns that a sign-up sets on a new user row (the database fills the id,
/// and the row's creation time is taken when it is inserted).
#[derive(Debug)]
pub struct NewUser {
    pub image: String,
    pub username: String,
    pub email: String,
    pub mob: Option<String>,
    pub role: String,
    pub verified: bool,
    pub password: String,
}

/// Seconds in a day.
pub const SECONDS_PER_DAY: i64 = 86400;

/// Days an access token lives.
pub const ACCESS_TOKEN_DAYS: i64 = 7;

/// Days a refresh token lives.
pub const REFRESH_TOKEN_DAYS: i64 = 30;

/// The session claims of `user` that expire at `exp`.
pub open spec fn session_claims(user: UserModel, exp: usize) -> UserModelToken {
    UserModelToken {
        id: user.id,
        image: user.image,
        email: user.email,
        role: user.role,
        verified: user.verified,
        username: user.username,
        exp,
    }
}

/// The expiry, as the claims hold it, of a token issued at `now` (seconds since
/// the epoch) that lives `days` days: the timestamp cast to `usize` as it is.
pub open spec fn expiry_after(now: i64, days: i64) -> usize {
    (now + days * SECONDS_PER_DAY) as usize
}

/// `now + days` fits in an `i64` timestamp.
pub open spec fn expiry_fits(now: i64, days: i64) -> bool {
    i64::MIN <= now + days * SECONDS_PER_DAY <= i64::MAX
}

/// The session claims of `user` for a token issued at `now` that lives `days` days.
pub fn claims_at(user: &UserModel, now: i64, days: i64) -> (r: UserModelToken)
    requires
        0 <= days <= REFRESH_TOKEN_DAYS,
        expiry_fits(now, days),
    ensures
        r == session_claims(*user, expiry_after(now, days)),
{
    let exp_secs: i64 = now + days * SECONDS_PER_DAY;
    UserModelToken {
        id: user.id,
        image: user.image.clone(),
        email: user.email.clone(),
        role: user.role.clone(),
        verified: user.verified,
        username: user.username.clone(),
        exp: exp_secs as usize,
    }
}

/// The earliest UNIX timestamp of a `chrono::DateTime<Utc>`: that of
/// January 1, 262143 BCE (chrono's `NaiveDate::MIN`), 00:00:00.
pub open spec fn earliest_utc_timestamp() -> int {
    -8_334_601_315_200
}

/// The latest UNIX timestamp of a `chrono::DateTime<Utc>`: that of
/// December 31, 262142 CE (chrono's `NaiveDate::MAX`), 23:59:59.
pub open spec fn latest_utc_timestamp() -> int {
    8_210_266_876_799
}

/// The current time (`chrono::Utc::now().timestamp()`): whole seconds since the
/// epoch. `Utc::now` builds a `DateTime<Utc>` (it panics otherwise), and
/// `timestamp` of a `DateTime<Utc>` lies between those of chrono's earliest and
/// latest dates; that range is all that is claimed. Which second comes back is
/// the machine's clock, and is left unsaid.
#[verifier::external_body]
pub(crate) fn utc_timestamp() -> (r: i64)
    ensures
        earliest_utc_timestamp() <= r <= latest_utc_timestamp(),
{
    chrono::Utc::now().timestamp()
}

/// Session claims of `user` for a token issued now that lives `days` days. The
/// clock's second is one that a `DateTime<Utc>` can hold, so the expiry always
/// fits in an `i64` timestamp and the claims are always made; `None` is kept
/// for a clock beyond that range.
pub fn claims_now(user: &UserModel, days: i64) -> (r: Option<UserModelToken>)
    requires
        0 <= days <= REFRESH_TOKEN_DAYS,
    ensures
        r is Some,
        r matches Some(c) ==> exists|now: i64|
            earliest_utc_timestamp() <= now <= latest_utc_timestamp() && expiry_fits(now, days)
                && c == #[trigger] session_claims(*user, expiry_after(now, days)),
{
    let now = utc_timestamp();
    if now > i64::MAX - days * SECONDS_PER_DAY {
        return None;
    }
    let c = claims_at(user, now, days);
    assert(earliest_utc_timestamp() <= now <= latest_utc_timestamp() && expiry_fits(now, days)
        && c == session_claims(*user, expiry_after(now, days)));
    Some(c)
}

/// The claims of an access token for `user`: seven days from now.
pub fn access_claims(user: &UserModel) -> (r: Option<UserModelToken>)
    ensures
        r is Some,
        r matches Some(c) ==> exists|now: i64|
            earliest_utc_timestamp() <= now <= latest_utc_timestamp() && expiry_fits(
                now,
                ACCESS_TOKEN_DAYS,
            ) && c == #[trigger] session_claims(*user, expiry_after(now, ACCESS_TOKEN_DAYS)),
{
    claims_now(user, ACCESS_TOKEN_DAYS)
}

/// The claims of a refresh token for `user`: thirty days from now.
pub fn refresh_claims(user: &UserModel) -> (r: Option<UserModelToken>)
    ensures
        r is Some,
        r matches Some(c) ==> exists|now: i64|
            earliest_utc_timestamp() <= now <= latest_utc_timestamp() && expiry_fits(
                now,
                REFRESH_TOKEN_DAYS,
            ) && c == #[trigger] session_claims(*user, expiry_after(now, REFRESH_TOKEN_DAYS)),
{
    claims_now(user, REFRESH_TOKEN_DAYS)
}

/// `r` is the user record `u` with its password hash blanked.
pub open spec fn blanked(r: UserModel, u: UserModel) -> bool {
    &&& r.id == u.id
    &&& r.image == u.image
    &&& r.email == u.email
    &&& r.role == u.role
    &&& r.verified == u.verified
    &&& r.username == u.username
    &&& r.created_at == u.created_at
    &&& r.password@ == Seq::<char>::empty()
}

/// A copy of the user record with the password hash blanked, as the record is
/// put in tokens.
pub fn without_password(user: &UserModel) -> (r: UserModel)
    ensures
        r.id == user.id,
        r.image == user.image,
        r.email == user.email,
        r.role == user.role,
        r.verified == user.verified,
        r.username == user.username,
        r.created_at == user.created_at,
        r.password@ == Seq::<char>::empty(),
        blanked(r, *user),
{
    UserModel {
        id: user.id,
        image: user.image.clone(),
        email: user.email.clone(),
        role: user.role.clone(),
        verified: user.verified,
        password: String::new(),
        username: user.username.clone(),
        created_at: user.created_at,
    }
}

} // verus!
