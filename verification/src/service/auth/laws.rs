use vstd::prelude::*;

use crate::exchange::{answers_empty, answers_text, Action, Event, RedisLink, Status};
use crate::model::users::{NewUser, UserModel};
use crate::service::auth::auth::{Login, LoginBody, SendOtpFlow, Signup, SignupBody};
use crate::service::auth::auth_forgot_send_otp::{AuthForgotSend, RedisOtp, SendOtp};
use crate::service::auth::auth_login::AuthLogin;
use crate::service::auth::auth_signup::{AuthSignup, SignupBody as MobSignupBody};
use crate::service::auth::auth_verify_forgot_otp::{ForgotOtpVerriyStruct, ForgotVerify};
use crate::service::auth::auth::SEND_MAX_COUNT;
use crate::service::auth::auth_forgot_send_otp::FORGOT_MAX_COUNT;
use crate::service::auth::password::bcrypt_verify;
use crate::service::auth::session::{count_run, lemma_count_run, lemma_sends_of_a_run, next_count_spec, run_step};
use crate::service::mail::{forgot_mail, otp_mail};

verus! {

/// The log-in that answers with session tokens goes on to sign tokens (it asks
/// for the signing secret) only after a lookup found a user whose stored hash
/// verifies the submitted password.
pub proof fn lemma_session_tokens_need_the_password(s: AuthLogin, ev: Event, r: (AuthLogin, Action))
    requires
        s.transition(ev, r),
        (r.1 is ReadSecret),
    ensures
        ({
            &&& s matches AuthLogin::Looking(b)
            &&& ev matches Event::UserLookup(Ok(Some(u)))
            &&& bcrypt_verify(b.password@, u.password@) == Some(true)
        }),
{
}

/// The log-in that answers with tokens over the user record goes on to sign
/// tokens only after a lookup found a user whose stored hash verifies the
/// submitted password.
pub proof fn lemma_record_tokens_need_the_password(s: Login, ev: Event, r: (Login, Action))
    requires
        s.transition(ev, r),
        (r.1 is ReadSecret),
    ensures
        ({
            &&& s matches Login::Looking(b)
            &&& ev matches Event::UserLookup(Ok(Some(u)))
            &&& bcrypt_verify(b.password@, u.password@) == Some(true)
        }),
{
}

/// A user who signed up with a password passes the log-in's password check
/// with that password, once the row that the sign-up inserted is read back.
pub proof fn lemma_signup_password_logs_in(
    b: SignupBody,
    r1: (Signup, Action),
    row: NewUser,
    lb: LoginBody,
    u: UserModel,
    r2: (Login, Action),
)
    requires
        Signup::Looking(b).transition(Event::UserLookup(Ok(None)), r1),
        (r1.1 == Action::InsertUser { row }),
        u.password == row.password,
        lb.password@ == b.password@,
        Login::Looking(lb).transition(Event::UserLookup(Ok(Some(u))), r2),
    ensures
        (r2.1 is ReadSecret),
{
}

/// The same for the sign-up with a mobile number and the session log-in.
pub proof fn lemma_mobile_signup_password_logs_in(
    b: MobSignupBody,
    r1: (AuthSignup, Action),
    row: NewUser,
    lb: LoginBody,
    u: UserModel,
    r2: (AuthLogin, Action),
)
    requires
        AuthSignup::Looking(b).transition(Event::UserLookup(Ok(None)), r1),
        (r1.1 == Action::InsertUser { row }),
        u.password == row.password,
        lb.password@ == b.password@,
        AuthLogin::Looking(lb).transition(Event::UserLookup(Ok(Some(u))), r2),
    ensures
        (r2.1 is ReadSecret),
{
}

/// After a password reset, the new password passes the log-in's password
/// check, once the updated hash is read back.
pub proof fn lemma_reset_password_logs_in(
    b: ForgotOtpVerriyStruct,
    user: UserModel,
    key: String,
    stored: RedisOtp,
    r1: (ForgotVerify, Action),
    hashed: String,
    lb: LoginBody,
    u: UserModel,
    r2: (AuthLogin, Action),
)
    requires
        ForgotVerify::Fetching(b, user, key).transition(Event::OtpFetched(Some(stored)), r1),
        (r1.1 == Action::UpdatePassword { user, hashed }),
        u.password == hashed,
        lb.password@ == b.password@,
        AuthLogin::Looking(lb).transition(Event::UserLookup(Ok(Some(u))), r2),
    ensures
        (r2.1 is ReadSecret),
{
}

/// The reset-code sender and the reset read the same Redis key for the same
/// e-mail address.
pub proof fn lemma_reset_key_agrees(
    b1: SendOtp,
    otp: String,
    r1: (AuthForgotSend, Action),
    b2: ForgotOtpVerriyStruct,
    user: UserModel,
    r2: (ForgotVerify, Action),
)
    requires
        AuthForgotSend::Locking(b1, otp).transition(Event::RedisLocked(RedisLink::Ready), r1),
        ForgotVerify::Locking(b2, user).transition(Event::RedisLocked(RedisLink::Ready), r2),
        b1.email@ == b2.email@,
    ensures
        ({
            &&& r1.1 matches Action::GetOtp { key: k1 }
            &&& r2.1 matches Action::GetOtp { key: k2 }
            &&& k1@ == k2@
        }),
{
}

/// The reset code that is mailed is the code that is stored, under the key
/// that was read, for the address that asked.
pub proof fn lemma_reset_mail_carries_the_stored_code(
    b: SendOtp,
    otp: String,
    key: String,
    prev: Option<RedisOtp>,
    r1: (AuthForgotSend, Action),
    r2: (AuthForgotSend, Action),
)
    requires
        AuthForgotSend::Fetching(b, otp, key).transition(Event::OtpFetched(prev), r1),
        (r1.1 is StoreOtp),
        r1.0.transition(Event::OtpStored(Ok(())), r2),
    ensures
        ({
            &&& r1.1 matches Action::StoreOtp { key: k, session, ttl_seconds }
            &&& k == key
            &&& r2.1 matches Action::SendMail { to, html }
            &&& to@ == b.email@
            &&& html@ == forgot_mail(session.otp@, b.email@)
        }),
{
}

/// The verification code that is mailed is the code that is stored.
pub proof fn lemma_code_mail_carries_the_stored_code(
    b: SendOtp,
    otp: String,
    key: String,
    prev: Option<RedisOtp>,
    r1: (SendOtpFlow, Action),
    r2: (SendOtpFlow, Action),
)
    requires
        SendOtpFlow::Fetching(b, otp, key).transition(Event::OtpFetched(prev), r1),
        (r1.1 is StoreOtp),
        r1.0.transition(Event::OtpStored(Ok(())), r2),
    ensures
        ({
            &&& r1.1 matches Action::StoreOtp { key: k, session, ttl_seconds }
            &&& k == key
            &&& r2.1 matches Action::SendMail { to, html }
            &&& to@ == b.email@
            &&& html@ == otp_mail(session.otp@, b.email@)
        }),
{
}

/// A reset that presents the code read back from the store changes the
/// password (or, where hashing fails, answers 500); one that presents another
/// code is refused 401.
pub proof fn lemma_reset_needs_the_stored_code(
    b: ForgotOtpVerriyStruct,
    user: UserModel,
    key: String,
    stored: RedisOtp,
    r: (ForgotVerify, Action),
)
    requires
        ForgotVerify::Fetching(b, user, key).transition(Event::OtpFetched(Some(stored)), r),
    ensures
        stored.otp@ == b.otp@ ==> (r.1 is UpdatePassword || answers_empty(r.1, Status::InternalServerError)),
        stored.otp@ != b.otp@ ==> answers_text(r.1, Status::Unauthorized, "Invalid OTP or expired"@),
{
}

/// The count of the code session `s`, where there is one.
pub open spec fn session_count(s: Option<RedisOtp>) -> Option<u8> {
    match s {
        Some(x) => Some(x.count),
        None => None,
    }
}

/// What a key holds after the action `a` of a send on a key that held `prev`:
/// the session the send stored, or `prev` where it stored none.
pub open spec fn stored_by(prev: Option<RedisOtp>, a: Action) -> Option<RedisOtp> {
    match a {
        Action::StoreOtp { session, .. } => Some(session),
        _ => prev,
    }
}

/// The counts that the stores `stores` hold.
pub open spec fn counts_of(stores: Seq<Option<RedisOtp>>) -> Seq<Option<u8>> {
    Seq::new(stores.len(), |i: int| session_count(stores[i]))
}

/// A run of reset-code sends for one address: before the first nothing is
/// stored under its key, and the key holds, before each send, what the last
/// send stored (the store and the mail always succeed, and the session has not
/// expired). Then exactly the first four sends are accepted, storing the counts
/// 2 to 5; every later send is answered 429 and changes nothing; the stored
/// count never exceeds 5.
pub proof fn lemma_reset_sends_in_a_run(
    b: Seq<SendOtp>,
    otp: Seq<String>,
    key: Seq<String>,
    stores: Seq<Option<RedisOtp>>,
    runs: Seq<(AuthForgotSend, Action)>,
)
    requires
        b.len() == runs.len(),
        otp.len() == runs.len(),
        key.len() == runs.len(),
        stores.len() == runs.len() + 1,
        stores[0] is None,
        forall|i: int|
            0 <= i < runs.len() ==> AuthForgotSend::Fetching(b[i], otp[i], key[i]).transition(
                Event::OtpFetched(stores[i]),
                #[trigger] runs[i],
            ),
        forall|i: int| 0 <= i < runs.len() ==> stores[i + 1] == stored_by(stores[i], (#[trigger] runs[i]).1),
    ensures
        forall|i: int|
            0 <= i < runs.len() && i < FORGOT_MAX_COUNT ==> ((#[trigger] runs[i]).1 matches Action::StoreOtp {
                session,
                ..
            } && session.count == i + 2),
        forall|i: int|
            FORGOT_MAX_COUNT <= i < runs.len() ==> answers_text(
                (#[trigger] runs[i]).1,
                Status::TooManyRequests,
                "Too many requests!"@,
            ) && stores[i + 1] == stores[i],
        forall|i: int| 0 <= i < stores.len() ==> ((#[trigger] stores[i]) matches Some(s) ==> s.count <= FORGOT_MAX_COUNT + 1),
{
    let counts = counts_of(stores);
    assert forall|i: int| 0 <= i < counts.len() - 1 implies #[trigger] run_step(counts, FORGOT_MAX_COUNT, i) by {
        assert(AuthForgotSend::Fetching(b[i], otp[i], key[i]).transition(Event::OtpFetched(stores[i]), runs[i]));
        assert(stores[i + 1] == stored_by(stores[i], runs[i].1));
    }
    assert(count_run(counts, FORGOT_MAX_COUNT));
    assert forall|i: int| 0 <= i < runs.len() implies ({
        &&& i < FORGOT_MAX_COUNT ==> ((#[trigger] runs[i]).1 matches Action::StoreOtp { session, .. }
            && session.count == i + 2)
        &&& FORGOT_MAX_COUNT <= i ==> answers_text(runs[i].1, Status::TooManyRequests, "Too many requests!"@)
            && stores[i + 1] == stores[i]
    }) by {
        lemma_sends_of_a_run(counts, FORGOT_MAX_COUNT, i);
        assert(AuthForgotSend::Fetching(b[i], otp[i], key[i]).transition(Event::OtpFetched(stores[i]), runs[i]));
        assert(stores[i + 1] == stored_by(stores[i], runs[i].1));
    }
    assert forall|i: int| 0 <= i < stores.len() implies ((#[trigger] stores[i]) matches Some(s) ==> s.count
        <= FORGOT_MAX_COUNT + 1) by {
        lemma_count_run(counts, FORGOT_MAX_COUNT, i);
        assert(counts[i] == session_count(stores[i]));
    }
}

/// A run of verification-code sends for one address, as for the reset codes:
/// exactly the first five sends are accepted, storing the counts 2 to 6; every
/// later send is answered 429 and changes nothing; the stored count never
/// exceeds 6.
pub proof fn lemma_code_sends_in_a_run(
    b: Seq<SendOtp>,
    otp: Seq<String>,
    key: Seq<String>,
    stores: Seq<Option<RedisOtp>>,
    runs: Seq<(SendOtpFlow, Action)>,
)
    requires
        b.len() == runs.len(),
        otp.len() == runs.len(),
        key.len() == runs.len(),
        stores.len() == runs.len() + 1,
        stores[0] is None,
        forall|i: int|
            0 <= i < runs.len() ==> SendOtpFlow::Fetching(b[i], otp[i], key[i]).transition(
                Event::OtpFetched(stores[i]),
                #[trigger] runs[i],
            ),
        forall|i: int| 0 <= i < runs.len() ==> stores[i + 1] == stored_by(stores[i], (#[trigger] runs[i]).1),
    ensures
        forall|i: int|
            0 <= i < runs.len() && i < SEND_MAX_COUNT ==> ((#[trigger] runs[i]).1 matches Action::StoreOtp {
                session,
                ..
            } && session.count == i + 2),
        forall|i: int|
            SEND_MAX_COUNT <= i < runs.len() ==> answers_text(
                (#[trigger] runs[i]).1,
                Status::TooManyRequests,
                "Too many requests!"@,
            ) && stores[i + 1] == stores[i],
        forall|i: int| 0 <= i < stores.len() ==> ((#[trigger] stores[i]) matches Some(s) ==> s.count <= SEND_MAX_COUNT + 1),
{
    let counts = counts_of(stores);
    assert forall|i: int| 0 <= i < counts.len() - 1 implies #[trigger] run_step(counts, SEND_MAX_COUNT, i) by {
        assert(SendOtpFlow::Fetching(b[i], otp[i], key[i]).transition(Event::OtpFetched(stores[i]), runs[i]));
        assert(stores[i + 1] == stored_by(stores[i], runs[i].1));
    }
    assert(count_run(counts, SEND_MAX_COUNT));
    assert forall|i: int| 0 <= i < runs.len() implies ({
        &&& i < SEND_MAX_COUNT ==> ((#[trigger] runs[i]).1 matches Action::StoreOtp { session, .. }
            && session.count == i + 2)
        &&& SEND_MAX_COUNT <= i ==> answers_text(runs[i].1, Status::TooManyRequests, "Too many requests!"@)
            && stores[i + 1] == stores[i]
    }) by {
        lemma_sends_of_a_run(counts, SEND_MAX_COUNT, i);
        assert(SendOtpFlow::Fetching(b[i], otp[i], key[i]).transition(Event::OtpFetched(stores[i]), runs[i]));
        assert(stores[i + 1] == stored_by(stores[i], runs[i].1));
    }
    assert forall|i: int| 0 <= i < stores.len() implies ((#[trigger] stores[i]) matches Some(s) ==> s.count
        <= SEND_MAX_COUNT + 1) by {
        lemma_count_run(counts, SEND_MAX_COUNT, i);
        assert(counts[i] == session_count(stores[i]));
    }
}

/// No two of the addresses `emails` are the same.
pub open spec fn distinct_emails(emails: Seq<Seq<char>>) -> bool {
    forall|i: int, j: int| 0 <= i < j < emails.len() ==> emails[i] != emails[j]
}

/// A sign-up keeps the users' e-mail addresses distinct: where the lookup of
/// its address answers as the table holds (a user exactly when one has that
/// address), it inserts a row only for an address no user has, and that row
/// carries the address.
pub proof fn lemma_signup_keeps_emails_distinct(
    emails: Seq<Seq<char>>,
    b: SignupBody,
    found: Option<UserModel>,
    r: (Signup, Action),
)
    requires
        distinct_emails(emails),
        (found is Some) <==> emails.contains(b.email@),
        Signup::Looking(b).transition(Event::UserLookup(Ok(found)), r),
    ensures
        r.1 matches Action::InsertUser { row } ==> row.email@ == b.email@ && distinct_emails(
            emails.push(row.email@),
        ),
{
    if r.1 is InsertUser {
        let row = r.1->row;
        assert forall|i: int, j: int| 0 <= i < j < emails.push(row.email@).len() implies emails.push(
            row.email@,
        )[i] != emails.push(row.email@)[j] by {
            if j == emails.len() {
                assert(emails[i] == emails.push(row.email@)[i]);
            }
        }
    }
}

/// The same for the sign-up with a mobile number.
pub proof fn lemma_mobile_signup_keeps_emails_distinct(
    emails: Seq<Seq<char>>,
    b: MobSignupBody,
    found: Option<UserModel>,
    r: (AuthSignup, Action),
)
    requires
        distinct_emails(emails),
        (found is Some) <==> emails.contains(b.email@),
        AuthSignup::Looking(b).transition(Event::UserLookup(Ok(found)), r),
    ensures
        r.1 matches Action::InsertUser { row } ==> row.email@ == b.email@ && distinct_emails(
            emails.push(row.email@),
        ),
{
    if r.1 is InsertUser {
        let row = r.1->row;
        assert forall|i: int, j: int| 0 <= i < j < emails.push(row.email@).len() implies emails.push(
            row.email@,
        )[i] != emails.push(row.email@)[j] by {
            if j == emails.len() {
                assert(emails[i] == emails.push(row.email@)[i]);
            }
        }
    }
}

/// A reset code is used once: a reset that stored the new hash deletes the
/// session under the key it read, and a later reset for that address, which
/// then finds nothing under the key, is answered 410.
pub proof fn lemma_reset_code_used_once(
    b: ForgotOtpVerriyStruct,
    user: UserModel,
    key: String,
    stored: RedisOtp,
    r1: (ForgotVerify, Action),
    r2: (ForgotVerify, Action),
    b2: ForgotOtpVerriyStruct,
    user2: UserModel,
    key2: String,
    r3: (ForgotVerify, Action),
)
    requires
        ForgotVerify::Fetching(b, user, key).transition(Event::OtpFetched(Some(stored)), r1),
        (r1.1 is UpdatePassword),
        r1.0.transition(Event::PasswordUpdated(Ok(())), r2),
        b2.email@ == b.email@,
        key2@ == key@,
        ForgotVerify::Fetching(b2, user2, key2).transition(Event::OtpFetched(None), r3),
    ensures
        (r2.1 == Action::DeleteKey { key }),
        answers_text(r3.1, Status::Gone, "OTP expired or not found"@),
{
}

} // verus!
