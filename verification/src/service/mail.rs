use vstd::prelude::*;

use crate::text::parse_u16;

verus! {

/// The text of the verification-code mail before the recipient's address.
pub const OTP_HTML_HEAD: &'static str = r#"
<head>
    <title>Verification Code</title>
    <style>
        body{
            font-family: 'Arial', sans-serif;
            margin: 0;
            padding: 0;
            background: linear-gradient(135deg, #a8edea, #fed6e3);
            color: #333;
            line-height: 1.8;
            display: flex;
            justify-content: center;
            align-items: center;
            height: 100vh;
        }

        .container{
            width: 100%;
            max-width: 450px;
            margin: auto;
            padding: 20px 25px;
            background: #ffffff;
            border-radius: 12px;
            box-shadow: 0 8px 16px rgba(0, 0, 0, 0.15);
        }

        h1{
            text-align: center;
            font-size: 28px;
            margin-bottom: 15px;
            color: #333;
            font-weight: bold;
            letter-spacing: 1px;
        }

        p{
            margin-bottom: 20px;
            text-align: center;
            color: #555;
            font-size: 16px;
        }

        .code-container{
            text-align: center;
            margin: 20px 0;
        }

        .code{
            background: #e0f7fa;
            color: #00796b;
            padding: 15px 30px;
            border-radius: 8px;
            display: inline-block;
            font-family: 'Courier New', monospace;
            font-size: 26px;
            font-weight: bold;
            box-shadow: 0 4px 8px rgba(0, 0, 0, 0.1);
            transition: transform 0.3s ease;
        }

        .code:hover{
            transform: scale(1.05);
        }

        .footer{
            font-size: 13px;
            color: #666;
            text-align: center;
            margin-top: 25px;
        }

        .footer a{
            color: #00796b;
            text-decoration: none;
            font-weight: bold;
        }

        .footer a:hover{
            text-decoration: underline;
        }

        .button{
            display: block;
            text-align: center;
            background: #00796b;
            color: white;
            padding: 12px 25px;
            border-radius: 8px;
            font-size: 16px;
            text-decoration: none;
            margin: 20px auto;
            width: 70%;
            transition: background 0.3s ease;
        }

        .button:hover{
            background: #005f4f;
        }
    </style>
</head>
<body>
    <div class="container">
        <h1><b>Welcome to Tiffins</b></h1>
        <p>
            Use the verification code below to securely log in to your account associated with <b>"#;

/// The text of the verification-code mail between the address and the code.
pub const OTP_HTML_MIDDLE: &'static str = r#"</b>.
        </p>
        <p><b>Your code is valid for the next 5 minutes.</b></p>

        <div class="code-container">
            <span class="code"><b>"#;

/// The text of the verification-code mail after the code.
pub const OTP_HTML_TAIL: &'static str = r#"</b></span>
        </div>

        <p><b>If you didn’t request this, you can safely ignore this email. Your account is secure.</b></p>

        <div class="footer">
            <p><b>Cheers,</b></p>
            <p><b>The Tiffins Team</b></p>
            <p><b>Need help? Visit our <a href="https://yourwebsite.com/support">Support Page</a>.</b></p>
        </div>
    </div>
</body>
        "#;

/// The text of the password-reset mail before the recipient's address.
pub const FORGOT_HTML_HEAD: &'static str = r#"
<head>
    <title>Password Reset Request</title>
    <style>
        body {
            font-family: 'Arial', sans-serif;
            margin: 0;
            padding: 0;
            background: linear-gradient(135deg, #fdfbfb, #ebedee);
            color: #333;
            line-height: 1.8;
            display: flex;
            justify-content: center;
            align-items: center;
            height: 100vh;
        }

        .container {
            width: 100%;
            max-width: 450px;
            margin: auto;
            padding: 20px 25px;
            background: #ffffff;
            border-radius: 12px;
            box-shadow: 0 8px 16px rgba(0, 0, 0, 0.15);
        }

        h1 {
            text-align: center;
            font-size: 28px;
            margin-bottom: 15px;
            color: #d32f2f;
            font-weight: bold;
            letter-spacing: 1px;
        }

        p {
            margin-bottom: 20px;
            text-align: center;
            color: #555;
            font-size: 16px;
        }

        .code-container {
            text-align: center;
            margin: 20px 0;
        }

        .code {
            background: #fbe9e7;
            color: #d84315;
            padding: 15px 30px;
            border-radius: 8px;
            display: inline-block;
            font-family: 'Courier New', monospace;
            font-size: 26px;
            font-weight: bold;
            box-shadow: 0 4px 8px rgba(0, 0, 0, 0.1);
            transition: transform 0.3s ease;
        }

        .code:hover {
            transform: scale(1.05);
        }

        .footer {
            font-size: 13px;
            color: #666;
            text-align: center;
            margin-top: 25px;
        }

        .footer a {
            color: #d84315;
            text-decoration: none;
            font-weight: bold;
        }

        .footer a:hover {
            text-decoration: underline;
        }
    </style>
</head>
<body>
    <div class="container">
        <h1>Password Reset Request</h1>
        <p>
            We received a request to reset the password for the account associated with <b>"#;

/// The text of the password-reset mail between the address and the code.
pub const FORGOT_HTML_MIDDLE: &'static str = r#"</b>.
        </p>
        <p><b>Use the code below to reset your password. This code is valid for the next 10 minutes.</b></p>

        <div class="code-container">
            <span class="code">"#;

/// The text of the password-reset mail after the code.
pub const FORGOT_HTML_TAIL: &'static str = r#"</span>
        </div>

        <p>If you didn’t request this, you can safely ignore this email.</p>

        <div class="footer">
            <p><b>Cheers,</b></p>
            <p><b>The Support Team</b></p>
            <p><b>Need help? Visit our <a href="https://yourwebsite.com/support">Support Page</a>.</b></p>
        </div>
    </div>
</body>
        "#;

/// The HTML of the verification-code mail for `email` with the code `otp`.
pub open spec fn otp_mail(otp: Seq<char>, email: Seq<char>) -> Seq<char> {
    OTP_HTML_HEAD@ + email + OTP_HTML_MIDDLE@ + otp + OTP_HTML_TAIL@
}

/// The HTML of the password-reset mail for `email` with the code `otp`.
pub open spec fn forgot_mail(otp: Seq<char>, email: Seq<char>) -> Seq<char> {
    FORGOT_HTML_HEAD@ + email + FORGOT_HTML_MIDDLE@ + otp + FORGOT_HTML_TAIL@
}

/// Joins the five parts of a mail.
fn join5(a: &str, b: &str, c: &str, d: &str, e: &str) -> (r: String)
    ensures
        r@ == a@ + b@ + c@ + d@ + e@,
{
    let mut r = String::from_str(a);
    r.append(b);
    r.append(c);
    r.append(d);
    r.append(e);
    r
}

/// The verification-code mail: it names the account `email` and shows the code `otp`.
pub fn otp_html(otp: &str, email: &str) -> (r: String)
    ensures
        r@ == otp_mail(otp@, email@),
{
    join5(OTP_HTML_HEAD, email, OTP_HTML_MIDDLE, otp, OTP_HTML_TAIL)
}

/// The password-reset mail: it names the account `email` and shows the code `otp`.
pub fn forgot_password_html(otp: &str, email: &str) -> (r: String)
    ensures
        r@ == forgot_mail(otp@, email@),
{
    join5(FORGOT_HTML_HEAD, email, FORGOT_HTML_MIDDLE, otp, FORGOT_HTML_TAIL)
}

/// Why a mail could not be sent.
#[derive(Debug)]
pub enum MailError {
    /// A setting is missing or malformed.
    EnvVarError(String),
    /// The message could not be built.
    EmailCreationError(String),
    /// The SMTP transport failed; the text is the transport's error.
    SmtpTransportError(String),
}

/// The message of a mail error.
pub open spec fn mail_error_text(e: MailError) -> Seq<char> {
    match e {
        MailError::EnvVarError(s) => "Failed to retrieve environment variables: "@ + s@,
        MailError::EmailCreationError(s) => "Email creation failed: "@ + s@,
        MailError::SmtpTransportError(s) => "SMTP transport error: "@ + s@,
    }
}

impl MailError {
    /// The error's message (what its `Display` shows).
    pub fn to_text(&self) -> (r: String)
        ensures
            r@ == mail_error_text(*self),
    {
        match self {
            MailError::EnvVarError(s) => crate::text::concat2(
                "Failed to retrieve environment variables: ",
                s.as_str(),
            ),
            MailError::EmailCreationError(s) => crate::text::concat2(
                "Email creation failed: ",
                s.as_str(),
            ),
            MailError::SmtpTransportError(s) => crate::text::concat2(
                "SMTP transport error: ",
                s.as_str(),
            ),
        }
    }
}

/// Whether `lettre` reads the text as a mailbox (`s.parse::<lettre::message::Mailbox>()`).
pub uninterp spec fn mailbox_accepted(s: Seq<char>) -> bool;

/// Calls `<lettre::message::Mailbox as FromStr>::from_str` on `s` and tells
/// whether it succeeded. Trusted: the answer is `mailbox_accepted(s@)`.
#[verifier::external_body]
fn parses_as_mailbox(s: &str) -> (r: bool)
    ensures
        r == mailbox_accepted(s@),
{
    s.parse::<lettre::message::Mailbox>().is_ok()
}

/// The settings a mail is sent with.
#[derive(Debug)]
pub struct MailSettings {
    pub username: String,
    pub password: String,
    pub port: u16,
    pub host: String,
}

/// Which check of `mail` fails first for these settings, if one does: the
/// four variables `EMAIL_USER`, `EMAIL_PASS`, `EMAIL_PORT` (present, then a
/// number) and `EMAIL_HOST` in this order, then the sender (the user name) and
/// the recipient as mailboxes. `(true, m)` is a settings error with detail `m`,
/// `(false, m)` a message-building error with detail `m`.
pub open spec fn settings_failure(
    user: Option<String>,
    pass: Option<String>,
    port: Option<String>,
    host: Option<String>,
    to: Seq<char>,
) -> Option<(bool, Seq<char>)> {
    if user is None {
        Some((true, "EMAIL_USER not set"@))
    } else if pass is None {
        Some((true, "EMAIL_PASS not set"@))
    } else if port is None {
        Some((true, "EMAIL_PORT not set"@))
    } else if crate::text::parse_u16_spec(port->0@) is None {
        Some((true, "EMAIL_PORT is not a valid number"@))
    } else if host is None {
        Some((true, "EMAIL_HOST not set"@))
    } else if !mailbox_accepted(user->0@) {
        Some((false, "Invalid 'from' email"@))
    } else if !mailbox_accepted(to) {
        Some((false, "Invalid 'to' email"@))
    } else {
        None
    }
}

/// Checks the mail settings read from the environment and the recipient `to`
/// before a mail is built; the first failing check gives the error.
pub fn mail_settings(
    user: Option<String>,
    pass: Option<String>,
    port: Option<String>,
    host: Option<String>,
    to: &str,
) -> (r: Result<MailSettings, MailError>)
    ensures
        match settings_failure(user, pass, port, host, to@) {
            None => r matches Ok(s) && s.username == user->0 && s.password == pass->0
                && Some(s.port) == crate::text::parse_u16_spec(port->0@) && s.host == host->0,
            Some((true, m)) => r matches Err(MailError::EnvVarError(d)) && d@ == m,
            Some((false, m)) => r matches Err(MailError::EmailCreationError(d)) && d@ == m,
        },
{
    let username = match user {
        Some(u) => u,
        None => {
            return Err(MailError::EnvVarError(String::from_str("EMAIL_USER not set")));
        },
    };
    let password = match pass {
        Some(p) => p,
        None => {
            return Err(MailError::EnvVarError(String::from_str("EMAIL_PASS not set")));
        },
    };
    let port_text = match port {
        Some(p) => p,
        None => {
            return Err(MailError::EnvVarError(String::from_str("EMAIL_PORT not set")));
        },
    };
    let port_value = match parse_u16(port_text.as_str()) {
        Some(n) => n,
        None => {
            return Err(
                MailError::EnvVarError(String::from_str("EMAIL_PORT is not a valid number")),
            );
        },
    };
    let host_name = match host {
        Some(h) => h,
        None => {
            return Err(MailError::EnvVarError(String::from_str("EMAIL_HOST not set")));
        },
    };
    if !parses_as_mailbox(username.as_str()) {
        return Err(MailError::EmailCreationError(String::from_str("Invalid 'from' email")));
    }
    if !parses_as_mailbox(to) {
        return Err(MailError::EmailCreationError(String::from_str("Invalid 'to' email")));
    }
    Ok(MailSettings { username, password, port: port_value, host: host_name })
}

} // verus!
