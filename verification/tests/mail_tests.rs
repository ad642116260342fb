use backend::service::mail::{forgot_password_html, mail_settings, otp_html, MailError};

fn expected_otp_html(otp: &str, email: &str) -> String {
    format!(r#"
<head>
    <title>Verification Code</title>
    <style>
        body{{
            font-family: 'Arial', sans-serif;
            margin: 0;
            padding: 0;
            background: linear-gradient(135deg, #a8edea, #fed6e3);
            color: #333;
            line-height: 1.8;
            display: flex;
            justify-content: center;
            align-items: center;
            height: 100vh;
        }}

        .container{{
            width: 100%;
            max-width: 450px;
            margin: auto;
            padding: 20px 25px;
            background: #ffffff;
            border-radius: 12px;
            box-shadow: 0 8px 16px rgba(0, 0, 0, 0.15);
        }}

        h1{{
            text-align: center;
            font-size: 28px;
            margin-bottom: 15px;
            color: #333;
            font-weight: bold;
            letter-spacing: 1px;
        }}

        p{{
            margin-bottom: 20px;
            text-align: center;
            color: #555;
            font-size: 16px;
        }}

        .code-container{{
            text-align: center;
            margin: 20px 0;
        }}

        .code{{
            background: #e0f7fa;
            color: #00796b;
            padding: 15px 30px;
            border-radius: 8px;
            display: inline-block;
            font-family: 'Courier New', monospace;
            font-size: 26px;
            font-weight: bold;
            box-shadow: 0 4px 8px rgba(0, 0, 0, 0.1);
            transition: transform 0.3s ease;
        }}

        .code:hover{{
            transform: scale(1.05);
        }}

        .footer{{
            font-size: 13px;
            color: #666;
            text-align: center;
            margin-top: 25px;
        }}

        .footer a{{
            color: #00796b;
            text-decoration: none;
            font-weight: bold;
        }}

        .footer a:hover{{
            text-decoration: underline;
        }}

        .button{{
            display: block;
            text-align: center;
            background: #00796b;
            color: white;
            padding: 12px 25px;
            border-radius: 8px;
            font-size: 16px;
            text-decoration: none;
            margin: 20px auto;
            width: 70%;
            transition: background 0.3s ease;
        }}

        .button:hover{{
            background: #005f4f;
        }}
    </style>
</head>
<body>
    <div class="container">
        <h1><b>Welcome to Tiffins</b></h1>
        <p>
            Use the verification code below to securely log in to your account associated with <b>{email}</b>.
        </p>
        <p><b>Your code is valid for the next 5 minutes.</b></p>

        <div class="code-container">
            <span class="code"><b>{otp}</b></span>
        </div>

        <p><b>If you didn’t request this, you can safely ignore this email. Your account is secure.</b></p>

        <div class="footer">
            <p><b>Cheers,</b></p>
            <p><b>The Tiffins Team</b></p>
            <p><b>Need help? Visit our <a href="https://yourwebsite.com/support">Support Page</a>.</b></p>
        </div>
    </div>
</body>
        "#)
}

fn expected_forgot_html(otp: &str, email: &str) -> String {
    format!(
            r#"
<head>
    <title>Password Reset Request</title>
    <style>
        body {{
            font-family: 'Arial', sans-serif;
            margin: 0;
            padding: 0;
            background: linear-gradient(135deg, #fdfbfb, #ebedee);
            color: #333;
            line-height: 1.8;
            display: flex;
            justify-content: center;
            align-items: center;
            height: 100vh;
        }}

        .container {{
            width: 100%;
            max-width: 450px;
            margin: auto;
            padding: 20px 25px;
            background: #ffffff;
            border-radius: 12px;
            box-shadow: 0 8px 16px rgba(0, 0, 0, 0.15);
        }}

        h1 {{
            text-align: center;
            font-size: 28px;
            margin-bottom: 15px;
            color: #d32f2f;
            font-weight: bold;
            letter-spacing: 1px;
        }}

        p {{
            margin-bottom: 20px;
            text-align: center;
            color: #555;
            font-size: 16px;
        }}

        .code-container {{
            text-align: center;
            margin: 20px 0;
        }}

        .code {{
            background: #fbe9e7;
            color: #d84315;
            padding: 15px 30px;
            border-radius: 8px;
            display: inline-block;
            font-family: 'Courier New', monospace;
            font-size: 26px;
            font-weight: bold;
            box-shadow: 0 4px 8px rgba(0, 0, 0, 0.1);
            transition: transform 0.3s ease;
        }}

        .code:hover {{
            transform: scale(1.05);
        }}

        .footer {{
            font-size: 13px;
            color: #666;
            text-align: center;
            margin-top: 25px;
        }}

        .footer a {{
            color: #d84315;
            text-decoration: none;
            font-weight: bold;
        }}

        .footer a:hover {{
            text-decoration: underline;
        }}
    </style>
</head>
<body>
    <div class="container">
        <h1>Password Reset Request</h1>
        <p>
            We received a request to reset the password for the account associated with <b>{email}</b>.
        </p>
        <p><b>Use the code below to reset your password. This code is valid for the next 10 minutes.</b></p>

        <div class="code-container">
            <span class="code">{otp}</span>
        </div>

        <p>If you didn’t request this, you can safely ignore this email.</p>

        <div class="footer">
            <p><b>Cheers,</b></p>
            <p><b>The Support Team</b></p>
            <p><b>Need help? Visit our <a href="https://yourwebsite.com/support">Support Page</a>.</b></p>
        </div>
    </div>
</body>
        "#
    )
}

#[test]
fn otp_html_matches_template() {
    assert_eq!(otp_html("123456", "ann@example.com"), expected_otp_html("123456", "ann@example.com"));
    let html = otp_html("987654", "bob@example.com");
    assert!(html.contains("<b>987654</b>"));
    assert!(html.contains("<b>bob@example.com</b>"));
}

#[test]
fn forgot_password_html_matches_template() {
    assert_eq!(
        forgot_password_html("000111", "ann@example.com"),
        expected_forgot_html("000111", "ann@example.com")
    );
    assert!(forgot_password_html("000111", "x@y.z").contains("<span class=\"code\">000111</span>"));
}

fn some(s: &str) -> Option<String> {
    Some(s.to_string())
}

#[test]
fn mail_settings_reports_the_first_failing_check() {
    let m = mail_settings(None, some("p"), some("25"), some("h"), "to@example.com");
    assert!(matches!(m, Err(MailError::EnvVarError(ref d)) if d == "EMAIL_USER not set"));
    let m = mail_settings(some("me@example.com"), None, some("25"), some("h"), "to@example.com");
    assert!(matches!(m, Err(MailError::EnvVarError(ref d)) if d == "EMAIL_PASS not set"));
    let m = mail_settings(some("me@example.com"), some("p"), None, some("h"), "to@example.com");
    assert!(matches!(m, Err(MailError::EnvVarError(ref d)) if d == "EMAIL_PORT not set"));
    let m = mail_settings(some("me@example.com"), some("p"), some("70000"), some("h"), "to@example.com");
    assert!(matches!(m, Err(MailError::EnvVarError(ref d)) if d == "EMAIL_PORT is not a valid number"));
    let m = mail_settings(some("me@example.com"), some("p"), some("25"), None, "to@example.com");
    assert!(matches!(m, Err(MailError::EnvVarError(ref d)) if d == "EMAIL_HOST not set"));
    let m = mail_settings(some("not a mailbox"), some("p"), some("25"), some("h"), "to@example.com");
    assert!(matches!(m, Err(MailError::EmailCreationError(ref d)) if d == "Invalid 'from' email"));
    let m = mail_settings(some("me@example.com"), some("p"), some("25"), some("h"), "nobody");
    assert!(matches!(m, Err(MailError::EmailCreationError(ref d)) if d == "Invalid 'to' email"));
    let ok = mail_settings(some("me@example.com"), some("pw"), some("+587"), some("smtp.example.com"), "to@example.com")
        .unwrap();
    assert_eq!(ok.username, "me@example.com");
    assert_eq!(ok.password, "pw");
    assert_eq!(ok.port, 587);
    assert_eq!(ok.host, "smtp.example.com");
}

#[test]
fn mail_error_messages() {
    assert_eq!(
        MailError::EnvVarError("EMAIL_USER not set".to_string()).to_text(),
        "Failed to retrieve environment variables: EMAIL_USER not set"
    );
    assert_eq!(
        MailError::EmailCreationError("Invalid 'to' email".to_string()).to_text(),
        "Email creation failed: Invalid 'to' email"
    );
    assert_eq!(MailError::SmtpTransportError("refused".to_string()).to_text(), "SMTP transport error: refused");
}
