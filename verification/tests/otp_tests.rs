use backend::service::auth::session::{next_count, OTP_TTL_SECONDS};
use backend::service::otp::{generate_otp, otp_from_digits};

#[test]
fn generated_codes_are_six_digits() {
    for _ in 0..50 {
        let code = generate_otp();
        assert_eq!(code.chars().count(), 6);
        assert!(code.chars().all(|c| c.is_ascii_digit()));
    }
}

#[test]
fn digits_become_text() {
    assert_eq!(otp_from_digits(&vec![0, 4, 2, 9, 9, 1]), "042991");
    assert_eq!(otp_from_digits(&vec![]), "");
}

#[test]
fn verification_sends_five_in_a_row_then_refuses() {
    // send_otp refuses once the count it sees exceeds five
    let mut stored: Option<u8> = None;
    for n in 1..=5u8 {
        let c = next_count(stored, 5).expect("accepted");
        assert_eq!(c, n + 1);
        stored = Some(c);
    }
    assert_eq!(next_count(stored, 5), None);
}

#[test]
fn reset_sends_four_in_a_row_then_refuses() {
    let mut stored: Option<u8> = None;
    for n in 1..=4u8 {
        let c = next_count(stored, 4).expect("accepted");
        assert_eq!(c, n + 1);
        stored = Some(c);
    }
    assert_eq!(next_count(stored, 4), None);
}

#[test]
fn fresh_session_from_login_lets_a_send_through() {
    assert_eq!(next_count(Some(0), 5), Some(1));
    assert_eq!(next_count(Some(0), 4), Some(1));
    assert_eq!(OTP_TTL_SECONDS, 300);
}

