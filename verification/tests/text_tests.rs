use backend::text::{chars_of, concat2, concat3, parse_u16, replace_all};

#[test]
fn replace_all_removes_every_bearer_marker() {
    assert_eq!(replace_all("Bearer abc", "Bearer ", ""), "abc");
    assert_eq!(replace_all("Bearer Bearer x", "Bearer ", ""), "x");
    assert_eq!(replace_all("BearerBearer x", "Bearer ", ""), "Bearerx");
    assert_eq!(replace_all("token", "Bearer ", ""), "token");
    assert_eq!(replace_all("", "Bearer ", ""), "");
}

#[test]
fn replace_all_agrees_with_std_replace() {
    let cases = [
        ("aaaa", "aa", "b"),
        ("aaa", "aa", "b"),
        ("abcabc", "bc", "XY"),
        ("héllo wörld", "ö", "oe"),
        ("xyz", "xyzw", "q"),
        ("Bearer ", "Bearer ", ""),
        ("a-b-c", "-", "--"),
    ];
    for (s, p, w) in cases {
        assert_eq!(replace_all(s, p, w), s.replace(p, w));
    }
}

#[test]
fn parse_u16_agrees_with_std_parse() {
    let cases = [
        "25", "+587", "+", "", "65535", "65536", "-1", "0065535", "12a", "0", "+0", "99999999", " 1",
    ];
    for c in cases {
        assert_eq!(parse_u16(c), c.parse::<u16>().ok(), "input {:?}", c);
    }
}

#[test]
fn parse_u16_exact_values() {
    assert_eq!(parse_u16("587"), Some(587));
    assert_eq!(parse_u16("+25"), Some(25));
    assert_eq!(parse_u16("65536"), None);
}

#[test]
fn chars_and_concat() {
    assert_eq!(chars_of("añb"), vec!['a', 'ñ', 'b']);
    assert_eq!(concat2("otp-", "a@b.c"), "otp-a@b.c");
    assert_eq!(concat3("x", "y", "z"), "xyz");
}
