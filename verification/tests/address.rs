use route53_ddns::address::{
    address_from_body, address_from_response, echo_endpoint, is_success_status, is_white_space,
    NetworkError,
};

#[test]
fn bare_address_is_kept() {
    assert_eq!(address_from_body("203.0.113.7"), "203.0.113.7");
}

#[test]
fn trailing_newline_is_dropped() {
    assert_eq!(address_from_body("203.0.113.7\n"), "203.0.113.7");
    assert_eq!(address_from_body("203.0.113.7\r\n"), "203.0.113.7");
}

#[test]
fn white_space_on_both_sides_is_dropped() {
    assert_eq!(address_from_body(" \t203.0.113.7 \n\n"), "203.0.113.7");
}

#[test]
fn white_space_inside_stays() {
    assert_eq!(address_from_body("  203.0 .113.7  "), "203.0 .113.7");
}

#[test]
fn empty_body_gives_empty_address() {
    assert_eq!(address_from_body(""), "");
}

#[test]
fn body_of_white_space_gives_empty_address() {
    assert_eq!(address_from_body(" \n\t \r\n"), "");
    assert_eq!(address_from_body("\u{3000}"), "");
}

#[test]
fn single_visible_character_is_kept() {
    assert_eq!(address_from_body("7"), "7");
    assert_eq!(address_from_body(" 7"), "7");
    assert_eq!(address_from_body("7 "), "7");
}

#[test]
fn text_that_is_no_address_is_not_examined() {
    assert_eq!(address_from_body(" not an address \n"), "not an address");
    assert_eq!(address_from_body("2001:db8::1\n"), "2001:db8::1");
}

#[test]
fn characters_outside_ascii_are_counted_as_characters() {
    assert_eq!(address_from_body("\u{a0}\u{e9}t\u{e9}\u{2003}"), "\u{e9}t\u{e9}");
    assert_eq!(address_from_body("\u{2028}\u{8d8a}\u{1f600}\u{85}"), "\u{8d8a}\u{1f600}");
}

#[test]
fn trimming_agrees_with_the_standard_library() {
    let samples = [
        "",
        " ",
        "203.0.113.7",
        "203.0.113.7\n",
        "\n203.0.113.7",
        "\u{b}203.0.113.7\u{c}",
        "\u{1680}a b\u{205f}",
        "\u{200b}x\u{200b}",
        "\u{180e}x\u{feff}",
        "x\u{202f}\u{2029}",
        "\u{2000}\u{200a}",
    ];
    for sample in samples {
        assert_eq!(address_from_body(sample), sample.trim());
    }
}

#[test]
fn white_space_is_what_the_standard_library_calls_so() {
    for n in 0..=0x10FFFF_u32 {
        if let Some(c) = char::from_u32(n) {
            assert_eq!(is_white_space(c), c.is_whitespace(), "at U+{:04X}", n);
        }
    }
}

#[test]
fn zero_width_space_is_visible() {
    assert!(!is_white_space('\u{200b}'));
    assert!(is_white_space('\u{200a}'));
    assert!(!is_white_space('0'));
    assert!(!is_white_space('.'));
}

#[test]
fn success_is_two_hundred_to_two_hundred_ninety_nine() {
    assert!(!is_success_status(0));
    assert!(!is_success_status(199));
    assert!(is_success_status(200));
    assert!(is_success_status(204));
    assert!(is_success_status(299));
    assert!(!is_success_status(300));
    assert!(!is_success_status(404));
    assert!(!is_success_status(u16::MAX));
}

#[test]
fn successful_answer_gives_the_trimmed_body() {
    assert_eq!(address_from_response(200, "203.0.113.7\n"), Ok("203.0.113.7".to_string()));
    assert_eq!(address_from_response(299, " 198.51.100.20"), Ok("198.51.100.20".to_string()));
}

#[test]
fn failed_answer_gives_the_status_whatever_the_body() {
    assert_eq!(address_from_response(503, "203.0.113.7"), Err(NetworkError::Status(503)));
    assert_eq!(address_from_response(199, "203.0.113.7"), Err(NetworkError::Status(199)));
    assert_eq!(address_from_response(300, ""), Err(NetworkError::Status(300)));
}

#[test]
fn echo_service_is_reached_over_tls() {
    assert_eq!(echo_endpoint(), "https://api.ipify.org");
    assert!(echo_endpoint().starts_with("https://"));
}
