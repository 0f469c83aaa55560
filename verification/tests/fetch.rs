use weather_clock::fetch::{
    body_text, ACCEPT_HEADER_NAME, ACCEPT_HEADER_VALUE, BODY_CAPACITY, FALLBACK_TEXT, FETCH_URL,
};
use weather_clock::text::{sanitize, DEGREE_SIGN, SUBSTITUTE};

#[test]
fn request_is_the_fixed_one() {
    assert_eq!(FETCH_URL, "https://wttr.in/?format=1");
    assert_eq!(ACCEPT_HEADER_NAME, "accept");
    assert_eq!(ACCEPT_HEADER_VALUE, "text/plain");
    assert_eq!(BODY_CAPACITY, 1024);
    assert_eq!(FALLBACK_TEXT, "error");
}

#[test]
fn substitute_is_a_backtick() {
    assert_eq!(DEGREE_SIGN, '\u{b0}');
    assert_eq!(SUBSTITUTE, '`');
}

#[test]
fn sanitize_replaces_each_degree_sign() {
    assert_eq!(sanitize("\u{b0}a\u{b0}\u{b0}b\u{b0}"), "`a``b`");
}

#[test]
fn sanitize_keeps_everything_else() {
    let text = "plain, \u{1F328} \u{e9}\u{4e2d} ` \t\n 0123";
    assert_eq!(sanitize(text), text);
    assert_eq!(sanitize(""), "");
}

#[test]
fn weather_report_is_decoded_and_sanitized() {
    let body = "\u{1F328} -3\u{b0}C\n";
    assert_eq!(body_text(body.as_bytes()), "\u{1F328} -3`C\n");
}

#[test]
fn weather_report_with_variation_selector_is_decoded_and_sanitized() {
    let body = "\u{1F328}\u{FE0F} -3\u{b0}C\n";
    assert_eq!(body.len(), 14);
    assert_eq!(body_text(body.as_bytes()), "\u{1F328}\u{FE0F} -3`C\n");
}

#[test]
fn degree_sign_bytes_become_one_backtick() {
    let body: [u8; 4] = [0x31, 0xC2, 0xB0, 0x43];
    assert_eq!(body_text(&body), "1`C");
}

#[test]
fn empty_body_is_empty_text() {
    let body: [u8; 0] = [];
    assert_eq!(body_text(&body), "");
}

#[test]
fn body_without_degree_sign_is_unchanged() {
    assert_eq!(body_text("Sunny +21 C".as_bytes()), "Sunny +21 C");
}

#[test]
fn invalid_utf8_gives_fallback() {
    let lone_continuation: [u8; 3] = [0x61, 0x80, 0x62];
    assert_eq!(body_text(&lone_continuation), "error");
    let bad_lead: [u8; 1] = [0xFF];
    assert_eq!(body_text(&bad_lead), "error");
    let cut_short: [u8; 2] = [0x61, 0xC2];
    assert_eq!(body_text(&cut_short), "error");
    let overlong: [u8; 2] = [0xC0, 0xAF];
    assert_eq!(body_text(&overlong), "error");
    let surrogate: [u8; 3] = [0xED, 0xA0, 0x80];
    assert_eq!(body_text(&surrogate), "error");
}

#[test]
fn invalid_byte_at_the_end_of_the_buffer_gives_fallback() {
    let mut body: Vec<u8> = vec![0x61; 1024];
    body[1023] = 0xFF;
    assert_eq!(body_text(&body), "error");
}

#[test]
fn body_of_exactly_the_capacity_is_kept_whole() {
    let body: Vec<u8> = vec![0x7A; 1024];
    let text = body_text(&body);
    assert_eq!(text.len(), 1024);
    assert_eq!(text, "z".repeat(1024));
}

#[test]
fn long_body_is_cut_to_the_capacity() {
    let mut body: Vec<u8> = vec![0x61; 1024];
    body.extend_from_slice("tail that is dropped".as_bytes());
    assert_eq!(body_text(&body), "a".repeat(1024));
}

#[test]
fn bytes_beyond_the_capacity_are_not_looked_at() {
    let mut body: Vec<u8> = vec![0x61; 1022];
    body.push(0xC2);
    body.push(0xB0);
    body.push(0xFF);
    body.push(0xFE);
    let mut expected = "a".repeat(1022);
    expected.push('`');
    assert_eq!(body_text(&body), expected);
}

#[test]
fn character_cut_by_the_capacity_gives_fallback() {
    let mut body: Vec<u8> = vec![0x61; 1023];
    body.push(0xC2);
    body.push(0xB0);
    assert_eq!(body_text(&body), "error");
}

#[test]
fn long_body_gives_what_its_prefix_gives() {
    let mut body: Vec<u8> = Vec::new();
    while body.len() < 3000 {
        body.extend_from_slice("-3\u{b0}C \u{1F328}".as_bytes());
    }
    assert_eq!(body_text(&body), body_text(&body[..1024]));
}

#[test]
fn text_never_holds_a_degree_sign_nor_more_than_the_capacity() {
    let bodies: Vec<Vec<u8>> = vec![
        "\u{b0}".repeat(600).into_bytes(),
        vec![0xB0; 10],
        "x\u{b0}".repeat(10).into_bytes(),
        vec![0x20; 5000],
    ];
    for body in bodies.iter() {
        let text = body_text(body);
        assert!(!text.contains('\u{b0}'));
        assert!(text.chars().count() <= 1024);
    }
    assert_eq!(body_text(&bodies[0]), "`".repeat(512));
    assert_eq!(body_text(&bodies[1]), "error");
}
