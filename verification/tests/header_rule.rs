use github_service::credentials::is_usable_token;
use http::HeaderValue;

/// Whether the credentials header with this token can be formed.
fn header_takes(token: &str) -> bool {
    HeaderValue::from_str(&format!("Bearer {}", token)).is_ok()
}

#[test]
fn every_ascii_character_is_judged_as_the_header_judges_it() {
    for code in 0u8..=0x7f {
        let token = (code as char).to_string();
        assert_eq!(is_usable_token(&token), header_takes(&token), "character {:#04x}", code);
    }
}

#[test]
fn every_ascii_character_is_judged_alike_inside_a_token() {
    for code in 0u8..=0x7f {
        let token = format!("ghp_{}abc", code as char);
        assert_eq!(is_usable_token(&token), header_takes(&token), "character {:#04x}", code);
    }
}

#[test]
fn characters_beyond_ascii_are_judged_as_the_header_judges_them() {
    let beyond =
        ['\u{80}', '\u{9f}', '\u{a0}', 'é', 'ß', 'ж', '鍵', '\u{ffff}', '\u{10000}', '\u{10ffff}'];
    for c in beyond {
        let token = c.to_string();
        assert!(is_usable_token(&token), "character {:?}", c);
        assert!(header_takes(&token), "character {:?}", c);
    }
}

#[test]
fn whole_tokens_are_judged_as_the_header_judges_them() {
    let tokens = [
        "",
        "SECRET-REDACTED",
        "SECRET-REDACTED",
        "with space",
        "with\ttab",
        "with\nline feed",
        "with\r\ncarriage return",
        "trailing\u{0}",
        "\u{7f}leading",
        "clé",
    ];
    for token in tokens {
        assert_eq!(is_usable_token(token), header_takes(token), "token {:?}", token);
    }
}
