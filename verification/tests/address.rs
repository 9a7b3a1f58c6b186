use glutin_shell::address::{can_sanitize, first_url, sanitize_url, trim, url_candidates};
use glutin_shell::limits::{can_be_counted, count, Counts};

fn owned(texts: &[&str]) -> Vec<String> {
    texts.iter().map(|text| text.to_string()).collect()
}

const SEARCH: &str = "https://duckduckgo.com/html/?q=%s";

#[test]
fn trim_removes_white_space_at_both_ends() {
    assert_eq!(trim(" \t servo org\r\n\u{3000}"), "servo org");
    assert_eq!(trim(""), "");
    assert_eq!(trim(" \u{a0}\u{2003} "), "");
    assert_eq!(trim("servo"), "servo");
}

#[test]
fn trim_knows_every_white_space_character() {
    for number in 0..0x11_0000u32 {
        if let Some(c) = char::from_u32(number) {
            let text = c.to_string();
            assert_eq!(trim(&text).is_empty(), c.is_whitespace(), "{:x}", number);
        }
    }
}

#[test]
fn candidates_for_a_word() {
    assert_eq!(url_candidates(" rust ", false, None), owned(&["rust"]));
    assert_eq!(
        url_candidates(" rust ", false, Some(SEARCH)),
        owned(&["rust", "https://duckduckgo.com/html/?q=rust"])
    );
}

#[test]
fn candidates_for_an_address() {
    assert_eq!(
        url_candidates("servo.org", true, None),
        owned(&["servo.org", "http://servo.org"])
    );
    assert_eq!(
        url_candidates("localhost/page", false, Some(SEARCH)),
        owned(&["localhost/page", "http://localhost/page", "https://duckduckgo.com/html/?q=localhost/page"])
    );
}

#[test]
fn every_placeholder_is_filled() {
    assert_eq!(
        url_candidates("a%s", false, Some("%s-%%s-s%-%s%")),
        owned(&["a%s", "a%s-%a%s-s%-a%s%"])
    );
    assert_eq!(url_candidates("a", false, Some("")), owned(&["a", ""]));
    assert_eq!(url_candidates("a", false, Some("x:y")), owned(&["a", "x:y"]));
}

#[test]
fn first_url_is_the_first_that_was_read() {
    assert_eq!(first_url(vec![]), None);
    assert_eq!(first_url(vec![None, None]), None);
    assert_eq!(
        first_url(vec![None, Some("a".to_string()), Some("b".to_string())]),
        Some("a".to_string())
    );
}

#[test]
fn url_is_loaded_as_typed() {
    assert_eq!(
        sanitize_url("  HTTPS://Servo.Org ", true, Some(SEARCH)),
        Some("https://servo.org/".to_string())
    );
    assert_eq!(sanitize_url("about:blank", false, None), Some("about:blank".to_string()));
}

#[test]
fn registrable_domain_becomes_an_address() {
    assert_eq!(
        sanitize_url("servo.org", true, Some(SEARCH)),
        Some("http://servo.org/".to_string())
    );
}

#[test]
fn path_becomes_an_address() {
    assert_eq!(
        sanitize_url("example/a b", false, Some(SEARCH)),
        Some("http://example/a%20b".to_string())
    );
}

#[test]
fn words_become_a_search() {
    assert_eq!(
        sanitize_url(" two words ", false, Some(SEARCH)),
        Some("https://duckduckgo.com/html/?q=two%20words".to_string())
    );
}

#[test]
fn bad_address_becomes_a_search() {
    assert_eq!(
        sanitize_url("//", false, Some("x:q=%s")),
        Some("x:q=//".to_string())
    );
}

#[test]
fn nothing_is_loaded_without_a_url() {
    assert_eq!(sanitize_url("two words", false, None), None);
    assert_eq!(sanitize_url("two words", false, Some("%s")), None);
    assert_eq!(sanitize_url("", false, None), None);
}

#[test]
fn outer_white_space_makes_no_difference() {
    for request in ["servo.org", "two words", "https://servo.org/a"] {
        let padded = format!("\n {} \t", request);
        for is_reg_domain in [false, true] {
            assert_eq!(
                sanitize_url(&padded, is_reg_domain, Some(SEARCH)),
                sanitize_url(request, is_reg_domain, Some(SEARCH))
            );
        }
    }
}

#[test]
fn long_labels_are_no_address() {
    for (count, last, encoded) in
        [(4999, '\u{d1bf1}', "%F3%91%AF%B1"), (32799, '\u{20000}', "%F0%A0%80%80")]
    {
        let host = format!("{}{}", "a".repeat(count), last);
        assert_eq!(sanitize_url(&host, true, None), None);
        assert_eq!(sanitize_url(&host, true, Some("x:found")), Some("x:found".to_string()));
        let address = format!("http://{}", host);
        assert_eq!(
            sanitize_url(&address, false, None),
            Some(format!("http://http//{}{}", "a".repeat(count), encoded))
        );
    }
    assert_eq!(
        sanitize_url("http://aaa\u{20000}/", false, None),
        Some("http://xn--aaa-eu14b/".to_string())
    );
}

#[test]
fn address_goes_before_a_search() {
    assert_eq!(
        sanitize_url("servo.org/page", true, Some(SEARCH)),
        Some("http://servo.org/page".to_string())
    );
}

fn counts(scheme: usize, slashes: usize, authority: usize) -> Counts {
    Counts { scheme, slashes, authority }
}

#[test]
fn authority_is_counted() {
    assert_eq!(count("http://me:pw@host:80/a/b"), counts(0, 2, 13));
    assert_eq!(count("HttpS:host"), counts(0, 0, 4));
    assert_eq!(count("wss:\\\\//a\\b"), counts(0, 4, 1));
    assert_eq!(count("ws:/"), counts(0, 1, 0));
    assert_eq!(count("FTP://a@b?c"), counts(0, 2, 3));
    assert_eq!(count("other://a\\b#c"), counts(0, 0, 3));
    assert_eq!(count("other:///a"), counts(0, 0, 0));
}

#[test]
fn scheme_in_front_of_a_path_is_counted() {
    assert_eq!(count("other:/path"), counts(5, 0, 0));
    assert_eq!(count("a+b-c.1:/"), counts(7, 0, 0));
}

#[test]
fn other_texts_are_not_counted() {
    for text in ["", ":", "words", "data:image/png", "1a://b", "a b://c", "file://host/", "FILE:a", "http"] {
        assert_eq!(count(text), counts(0, 0, 0), "{}", text);
        assert!(can_be_counted(text));
    }
}

#[test]
fn skipped_characters_are_not_counted() {
    assert_eq!(count("\u{1} h\tttp:/\n/a\rb c \u{0}\t "), counts(0, 2, 4));
    assert_eq!(count("other://a \u{1f}"), counts(0, 0, 1));
    assert_eq!(count("other://a \u{1f}/"), counts(0, 0, 3));
}

#[test]
fn ordinary_requests_can_be_read() {
    for request in ["", "servo.org", "two words", "https://servo.org/a", "data:,a"] {
        for is_reg_domain in [false, true] {
            assert!(can_sanitize(request, is_reg_domain, None));
            assert!(can_sanitize(request, is_reg_domain, Some(SEARCH)));
        }
    }
}
