use onion_forum::account::{hash_password, valid_registration, valid_username, verify_password};
use onion_forum::calendar::datetimeformat;
use onion_forum::markup::{clamp_text, join_words, markdown_to_html, nl2br, slug};
use onion_forum::paging::{
    is_page, offset_of, offset_within, pages_of, requested_page, POSTS_PER_PAGE, THREADS_PER_PAGE,
};
use onion_forum::text::{
    byte_len, from_chars, is_whitespace, replace, same_text, to_chars, to_decimal, trim, trim_end,
};
use onion_forum::token::{generate_session_token, token_of};

#[test]
fn whitespace_is_that_of_unicode() {
    for n in 0..=0x10ffffu32 {
        if let Some(c) = char::from_u32(n) {
            assert_eq!(is_whitespace(c), c.is_whitespace(), "{:x}", n);
        }
    }
}

#[test]
fn trimming_takes_off_white_space_only_at_the_ends() {
    for s in ["", " ", "a", " a b ", "\t\n a\u{a0}", "\u{3000}ü\u{2003}", "a\u{200b}"] {
        assert_eq!(trim(s), s.trim());
        assert_eq!(trim_end(s), s.trim_end());
    }
}

#[test]
fn characters_go_apart_and_together() {
    let chars = to_chars("aü€😀");
    assert_eq!(chars, vec!['a', 'ü', '€', '😀']);
    assert_eq!(from_chars(&chars, 1, 3), "ü€");
    assert_eq!(byte_len("aü€😀"), 10);
    assert!(same_text("ab", "ab"));
    assert!(!same_text("ab", "aB"));
    assert!(!same_text("ab", "abc"));
}

#[test]
fn numbers_are_written_out() {
    for n in [0, 7, 10, 99, 100, -1, -10, i64::MAX, i64::MIN, 1234567890] {
        assert_eq!(to_decimal(n), n.to_string());
    }
}

#[test]
fn replacing_goes_from_left_to_right() {
    for (s, from, to) in [
        ("aaa", "aa", "b"),
        ("a\r\nb\r\n", "\r\n", "\n"),
        ("&lt;br&gt;", "&lt;br&gt;", "<br>"),
        ("nothing", "x", "y"),
        ("xx", "x", "xx"),
        ("", "x", "y"),
    ] {
        assert_eq!(replace(s, from, to), s.replace(from, to));
    }
}

#[test]
fn short_texts_stay_as_they_are() {
    assert_eq!(clamp_text("", 0), "");
    assert_eq!(clamp_text("hello", 5), "hello");
    assert_eq!(clamp_text("üü", 4), "üü");
}

#[test]
fn long_texts_end_in_an_ellipsis() {
    assert_eq!(clamp_text("hello world", 10), "hello wor…");
    assert_eq!(clamp_text("hello world", 7), "hello…");
    assert_eq!(clamp_text("hello", 1), "…");
    assert_eq!(clamp_text("hello", 2), "h…");
    assert_eq!(clamp_text("üüü", 4), "üü…");
    assert_eq!(clamp_text("aüü", 3), "aü…");
    assert_eq!(clamp_text("   x", 3), "…");
    assert_eq!(clamp_text("😀😀", 5), "😀…");
    let once = clamp_text("üüüüüü", 7);
    assert_eq!(once, "üüü…");
    assert_eq!(clamp_text(&once, 7), once);
    assert_eq!(clamp_text("abc defg", 5), "abc…");
    assert_eq!(clamp_text("abc…", 5), "abc……");
}

#[test]
fn every_line_end_becomes_a_break() {
    assert_eq!(nl2br("a\r\nb\rc\nd".to_string()), "a<br>b<br>c<br>d");
    assert_eq!(nl2br("a\n\r\nb".to_string()), "a<br><br>b");
    assert_eq!(nl2br("plain".to_string()), "plain");
    assert_eq!(nl2br(String::new()), "");
}

#[test]
fn escaped_breaks_count_as_breaks() {
    assert_eq!(
        nl2br("a&lt;br&gt;b&lt;br/&gt;c&lt;br /&gt;d".to_string()),
        "a<br>b<br>c<br>d"
    );
    assert_eq!(nl2br("&lt;b&gt;".to_string()), "&lt;b&gt;");
    let once = nl2br("&lt;br&lt;br&gt;&gt;\r\n".to_string());
    assert_eq!(once, "&lt;br<br>&gt;<br>");
    assert_eq!(nl2br(once.clone()), once);
}

#[test]
fn slugs_hold_words_between_single_dashes() {
    assert_eq!(slug("Technology"), "technology");
    assert_eq!(slug("  Rust & Co.  "), "rust-co");
    assert_eq!(slug("a--b---c"), "a-b-c");
    assert_eq!(slug("ÄÖÜ 42"), "äöü-42");
    assert_eq!(slug("!?"), "");
    assert_eq!(slug(""), "");
    let again = slug("Hello, World!");
    assert_eq!(slug(&again), again);
}

#[test]
fn words_are_joined_by_single_dashes() {
    let marks = vec![None, Some('a'), Some('b'), None, None, Some('c'), None];
    assert_eq!(join_words(&marks), "ab-c");
    assert_eq!(join_words(&vec![None, None]), "");
    assert_eq!(join_words(&vec![]), "");
}

#[test]
fn names_are_three_to_twenty_plain_characters() {
    assert!(valid_username("abc"));
    assert!(valid_username("a_b-9"));
    assert!(valid_username("abcdefghijklmnopqrst"));
    assert!(!valid_username("ab"));
    assert!(!valid_username("abcdefghijklmnopqrstu"));
    assert!(!valid_username("Abc"));
    assert!(!valid_username("a c"));
    assert!(!valid_username("äbc"));
    assert!(!valid_username(""));
}

#[test]
fn passwords_take_ten_to_128_bytes() {
    assert!(!valid_registration("alice", "123456789"));
    assert!(valid_registration("alice", "1234567890"));
    assert!(valid_registration("alice", "üüüüü"));
    assert!(valid_registration("alice", &"x".repeat(128)));
    assert!(!valid_registration("alice", &"x".repeat(129)));
    assert!(!valid_registration("al", "1234567890"));
}

#[test]
fn a_password_matches_its_hash_and_no_other() {
    let hash = hash_password("correct horse", "c29tZXNhbHRzb21lc2FsdA").unwrap();
    assert!(hash.starts_with("$argon2id$v=19$m=8192,t=2,p=1$c29tZXNhbHRzb21lc2FsdA$"));
    assert!(verify_password("correct horse", &hash));
    assert!(!verify_password("correct hors", &hash));
    assert_eq!(hash_password("correct horse", "c29tZXNhbHRzb21lc2FsdA"), Some(hash));
}

#[test]
fn what_is_no_salt_or_no_hash_is_refused() {
    assert_eq!(hash_password("correct horse", "a b"), None);
    assert_eq!(hash_password("correct horse", ""), None);
    assert!(!verify_password("correct horse", "correct horse"));
    assert!(!verify_password("correct horse", ""));
}

#[test]
fn only_lanes_can_be_too_many() {
    let hash = hash_password("correct horse", "c29tZXNhbHRzb21lc2FsdA").unwrap();
    let with_key = hash.replace("p=1$", "p=1,keyid=12345678900$");
    assert!(verify_password("correct horse", &with_key));
    assert!(!verify_password("correct hors", &with_key));
    assert!(verify_password("correct horse", &hash.replace("m=8192", "m=999999999,m=8192")));
    assert!(verify_password("correct horse", &hash.replace("p=1$", "p=999999999,p=1$")));
    assert!(!verify_password("correct horse", &hash.replace("m=8192", "m=4294967296")));
    assert!(!verify_password("correct horse", &hash.replace("p=1$", "p=4294967295$")));
    assert!(!verify_password("correct horse", "$argon2id$v=19$m=999999999,t=2,p=1$c29tZXNhbHQ"));
}

#[test]
fn tokens_are_bytes_in_hexadecimal() {
    let mut bytes = [0u8; 32];
    bytes[0] = 0x0a;
    bytes[1] = 0xf3;
    bytes[31] = 0xff;
    let token = token_of(&bytes);
    assert_eq!(token, format!("0af3{}ff", "0".repeat(58)));
    let fresh = generate_session_token();
    assert_eq!(fresh.len(), 64);
    assert!(fresh.bytes().all(|b| b.is_ascii_digit() || (b'a'..=b'f').contains(&b)));
    assert_ne!(fresh, generate_session_token());
}

#[test]
fn dates_are_shown_in_utc() {
    assert_eq!(datetimeformat(0), "1970-01-01 00:00 UTC");
    assert_eq!(datetimeformat(59), "1970-01-01 00:00 UTC");
    assert_eq!(datetimeformat(1700000000), "2023-11-14 22:13 UTC");
    assert_eq!(datetimeformat(-1), "1969-12-31 23:59 UTC");
    assert_eq!(datetimeformat(253402300799), "9999-12-31 23:59 UTC");
    assert_eq!(datetimeformat(253402300800), "");
    assert_eq!(datetimeformat(i64::MIN), "");
    assert_eq!(datetimeformat(-377705116801), "");
    assert_eq!(datetimeformat(-377705116800), "-9999-01-01 00:00 UTC");
    assert_eq!(datetimeformat(951825600), "2000-02-29 12:00 UTC");
    assert_eq!(datetimeformat(4107542399), "2100-02-28 23:59 UTC");
    assert_eq!(datetimeformat(4107542400), "2100-03-01 00:00 UTC");
    assert_eq!(datetimeformat(-62167219200), "0000-01-01 00:00 UTC");
    assert_eq!(datetimeformat(-62167219201), "-0001-12-31 23:59 UTC");
}

#[test]
fn markdown_becomes_clean_html() {
    assert_eq!(markdown_to_html("**bold** ~~gone~~".to_string()), "<p><strong>bold</strong> <del>gone</del></p>\n");
    assert_eq!(markdown_to_html("hi <script>alert(1)</script>".to_string()), "<p>hi </p>\n");
    assert_eq!(
        markdown_to_html("<b onclick=\"x()\">b</b>".to_string()),
        "<p><b>b</b></p>\n"
    );
    assert_eq!(markdown_to_html(String::new()), "");
}

#[test]
fn pages_count_from_one() {
    assert_eq!(requested_page(None), 1);
    assert_eq!(requested_page(Some(0)), 1);
    assert_eq!(requested_page(Some(-5)), 1);
    assert_eq!(requested_page(Some(7)), 7);
    assert_eq!(offset_of(None, THREADS_PER_PAGE), 0);
    assert_eq!(offset_of(Some(3), THREADS_PER_PAGE), 40);
    assert_eq!(offset_of(Some(3), POSTS_PER_PAGE), 100);
    assert!(is_page(Some(i64::MAX / 20), THREADS_PER_PAGE));
    assert!(!is_page(Some(i64::MAX), THREADS_PER_PAGE));
    assert!(!is_page(Some(i64::MAX), i64::MAX));
    assert!(is_page(Some(2), i64::MAX));
    assert_eq!(offset_of(Some(2), i64::MAX), i64::MAX);
    assert_eq!(offset_within(Some(3), POSTS_PER_PAGE), 100);
    assert_eq!(offset_within(Some(i64::MAX), POSTS_PER_PAGE), i64::MAX);
}

#[test]
fn pages_hold_every_item() {
    assert_eq!(pages_of(0, THREADS_PER_PAGE), 1);
    assert_eq!(pages_of(1, THREADS_PER_PAGE), 1);
    assert_eq!(pages_of(20, THREADS_PER_PAGE), 1);
    assert_eq!(pages_of(21, THREADS_PER_PAGE), 2);
    assert_eq!(pages_of(101, POSTS_PER_PAGE), 3);
    assert_eq!(pages_of(i64::MAX, i64::MAX), 1);
    assert_eq!(pages_of(i64::MAX, 1), i64::MAX);
}

#[test]
fn the_probe_answers() {
    assert_eq!(onion_forum::healthz(), "ok");
}
