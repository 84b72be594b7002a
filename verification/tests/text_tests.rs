use mini_mysql_redis::logging::LogLevel;
use mini_mysql_redis::query::{parse_query, parse_where_pk, QueryType};
use mini_mysql_redis::text::{
    begins_with, char_is_whitespace, char_is_word, contains_in, find_in, find_standing, fold,
    holds_opened, holds_phrase, holds_word, matches_at, opened_in, phrase_in, position_of,
    same_chars, skip_whitespace, skip_word, stands_in, stands_in_end, substring, to_ascii_lower,
    to_chars, trim_bounds, trimmed,
};

fn chars(text: &str) -> Vec<char> {
    text.chars().collect()
}

#[test]
fn to_chars_gives_the_characters() {
    assert_eq!(to_chars(""), Vec::<char>::new());
    assert_eq!(to_chars("a\u{e9}\u{65e5}\u{1f600}"), vec!['a', '\u{e9}', '\u{65e5}', '\u{1f600}']);
}

#[test]
fn white_space_is_what_the_standard_library_says() {
    for code in 0u32..=0x11_0000 {
        if let Some(c) = char::from_u32(code) {
            assert_eq!(char_is_whitespace(c), c.is_whitespace(), "U+{:04X}", code);
        }
    }
}

#[test]
fn find_gives_the_first_match() {
    let hay = chars("abcabcabc");
    assert_eq!(find_in(&hay, &chars("abc")), Some(0));
    assert_eq!(find_in(&hay, &chars("bca")), Some(1));
    assert_eq!(find_in(&hay, &chars("cabc")), Some(2));
    assert_eq!(find_in(&hay, &chars("abcabcabc")), Some(0));
    assert_eq!(find_in(&hay, &chars("abcabcabca")), None);
    assert_eq!(find_in(&hay, &chars("x")), None);
    assert_eq!(find_in(&hay, &chars("")), Some(0));
    assert_eq!(find_in(&chars(""), &chars("")), Some(0));
    assert_eq!(find_in(&chars(""), &chars("a")), None);
    assert_eq!(find_in(&chars("aab"), &chars("ab")), Some(1));
    assert_eq!(find_in(&chars("xxc"), &chars("c")), Some(2));
}

#[test]
fn find_agrees_with_the_standard_library() {
    let hays = ["", "a", "select * from users where id = 1", "\u{e9}\u{e9}where", "aaaa"];
    let needles = ["", "a", "aa", "where", "e", "\u{e9}w", "users where id = 1x"];
    for hay in hays {
        for needle in needles {
            let expected = hay.find(needle).map(|at| hay[..at].chars().count());
            assert_eq!(find_in(&chars(hay), &chars(needle)), expected, "{:?} {:?}", hay, needle);
            assert_eq!(contains_in(&chars(hay), &chars(needle)), hay.contains(needle));
            assert_eq!(begins_with(&chars(hay), &chars(needle)), hay.starts_with(needle));
            assert_eq!(same_chars(&chars(hay), &chars(needle)), hay == needle);
        }
    }
}

#[test]
fn matches_at_checks_the_bounds() {
    let hay = chars("hello");
    assert!(matches_at(&hay, &chars("llo"), 2));
    assert!(!matches_at(&hay, &chars("llo"), 3));
    assert!(!matches_at(&hay, &chars("llo"), usize::MAX));
    assert!(matches_at(&hay, &chars(""), 5));
    assert!(!matches_at(&hay, &chars(""), 6));
    assert!(!matches_at(&hay, &chars("hello!"), 0));
}

#[test]
fn position_of_searches_from_an_index() {
    let text = chars("a'b'c");
    assert_eq!(position_of(&text, '\'', 0), Some(1));
    assert_eq!(position_of(&text, '\'', 1), Some(1));
    assert_eq!(position_of(&text, '\'', 2), Some(3));
    assert_eq!(position_of(&text, '\'', 4), None);
    assert_eq!(position_of(&text, '\'', 5), None);
    assert_eq!(position_of(&text, 'z', 0), None);
}

#[test]
fn skipping_white_space_and_words() {
    let text = chars("  ab \t cd");
    assert_eq!(skip_whitespace(&text, 0), 2);
    assert_eq!(skip_whitespace(&text, 2), 2);
    assert_eq!(skip_whitespace(&text, 4), 7);
    assert_eq!(skip_whitespace(&text, 9), 9);
    assert_eq!(skip_word(&text, 0), 0);
    assert_eq!(skip_word(&text, 2), 4);
    assert_eq!(skip_word(&text, 7), 9);
    assert_eq!(skip_whitespace(&chars("   "), 0), 3);
}

#[test]
fn trim_bounds_agree_with_the_standard_library() {
    let texts = ["", " ", "a", "  a  ", "\t\na b\r\n", "\u{3000}x\u{a0}", " \u{2003} ", "a  ", "  a"];
    for text in texts {
        let all = chars(text);
        let (start, end) = trim_bounds(&all);
        let inner: String = all[start..end].iter().collect();
        assert_eq!(inner, text.trim(), "{:?}", text);
        assert_eq!(trimmed(text), text.trim(), "{:?}", text);
    }
}

#[test]
fn lower_case_is_that_of_the_standard_library() {
    // upper-case text matches only once it is put into lower case
    assert_eq!(parse_query("SHOW TABLES", &["users"]), QueryType::ShowTables);
    assert_eq!(parse_query("DESCRIBE USERS", &["users"]), QueryType::DescribeTable("users".to_string()));
    assert_eq!(LogLevel::parse("ERROR"), LogLevel::Error);
    assert_eq!(parse_where_pk("WHERE ID = 1", "Id"), Some("1".to_string()));
    // letters beyond ASCII are put into lower case too
    assert_eq!(
        parse_query("DESC \u{c9}T\u{c9}", &["\u{e9}t\u{e9}"]),
        QueryType::DescribeTable("\u{e9}t\u{e9}".to_string())
    );
    assert_eq!(LogLevel::parse("WARN"), LogLevel::Warn);
    // a capital sigma at the end of a word has a lower-case form of its own
    assert_eq!(
        parse_query("DESC \u{39f}\u{394}\u{3a3}", &["\u{3bf}\u{3b4}\u{3c2}"]),
        QueryType::DescribeTable("\u{3bf}\u{3b4}\u{3c2}".to_string())
    );
    assert_eq!(
        parse_query("DESC \u{39f}\u{394}\u{3a3}", &["\u{3bf}\u{3b4}\u{3c3}"]),
        QueryType::Rejected { reason: "unknown_query" }
    );
}

#[test]
fn substring_counts_characters() {
    assert_eq!(substring("h\u{e9}llo", 1, 3), "\u{e9}l");
    assert_eq!(substring("h\u{e9}llo", 0, 5), "h\u{e9}llo");
    assert_eq!(substring("h\u{e9}llo", 5, 5), "");
    assert_eq!(substring("", 0, 0), "");
}

#[test]
fn folding_lowers_basic_capitals_only() {
    for code in 0u32..=0x11_0000 {
        if let Some(c) = char::from_u32(code) {
            assert_eq!(to_ascii_lower(c), c.to_ascii_lowercase(), "U+{:04X}", code);
        }
    }
    assert_eq!(fold(&chars("QR_Verify(\u{c9}\u{212a}\u{130}z")), chars("qr_verify(\u{c9}\u{212a}\u{130}z"));
    assert_eq!(fold(&chars("")), chars(""));
}

#[test]
fn word_characters_are_letters_digits_and_underscore() {
    for code in 0u32..=0x11_0000 {
        if let Some(c) = char::from_u32(code) {
            let expected = if c.is_ascii() {
                c.is_ascii_alphanumeric() || c == '_'
            } else {
                c.is_alphanumeric()
            };
            assert_eq!(char_is_word(c), expected, "U+{:04X}", code);
        }
    }
    assert!(char_is_word('\u{e9}'));
    assert!(char_is_word('\u{65e5}'));
    assert!(char_is_word('\u{665}'));
    assert!(!char_is_word('\u{a0}'));
    assert!(!char_is_word('\u{201c}'));
    assert!(!char_is_word('$'));
    assert!(!char_is_word('-'));
}

#[test]
fn words_stand_between_edges_and_other_characters() {
    let text = chars("and band and_ (and) and");
    assert!(stands_in(&text, &chars("and"), true, 0));
    assert!(!stands_in(&text, &chars("and"), true, 5));
    assert!(!stands_in(&text, &chars("and"), false, 5));
    assert!(!stands_in(&text, &chars("and"), true, 9));
    assert!(stands_in(&text, &chars("and"), false, 9));
    assert!(stands_in(&text, &chars("and"), true, 15));
    assert!(stands_in(&text, &chars("and"), true, 20));
    assert!(!stands_in(&text, &chars("and"), true, 21));
    assert!(!stands_in(&text, &chars("and"), true, usize::MAX));
    assert!(stands_in_end(&text, &chars("and"), 5));
    assert!(!stands_in_end(&text, &chars("and"), 9));
    assert_eq!(find_standing(&text, &chars("and"), true), Some(0));
    assert_eq!(find_standing(&chars("band and_ (and)"), &chars("and"), true), Some(11));
    assert_eq!(find_standing(&chars("band and_ (and)"), &chars("and"), false), Some(5));
    assert_eq!(find_standing(&chars("band"), &chars("and"), false), None);
    assert_eq!(find_standing(&chars(""), &chars("and"), true), None);
    assert_eq!(find_standing(&chars("x"), &chars(""), true), None);
    assert_eq!(find_standing(&chars("x"), &chars(""), false), Some(0));
    assert_eq!(find_standing(&chars("xy  z"), &chars(""), true), Some(3));
    assert_eq!(find_standing(&chars(""), &chars(""), true), Some(0));
    assert!(holds_word(&chars("a\tand\nb"), &chars("and")));
    assert!(holds_word(&chars("and"), &chars("and")));
    assert!(!holds_word(&chars("sand, andy, and1, _and"), &chars("and")));
    assert!(!holds_word(&chars(""), &chars("and")));
}

#[test]
fn phrases_have_white_space_between_their_words() {
    let order = chars("order");
    let by = chars("by");
    assert!(phrase_in(&chars("order by"), &order, &by, 0));
    assert!(phrase_in(&chars("x order \t\n by y"), &order, &by, 2));
    assert!(!phrase_in(&chars("x order \t\n by y"), &order, &by, 1));
    assert!(!phrase_in(&chars("orderby"), &order, &by, 0));
    assert!(!phrase_in(&chars("order"), &order, &by, 0));
    assert!(!phrase_in(&chars("order "), &order, &by, 0));
    assert!(!phrase_in(&chars("order bye"), &order, &by, 0));
    assert!(!phrase_in(&chars("border by"), &order, &by, 1));
    assert!(!phrase_in(&chars("order, by"), &order, &by, 0));
    assert!(holds_phrase(&chars("a order  by"), &order, &by));
    assert!(holds_phrase(&chars("order x by order by"), &order, &by));
    assert!(!holds_phrase(&chars("order x by"), &order, &by));
    assert!(!holds_phrase(&chars(""), &order, &by));
}

#[test]
fn parenthesis_opens_what_follows_it() {
    let select = chars("select");
    assert!(opened_in(&chars("(select"), &select, 0));
    assert!(opened_in(&chars("x( \n select"), &select, 1));
    assert!(!opened_in(&chars("x( \n select"), &select, 0));
    assert!(!opened_in(&chars("(x select"), &select, 0));
    assert!(!opened_in(&chars("("), &select, 0));
    assert!(!opened_in(&chars("(select"), &select, 7));
    assert!(holds_opened(&chars("a (b) ( select"), &select));
    assert!(!holds_opened(&chars("a (b) select"), &select));
    assert!(holds_opened(&chars("()"), &chars("")));
    assert!(!holds_opened(&chars("x"), &chars("")));
}
