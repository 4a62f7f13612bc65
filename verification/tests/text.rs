use crabshell::text::{
    find_chars, parse_i32, parse_u64, split_fields, split_once, str_equal, strip_line_ends,
    to_chars, trim_end,
};

fn find(s: &str, pat: &str) -> Option<usize> {
    find_chars(&to_chars(s), &to_chars(pat))
}

#[test]
fn chars_of_a_string() {
    assert_eq!(to_chars("aé日"), vec!['a', 'é', '日']);
    assert_eq!(to_chars(""), Vec::<char>::new());
}

#[test]
fn equal_strings() {
    assert!(str_equal("abc", "abc"));
    assert!(str_equal("", ""));
    assert!(!str_equal("abc", "abd"));
    assert!(!str_equal("abc", "ab"));
    assert!(!str_equal("é", "e"));
}

#[test]
fn find_gives_the_leftmost_character_index() {
    assert_eq!(find("a>>b>>c", ">>"), Some(1));
    assert_eq!(find("é>>b", ">>"), Some(1));
    assert_eq!(find("abc", ">>"), None);
    assert_eq!(find("a>b", ">>"), None);
    assert_eq!(find("abc", ""), Some(0));
    assert_eq!(find("", ""), Some(0));
    assert_eq!(find("", "a"), None);
    assert_eq!(find("ab", "abc"), None);
    assert_eq!(find("aab", "ab"), Some(1));
    assert_eq!(find_chars(&vec!['x', 'y', 'z'], &vec!['z']), Some(2));
    assert_eq!(find_chars(&vec!['x', 'y', 'z'], &vec![]), Some(0));
}

#[test]
fn split_once_cuts_at_the_first_occurrence() {
    assert_eq!(split_once("a,b,c", ","), Some(("a", "b,c")));
    assert_eq!(split_once(",", ","), Some(("", "")));
    assert_eq!(split_once("abc", ","), None);
    assert_eq!(split_once("", ","), None);
    assert_eq!(split_once("日,本", ","), Some(("日", "本")));
    assert_eq!(split_once("abc", ""), Some(("", "abc")));
}

#[test]
fn split_fields_is_bounded() {
    assert_eq!(split_fields("a,b,c,d", ",", 2), Some(vec!["a", "b,c,d"]));
    assert_eq!(split_fields("a,b,c,d", ",", 4), Some(vec!["a", "b", "c", "d"]));
    assert_eq!(split_fields("a,b,c,d", ",", 5), None);
    assert_eq!(split_fields("a,b", ",", 1), Some(vec!["a,b"]));
    assert_eq!(split_fields("", ",", 1), Some(vec![""]));
    assert_eq!(split_fields("a,b", ",", 0), None);
    assert_eq!(split_fields(",,", ",", 3), Some(vec!["", "", ""]));
}

#[test]
fn trim_end_takes_trailing_white_space_off() {
    assert_eq!(trim_end("workspace>>1\n"), "workspace>>1");
    assert_eq!(trim_end("a b \t\r\n"), "a b");
    assert_eq!(trim_end("  a"), "  a");
    assert_eq!(trim_end(""), "");
    assert_eq!(trim_end(" \n "), "");
    assert_eq!(trim_end("a\u{a0}\u{2003}\u{3000}"), "a");
    assert_eq!(trim_end("a\u{200b}"), "a\u{200b}");
    for text in ["x\u{85}", "x\u{1680}", "x\u{2028}\u{2029}", "x\u{202f}\u{205f}", "x\u{b}\u{c}"] {
        assert_eq!(trim_end(text), text.trim_end());
        assert_eq!(trim_end(text), "x");
    }
}

#[test]
fn parse_hexadecimal() {
    assert_eq!(parse_u64("1a2b", 16), Some(0x1a2b));
    assert_eq!(parse_u64("1A2B", 16), Some(0x1a2b));
    assert_eq!(parse_u64("0", 16), Some(0));
    assert_eq!(parse_u64("+ff", 16), None);
    assert_eq!(parse_u64("+0", 16), None);
    assert_eq!(parse_u64("ffffffffffffffff", 16), Some(u64::MAX));
    assert_eq!(parse_u64("10000000000000000", 16), None);
    assert_eq!(parse_u64("", 16), None);
    assert_eq!(parse_u64("+", 16), None);
    assert_eq!(parse_u64("++1", 16), None);
    assert_eq!(parse_u64("-1", 16), None);
    assert_eq!(parse_u64("fg", 16), None);
    assert_eq!(parse_u64(" 1", 16), None);
    assert_eq!(parse_u64("١", 16), None);
}

#[test]
fn parse_decimal() {
    assert_eq!(parse_u64("42", 10), Some(42));
    assert_eq!(parse_u64("007", 10), Some(7));
    assert_eq!(parse_u64("18446744073709551615", 10), Some(u64::MAX));
    assert_eq!(parse_u64("18446744073709551616", 10), None);
    assert_eq!(parse_u64("99999999999999999999999", 10), None);
    assert_eq!(parse_u64("4a", 10), None);
    assert_eq!(parse_u64("z", 36), Some(35));
    assert_eq!(parse_u64("102", 2), None);
}

/// What the standard library reads, but for the sign that it lets through.
fn digits_only(text: &str, radix: u32) -> Option<u64> {
    if text.starts_with('+') {
        None
    } else {
        u64::from_str_radix(text, radix).ok()
    }
}

#[test]
fn parse_agrees_with_the_standard_library_on_digits() {
    let samples = [
        "", "+", "-", "0", "+0", "-0", "12", "ff", "FF", "fF", "0x10", "1_000", " 1", "1 ",
        "ffffffffffffffff", "10000000000000000", "18446744073709551615", "18446744073709551616",
        "+18446744073709551615", "00000000000000000000000001", "g", "٣", "+1a", "1+", "++1",
    ];
    for text in samples {
        assert_eq!(parse_u64(text, 16), digits_only(text, 16), "{:?}", text);
        assert_eq!(parse_u64(text, 10), digits_only(text, 10), "{:?}", text);
    }
}

#[test]
fn a_sign_is_no_digit() {
    for text in ["+1", "+ff", "+0", "-1", "+", "-", "+18446744073709551615"] {
        assert_eq!(parse_u64(text, 16), None, "{:?}", text);
        assert_eq!(parse_u64(text, 10), None, "{:?}", text);
    }
}

const SAMPLES: [&str; 24] = [
    "", ",", ",,", ">>", ">", ">>>", "a", "a,b", "a,b,c,d,e", ",a,", "a>>b", "a>>b>>c", ">>a,b",
    "workspace>>1", "openwindow>>1a2b,1,kitty,title, with, commas", "é,ü", "日本語>>テスト,値",
    "a\n", " a \t\n", "\u{3000}x\u{3000}", "x\r\n", "😀,😀>>😀", "a,>>,b", "  ",
];

#[test]
fn split_once_agrees_with_the_standard_library() {
    for text in SAMPLES {
        for pat in [",", ">>", ">", "a", "日", "😀", ", "] {
            assert_eq!(split_once(text, pat), text.split_once(pat), "{:?} at {:?}", text, pat);
        }
    }
}

#[test]
fn find_agrees_with_the_standard_library() {
    for text in SAMPLES {
        for pat in [",", ">>", ">", "a", "日", "😀", ", ", ""] {
            let expected = text.find(pat).map(|at| text[..at].chars().count());
            assert_eq!(find(text, pat), expected, "{:?} in {:?}", pat, text);
        }
    }
}

#[test]
fn split_fields_agrees_with_the_standard_library() {
    for text in SAMPLES {
        for n in 1..6 {
            let parts: Vec<&str> = text.splitn(n, ',').collect();
            let expected = if parts.len() == n { Some(parts) } else { None };
            assert_eq!(split_fields(text, ",", n), expected, "{:?} into {}", text, n);
        }
    }
}

#[test]
fn trim_end_agrees_with_the_standard_library() {
    for text in SAMPLES {
        assert_eq!(trim_end(text), text.trim_end(), "{:?}", text);
    }
    for code in 0..0x3100u32 {
        if let Some(c) = char::from_u32(code) {
            let text = format!("x{}", c);
            assert_eq!(trim_end(&text), text.trim_end(), "U+{:04X}", code);
        }
    }
}

#[test]
fn strip_line_ends_takes_only_line_feeds() {
    assert_eq!(strip_line_ends("Full\n"), "Full");
    assert_eq!(strip_line_ends("Full\n\n\n"), "Full");
    assert_eq!(strip_line_ends("Full \n"), "Full ");
    assert_eq!(strip_line_ends("Full\r\n"), "Full\r");
    assert_eq!(strip_line_ends("\nFull"), "\nFull");
    assert_eq!(strip_line_ends("\n"), "");
    assert_eq!(strip_line_ends(""), "");
    for text in SAMPLES {
        assert_eq!(strip_line_ends(text), text.trim_end_matches('\n'), "{:?}", text);
    }
    assert_eq!(parse_i32("-12"), Some(-12));
    assert_eq!(parse_i32("+12"), Some(12));
    assert_eq!(parse_i32("12"), Some(12));
    assert_eq!(parse_i32("-2147483648"), Some(i32::MIN));
    assert_eq!(parse_i32("2147483647"), Some(i32::MAX));
    assert_eq!(parse_i32("2147483648"), None);
    assert_eq!(parse_i32("-"), None);
    assert_eq!(parse_i32(""), None);
}
