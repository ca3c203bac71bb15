use slang_bridge::bytes::{decode_lossy, is_utf8, take_before_zero, to_c_string};
use slang_bridge::number::{decimal_string, parse_hex, parse_i64, push_decimal, push_hex};
use slang_bridge::text::{
    chars_of, contains, find, first_word_in, is_empty, line_at, position_in, string_of, trim,
    trim_range, white_space,
};

#[test]
fn white_space_is_what_std_takes_for_it() {
    for c in '\0'..=char::MAX {
        assert_eq!(white_space(c), c.is_whitespace(), "{:x}", c as u32);
    }
}

#[test]
fn trimming_is_what_std_does() {
    for s in ["", " ", "a", " a ", "\u{2028}a b\u{3000}", "\t\n\r", "é ", "\u{200b}a"] {
        assert_eq!(trim(s), s.trim(), "{s:?}");
        assert_eq!(is_empty(s), s.is_empty());
    }
    let chars = chars_of("x  ab  y");
    assert_eq!(trim_range(&chars, 1, 7), "ab");
    assert_eq!(trim_range(&chars, 1, 1), "");
}

#[test]
fn lines_are_what_std_splits_at() {
    for s in ["a", "a\n", "a\nb", "\n\n", "a\r\nb\r", "\r\n", "a\r\r\n", "é\nü"] {
        let chars = chars_of(s);
        let mut lines = Vec::new();
        let mut start: usize = 0;
        while start < chars.len() {
            let (end, next) = line_at(&chars, start);
            lines.push(string_of(&chars[start..end]));
            start = next;
        }
        assert_eq!(lines, s.lines().collect::<Vec<_>>(), "{s:?}");
    }
}

#[test]
fn searching_finds_the_first_place() {
    let hay = chars_of("abcabc");
    assert_eq!(find(&hay, &chars_of("bc"), 0), Some(1));
    assert_eq!(find(&hay, &chars_of("bc"), 2), Some(4));
    assert_eq!(find(&hay, &chars_of("bc"), 5), None);
    assert_eq!(find(&hay, &chars_of(""), 6), Some(6));
    assert_eq!(find(&hay, &chars_of("abcabcd"), 0), None);
    assert_eq!(position_in(&hay, 1, 6, 'a'), 3);
    assert_eq!(position_in(&hay, 1, 3, 'a'), 3);
    for (hay, needle) in [("Failure [x]", "Failure"), ("fail", "Failure"), ("", ""), ("a", "")] {
        assert_eq!(contains(hay, needle), hay.contains(needle));
    }
}

#[test]
fn first_words_end_at_white_space() {
    for s in ["", "  ", "a", "  ab cd", "ab\u{85}cd", "\n\tx\ny"] {
        let chars = chars_of(s);
        let (start, end) = first_word_in(&chars, 0, chars.len());
        let word = string_of(&chars[start..end]);
        assert_eq!(word, s.split_whitespace().next().unwrap_or(""), "{s:?}");
    }
}

#[test]
fn numbers_are_written_in_decimal() {
    for n in [0u64, 7, 10, 99, 100, 1234567890, u64::MAX] {
        assert_eq!(decimal_string(n), n.to_string());
    }
    let mut s = "tcp:".to_string();
    push_decimal(&mut s, 8800);
    assert_eq!(s, "tcp:8800");
}

#[test]
fn numbers_are_read_as_std_reads_them() {
    for s in [
        "0", "-0", "+0", "", "-", "+", "12", "-12", "+12", "--1", "1-", "0x1", " 1",
        "9223372036854775807", "9223372036854775808", "-9223372036854775808",
        "-9223372036854775809", "00000000000000000000000001", "１",
    ] {
        let chars = chars_of(s);
        assert_eq!(parse_i64(&chars, 0, chars.len()), s.parse::<i64>().ok(), "{s:?}");
    }
}

#[test]
fn numbers_are_written_and_read_in_hexadecimal() {
    for (n, width) in [(0u64, 4u64), (0x12, 4), (0xffff, 4), (0x1_0000, 4), (0xab, 1), (0, 0)] {
        let mut out = vec![b'>'];
        push_hex(&mut out, n, width);
        assert_eq!(out, format!(">{n:0w$x}", w = width as usize).into_bytes());
    }
    for s in ["0", "f", "F", "0012", "fffffff", "", "g", "-1", "1 "] {
        assert_eq!(parse_hex(s.as_bytes()), u32::from_str_radix(s, 16).ok(), "{s:?}");
    }
}

#[test]
fn bytes_are_decoded_as_std_decodes_them() {
    for bytes in [
        &b""[..],
        b"plain",
        "é日\u{10ffff}".as_bytes(),
        b"\xff",
        b"a\xc3",
        b"\xed\xa0\x80",
        b"\xf0\x9f\x92",
        b"ok\x80ok",
    ] {
        assert_eq!(decode_lossy(bytes), String::from_utf8_lossy(bytes), "{bytes:?}");
        assert_eq!(is_utf8(bytes), std::str::from_utf8(bytes).is_ok(), "{bytes:?}");
    }
    assert_eq!(decode_lossy(b"a\xffb"), "a\u{fffd}b");
    assert!(!is_utf8(b"\xff"));
    assert!(is_utf8("日".as_bytes()));
}

#[test]
fn strings_for_c_end_in_their_only_zero() {
    assert_eq!(to_c_string(""), b"\0");
    assert_eq!(to_c_string("abc"), b"abc\0");
    assert_eq!(to_c_string("é"), "é\0".as_bytes());
    assert_eq!(to_c_string("a\0b"), b"\0");
    assert_eq!(take_before_zero(b"abc\0def\0"), b"abc");
    assert_eq!(take_before_zero(b"abc"), b"abc");
    assert_eq!(take_before_zero(b"\0"), b"");
}
