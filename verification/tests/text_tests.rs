use hold_sccache::number::{parse_u64_chars, IntErrorKind};
use hold_sccache::paths::join_path;
use hold_sccache::text::{chars_of, split_lines, split_on_char, split_words, trim_chars};

fn strs(v: Vec<Vec<char>>) -> Vec<String> {
    v.into_iter().map(|l| l.into_iter().collect()).collect()
}

#[test]
fn lines_match_str_lines() {
    for s in ["", "a", "a\n", "a\nb", "a\r\nb\r\n", "\n\n", "x\r", "a\n\r\nb", "\r\n"] {
        let want: Vec<String> = s.lines().map(|l| l.to_string()).collect();
        assert_eq!(strs(split_lines(&chars_of(s))), want, "{s:?}");
    }
}

#[test]
fn words_match_split_whitespace() {
    for s in ["", "  ", "a b", " Cache  hits\t 80 ", "x\u{3000}y\u{a0}z", "a\u{200b}b"] {
        let want: Vec<String> = s.split_whitespace().map(|l| l.to_string()).collect();
        assert_eq!(strs(split_words(&chars_of(s))), want, "{s:?}");
    }
}

#[test]
fn trim_matches_str_trim() {
    for s in ["", " x ", "\u{2028}y\u{85}", "\t\n", "a b"] {
        let t: String = trim_chars(&chars_of(s)).into_iter().collect();
        assert_eq!(t, s.trim(), "{s:?}");
    }
}

#[test]
fn split_on_colon_matches_str_split() {
    for s in ["", ":", "/a:/b", "a::b:"] {
        let want: Vec<String> = s.split(':').map(|l| l.to_string()).collect();
        assert_eq!(strs(split_on_char(&chars_of(s), ':')), want, "{s:?}");
    }
}

#[test]
fn numerals_match_u64_from_str() {
    let cases = [
        "", "+", "-", "0", "+7", "-7", "007", "18446744073709551615", "18446744073709551616",
        "99999999999999999999x", "1x99999999999999999999", " 1", "1 ", "++1",
    ];
    for s in cases {
        let v = chars_of(s);
        let got = parse_u64_chars(&v, 0, v.len());
        match s.parse::<u64>() {
            Ok(n) => assert_eq!(got, Ok(n), "{s:?}"),
            Err(e) => {
                let kind = match e.kind() {
                    std::num::IntErrorKind::Empty => IntErrorKind::Empty,
                    std::num::IntErrorKind::InvalidDigit => IntErrorKind::InvalidDigit,
                    std::num::IntErrorKind::PosOverflow => IntErrorKind::PosOverflow,
                    _ => panic!("unexpected kind"),
                };
                assert_eq!(got, Err(kind), "{s:?}");
            }
        }
    }
}

#[test]
fn join_matches_path_join() {
    for (b, p) in [("/a", "b"), ("/a/", "b"), ("", "b"), ("/a", "/b"), ("a", "b")] {
        let want = std::path::Path::new(b).join(p).display().to_string();
        assert_eq!(join_path(b, p), want, "{b:?} {p:?}");
    }
}
