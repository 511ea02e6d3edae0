//! Text, numbers and order, held against the standard library.

use pianke::number;
use pianke::order;
use pianke::text;

fn strings(list: &[&str]) -> Vec<String> {
    list.iter().map(|s| s.to_string()).collect()
}

const SAMPLES: [&str; 16] = [
    "",
    " ",
    "a",
    "a b",
    "  a\t b \r\n",
    "one\ntwo\r\nthree",
    "one\n\ntwo\n",
    "\r\n\r",
    "|a||b|",
    "极速 模式\u{3000}土豪",
    "\u{a0}x\u{2003}y\u{85}",
    "ends with cr\r",
    "\n",
    "3.12.3",
    "Python 3.10.0rc1\n",
    "\u{feff}bom",
];

#[test]
fn white_space_is_what_the_standard_library_says() {
    for n in 0..=0x10ffffu32 {
        if let Some(c) = char::from_u32(n) {
            assert_eq!(text::is_whitespace(c), c.is_whitespace(), "{:x}", n);
        }
    }
}

#[test]
fn trimming_agrees_with_the_standard_library() {
    for s in SAMPLES {
        assert_eq!(text::trim(s), s.trim());
    }
}

#[test]
fn lines_agree_with_the_standard_library() {
    for s in SAMPLES {
        let expected: Vec<String> = s.lines().map(|l| l.to_string()).collect();
        assert_eq!(text::lines(s), expected, "{:?}", s);
        assert_eq!(text::first_line(s), s.lines().next().unwrap_or(""));
    }
}

#[test]
fn splitting_agrees_with_the_standard_library() {
    for s in SAMPLES {
        let words: Vec<String> = s.split_whitespace().map(|w| w.to_string()).collect();
        assert_eq!(text::split_whitespace(s), words);
        let fields: Vec<String> = s.split('|').map(|w| w.to_string()).collect();
        assert_eq!(text::split_char(s, '|'), fields);
    }
}

#[test]
fn prefixes_suffixes_and_parts_agree_with_the_standard_library() {
    for s in SAMPLES {
        for t in SAMPLES {
            assert_eq!(text::starts_with(s, t), s.starts_with(t));
            assert_eq!(text::ends_with(s, t), s.ends_with(t));
            assert_eq!(text::contains(s, t), s.contains(t), "{:?} {:?}", s, t);
            assert_eq!(text::same(s, t), s == t);
        }
    }
    assert!(text::contains("TCP 0.0.0.0:5057 LISTENING", "LISTENING"));
    assert!(!text::contains("aab", "ab c"));
}

#[test]
fn joining_and_splitting_again_changes_nothing() {
    let list = strings(&["opencv-python", "", "opencv-python-headless"]);
    let joined = text::join(&list, "|");
    assert_eq!(joined, "opencv-python||opencv-python-headless");
    assert_eq!(text::split_char(joined.as_str(), '|'), list);
    assert_eq!(text::join(&Vec::new(), "|"), "");
}

#[test]
fn printed_lines_come_back() {
    let list = strings(&["12", "", "345"]);
    assert_eq!(text::lines("12\n\n345\n"), list);
}

#[test]
fn empty_texts_are_left_out() {
    assert_eq!(text::keep_nonempty(strings(&["", "a", "", "b"])), strings(&["a", "b"]));
}

#[test]
fn numbers_are_written_as_the_standard_library_writes_them() {
    for n in [0u64, 1, 9, 10, 99, 100, 5057, 65535, u64::MAX] {
        assert_eq!(number::to_decimal(n), n.to_string());
    }
    for n in [0i32, -1, 7, i32::MIN, i32::MAX, -10] {
        assert_eq!(number::to_signed_decimal(n), n.to_string());
    }
}

#[test]
fn numbers_are_read_as_the_standard_library_reads_them() {
    let samples = [
        "", "+", "-", "0", "-0", "+7", "007", "65535", "65536", "4294967295", "4294967296",
        "2147483647", "2147483648", "-2147483648", "-2147483649", " 5", "5 ", "1_0", "１", "+-1",
        "99999999999999999999999999", "-+1", "1.0", "0x10",
    ];
    for s in samples {
        assert_eq!(number::parse_u16(s), s.parse::<u16>().ok(), "{}", s);
        assert_eq!(number::parse_u32(s), s.parse::<u32>().ok(), "{}", s);
        assert_eq!(number::parse_i32(s), s.parse::<i32>().ok(), "{}", s);
    }
}

#[test]
fn what_is_written_is_read_back() {
    for n in [0u16, 80, 5057, 65535] {
        assert_eq!(number::parse_u16(number::to_decimal(n as u64).as_str()), Some(n));
    }
}

#[test]
fn sorting_agrees_with_the_standard_library() {
    let list = strings(&["torch", "Pillow", "pillow", "", "numpy", "pillow-heif", "极", "numpy", "é"]);
    let mut expected = list.clone();
    expected.sort();
    assert_eq!(order::sort(&list), expected);
}
