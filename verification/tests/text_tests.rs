use filescanner::entropy::byte_histogram;
use filescanner::text::{
    after_last_char, any_contained, any_equal, before_last_char, bytes_to_ascii_lower, chars_of, contains_bytes,
    decimal_chars, ends_with_chars, has_two, split_bytes, split_chars, split_lines_exec, str_contains, take_chars,
    trim_char, trim_chars, is_valid_utf8,
};

fn chars(s: &str) -> Vec<char> {
    s.chars().collect()
}

#[test]
fn histogram_counts_each_byte() {
    let h = byte_histogram(&[0, 0, 1, 255, 0]);
    assert_eq!(h.len(), 256);
    assert_eq!(h[0], 3);
    assert_eq!(h[1], 1);
    assert_eq!(h[255], 1);
    assert_eq!(h.iter().sum::<u64>(), 5);
    let empty = byte_histogram(&[]);
    assert!(empty.iter().all(|&c| c == 0));
}

#[test]
fn histogram_of_uniform_and_constant_data() {
    let uniform: Vec<u8> = (0..=255).collect();
    assert!(byte_histogram(&uniform).iter().all(|&c| c == 1));
    let constant = vec![0xAAu8; 1000];
    let h = byte_histogram(&constant);
    assert_eq!(h[0xAA], 1000);
    assert_eq!(h.iter().filter(|&&c| c > 0).count(), 1);
}

#[test]
fn decimal_forms() {
    assert_eq!(decimal_chars(0), vec!['0']);
    assert_eq!(decimal_chars(1234), chars("1234"));
    assert_eq!(decimal_chars(10), chars("10"));
}

#[test]
fn searching() {
    assert!(contains_bytes(b"hello world", b"o w"));
    assert!(!contains_bytes(b"hello", b"hello!"));
    assert!(str_contains("Invoice.PDF.exe", ".PDF"));
    assert!(!str_contains("abc", "abd"));
    assert!(any_contained("run cmd.exe now", &["powershell", "cmd.exe"]));
    assert!(!any_contained("quiet", &["loud"]));
    assert!(any_equal("zip", &["rar", "zip"]));
    assert!(!any_equal("zipx", &["zip"]));
    assert!(ends_with_chars(&chars("vbaproject.bin"), &chars("project.bin")));
    assert!(has_two(&chars("a.b.c"), '.'));
    assert!(!has_two(&chars("a.b"), '.'));
}

#[test]
fn cutting() {
    assert_eq!(take_chars("héllo", 2), "hé");
    assert_eq!(take_chars("ab", 10), "ab");
    assert_eq!(after_last_char(&chars("dir/sub/file.txt"), '/'), chars("file.txt"));
    assert_eq!(after_last_char(&chars("file"), '/'), chars("file"));
    assert_eq!(before_last_char(&chars("a.tar.gz"), '.'), chars("a.tar"));
    assert_eq!(trim_chars(&chars("  \t x y \n")), chars("x y"));
    assert_eq!(trim_char(&chars("\0\0.text\0"), '\0'), chars(".text"));
}

#[test]
fn splitting() {
    assert_eq!(split_chars(&chars("a:b::c"), ':'), vec![chars("a"), chars("b"), chars(""), chars("c")]);
    assert_eq!(split_lines_exec(&chars("one\ntwo\n\nthree")), vec![chars("one"), chars("two"), chars(""), chars("three")]);
    assert_eq!(split_lines_exec(&chars("x\n")), vec![chars("x")]);
    assert_eq!(split_bytes(b"ab\ncd\n", b'\n'), vec![(0, 2), (3, 5), (6, 6)]);
}

#[test]
fn case_and_decoding() {
    assert_eq!(bytes_to_ascii_lower(b"AbC\xC9"), b"abc\xC9".to_vec());
    assert!(is_valid_utf8("é".as_bytes()));
    assert!(!is_valid_utf8(&[0xFF]));
    assert!(!is_valid_utf8(&[0xC3]));
    assert_eq!(chars_of("añb"), vec!['a', 'ñ', 'b']);
}

fn entropy_from_counts(data: &[u8]) -> f64 {
    if data.is_empty() {
        return 0.0;
    }
    let len = data.len() as f64;
    byte_histogram(data)
        .iter()
        .filter(|&&c| c > 0)
        .map(|&c| {
            let p = c as f64 / len;
            -p * p.log2()
        })
        .sum()
}

#[test]
fn test_entropy_uniform() {
    let data: Vec<u8> = (0..=255).collect();
    let e = entropy_from_counts(&data);
    assert!(e > 7.9, "entropie uniforme doit être ~8.0, got {e}");
}

#[test]
fn test_entropy_constant() {
    let data = vec![0xAA; 1000];
    let e = entropy_from_counts(&data);
    assert!(e < 0.01, "entropie constante doit être ~0.0, got {e}");
}
