use clickei::text::{
    contains_text, join_parts, push_dec, push_dec2, push_dec_nat, push_hex2_upper,
    push_hex_fixed_lower, push_hex_upper, push_pad_end, push_pad_start, same_text, starts_with,
    trim_text,
};

#[test]
fn numbers_are_written_as_usual() {
    for n in [0, 1, -1, 9, 10, 99, -100, i64::MAX, i64::MIN] {
        let mut s = "x".to_string();
        push_dec(&mut s, n);
        assert_eq!(s, format!("x{}", n));
    }
    for n in [0u64, 7, 10, 12345, u64::MAX] {
        let mut s = String::new();
        push_dec_nat(&mut s, n);
        assert_eq!(s, format!("{}", n));
        let mut s = String::new();
        push_dec2(&mut s, n);
        assert_eq!(s, format!("{:02}", n));
        let mut s = String::new();
        push_hex_upper(&mut s, n);
        assert_eq!(s, format!("{:X}", n));
        let mut s = String::new();
        push_hex_fixed_lower(&mut s, n, 16);
        assert_eq!(s, format!("{:016x}", n));
    }
    for n in [0u32, 9, 10, 255, 256, u32::MAX] {
        let mut s = String::new();
        push_hex2_upper(&mut s, n);
        assert_eq!(s, format!("{:02X}", n));
    }
}

#[test]
fn texts_are_trimmed_as_usual() {
    for t in ["", " ", "a", "  a b  ", "\t\n\u{a0}x\u{3000}", "\u{200b}y\u{200b}"] {
        assert_eq!(trim_text(t), t.trim());
        assert_eq!(trim_text(&trim_text(t)), t.trim());
    }
    for n in 0..0x3100u32 {
        if let Some(c) = char::from_u32(n) {
            let t = format!("{}a{}", c, c);
            assert_eq!(trim_text(&t), t.trim(), "{:x}", n);
        }
    }
}

#[test]
fn texts_are_compared() {
    assert!(starts_with("Running…", "Running"));
    assert!(!starts_with("Run", "Running"));
    assert!(starts_with("x", ""));
    assert!(same_text("a", "a"));
    assert!(!same_text("a", "ab"));
    for (s, part) in [("abc", "bc"), ("abc", ""), ("", ""), ("", "a"), ("aab", "ab"), ("é!x", "! ")] {
        assert_eq!(contains_text(s, part), s.contains(part));
    }
}

#[test]
fn texts_are_padded_and_joined() {
    for t in ["", "7", "123", "1234"] {
        let mut s = "<".to_string();
        push_pad_start(&mut s, t, 3);
        assert_eq!(s, format!("<{:>3}", t));
        let mut s = "<".to_string();
        push_pad_end(&mut s, t, 3);
        assert_eq!(s, format!("<{:<3}", t));
    }
    let parts = vec!["Ctrl".to_string(), "A".to_string()];
    assert_eq!(join_parts(&parts, "+"), "Ctrl+A");
    assert_eq!(join_parts(&Vec::new(), "+"), "");
}
