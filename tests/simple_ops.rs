use courier::simple_ops::{
    is_whitespace, lowercase, no_spaces, no_whitespace, reverse, slugify, spongebob,
    spongebob_with, uppercase, SimpleOp,
};

#[test]
fn ops_by_name() {
    assert_eq!(SimpleOp::parse("lowercase"), Some(SimpleOp::Lowercase));
    assert_eq!(SimpleOp::parse("no_whitespace"), Some(SimpleOp::NoWhitespace));
    assert_eq!(SimpleOp::parse("spongebob"), Some(SimpleOp::Spongebob));
    assert_eq!(SimpleOp::parse("nope"), None);
}

#[test]
fn case_ops() {
    assert_eq!(lowercase("HeLLo Ä"), "hello ä");
    assert_eq!(uppercase("HeLLo ä"), "HELLO Ä");
    assert_eq!(SimpleOp::Uppercase.exec("ab"), "AB");
}

#[test]
fn space_ops() {
    assert_eq!(no_spaces(" a b\tc "), "ab\tc");
    assert_eq!(no_whitespace(" a b\tc\n\u{3000}d"), "abcd");
    assert!(is_whitespace('\u{85}'));
    assert!(!is_whitespace('x'));
}

#[test]
fn reverse_op() {
    assert_eq!(reverse("abc"), "cba");
    assert_eq!(reverse(""), "");
    assert_eq!(reverse("añb"), "bña");
}

#[test]
fn slug_op() {
    assert_eq!(slugify("Hello World!"), "hello-world");
}

#[test]
fn spongebob_ops() {
    assert_eq!(spongebob_with("aBc1", &vec![true, true, false, true]), "ABc1");
    let s = spongebob("abc");
    assert_eq!(s.to_lowercase(), "abc");
}
