use autoware_sentinel::text::{decimal_text, same};

#[test]
fn decimal_text_has_no_leading_zeros() {
    assert_eq!(decimal_text(0), "0");
    assert_eq!(decimal_text(7), "7");
    assert_eq!(decimal_text(10), "10");
    assert_eq!(decimal_text(101), "101");
    assert_eq!(decimal_text(60493), "60493");
    assert_eq!(decimal_text(usize::MAX), usize::MAX.to_string());
}

#[test]
fn decimal_texts_of_different_numbers_differ() {
    let texts: Vec<String> = (0..1200).map(decimal_text).collect();
    for (i, a) in texts.iter().enumerate() {
        assert_eq!(a.parse::<usize>(), Ok(i));
    }
}

#[test]
fn same_compares_characters() {
    assert!(same("on_tick", "on_tick"));
    assert!(same("", ""));
    assert!(!same("on_tick", "on_tic"));
    assert!(!same("on_tick", "on_tock"));
}
