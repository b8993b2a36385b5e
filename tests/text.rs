use blinky_oled::text::{clear_text, counter_text, empty_text, text_str, write_counter, TextBuf};

fn filled(n: usize) -> TextBuf {
    let mut b = TextBuf::new();
    for _ in 0..n {
        b.push('a').unwrap();
    }
    b
}

#[test]
fn counter_text_zero() {
    assert_eq!(counter_text(0).as_str(), "0");
}

#[test]
fn counter_text_one() {
    assert_eq!(counter_text(1).as_str(), "1");
}

#[test]
fn counter_text_ninety_nine() {
    assert_eq!(counter_text(99).as_str(), "99");
}

#[test]
fn counter_text_largest() {
    assert_eq!(counter_text(4294967295).as_str(), "4294967295");
}

#[test]
fn counter_text_same_value_same_text() {
    let a = counter_text(1234);
    let b = counter_text(1234);
    assert_eq!(a.as_str(), b.as_str());
    assert_eq!(a.as_str(), "1234");
}

#[test]
fn write_counter_appends() {
    let mut b = counter_text(7);
    assert_eq!(write_counter(&mut b, 305), Ok(()));
    assert_eq!(b.as_str(), "7305");
}

#[test]
fn write_counter_fills_to_capacity() {
    let mut b = filled(251);
    assert_eq!(write_counter(&mut b, 12345), Ok(()));
    assert_eq!(b.len(), 256);
    assert!(b.as_str().ends_with("a12345"));
}

#[test]
fn write_counter_does_not_fit() {
    let mut b = filled(252);
    assert_eq!(write_counter(&mut b, 12345), Err(()));
    assert_eq!(b.as_str(), filled(252).as_str());
}

#[test]
fn clear_text_empties() {
    let mut b = counter_text(42);
    clear_text(&mut b);
    assert_eq!(b.as_str(), "");
}

#[test]
fn text_str_shows_contents() {
    let b = counter_text(42);
    assert_eq!(text_str(&b), "42");
}

#[test]
fn write_counter_counts_bytes_not_chars() {
    let mut b = TextBuf::new();
    for _ in 0..125 {
        b.push('é').unwrap();
    }
    assert_eq!(write_counter(&mut b, 123456), Ok(()));
    assert_eq!(b.len(), 256);
    let mut c = TextBuf::new();
    for _ in 0..126 {
        c.push('é').unwrap();
    }
    let before = c.clone();
    assert_eq!(write_counter(&mut c, 12345), Err(()));
    assert_eq!(c.as_str(), before.as_str());
}

#[test]
fn empty_text_is_empty() {
    assert_eq!(empty_text().as_str(), "");
}
