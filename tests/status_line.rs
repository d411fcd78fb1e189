use headless::status::{append_decimal, status_message, status_text};

#[test]
fn status_text_names_code_and_phase() {
    let s = status_text(110, "KEY_INSERT");
    assert_eq!(s, "show-text \"KEY_INSERT 110 Pressed\"\n");
}

#[test]
fn decimal_of_zero_and_largest_code() {
    let mut s = String::from("x");
    append_decimal(&mut s, 0);
    assert_eq!(s, "x0");
    let mut t = String::new();
    append_decimal(&mut t, 65535);
    assert_eq!(t, "65535");
    let mut u = String::new();
    append_decimal(&mut u, 1000);
    assert_eq!(u, "1000");
}

#[test]
fn status_message_uses_the_key_name() {
    let s = status_message(110);
    assert_eq!(s, "show-text \"KEY_INSERT 110 Pressed\"\n");
    let e = status_message(1);
    assert_eq!(e, "show-text \"KEY_ESC 1 Pressed\"\n");
}

#[test]
fn status_message_of_an_unnamed_code() {
    let s = status_message(0x2ff);
    assert_eq!(s, "show-text \"unknown key: 767 767 Pressed\"\n");
}
