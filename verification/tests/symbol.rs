use paranoia::symbol::{marker_symbol, terminate, MARKER_SYMBOL};

#[test]
fn marker_name_is_the_fixed_identifier() {
    assert_eq!(MARKER_SYMBOL, "___paranoia_present");
}

#[test]
fn marker_symbol_is_the_name_and_a_nul() {
    assert_eq!(marker_symbol(), b"___paranoia_present\0".to_vec());
}

#[test]
fn marker_symbol_holds_one_nul_at_its_end() {
    let symbol = marker_symbol();
    assert_eq!(symbol.len(), 20);
    assert_eq!(symbol.iter().position(|byte| *byte == 0), Some(19));
}

#[test]
fn terminate_appends_one_nul() {
    assert_eq!(terminate(b"abc"), Some(vec![b'a', b'b', b'c', 0]));
}

#[test]
fn terminate_of_the_empty_name_is_a_lone_nul() {
    assert_eq!(terminate(b""), Some(vec![0]));
}

#[test]
fn terminate_keeps_every_other_byte() {
    assert_eq!(terminate(&[0xff, 0x80, 0x01]), Some(vec![0xff, 0x80, 0x01, 0x00]));
}

#[test]
fn terminate_refuses_a_nul_inside() {
    assert_eq!(terminate(b"ab\0cd"), None);
}

#[test]
fn terminate_refuses_a_nul_in_front() {
    assert_eq!(terminate(b"\0abcd"), None);
}

#[test]
fn terminate_refuses_a_nul_at_the_end() {
    assert_eq!(terminate(b"abcd\0"), None);
}
