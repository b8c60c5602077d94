use ori_vst::{decimal_string, strcpy, u16strcpy};

#[test]
fn decimal_formats() {
    assert_eq!(decimal_string(0), "0");
    assert_eq!(decimal_string(7), "7");
    assert_eq!(decimal_string(10), "10");
    assert_eq!(decimal_string(4_294_967_295), "4294967295");
}

#[test]
fn strcpy_copies_when_it_fits() {
    let mut dst = [0i8; 8];
    strcpy("Gain", &mut dst);
    assert_eq!(dst, [71, 97, 105, 110, 0, 0, 0, 0]);
}

#[test]
fn strcpy_skips_when_too_long() {
    let mut dst = [5i8; 4];
    strcpy("Gain", &mut dst);
    assert_eq!(dst, [5, 5, 5, 5]);
}

#[test]
fn u16strcpy_encodes_and_truncates() {
    let mut dst = [0i16; 3];
    u16strcpy("abcd", &mut dst);
    assert_eq!(dst, [97, 98, 99]);
}

#[test]
fn u16strcpy_writes_surrogate_pairs() {
    let mut dst = [-1i16; 4];
    u16strcpy("\u{1F600}", &mut dst);
    assert_eq!(dst, [0xD83Du16 as i16, 0xDE00u16 as i16, -1, -1]);
}

#[test]
fn u16strcpy_into_empty_is_noop() {
    let mut dst: [i16; 0] = [];
    u16strcpy("abc", &mut dst);
    assert_eq!(dst.len(), 0);
}
