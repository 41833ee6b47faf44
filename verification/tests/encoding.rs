use xcb_imdkit::encoding::{compound_text_result, utf8_result, Encoding};

#[test]
fn utf8_result_decodes_valid_bytes() {
    let s = "hello world!你好世界켐ㅇㄹ貴方元気？☺";
    let r = utf8_result(Some(s.as_bytes().to_vec())).unwrap();
    assert_eq!(r, s);
}

#[test]
fn utf8_result_decodes_an_en_dash() {
    let s = String::from_utf8(vec![0xe2, 0x80, 0x93]).unwrap();
    let r = utf8_result(Some(vec![0xe2, 0x80, 0x93])).unwrap();
    assert_eq!(r, s);
    assert_eq!(r, "\u{2013}");
}

#[test]
fn utf8_result_keeps_offending_bytes() {
    let bad = vec![0x68, 0x69, 0xff, 0xfe];
    let e = utf8_result(Some(bad.clone())).unwrap_err();
    assert_eq!(e.as_bytes(), Some(&bad[..]));
    assert_eq!(e.convert_from(), Encoding::CompoundText);
    assert_eq!(e.convert_to(), Encoding::Utf8);
    assert_eq!(e.message(), "failed to convert from Compound Text to UTF-8");
    assert_eq!(e.into_bytes(), Some(bad));
}

#[test]
fn utf8_result_without_buffer_is_an_error_without_bytes() {
    let e = utf8_result(None).unwrap_err();
    assert_eq!(e.as_bytes(), None);
    assert_eq!(e.into_bytes(), None);
}

#[test]
fn compound_text_result_passes_buffer_on() {
    assert_eq!(compound_text_result(Some(vec![1, 2, 3])).unwrap(), vec![1, 2, 3]);
    let e = compound_text_result(None).unwrap_err();
    assert_eq!(e.convert_from(), Encoding::Utf8);
    assert_eq!(e.convert_to(), Encoding::CompoundText);
    assert_eq!(e.message(), "failed to convert from UTF-8 to Compound Text");
    assert_eq!(e.into_bytes(), None);
}
