use xcb_imdkit::imdkit::{
    decode_input_style, Decoded, InputStyle, ImClient, ImError, InputContext, InputContextRegistry, ProtocolField, Strictness,
};

#[test]
fn handles_are_made_from_non_null_addresses_only() {
    assert_eq!(InputContext::from_ptr(0), None);
    assert_eq!(ImClient::from_ptr(0), None);
    let ic = InputContext::from_ptr(0x1000).unwrap();
    assert_eq!(ic.as_ptr(), 0x1000);
    assert_eq!(ic.as_ptr_non_null(), 0x1000);
    let client = ImClient::from_ptr(0x2000).unwrap();
    assert_eq!(client.as_ptr(), 0x2000);
    assert_eq!(client.as_ptr_non_null(), 0x2000);
}

#[test]
fn handles_are_equal_by_address() {
    let a = InputContext::from_ptr(5).unwrap();
    let b = InputContext::from_ptr(5).unwrap();
    let c = InputContext::from_ptr(6).unwrap();
    assert_eq!(a, b);
    assert_ne!(a, c);
    assert!(a.same(&b));
    assert!(!a.same(&c));
    assert_eq!(ImClient::from_ptr(9).unwrap(), ImClient::from_ptr(9).unwrap());
}

#[test]
fn registry_insert_remove_contains() {
    let mut reg = InputContextRegistry::new();
    let a = InputContext::from_ptr(5).unwrap();
    let b = InputContext::from_ptr(6).unwrap();
    assert_eq!(reg.len(), 0);
    assert!(!reg.contains(&a));
    assert!(reg.insert(a));
    assert!(reg.contains(&a));
    assert!(!reg.contains(&b));
    assert!(!reg.insert(a));
    assert_eq!(reg.len(), 1);
    assert!(reg.insert(b));
    assert_eq!(reg.len(), 2);
    assert!(reg.remove(&a));
    assert!(!reg.contains(&a));
    assert!(reg.contains(&b));
    assert!(!reg.remove(&a));
    assert_eq!(reg.len(), 1);
}

#[test]
fn registry_get_finds_live_contexts_only() {
    let mut reg = InputContextRegistry::new();
    let a = InputContext::from_ptr(0x10).unwrap();
    reg.insert(a);
    assert_eq!(reg.get(0x10), Some(a));
    assert_eq!(reg.get(0x11), None);
    assert_eq!(reg.get(0), None);
    reg.remove(&a);
    assert_eq!(reg.get(0x10), None);
}

#[test]
fn input_style_decoding_by_strictness() {
    let known = Decoded::Known(InputStyle::from_bits(0x0104).unwrap());
    assert_eq!(decode_input_style(0x0104, Strictness::Strict), Ok(known));
    assert_eq!(decode_input_style(0x0104, Strictness::Tolerant), Ok(known));
    assert_eq!(
        decode_input_style(0x1104, Strictness::Strict),
        Err(ImError::ProtocolInvariantViolation { field: ProtocolField::InputStyle, value: 0x1104 })
    );
    assert_eq!(decode_input_style(0x1104, Strictness::Tolerant), Ok(Decoded::Other(0x1104)));
}
