use xcb_imdkit::imdkit::frame::XicAttributeFrame;
use xcb_imdkit::imdkit::{borrow_attributes, CaretDirection, CaretStyle, TriggerNotifyFlag, XicAttribute};

#[test]
fn trigger_notify_flag_decodes_zero_and_one_and_keeps_the_rest() {
    assert_eq!(TriggerNotifyFlag::from(0), TriggerNotifyFlag::OnKeysList);
    assert_eq!(TriggerNotifyFlag::from(1), TriggerNotifyFlag::OffKeysList);
    assert_eq!(TriggerNotifyFlag::from(2), TriggerNotifyFlag::Other(2));
    assert_eq!(TriggerNotifyFlag::from(0xffff_ffff), TriggerNotifyFlag::Other(0xffff_ffff));
    assert!(TriggerNotifyFlag::from(1).known());
    assert!(!TriggerNotifyFlag::from(9).known());
}

#[test]
fn trigger_notify_flag_encodes_back_to_its_number() {
    assert_eq!(u32::from(TriggerNotifyFlag::OnKeysList), 0);
    assert_eq!(u32::from(TriggerNotifyFlag::OffKeysList), 1);
    assert_eq!(u32::from(TriggerNotifyFlag::Other(77)), 77);
    for x in [0u32, 1, 2, 3, 1000, u32::MAX] {
        assert_eq!(u32::from(TriggerNotifyFlag::from(x)), x);
    }
    assert_eq!(TriggerNotifyFlag::default(), TriggerNotifyFlag::OnKeysList);
}

#[test]
fn caret_direction_codes() {
    let all = [
        CaretDirection::ForwardChar,
        CaretDirection::BackwardChar,
        CaretDirection::ForwardWord,
        CaretDirection::BackwardWord,
        CaretDirection::CaretUp,
        CaretDirection::CaretDown,
        CaretDirection::NextLine,
        CaretDirection::PreviousLine,
        CaretDirection::LineStart,
        CaretDirection::LineEnd,
        CaretDirection::AbsolutePosition,
        CaretDirection::DontChange,
    ];
    for (i, d) in all.iter().enumerate() {
        assert_eq!(d.to_u32(), i as u32);
    }
    assert_eq!(CaretDirection::default(), CaretDirection::ForwardChar);
}

#[test]
fn caret_style_codes() {
    assert_eq!(CaretStyle::Invisible.to_u32(), 0);
    assert_eq!(CaretStyle::Primary.to_u32(), 1);
    assert_eq!(CaretStyle::Secondary.to_u32(), 2);
    assert_eq!(CaretStyle::default(), CaretStyle::Invisible);
}

#[test]
fn xic_attribute_borrows_the_record() {
    let fr = XicAttributeFrame { attribute_id: 3, value: vec![9, 8, 7] };
    let a = XicAttribute::from(&fr);
    assert_eq!(a.attribute_id, 3);
    assert_eq!(a.value, &[9, 8, 7]);
    let empty = XicAttributeFrame { attribute_id: 0, value: vec![] };
    assert_eq!(XicAttribute::from(&empty).value.len(), 0);
}

#[test]
fn borrow_attributes_keeps_order_and_contents() {
    let frames = vec![
        XicAttributeFrame { attribute_id: 1, value: vec![1] },
        XicAttributeFrame { attribute_id: 2, value: vec![] },
        XicAttributeFrame { attribute_id: 5, value: vec![5, 5] },
    ];
    let attrs = borrow_attributes(&frames);
    assert_eq!(attrs.len(), 3);
    assert_eq!(attrs[0].attribute_id, 1);
    assert_eq!(attrs[0].value, &[1]);
    assert_eq!(attrs[1].attribute_id, 2);
    assert_eq!(attrs[1].value.len(), 0);
    assert_eq!(attrs[2].attribute_id, 5);
    assert_eq!(attrs[2].value, &[5, 5]);
    assert_eq!(borrow_attributes(&Vec::new()).len(), 0);
}
