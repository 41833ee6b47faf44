use xcb_imdkit::imdkit::{
    Decoded, DrawStatus, ExtForwardKeyeventFlag, Feedback, ForwardEventFlag, InputStyle,
};

#[test]
fn input_style_bits_have_their_protocol_values() {
    assert_eq!(InputStyle::PREEDIT_AREA, 0x0001);
    assert_eq!(InputStyle::PREEDIT_CALLBACKS, 0x0002);
    assert_eq!(InputStyle::PREEDIT_POSITION, 0x0004);
    assert_eq!(InputStyle::PREEDIT_NOTHING, 0x0008);
    assert_eq!(InputStyle::PREEDIT_NONE, 0x0010);
    assert_eq!(InputStyle::STATUS_AREA, 0x0100);
    assert_eq!(InputStyle::STATUS_CALLBACKS, 0x0200);
    assert_eq!(InputStyle::STATUS_NOTHING, 0x0400);
    assert_eq!(InputStyle::STATUS_NONE, 0x0800);
    assert_eq!(InputStyle::ALL, 0x0f1f);
    assert_eq!(InputStyle::all().bits(), 0x0f1f);
}

#[test]
fn input_style_from_bits_accepts_named_bits_only() {
    let over_the_spot = InputStyle::PREEDIT_POSITION | InputStyle::STATUS_AREA;
    assert_eq!(InputStyle::from_bits(over_the_spot).unwrap().bits(), 0x0104);
    assert_eq!(InputStyle::from_bits(0x0020), None);
    assert_eq!(InputStyle::from_bits(0x1000), None);
    assert_eq!(InputStyle::from_bits(0).unwrap(), InputStyle::empty());
}

#[test]
fn input_style_from_bits_truncate_drops_unnamed_bits() {
    assert_eq!(InputStyle::from_bits_truncate(0xffff_ffff).bits(), 0x0f1f);
    assert_eq!(InputStyle::from_bits_truncate(0x1124).bits(), 0x0104);
    assert_eq!(InputStyle::from_bits_truncate(0x0408).bits(), 0x0408);
}

#[test]
fn input_style_union_and_contains() {
    let a = InputStyle::from_bits_truncate(InputStyle::PREEDIT_NOTHING);
    let b = InputStyle::from_bits_truncate(InputStyle::STATUS_NOTHING);
    let root = a.union(b);
    assert_eq!(root.bits(), 0x0408);
    assert!(root.contains(a));
    assert!(root.contains(b));
    assert!(!a.contains(root));
    assert!(!root.is_empty());
    assert!(InputStyle::empty().is_empty());
    assert_eq!(InputStyle::default(), InputStyle::empty());
}

#[test]
fn draw_status_has_two_bits() {
    assert_eq!(DrawStatus::NO_STRING, 1);
    assert_eq!(DrawStatus::NO_FEEDBACK, 2);
    assert_eq!(DrawStatus::all().bits(), 3);
    assert_eq!(DrawStatus::from_bits(4), None);
    assert_eq!(DrawStatus::from_bits(3).unwrap().bits(), 3);
    assert_eq!(DrawStatus::from_bits_truncate(7).bits(), 3);
    assert_eq!(DrawStatus::default().bits(), 0);
}

#[test]
fn feedback_bits_have_their_protocol_values() {
    assert_eq!(Feedback::REVERSE, 0x001);
    assert_eq!(Feedback::UNDERLINE, 0x002);
    assert_eq!(Feedback::HIGHLIGHT, 0x004);
    assert_eq!(Feedback::PRIMARY, 0x020);
    assert_eq!(Feedback::SECONDARY, 0x040);
    assert_eq!(Feedback::TERTIARY, 0x080);
    assert_eq!(Feedback::VISIBLE_TO_FORWARD, 0x100);
    assert_eq!(Feedback::VISIBLE_TO_BACKWORD, 0x200);
    assert_eq!(Feedback::VISIBLE_TO_CENTER, 0x400);
    assert_eq!(Feedback::all().bits(), 0x7e7);
    assert_eq!(Feedback::from_bits(0x008), None);
    assert_eq!(Feedback::from_bits_truncate(0x01b).bits(), 0x003);
    let u = Feedback::from_bits_truncate(Feedback::UNDERLINE);
    let r = Feedback::from_bits_truncate(Feedback::REVERSE);
    assert_eq!(u.union(r).bits(), 3);
    assert!(u.union(r).contains(u));
}

#[test]
fn forward_event_flag_has_three_bits() {
    assert_eq!(ForwardEventFlag::SYNCHRONOUS, 1);
    assert_eq!(ForwardEventFlag::REQUEST_FILTERING, 2);
    assert_eq!(ForwardEventFlag::REQUEST_LOOKUPSTRING, 4);
    assert_eq!(ForwardEventFlag::all().bits(), 7);
    assert_eq!(ForwardEventFlag::from_bits(8), None);
    assert_eq!(ForwardEventFlag::from_bits(5).unwrap().bits(), 5);
    assert_eq!(ForwardEventFlag::from_bits_truncate(0xfffd).bits(), 5);
    assert!(ForwardEventFlag::empty().is_empty());
}

#[test]
fn ext_forward_keyevent_flag_has_one_bit() {
    assert_eq!(ExtForwardKeyeventFlag::SYNCHRONOUS, 1);
    assert_eq!(ExtForwardKeyeventFlag::all().bits(), 1);
    assert_eq!(ExtForwardKeyeventFlag::from_bits(2), None);
    assert_eq!(ExtForwardKeyeventFlag::from_bits(1).unwrap().bits(), 1);
    assert_eq!(ExtForwardKeyeventFlag::from_bits_truncate(3).bits(), 1);
    assert_eq!(ExtForwardKeyeventFlag::from_bits_truncate(2).bits(), 0);
}

#[test]
fn decoding_keeps_every_bit() {
    assert_eq!(InputStyle::decode(0x0104), Decoded::Known(InputStyle::from_bits(0x0104).unwrap()));
    assert_eq!(InputStyle::decode(0x1104), Decoded::Other(0x1104));
    assert_eq!(InputStyle::decode(0), Decoded::Known(InputStyle::empty()));
    assert_eq!(DrawStatus::decode(3), Decoded::Known(DrawStatus::all()));
    assert_eq!(DrawStatus::decode(4), Decoded::Other(4));
    assert_eq!(Feedback::decode(0x7e7), Decoded::Known(Feedback::all()));
    assert_eq!(Feedback::decode(0x008), Decoded::Other(0x008));
    assert_eq!(ForwardEventFlag::decode(7), Decoded::Known(ForwardEventFlag::all()));
    assert_eq!(ForwardEventFlag::decode(0x11), Decoded::Other(0x11));
    assert_eq!(ExtForwardKeyeventFlag::decode(1), Decoded::Known(ExtForwardKeyeventFlag::all()));
    assert_eq!(ExtForwardKeyeventFlag::decode(2), Decoded::Other(2));
}
