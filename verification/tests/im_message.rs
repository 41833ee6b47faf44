use xcb_imdkit::imdkit::frame::{
    CloseFrame, ConnectFrame, CreateIcFrame, CreateIcReplyFrame, ExtForwardKeyeventFrame,
    ForwardEventFrame, GetIcValuesFrame, IcFrame, OpenFrame, PreeditCaretReplyFrame,
    PreeditStartReplyFrame, SetIcValuesFrame, TriggerNotifyFrame, XicAttributeFrame,
};
use xcb_imdkit::imdkit::{
    check_frame, parse_message, reset_ic_reply, ConnectMessage, Decoded, ExtForwardKeyeventFlag,
    ExtForwardKeyeventMessage, ForwardEventFlag, ForwardEventMessage, ImClient, ImError, ImMessage, InputContext, KeyPressEvent, MessageKind,
    PreeditStartReplyMessage, ProtocolField, RawCallbackArgs, RawFrame, ResetIcReplyFrame,
    ResetIcReplyMessage, TriggerNotifyFlag, TriggerNotifyMessage,
};

fn key_event() -> KeyPressEvent {
    KeyPressEvent {
        response_type: 2,
        detail: 38,
        sequence: 7,
        time: 1000,
        root: 1,
        event: 2,
        child: 0,
        root_x: 10,
        root_y: -4,
        event_x: 5,
        event_y: 6,
        state: 4,
        same_screen: 1,
    }
}

fn args(major: u8, minor: u8, frame: RawFrame) -> RawCallbackArgs {
    RawCallbackArgs {
        client: ImClient::from_ptr(0x100),
        ic: InputContext::from_ptr(0x200),
        major_opcode: major,
        minor_opcode: minor,
        frame,
    }
}

#[test]
fn connect_message_borrows_names() {
    let fr = ConnectFrame {
        byte_order: 0x6c,
        client_major_protocol_version: 1,
        client_minor_protocol_version: 0,
        client_auth_protocol_names: vec![b"a".to_vec(), vec![], b"xyz".to_vec()],
    };
    let m = ConnectMessage::from(&fr);
    assert_eq!(m.byte_order, 0x6c);
    assert_eq!(m.client_major_protocol_version, 1);
    assert_eq!(m.client_minor_protocol_version, 0);
    assert_eq!(m.client_auth_protocol_names, vec![&b"a"[..], &b""[..], &b"xyz"[..]]);
}

#[test]
fn forward_event_message_keeps_a_flag_out_of_range() {
    let fr = ForwardEventFrame { input_method_id: 1, input_context_id: 2, flag: 0xfff3, sequence_number: 9 };
    let m = ForwardEventMessage::from(&fr);
    assert_eq!(m.input_method_id, 1);
    assert_eq!(m.input_context_id, 2);
    assert_eq!(m.flag, Decoded::Other(0xfff3));
    assert_eq!(m.sequence_number, 9);
    let fr = ForwardEventFrame { input_method_id: 1, input_context_id: 2, flag: 8, sequence_number: 9 };
    assert_eq!(ForwardEventMessage::from(&fr).flag, Decoded::Other(8));
}

#[test]
fn forward_event_message_decodes_a_flag_in_range() {
    for flag in 0..=7u16 {
        let fr = ForwardEventFrame { input_method_id: 1, input_context_id: 2, flag, sequence_number: 9 };
        assert_eq!(
            ForwardEventMessage::from(&fr).flag,
            Decoded::Known(ForwardEventFlag::from_bits(flag).unwrap())
        );
    }
}

#[test]
fn ext_forward_keyevent_message_copies_fields() {
    let fr = ExtForwardKeyeventFrame {
        input_method_id: 1,
        input_context_id: 2,
        flag: 3,
        sequence_number: 4,
        event_type: 2,
        keycode: 38,
        state: 5,
        time: 6,
        window: 7,
    };
    let m = ExtForwardKeyeventMessage::from(&fr);
    assert_eq!(m.flag, Decoded::Other(3));
    let known = ExtForwardKeyeventFrame { flag: 1, ..fr };
    assert_eq!(
        ExtForwardKeyeventMessage::from(&known).flag,
        Decoded::Known(ExtForwardKeyeventFlag::from_bits(1).unwrap())
    );
    assert_eq!(
        (m.input_method_id, m.input_context_id, m.sequence_number, m.event_type, m.keycode, m.state, m.time, m.window),
        (1, 2, 4, 2, 38, 5, 6, 7)
    );
}

#[test]
fn trigger_notify_message_decodes_flag() {
    let mut fr = TriggerNotifyFrame {
        input_method_id: 1,
        input_context_id: 2,
        flag: 0,
        index_of_keys_list: 3,
        client_select_event_mask: 4,
    };
    assert_eq!(TriggerNotifyMessage::from(&fr).flag, TriggerNotifyFlag::OnKeysList);
    fr.flag = 1;
    assert_eq!(TriggerNotifyMessage::from(&fr).flag, TriggerNotifyFlag::OffKeysList);
    fr.flag = 2;
    let m = TriggerNotifyMessage::from(&fr);
    assert_eq!(
        m,
        TriggerNotifyMessage {
            input_method_id: 1,
            input_context_id: 2,
            flag: TriggerNotifyFlag::Other(2),
            index_of_keys_list: 3,
            client_select_event_mask: 4,
        }
    );
}

#[test]
fn preedit_start_reply_reads_return_value_as_signed() {
    let fr = PreeditStartReplyFrame { input_method_id: 1, input_context_id: 2, return_value: 0xffff_ffff };
    assert_eq!(
        PreeditStartReplyMessage::from(&fr),
        PreeditStartReplyMessage { input_method_id: 1, input_context_id: 2, return_value: -1 }
    );
    let fr = PreeditStartReplyFrame { input_method_id: 1, input_context_id: 2, return_value: 64 };
    assert_eq!(PreeditStartReplyMessage::from(&fr).return_value, 64);
}

#[test]
fn reset_reply_is_written_only_for_text() {
    assert_eq!(reset_ic_reply(ResetIcReplyMessage::default()), None);
    assert_eq!(reset_ic_reply(ResetIcReplyMessage { preedit_string: vec![] }), None);
    assert_eq!(
        reset_ic_reply(ResetIcReplyMessage { preedit_string: b"ab".to_vec() }),
        Some(ResetIcReplyFrame { byte_length_of_committed_string: 2, committed_string: vec![b'a', b'b', 0] })
    );
}

#[test]
fn reset_reply_length_is_cut_to_the_field() {
    let r = reset_ic_reply(ResetIcReplyMessage { preedit_string: vec![1; 65538] }).unwrap();
    assert_eq!(r.byte_length_of_committed_string, 2);
    assert_eq!(r.committed_string.len(), 65539);
    assert_eq!(r.committed_string[65538], 0);
}

#[test]
fn parse_gives_the_variant_of_each_table_entry() {
    let icf = IcFrame { input_method_id: 1, input_context_id: 2 };
    let ev = key_event();
    let cases: Vec<(u8, u8, RawFrame, MessageKind)> = vec![
        (1, 0, RawFrame::Connect(ConnectFrame { byte_order: 0, client_major_protocol_version: 1, client_minor_protocol_version: 0, client_auth_protocol_names: vec![] }), MessageKind::Connect),
        (3, 0, RawFrame::Disconnect, MessageKind::Disconnect),
        (30, 0, RawFrame::Open(OpenFrame { locale_name: b"en_US".to_vec() }), MessageKind::Open),
        (32, 0, RawFrame::Close(CloseFrame { input_method_id: 1 }), MessageKind::Close),
        (50, 0, RawFrame::CreateIc(CreateIcFrame { input_method_id: 1, ic_attributes: vec![] }, CreateIcReplyFrame { input_method_id: 1, input_context_id: 0 }), MessageKind::CreateIc),
        (54, 0, RawFrame::SetIcValues(SetIcValuesFrame { input_method_id: 1, input_context_id: 2, ic_attribute: vec![] }), MessageKind::SetIcValues),
        (56, 0, RawFrame::GetIcValues(GetIcValuesFrame { input_method_id: 1, input_context_id: 2, ic_attribute: vec![1, 2] }), MessageKind::GetIcValues),
        (58, 0, RawFrame::SetIcFocus(icf), MessageKind::SetIcFocus),
        (59, 0, RawFrame::UnsetIcFocus(icf), MessageKind::UnsetIcFocus),
        (52, 0, RawFrame::DestroyIc, MessageKind::DestroyIc),
        (64, 0, RawFrame::ResetIc(icf), MessageKind::ResetIc),
        (60, 0, RawFrame::ForwardEvent(ForwardEventFrame { input_method_id: 1, input_context_id: 2, flag: 1, sequence_number: 0 }, ev), MessageKind::ForwardEvent),
        (128, 0x32, RawFrame::ExtForwardKeyevent(ExtForwardKeyeventFrame { input_method_id: 1, input_context_id: 2, flag: 1, sequence_number: 0, event_type: 2, keycode: 3, state: 0, time: 0, window: 0 }, ev), MessageKind::ExtForwardKeyevent),
        (62, 0, RawFrame::SyncReply(icf), MessageKind::SyncReply),
        (35, 0, RawFrame::TriggerNotify(TriggerNotifyFrame { input_method_id: 1, input_context_id: 2, flag: 0, index_of_keys_list: 0, client_select_event_mask: 0 }), MessageKind::TriggerNotify),
        (74, 0, RawFrame::PreeditStartReply(PreeditStartReplyFrame { input_method_id: 1, input_context_id: 2, return_value: 0 }), MessageKind::PreeditStartReply),
        (77, 0, RawFrame::PreeditCaretReply(PreeditCaretReplyFrame { input_method_id: 1, input_context_id: 2, position: 3 }), MessageKind::PreeditCaretReply),
    ];
    for (major, minor, frame, kind) in cases {
        let a = args(major, minor, frame);
        assert_eq!(a.message_kind(), kind);
        let got = match parse_message(&a) {
            ImMessage::Connect(_) => MessageKind::Connect,
            ImMessage::Disconnect => MessageKind::Disconnect,
            ImMessage::Open(_) => MessageKind::Open,
            ImMessage::Close(_) => MessageKind::Close,
            ImMessage::CreateIc(_, _) => MessageKind::CreateIc,
            ImMessage::SetIcValues(_) => MessageKind::SetIcValues,
            ImMessage::GetIcValues(_) => MessageKind::GetIcValues,
            ImMessage::SetIcFocus(_) => MessageKind::SetIcFocus,
            ImMessage::UnsetIcFocus(_) => MessageKind::UnsetIcFocus,
            ImMessage::DestroyIc => MessageKind::DestroyIc,
            ImMessage::ResetIc(_) => MessageKind::ResetIc,
            ImMessage::ForwardEvent(_, _) => MessageKind::ForwardEvent,
            ImMessage::ExtForwardKeyevent(_, _) => MessageKind::ExtForwardKeyevent,
            ImMessage::SyncReply(_) => MessageKind::SyncReply,
            ImMessage::TriggerNotify(_) => MessageKind::TriggerNotify,
            ImMessage::PreeditStartReply(_) => MessageKind::PreeditStartReply,
            ImMessage::PreeditCaretReply(_) => MessageKind::PreeditCaretReply,
            ImMessage::Other { .. } => MessageKind::Unsupported,
        };
        assert_eq!(got, kind);
    }
}

#[test]
fn parse_carries_the_record_contents() {
    let a = args(
        50,
        0,
        RawFrame::CreateIc(
            CreateIcFrame {
                input_method_id: 9,
                ic_attributes: vec![XicAttributeFrame { attribute_id: 4, value: vec![1, 2] }],
            },
            CreateIcReplyFrame { input_method_id: 9, input_context_id: 0 },
        ),
    );
    match parse_message(&a) {
        ImMessage::CreateIc(m, reply) => {
            assert_eq!(m.input_method_id, 9);
            assert_eq!(m.ic_attributes.len(), 1);
            assert_eq!(m.ic_attributes[0].attribute_id, 4);
            assert_eq!(m.ic_attributes[0].value, &[1, 2]);
            assert_eq!(reply, CreateIcReplyFrame { input_method_id: 9, input_context_id: 0 });
        }
        other => panic!("unexpected {:?}", other),
    }
    let a = args(56, 0, RawFrame::GetIcValues(GetIcValuesFrame { input_method_id: 1, input_context_id: 2, ic_attribute: vec![7, 8, 9] }));
    match parse_message(&a) {
        ImMessage::GetIcValues(m) => {
            assert_eq!((m.input_method_id, m.input_context_id), (1, 2));
            assert_eq!(m.ic_attribute_id, &[7, 8, 9]);
        }
        other => panic!("unexpected {:?}", other),
    }
    let a = args(30, 0, RawFrame::Open(OpenFrame { locale_name: b"ja_JP".to_vec() }));
    match parse_message(&a) {
        ImMessage::Open(m) => assert_eq!(m.locale_name, b"ja_JP"),
        other => panic!("unexpected {:?}", other),
    }
    let ev = key_event();
    let a = args(60, 0, RawFrame::ForwardEvent(ForwardEventFrame { input_method_id: 1, input_context_id: 2, flag: 5, sequence_number: 3 }, ev));
    match parse_message(&a) {
        ImMessage::ForwardEvent(m, e) => {
            assert_eq!(m.flag, Decoded::Known(ForwardEventFlag::from_bits(5).unwrap()));
            assert_eq!(m.sequence_number, 3);
            assert_eq!(*e, ev);
        }
        other => panic!("unexpected {:?}", other),
    }
}

#[test]
fn parse_falls_back_for_unmapped_opcodes() {
    for (major, minor) in [(0u8, 0u8), (2, 0), (20, 0), (61, 0), (128, 0x30), (128, 0x33), (255, 255)] {
        for frame in [RawFrame::Unread, RawFrame::Disconnect, RawFrame::DestroyIc] {
            let a = args(major, minor, frame);
            match parse_message(&a) {
                ImMessage::Other { major_opcode, minor_opcode } => {
                    assert_eq!((major_opcode, minor_opcode), (major, minor));
                }
                other => panic!("unexpected {:?}", other),
            }
        }
    }
}

#[test]
fn parse_does_not_read_a_record_of_another_layout() {
    let a = args(52, 0, RawFrame::Disconnect);
    assert_eq!(a.message_kind(), MessageKind::Unsupported);
    assert!(matches!(parse_message(&a), ImMessage::Other { major_opcode: 52, minor_opcode: 0 }));
    let a = args(1, 0, RawFrame::Unread);
    assert!(matches!(parse_message(&a), ImMessage::Other { major_opcode: 1, minor_opcode: 0 }));
}

#[test]
fn check_frame_reports_fields_out_of_range() {
    let ev = key_event();
    let ok = RawFrame::ForwardEvent(ForwardEventFrame { input_method_id: 1, input_context_id: 2, flag: 7, sequence_number: 0 }, ev);
    assert_eq!(check_frame(&ok), None);
    let bad = RawFrame::ForwardEvent(ForwardEventFrame { input_method_id: 1, input_context_id: 2, flag: 8, sequence_number: 0 }, ev);
    assert_eq!(
        check_frame(&bad),
        Some(ImError::ProtocolInvariantViolation { field: ProtocolField::ForwardEventFlag, value: 8 })
    );
    let bad = RawFrame::ExtForwardKeyevent(
        ExtForwardKeyeventFrame { input_method_id: 1, input_context_id: 2, flag: 2, sequence_number: 0, event_type: 2, keycode: 3, state: 0, time: 0, window: 0 },
        ev,
    );
    assert_eq!(
        check_frame(&bad),
        Some(ImError::ProtocolInvariantViolation { field: ProtocolField::ExtForwardKeyeventFlag, value: 2 })
    );
    let bad = RawFrame::TriggerNotify(TriggerNotifyFrame { input_method_id: 1, input_context_id: 2, flag: 2, index_of_keys_list: 0, client_select_event_mask: 0 });
    assert_eq!(
        check_frame(&bad),
        Some(ImError::ProtocolInvariantViolation { field: ProtocolField::TriggerNotifyFlag, value: 2 })
    );
    let ok = RawFrame::TriggerNotify(TriggerNotifyFrame { input_method_id: 1, input_context_id: 2, flag: 1, index_of_keys_list: 0, client_select_event_mask: 0 });
    assert_eq!(check_frame(&ok), None);
    assert_eq!(check_frame(&RawFrame::Disconnect), None);
}
