use xcb_imdkit::imdkit::frame::{CloseFrame, IcFrame};
use xcb_imdkit::imdkit::{MessageKind, RawFrame};

fn table() -> Vec<(u8, MessageKind)> {
    vec![
        (1, MessageKind::Connect),
        (3, MessageKind::Disconnect),
        (30, MessageKind::Open),
        (32, MessageKind::Close),
        (35, MessageKind::TriggerNotify),
        (50, MessageKind::CreateIc),
        (52, MessageKind::DestroyIc),
        (54, MessageKind::SetIcValues),
        (56, MessageKind::GetIcValues),
        (58, MessageKind::SetIcFocus),
        (59, MessageKind::UnsetIcFocus),
        (60, MessageKind::ForwardEvent),
        (62, MessageKind::SyncReply),
        (64, MessageKind::ResetIc),
        (74, MessageKind::PreeditStartReply),
        (77, MessageKind::PreeditCaretReply),
    ]
}

#[test]
fn every_major_opcode_of_the_table_gives_its_kind() {
    for (major, kind) in table() {
        for minor in [0u8, 1, 0x32, 255] {
            assert_eq!(MessageKind::from_opcodes(major, minor), kind);
        }
    }
}

#[test]
fn extension_opcode_goes_by_its_minor_opcode() {
    assert_eq!(MessageKind::from_opcodes(128, 0x32), MessageKind::ExtForwardKeyevent);
    for minor in 0..=255u8 {
        if minor != 0x32 {
            assert_eq!(MessageKind::from_opcodes(128, minor), MessageKind::Unsupported);
        }
    }
}

#[test]
fn every_other_opcode_is_unsupported() {
    let known: Vec<u8> = table().iter().map(|(m, _)| *m).collect();
    for major in 0..=255u8 {
        if !known.contains(&major) && major != 128 {
            assert_eq!(MessageKind::from_opcodes(major, 0), MessageKind::Unsupported);
            assert_eq!(MessageKind::from_opcodes(major, 0x32), MessageKind::Unsupported);
        }
    }
}

#[test]
fn raw_frame_layout_names_its_kind() {
    assert_eq!(RawFrame::Disconnect.layout(), MessageKind::Disconnect);
    assert_eq!(RawFrame::DestroyIc.layout(), MessageKind::DestroyIc);
    assert_eq!(RawFrame::Unread.layout(), MessageKind::Unsupported);
    assert_eq!(RawFrame::Close(CloseFrame { input_method_id: 1 }).layout(), MessageKind::Close);
    let fr = IcFrame { input_method_id: 1, input_context_id: 2 };
    assert_eq!(RawFrame::SetIcFocus(fr).layout(), MessageKind::SetIcFocus);
    assert_eq!(RawFrame::UnsetIcFocus(fr).layout(), MessageKind::UnsetIcFocus);
    assert_eq!(RawFrame::ResetIc(fr).layout(), MessageKind::ResetIc);
    assert_eq!(RawFrame::SyncReply(fr).layout(), MessageKind::SyncReply);
}
