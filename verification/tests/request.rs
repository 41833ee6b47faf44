use xcb_imdkit::imdkit::request::{
    feedback_byte_size, feedback_to_bits, PreeditCaretFrame, PreeditDrawFrame, StatusDrawBitmapFrame,
    StatusDrawTextFrame, XCB_XIM_LOOKUP_BOTH, XCB_XIM_LOOKUP_CHARS, XCB_XIM_LOOKUP_KEYSYM,
};
use xcb_imdkit::imdkit::{
    CaretDirection, CaretStyle, CommittedString, DrawStatus, Feedback, ImRequest, InputContext,
    PreeditCaretMessage, PreeditDrawMessage, StatusDrawBitmapMessage, StatusDrawTextMessage,
};

fn ic() -> InputContext {
    InputContext::from_ptr(0x500).unwrap()
}

#[test]
fn commit_of_a_keysym_alone_has_no_text() {
    let r = ImRequest::commit(ic(), &CommittedString::KeySym(0xff0d));
    assert_eq!(
        r,
        ImRequest::CommitString { ic: ic(), flag: 4, text: None, length: 0, keysym: 0xff0d }
    );
    assert_eq!(XCB_XIM_LOOKUP_KEYSYM, 4);
}

#[test]
fn commit_of_text_alone_has_keysym_zero() {
    let r = ImRequest::commit(ic(), &CommittedString::Chars(b"abc"));
    assert_eq!(
        r,
        ImRequest::CommitString { ic: ic(), flag: 2, text: Some(b"abc".to_vec()), length: 3, keysym: 0 }
    );
    assert_eq!(XCB_XIM_LOOKUP_CHARS, 2);
}

#[test]
fn commit_of_both_has_both() {
    let r = ImRequest::commit(ic(), &CommittedString::Both(0x61, b"a"));
    assert_eq!(
        r,
        ImRequest::CommitString { ic: ic(), flag: 6, text: Some(vec![0x61]), length: 1, keysym: 0x61 }
    );
    assert_eq!(XCB_XIM_LOOKUP_BOTH, 6);
}

#[test]
fn commit_of_empty_text_still_hands_over_a_buffer() {
    let r = ImRequest::commit(ic(), &CommittedString::Chars(b""));
    assert_eq!(
        r,
        ImRequest::CommitString { ic: ic(), flag: 2, text: Some(vec![]), length: 0, keysym: 0 }
    );
}

#[test]
fn request_names_its_input_context() {
    assert_eq!(ImRequest::GeometryCallback { ic: ic() }.input_context(), ic());
    assert_eq!(ImRequest::commit(ic(), &CommittedString::KeySym(1)).input_context(), ic());
    assert_eq!(ImRequest::SyncXlib { ic: ic() }.input_context(), ic());
}

#[test]
fn feedback_array_goes_out_as_numbers() {
    let f = [
        Feedback::from_bits_truncate(Feedback::UNDERLINE),
        Feedback::from_bits_truncate(Feedback::REVERSE | Feedback::HIGHLIGHT),
        Feedback::empty(),
    ];
    assert_eq!(feedback_to_bits(&f), vec![2, 5, 0]);
    assert_eq!(feedback_to_bits(&[]), Vec::<u32>::new());
}

#[test]
fn feedback_size_is_four_bytes_an_entry() {
    assert_eq!(feedback_byte_size(0), 0);
    assert_eq!(feedback_byte_size(1), 4);
    assert_eq!(feedback_byte_size(3), 12);
    assert_eq!(feedback_byte_size(0x4000_0000), 0);
    assert_eq!(feedback_byte_size(0x4000_0001), 4);
}

#[test]
fn preedit_draw_frame_from_message() {
    let feedback = [Feedback::from_bits_truncate(Feedback::UNDERLINE); 2];
    let msg = PreeditDrawMessage {
        caret: 2,
        chg_first: 0,
        chg_length: -1,
        status: DrawStatus::from_bits_truncate(DrawStatus::NO_FEEDBACK),
        preedit_string: b"hi",
        feedback_array: &feedback,
    };
    let fr = PreeditDrawFrame::new(&msg);
    assert_eq!(
        fr,
        PreeditDrawFrame {
            input_method_id: 0,
            input_context_id: 0,
            caret: 2,
            chg_first: 0,
            chg_length: 0xffff_ffff,
            status: 2,
            length_of_preedit_string: 2,
            preedit_string: b"hi".to_vec(),
            feedback_array_size: 8,
            feedback_array: vec![2, 2],
        }
    );
}

#[test]
fn preedit_caret_frame_from_message() {
    let msg = PreeditCaretMessage {
        position: -3,
        direction: CaretDirection::AbsolutePosition,
        style: CaretStyle::Secondary,
    };
    assert_eq!(
        PreeditCaretFrame::new(&msg),
        PreeditCaretFrame {
            input_method_id: 0,
            input_context_id: 0,
            position: 0xffff_fffd,
            direction: 10,
            style: 2,
        }
    );
}

#[test]
fn status_draw_text_frame_from_message() {
    let feedback = [Feedback::from_bits_truncate(Feedback::PRIMARY)];
    let msg = StatusDrawTextMessage {
        status: DrawStatus::empty(),
        status_string: b"status",
        feedback_array: &feedback,
    };
    assert_eq!(
        StatusDrawTextFrame::new(&msg),
        StatusDrawTextFrame {
            input_method_id: 0,
            input_context_id: 0,
            type_: 0,
            status: 0,
            length_of_status_string: 6,
            status_string: b"status".to_vec(),
            feedback_array_size: 4,
            feedback_array: vec![0x20],
        }
    );
}

#[test]
fn status_draw_bitmap_frame_from_message() {
    let msg = StatusDrawBitmapMessage { pixmap_data: 0x1234 };
    assert_eq!(
        StatusDrawBitmapFrame::new(&msg),
        StatusDrawBitmapFrame { input_method_id: 0, input_context_id: 0, type_: 1, pixmap_data: 0x1234 }
    );
}

#[test]
fn long_preedit_string_has_its_length_cut_to_the_field() {
    let text = vec![b'x'; 65537];
    let msg = PreeditDrawMessage {
        caret: 0,
        chg_first: 0,
        chg_length: 0,
        status: DrawStatus::empty(),
        preedit_string: &text,
        feedback_array: &[],
    };
    let fr = PreeditDrawFrame::new(&msg);
    assert_eq!(fr.length_of_preedit_string, 1);
    assert_eq!(fr.preedit_string.len(), 65537);
}
