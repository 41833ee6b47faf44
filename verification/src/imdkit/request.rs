//! The requests that this layer hands to the native engine.
//!
//! A request is a plain value: every field of it is what the engine's call
//! takes. The layer decides which request is made and what it holds; the code
//! around the library makes the call.

use vstd::prelude::*;
use vstd::slice::slice_to_vec;
use crate::imdkit::data_types::{
    PreeditCaretMessage,
    PreeditDrawMessage,
    StatusDrawBitmapMessage,
    StatusDrawTextMessage,
};
use crate::imdkit::flags::Feedback;
use crate::imdkit::frame::KeyPressEvent;
use crate::imdkit::input_context::InputContext;
use crate::imdkit::wire::{i32_to_u32, len_to_u16, len_to_u32, low_u16, low_u32, u32_of_i32};

verus! {

/// The commit carries text.
pub const XCB_XIM_LOOKUP_CHARS: u32 = 2;
/// The commit carries a key symbol.
pub const XCB_XIM_LOOKUP_KEYSYM: u32 = 4;
/// The commit carries both text and a key symbol.
pub const XCB_XIM_LOOKUP_BOTH: u32 = 6;
/// The status is drawn as text.
pub const XCB_IM_TEXT_TYPE: u32 = 0;
/// The status is drawn as a bitmap.
pub const XCB_IM_BITMAP_TYPE: u32 = 1;

/// What is committed to the client: a key symbol, text, or both.
#[derive(Debug, Clone, Copy)]
pub enum CommittedString<'a> {
    KeySym(u32),
    Chars(&'a [u8]),
    Both(u32, &'a [u8]),
}

/// The engine's record of a preedit draw callback. The two identifiers are
/// left at zero: the engine fills them in.
#[derive(Debug, Clone, PartialEq, Eq)]
pub struct PreeditDrawFrame {
    pub input_method_id: u16,
    pub input_context_id: u16,
    pub caret: u32,
    pub chg_first: u32,
    pub chg_length: u32,
    pub status: u32,
    pub length_of_preedit_string: u16,
    pub preedit_string: Vec<u8>,
    pub feedback_array_size: u32,
    pub feedback_array: Vec<u32>,
}

/// A preedit draw record as a mathematical value.
pub struct PreeditDrawFrameView {
    pub input_method_id: u16,
    pub input_context_id: u16,
    pub caret: u32,
    pub chg_first: u32,
    pub chg_length: u32,
    pub status: u32,
    pub length_of_preedit_string: u16,
    pub preedit_string: Seq<u8>,
    pub feedback_array_size: u32,
    pub feedback_array: Seq<u32>,
}

impl View for PreeditDrawFrame {
    type V = PreeditDrawFrameView;

    open spec fn view(&self) -> PreeditDrawFrameView {
        PreeditDrawFrameView {
            input_method_id: self.input_method_id,
            input_context_id: self.input_context_id,
            caret: self.caret,
            chg_first: self.chg_first,
            chg_length: self.chg_length,
            status: self.status,
            length_of_preedit_string: self.length_of_preedit_string,
            preedit_string: self.preedit_string@,
            feedback_array_size: self.feedback_array_size,
            feedback_array: self.feedback_array@,
        }
    }
}

/// The engine's record of a preedit caret callback.
#[derive(Debug, Clone, Copy, PartialEq, Eq, Structural)]
pub struct PreeditCaretFrame {
    pub input_method_id: u16,
    pub input_context_id: u16,
    pub position: u32,
    pub direction: u32,
    pub style: u32,
}

/// The engine's record of a status draw callback with text.
#[derive(Debug, Clone, PartialEq, Eq)]
pub struct StatusDrawTextFrame {
    pub input_method_id: u16,
    pub input_context_id: u16,
    pub type_: u32,
    pub status: u32,
    pub length_of_status_string: u16,
    pub status_string: Vec<u8>,
    pub feedback_array_size: u32,
    pub feedback_array: Vec<u32>,
}

/// A status draw record with text as a mathematical value.
pub struct StatusDrawTextFrameView {
    pub input_method_id: u16,
    pub input_context_id: u16,
    pub type_: u32,
    pub status: u32,
    pub length_of_status_string: u16,
    pub status_string: Seq<u8>,
    pub feedback_array_size: u32,
    pub feedback_array: Seq<u32>,
}

impl View for StatusDrawTextFrame {
    type V = StatusDrawTextFrameView;

    open spec fn view(&self) -> StatusDrawTextFrameView {
        StatusDrawTextFrameView {
            input_method_id: self.input_method_id,
            input_context_id: self.input_context_id,
            type_: self.type_,
            status: self.status,
            length_of_status_string: self.length_of_status_string,
            status_string: self.status_string@,
            feedback_array_size: self.feedback_array_size,
            feedback_array: self.feedback_array@,
        }
    }
}

/// The engine's record of a status draw callback with a bitmap.
#[derive(Debug, Clone, Copy, PartialEq, Eq, Structural)]
pub struct StatusDrawBitmapFrame {
    pub input_method_id: u16,
    pub input_context_id: u16,
    pub type_: u32,
    pub pixmap_data: xcb::Pixmap,
}

/// The numbers of a feedback array, in order.
pub open spec fn feedback_bits(feedback: Seq<Feedback>) -> Seq<u32> {
    feedback.map_values(|f: Feedback| f@)
}

/// The size in bytes of a feedback array of `n` entries, as the engine's
/// 32-bit field holds it.
pub open spec fn feedback_size(n: nat) -> u32 {
    low_u32(4 * n)
}

/// The record that asks the client to draw the preedit change `msg`.
pub open spec fn preedit_draw_frame(msg: PreeditDrawMessage<'_>) -> PreeditDrawFrameView {
    PreeditDrawFrameView {
        input_method_id: 0,
        input_context_id: 0,
        caret: u32_of_i32(msg.caret),
        chg_first: u32_of_i32(msg.chg_first),
        chg_length: u32_of_i32(msg.chg_length),
        status: msg.status@,
        length_of_preedit_string: low_u16(msg.preedit_string@.len()),
        preedit_string: msg.preedit_string@,
        feedback_array_size: feedback_size(msg.feedback_array@.len()),
        feedback_array: feedback_bits(msg.feedback_array@),
    }
}

/// The record that asks the client to move the preedit caret as `msg` says.
pub open spec fn preedit_caret_frame(msg: PreeditCaretMessage) -> PreeditCaretFrame {
    PreeditCaretFrame {
        input_method_id: 0,
        input_context_id: 0,
        position: u32_of_i32(msg.position),
        direction: msg.direction.code(),
        style: msg.style.code(),
    }
}

/// The record that asks the client to draw the status text `msg`.
pub open spec fn status_draw_text_frame(msg: StatusDrawTextMessage<'_>) -> StatusDrawTextFrameView {
    StatusDrawTextFrameView {
        input_method_id: 0,
        input_context_id: 0,
        type_: XCB_IM_TEXT_TYPE,
        status: msg.status@,
        length_of_status_string: low_u16(msg.status_string@.len()),
        status_string: msg.status_string@,
        feedback_array_size: feedback_size(msg.feedback_array@.len()),
        feedback_array: feedback_bits(msg.feedback_array@),
    }
}

/// The record that asks the client to draw the status bitmap `msg`.
pub open spec fn status_draw_bitmap_frame(msg: StatusDrawBitmapMessage) -> StatusDrawBitmapFrame {
    StatusDrawBitmapFrame {
        input_method_id: 0,
        input_context_id: 0,
        type_: XCB_IM_BITMAP_TYPE,
        pixmap_data: msg.pixmap_data,
    }
}

/// The numbers of a feedback array, in order.
pub fn feedback_to_bits(feedback: &[Feedback]) -> (r: Vec<u32>)
    ensures
        r@ == feedback_bits(feedback@),
{
    let mut bits: Vec<u32> = Vec::new();
    let mut i: usize = 0;
    while i < feedback.len()
        invariant
            i <= feedback.len(),
            bits@ == feedback_bits(feedback@.subrange(0, i as int)),
        decreases feedback.len() - i,
    {
        bits.push(feedback[i].bits());
        proof {
            assert(feedback@.subrange(0, i + 1) == feedback@.subrange(0, i as int).push(
                feedback@[i as int],
            ));
        }
        i = i + 1;
    }
    proof {
        assert(feedback@.subrange(0, i as int) == feedback@);
    }
    bits
}

/// The size in bytes of a feedback array of `n` entries, as the engine's
/// 32-bit field holds it.
pub fn feedback_byte_size(n: usize) -> (r: u32)
    ensures
        r == feedback_size(n as nat),
{
    let low: u64 = (n as u64) % 0x1_0000_0000;
    let bytes: u64 = (4 * low) % 0x1_0000_0000;
    proof {
        vstd::arithmetic::div_mod::lemma_mul_mod_noop_right(4, n as int, 0x1_0000_0000);
    }
    bytes as u32
}

impl PreeditDrawFrame {
    /// The record that asks the client to draw the preedit change `msg`.
    pub fn new(msg: &PreeditDrawMessage<'_>) -> (r: Self)
        ensures
            r@ == preedit_draw_frame(*msg),
    {
        PreeditDrawFrame {
            input_method_id: 0,
            input_context_id: 0,
            caret: i32_to_u32(msg.caret),
            chg_first: i32_to_u32(msg.chg_first),
            chg_length: i32_to_u32(msg.chg_length),
            status: msg.status.bits(),
            length_of_preedit_string: len_to_u16(msg.preedit_string.len()),
            preedit_string: slice_to_vec(msg.preedit_string),
            feedback_array_size: feedback_byte_size(msg.feedback_array.len()),
            feedback_array: feedback_to_bits(msg.feedback_array),
        }
    }
}

impl PreeditCaretFrame {
    /// The record that asks the client to move the preedit caret as `msg`
    /// says.
    pub fn new(msg: &PreeditCaretMessage) -> (r: Self)
        ensures
            r == preedit_caret_frame(*msg),
    {
        PreeditCaretFrame {
            input_method_id: 0,
            input_context_id: 0,
            position: i32_to_u32(msg.position),
            direction: msg.direction.to_u32(),
            style: msg.style.to_u32(),
        }
    }
}

impl StatusDrawTextFrame {
    /// The record that asks the client to draw the status text `msg`.
    pub fn new(msg: &StatusDrawTextMessage<'_>) -> (r: Self)
        ensures
            r@ == status_draw_text_frame(*msg),
    {
        StatusDrawTextFrame {
            input_method_id: 0,
            input_context_id: 0,
            type_: XCB_IM_TEXT_TYPE,
            status: msg.status.bits(),
            length_of_status_string: len_to_u16(msg.status_string.len()),
            status_string: slice_to_vec(msg.status_string),
            feedback_array_size: feedback_byte_size(msg.feedback_array.len()),
            feedback_array: feedback_to_bits(msg.feedback_array),
        }
    }
}

impl StatusDrawBitmapFrame {
    /// The record that asks the client to draw the status bitmap `msg`.
    pub fn new(msg: &StatusDrawBitmapMessage) -> (r: Self)
        ensures
            r == status_draw_bitmap_frame(*msg),
    {
        StatusDrawBitmapFrame {
            input_method_id: 0,
            input_context_id: 0,
            type_: XCB_IM_BITMAP_TYPE,
            pixmap_data: msg.pixmap_data,
        }
    }
}

/// One request to the native engine. Each names the input context that it is
/// about.
#[derive(Debug, Clone, PartialEq, Eq)]
pub enum ImRequest {
    ForwardEvent { ic: InputContext, event: KeyPressEvent },
    /// `text` is `None` where the engine is to get a null pointer.
    CommitString { ic: InputContext, flag: u32, text: Option<Vec<u8>>, length: u32, keysym: u32 },
    GeometryCallback { ic: InputContext },
    PreeditStartCallback { ic: InputContext },
    PreeditDrawCallback { ic: InputContext, frame: PreeditDrawFrame },
    PreeditCaretCallback { ic: InputContext, frame: PreeditCaretFrame },
    PreeditDoneCallback { ic: InputContext },
    StatusStartCallback { ic: InputContext },
    StatusDrawTextCallback { ic: InputContext, frame: StatusDrawTextFrame },
    StatusDrawBitmapCallback { ic: InputContext, frame: StatusDrawBitmapFrame },
    StatusDoneCallback { ic: InputContext },
    PreeditStart { ic: InputContext },
    PreeditEnd { ic: InputContext },
    SyncXlib { ic: InputContext },
}

/// A request as a mathematical value.
pub enum ImRequestView {
    ForwardEvent { ic: InputContext, event: KeyPressEvent },
    CommitString { ic: InputContext, flag: u32, text: Option<Seq<u8>>, length: u32, keysym: u32 },
    GeometryCallback { ic: InputContext },
    PreeditStartCallback { ic: InputContext },
    PreeditDrawCallback { ic: InputContext, frame: PreeditDrawFrameView },
    PreeditCaretCallback { ic: InputContext, frame: PreeditCaretFrame },
    PreeditDoneCallback { ic: InputContext },
    StatusStartCallback { ic: InputContext },
    StatusDrawTextCallback { ic: InputContext, frame: StatusDrawTextFrameView },
    StatusDrawBitmapCallback { ic: InputContext, frame: StatusDrawBitmapFrame },
    StatusDoneCallback { ic: InputContext },
    PreeditStart { ic: InputContext },
    PreeditEnd { ic: InputContext },
    SyncXlib { ic: InputContext },
}

impl View for ImRequest {
    type V = ImRequestView;

    open spec fn view(&self) -> ImRequestView {
        match self {
            ImRequest::ForwardEvent { ic, event } => ImRequestView::ForwardEvent {
                ic: *ic,
                event: *event,
            },
            ImRequest::CommitString { ic, flag, text, length, keysym } => ImRequestView::CommitString {
                ic: *ic,
                flag: *flag,
                text: match text {
                    Some(t) => Some(t@),
                    None => None,
                },
                length: *length,
                keysym: *keysym,
            },
            ImRequest::GeometryCallback { ic } => ImRequestView::GeometryCallback { ic: *ic },
            ImRequest::PreeditStartCallback { ic } => ImRequestView::PreeditStartCallback { ic: *ic },
            ImRequest::PreeditDrawCallback { ic, frame } => ImRequestView::PreeditDrawCallback {
                ic: *ic,
                frame: frame@,
            },
            ImRequest::PreeditCaretCallback { ic, frame } => ImRequestView::PreeditCaretCallback {
                ic: *ic,
                frame: *frame,
            },
            ImRequest::PreeditDoneCallback { ic } => ImRequestView::PreeditDoneCallback { ic: *ic },
            ImRequest::StatusStartCallback { ic } => ImRequestView::StatusStartCallback { ic: *ic },
            ImRequest::StatusDrawTextCallback { ic, frame } => ImRequestView::StatusDrawTextCallback {
                ic: *ic,
                frame: frame@,
            },
            ImRequest::StatusDrawBitmapCallback { ic, frame } => ImRequestView::StatusDrawBitmapCallback {
                ic: *ic,
                frame: *frame,
            },
            ImRequest::StatusDoneCallback { ic } => ImRequestView::StatusDoneCallback { ic: *ic },
            ImRequest::PreeditStart { ic } => ImRequestView::PreeditStart { ic: *ic },
            ImRequest::PreeditEnd { ic } => ImRequestView::PreeditEnd { ic: *ic },
            ImRequest::SyncXlib { ic } => ImRequestView::SyncXlib { ic: *ic },
        }
    }
}

impl ImRequestView {
    /// The input context that the request is about.
    pub open spec fn target(self) -> InputContext {
        match self {
            ImRequestView::ForwardEvent { ic, .. } => ic,
            ImRequestView::CommitString { ic, .. } => ic,
            ImRequestView::GeometryCallback { ic } => ic,
            ImRequestView::PreeditStartCallback { ic } => ic,
            ImRequestView::PreeditDrawCallback { ic, .. } => ic,
            ImRequestView::PreeditCaretCallback { ic, .. } => ic,
            ImRequestView::PreeditDoneCallback { ic } => ic,
            ImRequestView::StatusStartCallback { ic } => ic,
            ImRequestView::StatusDrawTextCallback { ic, .. } => ic,
            ImRequestView::StatusDrawBitmapCallback { ic, .. } => ic,
            ImRequestView::StatusDoneCallback { ic } => ic,
            ImRequestView::PreeditStart { ic } => ic,
            ImRequestView::PreeditEnd { ic } => ic,
            ImRequestView::SyncXlib { ic } => ic,
        }
    }
}

impl ImRequest {
    /// The input context that the request is about.
    pub fn input_context(&self) -> (r: InputContext)
        ensures
            r == self@.target(),
    {
        match self {
            ImRequest::ForwardEvent { ic, .. } => *ic,
            ImRequest::CommitString { ic, .. } => *ic,
            ImRequest::GeometryCallback { ic } => *ic,
            ImRequest::PreeditStartCallback { ic } => *ic,
            ImRequest::PreeditDrawCallback { ic, .. } => *ic,
            ImRequest::PreeditCaretCallback { ic, .. } => *ic,
            ImRequest::PreeditDoneCallback { ic } => *ic,
            ImRequest::StatusStartCallback { ic } => *ic,
            ImRequest::StatusDrawTextCallback { ic, .. } => *ic,
            ImRequest::StatusDrawBitmapCallback { ic, .. } => *ic,
            ImRequest::StatusDoneCallback { ic } => *ic,
            ImRequest::PreeditStart { ic } => *ic,
            ImRequest::PreeditEnd { ic } => *ic,
            ImRequest::SyncXlib { ic } => *ic,
        }
    }

    /// The request that commits `committed` to the context `ic`.
    pub fn commit(ic: InputContext, committed: &CommittedString<'_>) -> (r: Self)
        ensures
            r@ == commit_request(ic, *committed),
    {
        match committed {
            CommittedString::KeySym(keysym) => ImRequest::CommitString {
                ic,
                flag: XCB_XIM_LOOKUP_KEYSYM,
                text: None,
                length: 0,
                keysym: *keysym,
            },
            CommittedString::Chars(text) => ImRequest::CommitString {
                ic,
                flag: XCB_XIM_LOOKUP_CHARS,
                text: Some(slice_to_vec(text)),
                length: len_to_u32(text.len()),
                keysym: 0,
            },
            CommittedString::Both(keysym, text) => ImRequest::CommitString {
                ic,
                flag: XCB_XIM_LOOKUP_BOTH,
                text: Some(slice_to_vec(text)),
                length: len_to_u32(text.len()),
                keysym: *keysym,
            },
        }
    }
}

/// The request that commits `committed` to the context `ic`.
///
/// Text that is absent goes out as no buffer at all with length zero, and a
/// key symbol that is absent goes out as zero.
pub open spec fn commit_request(ic: InputContext, committed: CommittedString<'_>) -> ImRequestView {
    match committed {
        CommittedString::KeySym(keysym) => ImRequestView::CommitString {
            ic,
            flag: XCB_XIM_LOOKUP_KEYSYM,
            text: None,
            length: 0,
            keysym,
        },
        CommittedString::Chars(text) => ImRequestView::CommitString {
            ic,
            flag: XCB_XIM_LOOKUP_CHARS,
            text: Some(text@),
            length: low_u32(text@.len()),
            keysym: 0,
        },
        CommittedString::Both(keysym, text) => ImRequestView::CommitString {
            ic,
            flag: XCB_XIM_LOOKUP_BOTH,
            text: Some(text@),
            length: low_u32(text@.len()),
            keysym,
        },
    }
}

/// A commit selects exactly one of the three payload shapes, and the shape
/// decides which fields are filled: a key symbol alone leaves the text absent
/// with length zero, text alone leaves the key symbol at zero, and both fill
/// both.
pub proof fn lemma_commit_selection(ic: InputContext, committed: CommittedString<'_>)
    ensures
        commit_request(ic, committed) matches ImRequestView::CommitString {
            ic: target,
            flag,
            text,
            length,
            keysym,
        } && {
            &&& target == ic
            &&& flag == XCB_XIM_LOOKUP_KEYSYM || flag == XCB_XIM_LOOKUP_CHARS || flag
                == XCB_XIM_LOOKUP_BOTH
            &&& flag == XCB_XIM_LOOKUP_KEYSYM <==> committed is KeySym
            &&& flag == XCB_XIM_LOOKUP_CHARS <==> committed is Chars
            &&& flag == XCB_XIM_LOOKUP_BOTH <==> committed is Both
            &&& committed matches CommittedString::KeySym(k) ==> text is None && length == 0
                && keysym == k
            &&& committed matches CommittedString::Chars(t) ==> text == Some(t@) && length
                == low_u32(t@.len()) && keysym == 0
            &&& committed matches CommittedString::Both(k, t) ==> text == Some(t@) && length
                == low_u32(t@.len()) && keysym == k
            &&& text is None ==> length == 0
        },
{
}

} // verus!
