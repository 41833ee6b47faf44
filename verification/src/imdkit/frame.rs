//! The records that the native engine hands over with each protocol event,
//! held as plain values.
//!
//! The engine has decoded the wire format already. What is left of a record
//! here is what it holds: the numbers as they are, and each counted buffer as
//! a vector of that length.

use vstd::prelude::*;

verus! {

/// The operation codes of the protocol that this layer dispatches on.
pub const XCB_XIM_CONNECT: u8 = 1;
pub const XCB_XIM_DISCONNECT: u8 = 3;
pub const XCB_XIM_OPEN: u8 = 30;
pub const XCB_XIM_CLOSE: u8 = 32;
pub const XCB_XIM_TRIGGER_NOTIFY: u8 = 35;
pub const XCB_XIM_CREATE_IC: u8 = 50;
pub const XCB_XIM_DESTROY_IC: u8 = 52;
pub const XCB_XIM_SET_IC_VALUES: u8 = 54;
pub const XCB_XIM_GET_IC_VALUES: u8 = 56;
pub const XCB_XIM_SET_IC_FOCUS: u8 = 58;
pub const XCB_XIM_UNSET_IC_FOCUS: u8 = 59;
pub const XCB_XIM_FORWARD_EVENT: u8 = 60;
pub const XCB_XIM_SYNC_REPLY: u8 = 62;
pub const XCB_XIM_RESET_IC: u8 = 64;
pub const XCB_XIM_PREEDIT_START_REPLY: u8 = 74;
pub const XCB_XIM_PREEDIT_CARET_REPLY: u8 = 77;
/// The major code under which every extension message travels.
pub const XCB_XIM_EXTENSION: u8 = 128;
/// The minor code of a key event forwarded through the extension.
pub const XCB_XIM_EXT_FORWARD_KEYEVENT: u8 = 0x32;

/// The kinds of message that the engine reports, and `Unsupported` for every
/// operation code outside that set.
#[derive(Debug, Clone, Copy, PartialEq, Eq, Structural, Hash)]
pub enum MessageKind {
    Connect,
    Disconnect,
    Open,
    Close,
    CreateIc,
    SetIcValues,
    GetIcValues,
    SetIcFocus,
    UnsetIcFocus,
    DestroyIc,
    ResetIc,
    ForwardEvent,
    ExtForwardKeyevent,
    SyncReply,
    TriggerNotify,
    PreeditStartReply,
    PreeditCaretReply,
    Unsupported,
}

impl MessageKind {
    /// The table from operation codes to message kinds. The minor code counts
    /// under the extension major code only.
    pub open spec fn of(major_opcode: u8, minor_opcode: u8) -> MessageKind {
        if major_opcode == XCB_XIM_CONNECT {
            MessageKind::Connect
        } else if major_opcode == XCB_XIM_DISCONNECT {
            MessageKind::Disconnect
        } else if major_opcode == XCB_XIM_OPEN {
            MessageKind::Open
        } else if major_opcode == XCB_XIM_CLOSE {
            MessageKind::Close
        } else if major_opcode == XCB_XIM_CREATE_IC {
            MessageKind::CreateIc
        } else if major_opcode == XCB_XIM_SET_IC_VALUES {
            MessageKind::SetIcValues
        } else if major_opcode == XCB_XIM_GET_IC_VALUES {
            MessageKind::GetIcValues
        } else if major_opcode == XCB_XIM_SET_IC_FOCUS {
            MessageKind::SetIcFocus
        } else if major_opcode == XCB_XIM_UNSET_IC_FOCUS {
            MessageKind::UnsetIcFocus
        } else if major_opcode == XCB_XIM_DESTROY_IC {
            MessageKind::DestroyIc
        } else if major_opcode == XCB_XIM_RESET_IC {
            MessageKind::ResetIc
        } else if major_opcode == XCB_XIM_FORWARD_EVENT {
            MessageKind::ForwardEvent
        } else if major_opcode == XCB_XIM_EXTENSION && minor_opcode
            == XCB_XIM_EXT_FORWARD_KEYEVENT {
            MessageKind::ExtForwardKeyevent
        } else if major_opcode == XCB_XIM_SYNC_REPLY {
            MessageKind::SyncReply
        } else if major_opcode == XCB_XIM_TRIGGER_NOTIFY {
            MessageKind::TriggerNotify
        } else if major_opcode == XCB_XIM_PREEDIT_START_REPLY {
            MessageKind::PreeditStartReply
        } else if major_opcode == XCB_XIM_PREEDIT_CARET_REPLY {
            MessageKind::PreeditCaretReply
        } else {
            MessageKind::Unsupported
        }
    }

    /// The kind of message that a pair of operation codes announces.
    pub fn from_opcodes(major_opcode: u8, minor_opcode: u8) -> (r: MessageKind)
        ensures
            r == MessageKind::of(major_opcode, minor_opcode),
    {
        match (major_opcode, minor_opcode) {
            (XCB_XIM_CONNECT, _) => MessageKind::Connect,
            (XCB_XIM_DISCONNECT, _) => MessageKind::Disconnect,
            (XCB_XIM_OPEN, _) => MessageKind::Open,
            (XCB_XIM_CLOSE, _) => MessageKind::Close,
            (XCB_XIM_CREATE_IC, _) => MessageKind::CreateIc,
            (XCB_XIM_SET_IC_VALUES, _) => MessageKind::SetIcValues,
            (XCB_XIM_GET_IC_VALUES, _) => MessageKind::GetIcValues,
            (XCB_XIM_SET_IC_FOCUS, _) => MessageKind::SetIcFocus,
            (XCB_XIM_UNSET_IC_FOCUS, _) => MessageKind::UnsetIcFocus,
            (XCB_XIM_DESTROY_IC, _) => MessageKind::DestroyIc,
            (XCB_XIM_RESET_IC, _) => MessageKind::ResetIc,
            (XCB_XIM_FORWARD_EVENT, _) => MessageKind::ForwardEvent,
            (XCB_XIM_EXTENSION, XCB_XIM_EXT_FORWARD_KEYEVENT) => MessageKind::ExtForwardKeyevent,
            (XCB_XIM_SYNC_REPLY, _) => MessageKind::SyncReply,
            (XCB_XIM_TRIGGER_NOTIFY, _) => MessageKind::TriggerNotify,
            (XCB_XIM_PREEDIT_START_REPLY, _) => MessageKind::PreeditStartReply,
            (XCB_XIM_PREEDIT_CARET_REPLY, _) => MessageKind::PreeditCaretReply,
            _ => MessageKind::Unsupported,
        }
    }

    /// Whether a message of this kind is about one input context, which the
    /// engine names with the event.
    pub open spec fn needs_input_context(self) -> bool {
        match self {
            MessageKind::Connect
            | MessageKind::Disconnect
            | MessageKind::Open
            | MessageKind::Close
            | MessageKind::Unsupported => false,
            _ => true,
        }
    }

    /// Each kind but `Unsupported` has exactly one major code, and the minor
    /// code decides under the extension major code alone.
    pub proof fn lemma_table(major_opcode: u8, minor_opcode: u8, other_minor: u8)
        ensures
            major_opcode != XCB_XIM_EXTENSION ==> MessageKind::of(major_opcode, minor_opcode)
                == MessageKind::of(major_opcode, other_minor),
            MessageKind::of(major_opcode, minor_opcode) == MessageKind::ExtForwardKeyevent <==> (
            major_opcode == XCB_XIM_EXTENSION && minor_opcode == XCB_XIM_EXT_FORWARD_KEYEVENT),
            MessageKind::of(major_opcode, minor_opcode) == MessageKind::Connect <==> major_opcode == 1,
            MessageKind::of(major_opcode, minor_opcode) == MessageKind::Disconnect <==> major_opcode
                == 3,
            MessageKind::of(major_opcode, minor_opcode) == MessageKind::Open <==> major_opcode == 30,
            MessageKind::of(major_opcode, minor_opcode) == MessageKind::Close <==> major_opcode == 32,
            MessageKind::of(major_opcode, minor_opcode) == MessageKind::TriggerNotify <==> major_opcode
                == 35,
            MessageKind::of(major_opcode, minor_opcode) == MessageKind::CreateIc <==> major_opcode
                == 50,
            MessageKind::of(major_opcode, minor_opcode) == MessageKind::DestroyIc <==> major_opcode
                == 52,
            MessageKind::of(major_opcode, minor_opcode) == MessageKind::SetIcValues <==> major_opcode
                == 54,
            MessageKind::of(major_opcode, minor_opcode) == MessageKind::GetIcValues <==> major_opcode
                == 56,
            MessageKind::of(major_opcode, minor_opcode) == MessageKind::SetIcFocus <==> major_opcode
                == 58,
            MessageKind::of(major_opcode, minor_opcode) == MessageKind::UnsetIcFocus <==> major_opcode
                == 59,
            MessageKind::of(major_opcode, minor_opcode) == MessageKind::ForwardEvent <==> major_opcode
                == 60,
            MessageKind::of(major_opcode, minor_opcode) == MessageKind::SyncReply <==> major_opcode
                == 62,
            MessageKind::of(major_opcode, minor_opcode) == MessageKind::ResetIc <==> major_opcode
                == 64,
            MessageKind::of(major_opcode, minor_opcode) == MessageKind::PreeditStartReply
                <==> major_opcode == 74,
            MessageKind::of(major_opcode, minor_opcode) == MessageKind::PreeditCaretReply
                <==> major_opcode == 77,
    {
    }
}

/// A key press or release as the display server reports it. The layer passes
/// it on untouched.
#[derive(Debug, Clone, Copy, PartialEq, Eq, Structural, Hash)]
pub struct KeyPressEvent {
    pub response_type: u8,
    pub detail: xcb::Keycode,
    pub sequence: u16,
    pub time: xcb::Timestamp,
    pub root: xcb::Window,
    pub event: xcb::Window,
    pub child: xcb::Window,
    pub root_x: i16,
    pub root_y: i16,
    pub event_x: i16,
    pub event_y: i16,
    pub state: u16,
    pub same_screen: u8,
}

/// The record of a connection request.
#[derive(Debug, Clone, PartialEq, Eq)]
pub struct ConnectFrame {
    pub byte_order: u8,
    pub client_major_protocol_version: u16,
    pub client_minor_protocol_version: u16,
    pub client_auth_protocol_names: Vec<Vec<u8>>,
}

/// The record of a request to open the input method for a locale.
#[derive(Debug, Clone, PartialEq, Eq)]
pub struct OpenFrame {
    pub locale_name: Vec<u8>,
}

/// One input-context attribute as the engine delivers it.
#[derive(Debug, Clone, PartialEq, Eq)]
pub struct XicAttributeFrame {
    pub attribute_id: u16,
    pub value: Vec<u8>,
}

/// The record of a request to create an input context.
#[derive(Debug, Clone, PartialEq, Eq)]
pub struct CreateIcFrame {
    pub input_method_id: u16,
    pub ic_attributes: Vec<XicAttributeFrame>,
}

/// The record of a request to set attributes of an input context.
#[derive(Debug, Clone, PartialEq, Eq)]
pub struct SetIcValuesFrame {
    pub input_method_id: u16,
    pub input_context_id: u16,
    pub ic_attribute: Vec<XicAttributeFrame>,
}

/// The record of a request for attributes of an input context.
#[derive(Debug, Clone, PartialEq, Eq)]
pub struct GetIcValuesFrame {
    pub input_method_id: u16,
    pub input_context_id: u16,
    pub ic_attribute: Vec<u16>,
}

/// The record that comes with a forwarded event.
#[derive(Debug, Clone, Copy, PartialEq, Eq, Structural)]
pub struct ForwardEventFrame {
    pub input_method_id: u16,
    pub input_context_id: u16,
    pub flag: u16,
    pub sequence_number: u16,
}

/// The record of a key event forwarded through the extension.
#[derive(Debug, Clone, Copy, PartialEq, Eq, Structural)]
pub struct ExtForwardKeyeventFrame {
    pub input_method_id: u16,
    pub input_context_id: u16,
    pub flag: u16,
    pub sequence_number: u16,
    pub event_type: u8,
    pub keycode: u8,
    pub state: u16,
    pub time: u32,
    pub window: u32,
}

/// The record of a trigger notification.
#[derive(Debug, Clone, Copy, PartialEq, Eq, Structural)]
pub struct TriggerNotifyFrame {
    pub input_method_id: u16,
    pub input_context_id: u16,
    pub flag: u32,
    pub index_of_keys_list: u32,
    pub client_select_event_mask: u32,
}

/// The record of a client's reply to a preedit start callback.
#[derive(Debug, Clone, Copy, PartialEq, Eq, Structural)]
pub struct PreeditStartReplyFrame {
    pub input_method_id: u16,
    pub input_context_id: u16,
    pub return_value: u32,
}

/// The record of a request to close the input method.
#[derive(Debug, Clone, Copy, PartialEq, Eq, Structural)]
pub struct CloseFrame {
    pub input_method_id: u16,
}

/// A record that names an input context and holds nothing else. Focus
/// changes, resets and sync replies come with one.
#[derive(Debug, Clone, Copy, PartialEq, Eq, Structural)]
pub struct IcFrame {
    pub input_method_id: u16,
    pub input_context_id: u16,
}

/// The slot in which the engine expects the answer to a request to create an
/// input context.
#[derive(Debug, Clone, Copy, PartialEq, Eq, Structural)]
pub struct CreateIcReplyFrame {
    pub input_method_id: u16,
    pub input_context_id: u16,
}

/// The record of a client's reply to a preedit caret callback.
#[derive(Debug, Clone, Copy, PartialEq, Eq, Structural)]
pub struct PreeditCaretReplyFrame {
    pub input_method_id: u16,
    pub input_context_id: u16,
    pub position: u32,
}

/// What the engine's two untyped buffers hold, read in the layout of one
/// message kind. `Unread` stands for buffers that were left alone.
#[derive(Debug, Clone, PartialEq, Eq)]
pub enum RawFrame {
    Connect(ConnectFrame),
    Disconnect,
    Open(OpenFrame),
    Close(CloseFrame),
    CreateIc(CreateIcFrame, CreateIcReplyFrame),
    SetIcValues(SetIcValuesFrame),
    GetIcValues(GetIcValuesFrame),
    SetIcFocus(IcFrame),
    UnsetIcFocus(IcFrame),
    DestroyIc,
    ResetIc(IcFrame),
    ForwardEvent(ForwardEventFrame, KeyPressEvent),
    ExtForwardKeyevent(ExtForwardKeyeventFrame, KeyPressEvent),
    SyncReply(IcFrame),
    TriggerNotify(TriggerNotifyFrame),
    PreeditStartReply(PreeditStartReplyFrame),
    PreeditCaretReply(PreeditCaretReplyFrame),
    Unread,
}

impl RawFrame {
    /// The message kind in whose layout the buffers were read.
    pub open spec fn kind(&self) -> MessageKind {
        match self {
            RawFrame::Connect(_) => MessageKind::Connect,
            RawFrame::Disconnect => MessageKind::Disconnect,
            RawFrame::Open(_) => MessageKind::Open,
            RawFrame::Close(_) => MessageKind::Close,
            RawFrame::CreateIc(_, _) => MessageKind::CreateIc,
            RawFrame::SetIcValues(_) => MessageKind::SetIcValues,
            RawFrame::GetIcValues(_) => MessageKind::GetIcValues,
            RawFrame::SetIcFocus(_) => MessageKind::SetIcFocus,
            RawFrame::UnsetIcFocus(_) => MessageKind::UnsetIcFocus,
            RawFrame::DestroyIc => MessageKind::DestroyIc,
            RawFrame::ResetIc(_) => MessageKind::ResetIc,
            RawFrame::ForwardEvent(_, _) => MessageKind::ForwardEvent,
            RawFrame::ExtForwardKeyevent(_, _) => MessageKind::ExtForwardKeyevent,
            RawFrame::SyncReply(_) => MessageKind::SyncReply,
            RawFrame::TriggerNotify(_) => MessageKind::TriggerNotify,
            RawFrame::PreeditStartReply(_) => MessageKind::PreeditStartReply,
            RawFrame::PreeditCaretReply(_) => MessageKind::PreeditCaretReply,
            RawFrame::Unread => MessageKind::Unsupported,
        }
    }

    /// The message kind in whose layout the buffers were read.
    pub fn layout(&self) -> (r: MessageKind)
        ensures
            r == self.kind(),
    {
        match self {
            RawFrame::Connect(_) => MessageKind::Connect,
            RawFrame::Disconnect => MessageKind::Disconnect,
            RawFrame::Open(_) => MessageKind::Open,
            RawFrame::Close(_) => MessageKind::Close,
            RawFrame::CreateIc(_, _) => MessageKind::CreateIc,
            RawFrame::SetIcValues(_) => MessageKind::SetIcValues,
            RawFrame::GetIcValues(_) => MessageKind::GetIcValues,
            RawFrame::SetIcFocus(_) => MessageKind::SetIcFocus,
            RawFrame::UnsetIcFocus(_) => MessageKind::UnsetIcFocus,
            RawFrame::DestroyIc => MessageKind::DestroyIc,
            RawFrame::ResetIc(_) => MessageKind::ResetIc,
            RawFrame::ForwardEvent(_, _) => MessageKind::ForwardEvent,
            RawFrame::ExtForwardKeyevent(_, _) => MessageKind::ExtForwardKeyevent,
            RawFrame::SyncReply(_) => MessageKind::SyncReply,
            RawFrame::TriggerNotify(_) => MessageKind::TriggerNotify,
            RawFrame::PreeditStartReply(_) => MessageKind::PreeditStartReply,
            RawFrame::PreeditCaretReply(_) => MessageKind::PreeditCaretReply,
            RawFrame::Unread => MessageKind::Unsupported,
        }
    }
}

} // verus!
