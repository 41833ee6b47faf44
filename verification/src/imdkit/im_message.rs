//! The messages that clients send, as typed values, and the interface through
//! which a handler receives them.

use vstd::prelude::*;
use vstd::std_specs::convert::FromSpecImpl;
use crate::imdkit::data_types::{attributes_read, borrow_attributes, TriggerNotifyFlag, XicAttribute};
use crate::imdkit::error::{ImError, ProtocolField, Strictness};
use crate::imdkit::flags::{Decoded, ExtForwardKeyeventFlag, ForwardEventFlag};
use crate::imdkit::frame::{
    CloseFrame,
    ConnectFrame,
    CreateIcFrame,
    CreateIcReplyFrame,
    ExtForwardKeyeventFrame,
    ForwardEventFrame,
    GetIcValuesFrame,
    IcFrame,
    KeyPressEvent,
    MessageKind,
    OpenFrame,
    PreeditCaretReplyFrame,
    PreeditStartReplyFrame,
    RawFrame,
    SetIcValuesFrame,
    TriggerNotifyFrame,
};
use crate::imdkit::im_server::ImServerRef;
use crate::imdkit::input_context::InputContext;
use crate::imdkit::wire::{i32_of_u32, len_to_u16, low_u16, u32_to_i32};
use crate::imdkit::ImClient;

verus! {

/// What the engine hands over with one protocol event.
#[derive(Debug, Clone)]
pub struct RawCallbackArgs {
    /// The client that the event is about, if the engine named one.
    pub client: Option<ImClient>,
    /// The input context that the event is about, if the engine named one.
    pub ic: Option<InputContext>,
    pub major_opcode: u8,
    pub minor_opcode: u8,
    /// The engine's buffers, read in the layout of the announced message.
    pub frame: RawFrame,
}

impl RawCallbackArgs {
    /// The kind of message that the event carries: the one that the operation
    /// codes announce, provided the buffers were read in its layout. Buffers
    /// read in any other layout are not looked at, and the message counts as
    /// unsupported.
    pub open spec fn kind(&self) -> MessageKind {
        if self.frame.kind() == MessageKind::of(self.major_opcode, self.minor_opcode) {
            self.frame.kind()
        } else {
            MessageKind::Unsupported
        }
    }

    /// The kind of message that the event carries.
    pub fn message_kind(&self) -> (r: MessageKind)
        ensures
            r == self.kind(),
    {
        let announced = MessageKind::from_opcodes(self.major_opcode, self.minor_opcode);
        if self.frame.layout() == announced {
            announced
        } else {
            MessageKind::Unsupported
        }
    }
}

/// A request to connect.
#[derive(Debug, Clone)]
pub struct ConnectMessage<'a> {
    pub byte_order: u8,
    pub client_major_protocol_version: u16,
    pub client_minor_protocol_version: u16,
    pub client_auth_protocol_names: Vec<&'a [u8]>,
}

impl<'a> ConnectMessage<'a> {
    /// Whether the message carries exactly what the record holds.
    pub open spec fn reads(&self, fr: &ConnectFrame) -> bool {
        &&& self.byte_order == fr.byte_order
        &&& self.client_major_protocol_version == fr.client_major_protocol_version
        &&& self.client_minor_protocol_version == fr.client_minor_protocol_version
        &&& self.client_auth_protocol_names@.len() == fr.client_auth_protocol_names@.len()
        &&& forall|i: int|
            0 <= i < self.client_auth_protocol_names@.len() ==> (
            #[trigger] self.client_auth_protocol_names@[i])@ == fr.client_auth_protocol_names@[i]@
    }
}

impl<'a> From<&'a ConnectFrame> for ConnectMessage<'a> {
    fn from(fr: &'a ConnectFrame) -> (r: Self)
        ensures
            r.reads(fr),
    {
        let mut names: Vec<&'a [u8]> = Vec::new();
        let mut i: usize = 0;
        while i < fr.client_auth_protocol_names.len()
            invariant
                i <= fr.client_auth_protocol_names.len(),
                names.len() == i,
                forall|j: int|
                    0 <= j < i ==> (#[trigger] names@[j])@ == fr.client_auth_protocol_names@[j]@,
            decreases fr.client_auth_protocol_names.len() - i,
        {
            names.push(fr.client_auth_protocol_names[i].as_slice());
            i = i + 1;
        }
        ConnectMessage {
            byte_order: fr.byte_order,
            client_major_protocol_version: fr.client_major_protocol_version,
            client_minor_protocol_version: fr.client_minor_protocol_version,
            client_auth_protocol_names: names,
        }
    }
}

/// A borrowed message is described by `reads`: a slice cannot be written down
/// as a value in a specification, so `from_spec` is left open.
impl<'a> FromSpecImpl<&'a ConnectFrame> for ConnectMessage<'a> {
    open spec fn obeys_from_spec() -> bool {
        false
    }

    open spec fn from_spec(fr: &'a ConnectFrame) -> Self {
        arbitrary()
    }
}

/// A request to open the input method for a locale.
#[derive(Debug, Clone)]
pub struct OpenMessage<'a> {
    pub locale_name: &'a [u8],
}

impl<'a> OpenMessage<'a> {
    /// Whether the message carries exactly what the record holds.
    pub open spec fn reads(&self, fr: &OpenFrame) -> bool {
        self.locale_name@ == fr.locale_name@
    }
}

impl<'a> From<&'a OpenFrame> for OpenMessage<'a> {
    fn from(fr: &'a OpenFrame) -> (r: Self)
        ensures
            r.reads(fr),
    {
        OpenMessage { locale_name: fr.locale_name.as_slice() }
    }
}

/// See `ConnectMessage`: described by `reads`.
impl<'a> FromSpecImpl<&'a OpenFrame> for OpenMessage<'a> {
    open spec fn obeys_from_spec() -> bool {
        false
    }

    open spec fn from_spec(fr: &'a OpenFrame) -> Self {
        arbitrary()
    }
}

/// A request to close the input method.
pub type CloseMessage = CloseFrame;

/// A request to create an input context.
#[derive(Debug, Clone)]
pub struct CreateIcMessage<'a> {
    pub input_method_id: u16,
    pub ic_attributes: Vec<XicAttribute<'a>>,
}

impl<'a> CreateIcMessage<'a> {
    /// Whether the message carries exactly what the record holds.
    pub open spec fn reads(&self, fr: &CreateIcFrame) -> bool {
        &&& self.input_method_id == fr.input_method_id
        &&& attributes_read(self.ic_attributes@, fr.ic_attributes@)
    }
}

impl<'a> From<&'a CreateIcFrame> for CreateIcMessage<'a> {
    fn from(fr: &'a CreateIcFrame) -> (r: Self)
        ensures
            r.reads(fr),
    {
        CreateIcMessage {
            input_method_id: fr.input_method_id,
            ic_attributes: borrow_attributes(&fr.ic_attributes),
        }
    }
}

/// See `ConnectMessage`: described by `reads`.
impl<'a> FromSpecImpl<&'a CreateIcFrame> for CreateIcMessage<'a> {
    open spec fn obeys_from_spec() -> bool {
        false
    }

    open spec fn from_spec(fr: &'a CreateIcFrame) -> Self {
        arbitrary()
    }
}

/// The answer to a request to create an input context. The handler fills it
/// in, at least with the identifier that it gives the new context.
pub type CreateIcReplyMessage = CreateIcReplyFrame;

/// A request to set attributes of an input context.
#[derive(Debug, Clone)]
pub struct SetIcValuesMessage<'a> {
    pub input_method_id: u16,
    pub input_context_id: u16,
    pub ic_attributes: Vec<XicAttribute<'a>>,
}

impl<'a> SetIcValuesMessage<'a> {
    /// Whether the message carries exactly what the record holds.
    pub open spec fn reads(&self, fr: &SetIcValuesFrame) -> bool {
        &&& self.input_method_id == fr.input_method_id
        &&& self.input_context_id == fr.input_context_id
        &&& attributes_read(self.ic_attributes@, fr.ic_attribute@)
    }
}

impl<'a> From<&'a SetIcValuesFrame> for SetIcValuesMessage<'a> {
    fn from(fr: &'a SetIcValuesFrame) -> (r: Self)
        ensures
            r.reads(fr),
    {
        SetIcValuesMessage {
            input_method_id: fr.input_method_id,
            input_context_id: fr.input_context_id,
            ic_attributes: borrow_attributes(&fr.ic_attribute),
        }
    }
}

/// See `ConnectMessage`: described by `reads`.
impl<'a> FromSpecImpl<&'a SetIcValuesFrame> for SetIcValuesMessage<'a> {
    open spec fn obeys_from_spec() -> bool {
        false
    }

    open spec fn from_spec(fr: &'a SetIcValuesFrame) -> Self {
        arbitrary()
    }
}

/// A request for attributes of an input context. The engine answers it
/// itself; the handler only sees which attributes were asked for.
#[derive(Debug, Clone)]
pub struct GetIcValuesMessage<'a> {
    pub input_method_id: u16,
    pub input_context_id: u16,
    pub ic_attribute_id: &'a [u16],
}

impl<'a> GetIcValuesMessage<'a> {
    /// Whether the message carries exactly what the record holds.
    pub open spec fn reads(&self, fr: &GetIcValuesFrame) -> bool {
        &&& self.input_method_id == fr.input_method_id
        &&& self.input_context_id == fr.input_context_id
        &&& self.ic_attribute_id@ == fr.ic_attribute@
    }
}

impl<'a> From<&'a GetIcValuesFrame> for GetIcValuesMessage<'a> {
    fn from(fr: &'a GetIcValuesFrame) -> (r: Self)
        ensures
            r.reads(fr),
    {
        GetIcValuesMessage {
            input_method_id: fr.input_method_id,
            input_context_id: fr.input_context_id,
            ic_attribute_id: fr.ic_attribute.as_slice(),
        }
    }
}

/// See `ConnectMessage`: described by `reads`.
impl<'a> FromSpecImpl<&'a GetIcValuesFrame> for GetIcValuesMessage<'a> {
    open spec fn obeys_from_spec() -> bool {
        false
    }

    open spec fn from_spec(fr: &'a GetIcValuesFrame) -> Self {
        arbitrary()
    }
}

/// A notice that an input context got the focus.
pub type SetIcFocusMessage = IcFrame;

/// A notice that an input context lost the focus.
pub type UnsetIcFocusMessage = IcFrame;

/// A request to reset an input context.
pub type ResetIcMessage = IcFrame;

/// The handler's answer to a reset: the text to commit at once. Empty text
/// means that there is nothing to commit.
#[derive(Debug, Clone)]
pub struct ResetIcReplyMessage {
    pub preedit_string: Vec<u8>,
}

impl Default for ResetIcReplyMessage {
    fn default() -> (r: Self)
        ensures
            r.preedit_string@ == Seq::<u8>::empty(),
    {
        ResetIcReplyMessage { preedit_string: Vec::new() }
    }
}

/// What the bridge writes into the engine's reply slot after a reset: the
/// length field, and the contents of the buffer that is allocated for the
/// engine, which ends in one zero byte after the text.
#[derive(Debug, Clone, PartialEq, Eq)]
pub struct ResetIcReplyFrame {
    pub byte_length_of_committed_string: u16,
    pub committed_string: Vec<u8>,
}

impl ResetIcReplyFrame {
    /// Whether the slot contents are those for the committed text `text`.
    pub open spec fn carries(&self, text: Seq<u8>) -> bool {
        &&& self.byte_length_of_committed_string == low_u16(text.len())
        &&& self.committed_string@ == text.push(0u8)
    }
}

/// What is written into the engine's reply slot for the handler's answer to
/// a reset: nothing at all if the text is empty, so that no buffer is
/// allocated for it, and else the length and the buffer.
pub fn reset_ic_reply(reply: ResetIcReplyMessage) -> (r: Option<ResetIcReplyFrame>)
    ensures
        r is None <==> reply.preedit_string@.len() == 0,
        r matches Some(frame) ==> frame.carries(reply.preedit_string@),
{
    if reply.preedit_string.len() > 0 {
        let byte_length: u16 = len_to_u16(reply.preedit_string.len());
        let mut buffer: Vec<u8> = reply.preedit_string;
        buffer.push(0);
        Some(ResetIcReplyFrame { byte_length_of_committed_string: byte_length, committed_string: buffer })
    } else {
        None
    }
}

/// A key event that the client forwards to the input method.
#[derive(Debug, Clone)]
pub struct ForwardEventMessage {
    pub input_method_id: u16,
    pub input_context_id: u16,
    /// The flag as it was decoded. One with a bit that the protocol does not
    /// define is kept whole, as `Other`.
    pub flag: Decoded<ForwardEventFlag, u16>,
    pub sequence_number: u16,
}

impl ForwardEventMessage {
    /// Whether the message carries exactly what the record holds, with the
    /// flag decoded.
    pub open spec fn reads(&self, fr: &ForwardEventFrame) -> bool {
        &&& self.input_method_id == fr.input_method_id
        &&& self.input_context_id == fr.input_context_id
        &&& ForwardEventFlag::decodes(fr.flag, self.flag)
        &&& self.sequence_number == fr.sequence_number
    }
}

impl<'a> From<&'a ForwardEventFrame> for ForwardEventMessage {
    fn from(fr: &'a ForwardEventFrame) -> (r: Self)
        ensures
            r.reads(fr),
    {
        ForwardEventMessage {
            input_method_id: fr.input_method_id,
            input_context_id: fr.input_context_id,
            flag: ForwardEventFlag::decode(fr.flag),
            sequence_number: fr.sequence_number,
        }
    }
}

/// A flag set can be made by its own functions only, so the message is
/// described by `reads` and `from_spec` is left open.
impl<'a> FromSpecImpl<&'a ForwardEventFrame> for ForwardEventMessage {
    open spec fn obeys_from_spec() -> bool {
        false
    }

    open spec fn from_spec(fr: &'a ForwardEventFrame) -> Self {
        arbitrary()
    }
}

/// A key event that the client forwards through the extension.
#[derive(Debug, Clone)]
pub struct ExtForwardKeyeventMessage {
    pub input_method_id: u16,
    pub input_context_id: u16,
    /// The flag as it was decoded. One with a bit that the protocol does not
    /// define is kept whole, as `Other`.
    pub flag: Decoded<ExtForwardKeyeventFlag, u16>,
    pub sequence_number: u16,
    pub event_type: u8,
    pub keycode: xcb::Keycode,
    pub state: u16,
    pub time: xcb::Timestamp,
    pub window: xcb::Window,
}

impl ExtForwardKeyeventMessage {
    /// Whether the message carries exactly what the record holds, with the
    /// flag decoded.
    pub open spec fn reads(&self, fr: &ExtForwardKeyeventFrame) -> bool {
        &&& self.input_method_id == fr.input_method_id
        &&& self.input_context_id == fr.input_context_id
        &&& ExtForwardKeyeventFlag::decodes(fr.flag, self.flag)
        &&& self.sequence_number == fr.sequence_number
        &&& self.event_type == fr.event_type
        &&& self.keycode == fr.keycode
        &&& self.state == fr.state
        &&& self.time == fr.time
        &&& self.window == fr.window
    }
}

impl<'a> From<&'a ExtForwardKeyeventFrame> for ExtForwardKeyeventMessage {
    fn from(fr: &'a ExtForwardKeyeventFrame) -> (r: Self)
        ensures
            r.reads(fr),
    {
        ExtForwardKeyeventMessage {
            input_method_id: fr.input_method_id,
            input_context_id: fr.input_context_id,
            flag: ExtForwardKeyeventFlag::decode(fr.flag),
            sequence_number: fr.sequence_number,
            event_type: fr.event_type,
            keycode: fr.keycode,
            state: fr.state,
            time: fr.time,
            window: fr.window,
        }
    }
}

/// See `ForwardEventMessage`: described by `reads`.
impl<'a> FromSpecImpl<&'a ExtForwardKeyeventFrame> for ExtForwardKeyeventMessage {
    open spec fn obeys_from_spec() -> bool {
        false
    }

    open spec fn from_spec(fr: &'a ExtForwardKeyeventFrame) -> Self {
        arbitrary()
    }
}

/// A client's reply to a request to synchronise.
pub type SyncReplyMessage = IcFrame;

/// A notice that the client saw a trigger key.
#[derive(Debug, Clone, Copy, PartialEq, Eq, Structural)]
pub struct TriggerNotifyMessage {
    pub input_method_id: u16,
    pub input_context_id: u16,
    pub flag: TriggerNotifyFlag,
    pub index_of_keys_list: u32,
    pub client_select_event_mask: u32,
}

impl TriggerNotifyMessage {
    /// The message that a record holds. A flag outside the protocol's range
    /// is kept as `Other` with its number.
    pub open spec fn decode(fr: TriggerNotifyFrame) -> Self {
        TriggerNotifyMessage {
            input_method_id: fr.input_method_id,
            input_context_id: fr.input_context_id,
            flag: TriggerNotifyFlag::decode(fr.flag),
            index_of_keys_list: fr.index_of_keys_list,
            client_select_event_mask: fr.client_select_event_mask,
        }
    }
}

impl<'a> From<&'a TriggerNotifyFrame> for TriggerNotifyMessage {
    fn from(fr: &'a TriggerNotifyFrame) -> (r: Self) {
        TriggerNotifyMessage {
            input_method_id: fr.input_method_id,
            input_context_id: fr.input_context_id,
            flag: TriggerNotifyFlag::from(fr.flag),
            index_of_keys_list: fr.index_of_keys_list,
            client_select_event_mask: fr.client_select_event_mask,
        }
    }
}

impl<'a> FromSpecImpl<&'a TriggerNotifyFrame> for TriggerNotifyMessage {
    open spec fn obeys_from_spec() -> bool {
        true
    }

    open spec fn from_spec(fr: &'a TriggerNotifyFrame) -> Self {
        TriggerNotifyMessage::decode(*fr)
    }
}

/// A client's reply to a preedit start callback.
#[derive(Debug, Clone, Copy, PartialEq, Eq, Structural)]
pub struct PreeditStartReplyMessage {
    pub input_method_id: u16,
    pub input_context_id: u16,
    /// The maximum number of bytes of preedit string. If -1, it is unlimited.
    pub return_value: i32,
}

impl PreeditStartReplyMessage {
    /// The message that a record holds. The returned value travels as an
    /// unsigned number and is read as the signed number with the same bits.
    pub open spec fn decode(fr: PreeditStartReplyFrame) -> Self {
        PreeditStartReplyMessage {
            input_method_id: fr.input_method_id,
            input_context_id: fr.input_context_id,
            return_value: i32_of_u32(fr.return_value),
        }
    }
}

impl<'a> From<&'a PreeditStartReplyFrame> for PreeditStartReplyMessage {
    fn from(fr: &'a PreeditStartReplyFrame) -> (r: Self) {
        PreeditStartReplyMessage {
            input_method_id: fr.input_method_id,
            input_context_id: fr.input_context_id,
            return_value: u32_to_i32(fr.return_value),
        }
    }
}

impl<'a> FromSpecImpl<&'a PreeditStartReplyFrame> for PreeditStartReplyMessage {
    open spec fn obeys_from_spec() -> bool {
        true
    }

    open spec fn from_spec(fr: &'a PreeditStartReplyFrame) -> Self {
        PreeditStartReplyMessage::decode(*fr)
    }
}

/// A client's reply to a preedit caret callback.
pub type PreeditCaretReplyMessage = PreeditCaretReplyFrame;

/// One message of a client, typed. Everything in it is borrowed from the
/// event that brought it and lives no longer than the dispatch of that event.
#[derive(Debug)]
pub enum ImMessage<'a> {
    Connect(ConnectMessage<'a>),
    Disconnect,
    Open(OpenMessage<'a>),
    Close(&'a CloseMessage),
    /// The request, and what the engine put into the reply slot beforehand.
    CreateIc(CreateIcMessage<'a>, CreateIcReplyMessage),
    SetIcValues(SetIcValuesMessage<'a>),
    GetIcValues(GetIcValuesMessage<'a>),
    SetIcFocus(&'a SetIcFocusMessage),
    UnsetIcFocus(&'a UnsetIcFocusMessage),
    DestroyIc,
    ResetIc(&'a ResetIcMessage),
    ForwardEvent(ForwardEventMessage, &'a KeyPressEvent),
    ExtForwardKeyevent(ExtForwardKeyeventMessage, &'a KeyPressEvent),
    SyncReply(&'a SyncReplyMessage),
    TriggerNotify(TriggerNotifyMessage),
    PreeditStartReply(PreeditStartReplyMessage),
    PreeditCaretReply(&'a PreeditCaretReplyMessage),
    /// A message that this layer does not know, with its operation codes.
    Other { major_opcode: u8, minor_opcode: u8 },
}

impl<'a> ImMessage<'a> {
    /// The kind of the message.
    pub open spec fn kind(&self) -> MessageKind {
        match self {
            ImMessage::Connect(_) => MessageKind::Connect,
            ImMessage::Disconnect => MessageKind::Disconnect,
            ImMessage::Open(_) => MessageKind::Open,
            ImMessage::Close(_) => MessageKind::Close,
            ImMessage::CreateIc(_, _) => MessageKind::CreateIc,
            ImMessage::SetIcValues(_) => MessageKind::SetIcValues,
            ImMessage::GetIcValues(_) => MessageKind::GetIcValues,
            ImMessage::SetIcFocus(_) => MessageKind::SetIcFocus,
            ImMessage::UnsetIcFocus(_) => MessageKind::UnsetIcFocus,
            ImMessage::DestroyIc => MessageKind::DestroyIc,
            ImMessage::ResetIc(_) => MessageKind::ResetIc,
            ImMessage::ForwardEvent(_, _) => MessageKind::ForwardEvent,
            ImMessage::ExtForwardKeyevent(_, _) => MessageKind::ExtForwardKeyevent,
            ImMessage::SyncReply(_) => MessageKind::SyncReply,
            ImMessage::TriggerNotify(_) => MessageKind::TriggerNotify,
            ImMessage::PreeditStartReply(_) => MessageKind::PreeditStartReply,
            ImMessage::PreeditCaretReply(_) => MessageKind::PreeditCaretReply,
            ImMessage::Other { .. } => MessageKind::Unsupported,
        }
    }

    /// Whether the message carries exactly what the event brought: for a
    /// message of the table the contents of its record, and for any other the
    /// operation codes.
    pub open spec fn reads(&self, args: &RawCallbackArgs) -> bool {
        match (*self, args.frame) {
            (ImMessage::Connect(m), RawFrame::Connect(fr)) => m.reads(&fr),
            (ImMessage::Disconnect, RawFrame::Disconnect) => true,
            (ImMessage::Open(m), RawFrame::Open(fr)) => m.reads(&fr),
            (ImMessage::Close(m), RawFrame::Close(fr)) => *m == fr,
            (ImMessage::CreateIc(m, reply), RawFrame::CreateIc(fr, slot)) => m.reads(&fr) && reply
                == slot,
            (ImMessage::SetIcValues(m), RawFrame::SetIcValues(fr)) => m.reads(&fr),
            (ImMessage::GetIcValues(m), RawFrame::GetIcValues(fr)) => m.reads(&fr),
            (ImMessage::SetIcFocus(m), RawFrame::SetIcFocus(fr)) => *m == fr,
            (ImMessage::UnsetIcFocus(m), RawFrame::UnsetIcFocus(fr)) => *m == fr,
            (ImMessage::DestroyIc, RawFrame::DestroyIc) => true,
            (ImMessage::ResetIc(m), RawFrame::ResetIc(fr)) => *m == fr,
            (ImMessage::ForwardEvent(m, event), RawFrame::ForwardEvent(fr, ev)) => m.reads(&fr)
                && *event == ev,
            (
                ImMessage::ExtForwardKeyevent(m, event),
                RawFrame::ExtForwardKeyevent(fr, ev),
            ) => m.reads(&fr) && *event == ev,
            (ImMessage::SyncReply(m), RawFrame::SyncReply(fr)) => *m == fr,
            (ImMessage::TriggerNotify(m), RawFrame::TriggerNotify(fr)) => m
                == TriggerNotifyMessage::decode(fr),
            (ImMessage::PreeditStartReply(m), RawFrame::PreeditStartReply(fr)) => m
                == PreeditStartReplyMessage::decode(fr),
            (ImMessage::PreeditCaretReply(m), RawFrame::PreeditCaretReply(fr)) => *m == fr,
            (ImMessage::Other { major_opcode, minor_opcode }, _) => major_opcode
                == args.major_opcode && minor_opcode == args.minor_opcode,
            _ => false,
        }
    }
}

/// The typed message that an event carries.
///
/// Each pair of operation codes in the table gives the message kind of the
/// table and no other, with the contents of the record; every other pair
/// gives `Other`, with the codes and nothing made up.
pub fn parse_message<'a>(args: &'a RawCallbackArgs) -> (r: ImMessage<'a>)
    ensures
        r.kind() == args.kind(),
        r.reads(args),
        args.frame.kind() == MessageKind::of(args.major_opcode, args.minor_opcode) ==> r.kind()
            == MessageKind::of(args.major_opcode, args.minor_opcode),
        MessageKind::of(args.major_opcode, args.minor_opcode) == MessageKind::Unsupported ==> r
            == (ImMessage::Other {
            major_opcode: args.major_opcode,
            minor_opcode: args.minor_opcode,
        }),
{
    let other = ImMessage::Other {
        major_opcode: args.major_opcode,
        minor_opcode: args.minor_opcode,
    };
    if args.message_kind() == MessageKind::Unsupported {
        return other;
    }
    match &args.frame {
        RawFrame::Connect(fr) => ImMessage::Connect(ConnectMessage::from(fr)),
        RawFrame::Disconnect => ImMessage::Disconnect,
        RawFrame::Open(fr) => ImMessage::Open(OpenMessage::from(fr)),
        RawFrame::Close(fr) => ImMessage::Close(fr),
        RawFrame::CreateIc(fr, slot) => ImMessage::CreateIc(CreateIcMessage::from(fr), *slot),
        RawFrame::SetIcValues(fr) => ImMessage::SetIcValues(SetIcValuesMessage::from(fr)),
        RawFrame::GetIcValues(fr) => ImMessage::GetIcValues(GetIcValuesMessage::from(fr)),
        RawFrame::SetIcFocus(fr) => ImMessage::SetIcFocus(fr),
        RawFrame::UnsetIcFocus(fr) => ImMessage::UnsetIcFocus(fr),
        RawFrame::DestroyIc => ImMessage::DestroyIc,
        RawFrame::ResetIc(fr) => ImMessage::ResetIc(fr),
        RawFrame::ForwardEvent(fr, event) => ImMessage::ForwardEvent(
            ForwardEventMessage::from(fr),
            event,
        ),
        RawFrame::ExtForwardKeyevent(fr, event) => ImMessage::ExtForwardKeyevent(
            ExtForwardKeyeventMessage::from(fr),
            event,
        ),
        RawFrame::SyncReply(fr) => ImMessage::SyncReply(fr),
        RawFrame::TriggerNotify(fr) => ImMessage::TriggerNotify(TriggerNotifyMessage::from(fr)),
        RawFrame::PreeditStartReply(fr) => ImMessage::PreeditStartReply(
            PreeditStartReplyMessage::from(fr),
        ),
        RawFrame::PreeditCaretReply(fr) => ImMessage::PreeditCaretReply(fr),
        RawFrame::Unread => other,
    }
}

/// The field of a record that holds a value outside the range that the
/// protocol defines, as the error that reports it; `None` for a record with
/// every field in range.
pub open spec fn frame_violation(frame: RawFrame) -> Option<ImError> {
    match frame {
        RawFrame::ForwardEvent(fr, _) => if ForwardEventFlag::valid_bits(fr.flag) {
            None
        } else {
            Some(
                ImError::ProtocolInvariantViolation {
                    field: ProtocolField::ForwardEventFlag,
                    value: fr.flag as u32,
                },
            )
        },
        RawFrame::ExtForwardKeyevent(fr, _) => if ExtForwardKeyeventFlag::valid_bits(fr.flag) {
            None
        } else {
            Some(
                ImError::ProtocolInvariantViolation {
                    field: ProtocolField::ExtForwardKeyeventFlag,
                    value: fr.flag as u32,
                },
            )
        },
        RawFrame::TriggerNotify(fr) => if fr.flag <= 1 {
            None
        } else {
            Some(
                ImError::ProtocolInvariantViolation {
                    field: ProtocolField::TriggerNotifyFlag,
                    value: fr.flag,
                },
            )
        },
        _ => None,
    }
}

/// The range check of a record: see `frame_violation`.
pub fn check_frame(frame: &RawFrame) -> (r: Option<ImError>)
    ensures
        r == frame_violation(*frame),
{
    match frame {
        RawFrame::ForwardEvent(fr, _) => match ForwardEventFlag::from_bits(fr.flag) {
            Some(_) => None,
            None => Some(
                ImError::ProtocolInvariantViolation {
                    field: ProtocolField::ForwardEventFlag,
                    value: fr.flag as u32,
                },
            ),
        },
        RawFrame::ExtForwardKeyevent(fr, _) => match ExtForwardKeyeventFlag::from_bits(fr.flag) {
            Some(_) => None,
            None => Some(
                ImError::ProtocolInvariantViolation {
                    field: ProtocolField::ExtForwardKeyeventFlag,
                    value: fr.flag as u32,
                },
            ),
        },
        RawFrame::TriggerNotify(fr) => if TriggerNotifyFlag::from(fr.flag).known() {
            None
        } else {
            Some(
                ImError::ProtocolInvariantViolation {
                    field: ProtocolField::TriggerNotifyFlag,
                    value: fr.flag,
                },
            )
        },
        _ => None,
    }
}

/// What becomes of an event before any handler sees it.
#[derive(Debug, Clone, Copy, PartialEq, Eq, Structural)]
pub enum Verdict {
    /// The event is reported as an error and reaches no handler.
    Reject(ImError),
    /// The event is passed over in silence and reaches no handler.
    Ignore,
    /// The event goes to the handler method of its kind.
    Deliver,
}

/// What becomes of the event `args` while the contexts in `live` are alive.
///
/// A message outside the table is rejected under `Strict` and ignored under
/// `Tolerant`. A message of the table is rejected if the engine named no
/// client with it, or no input context though the message is about one;
/// under `Strict`, if a field of its record is out of range; and, for a
/// request to create an input context, if that context is not alive, so that
/// a handler never sees a creation for a context that it cannot address.
/// Every other message is delivered, whether or not its context is alive.
pub open spec fn verdict(live: Set<usize>, args: RawCallbackArgs, strictness: Strictness) -> Verdict {
    if args.kind() == MessageKind::Unsupported {
        if strictness == Strictness::Strict {
            Verdict::Reject(
                ImError::UnsupportedMessage {
                    major_opcode: args.major_opcode,
                    minor_opcode: args.minor_opcode,
                },
            )
        } else {
            Verdict::Ignore
        }
    } else if args.client is None {
        Verdict::Reject(ImError::MissingClient)
    } else if args.kind().needs_input_context() && args.ic is None {
        Verdict::Reject(ImError::MissingInputContext)
    } else if strictness == Strictness::Strict && frame_violation(args.frame) is Some {
        Verdict::Reject(frame_violation(args.frame)->0)
    } else if args.kind() == MessageKind::CreateIc && !live.contains(args.ic->0.addr()) {
        Verdict::Reject(ImError::DeadInputContext)
    } else {
        Verdict::Deliver
    }
}

/// Decides what becomes of an event: see `verdict`.
pub fn vet(im: &ImServerRef<'_>, args: &RawCallbackArgs, strictness: Strictness) -> (r: Verdict)
    ensures
        r == verdict(im.live(), *args, strictness),
{
    let kind = args.message_kind();
    if kind == MessageKind::Unsupported {
        return match strictness {
            Strictness::Strict => Verdict::Reject(
                ImError::UnsupportedMessage {
                    major_opcode: args.major_opcode,
                    minor_opcode: args.minor_opcode,
                },
            ),
            Strictness::Tolerant => Verdict::Ignore,
        };
    }
    if args.client.is_none() {
        return Verdict::Reject(ImError::MissingClient);
    }
    let about_context = match kind {
        MessageKind::Connect | MessageKind::Disconnect | MessageKind::Open | MessageKind::Close => false,
        _ => true,
    };
    if about_context && args.ic.is_none() {
        return Verdict::Reject(ImError::MissingInputContext);
    }
    if strictness == Strictness::Strict {
        if let Some(violation) = check_frame(&args.frame) {
            return Verdict::Reject(violation);
        }
    }
    if kind == MessageKind::CreateIc {
        let ic = args.ic.unwrap();
        if !im.contains(&ic) {
            return Verdict::Reject(ImError::DeadInputContext);
        }
    }
    Verdict::Deliver
}

/// What application code does with each kind of message.
///
/// There is one method per kind. Each does nothing unless it is overridden:
/// it leaves the handler and the handle as they are, and the two that answer
/// give the answer that says nothing: the reply slot as the engine left it,
/// and no text to commit.
///
/// Requests to the engine go through `im`. Nothing that a method is handed
/// lives longer than the call.
pub trait ImMessageHandler {
    fn handle_connect(
        &mut self,
        im: &mut ImServerRef<'_>,
        client: &ImClient,
        frame: &ConnectMessage<'_>,
    )
        where
            Self: Sized,
        default_ensures
            *final(self) == *old(self),
            *final(im) == *old(im),
    {
    }

    fn handle_disconnect(&mut self, im: &mut ImServerRef<'_>, client: &ImClient)
        where
            Self: Sized,
        default_ensures
            *final(self) == *old(self),
            *final(im) == *old(im),
    {
    }

    fn handle_open(&mut self, im: &mut ImServerRef<'_>, client: &ImClient, frame: &OpenMessage<'_>)
        where
            Self: Sized,
        default_ensures
            *final(self) == *old(self),
            *final(im) == *old(im),
    {
    }

    fn handle_close(&mut self, im: &mut ImServerRef<'_>, client: &ImClient, frame: &CloseMessage)
        where
            Self: Sized,
        default_ensures
            *final(self) == *old(self),
            *final(im) == *old(im),
    {
    }

    /// The context `ic` is alive when this is called, so that requests about
    /// it can be made from here on.
    fn handle_create_ic(
        &mut self,
        im: &mut ImServerRef<'_>,
        client: &ImClient,
        ic: &InputContext,
        frame: &CreateIcMessage<'_>,
        reply_frame: &mut CreateIcReplyMessage,
    )
        where
            Self: Sized,
        requires
            old(im).live().contains(ic.addr()),
        default_ensures
            *final(self) == *old(self),
            *final(im) == *old(im),
            *final(reply_frame) == *old(reply_frame),
    {
    }

    fn handle_set_ic_values(
        &mut self,
        im: &mut ImServerRef<'_>,
        client: &ImClient,
        ic: &InputContext,
        frame: &SetIcValuesMessage<'_>,
    )
        where
            Self: Sized,
        default_ensures
            *final(self) == *old(self),
            *final(im) == *old(im),
    {
    }

    fn handle_get_ic_values(
        &mut self,
        im: &mut ImServerRef<'_>,
        client: &ImClient,
        ic: &InputContext,
        frame: &GetIcValuesMessage<'_>,
    )
        where
            Self: Sized,
        default_ensures
            *final(self) == *old(self),
            *final(im) == *old(im),
    {
    }

    fn handle_set_ic_focus(
        &mut self,
        im: &mut ImServerRef<'_>,
        client: &ImClient,
        ic: &InputContext,
        frame: &SetIcFocusMessage,
    )
        where
            Self: Sized,
        default_ensures
            *final(self) == *old(self),
            *final(im) == *old(im),
    {
    }

    fn handle_unset_ic_focus(
        &mut self,
        im: &mut ImServerRef<'_>,
        client: &ImClient,
        ic: &InputContext,
        frame: &UnsetIcFocusMessage,
    )
        where
            Self: Sized,
        default_ensures
            *final(self) == *old(self),
            *final(im) == *old(im),
    {
    }

    /// A context that was alive before the event is still alive when this is
    /// called, and leaves the registry only after this has returned.
    fn handle_destoy_ic(&mut self, im: &mut ImServerRef<'_>, client: &ImClient, ic: &InputContext)
        where
            Self: Sized,
        default_ensures
            *final(self) == *old(self),
            *final(im) == *old(im),
    {
    }

    /// Returns the text to commit at once.
    fn handle_reset_ic(
        &mut self,
        im: &mut ImServerRef<'_>,
        client: &ImClient,
        ic: &InputContext,
        frame: &ResetIcMessage,
    ) -> (reply: ResetIcReplyMessage)
        where
            Self: Sized,
        default_ensures
            *final(self) == *old(self),
            *final(im) == *old(im),
            reply.preedit_string@ == Seq::<u8>::empty(),
    {
        ResetIcReplyMessage::default()
    }

    fn handle_forward_event(
        &mut self,
        im: &mut ImServerRef<'_>,
        client: &ImClient,
        ic: &InputContext,
        frame: &ForwardEventMessage,
        key_event: &KeyPressEvent,
    )
        where
            Self: Sized,
        default_ensures
            *final(self) == *old(self),
            *final(im) == *old(im),
    {
    }

    fn handle_ext_forward_keyevent(
        &mut self,
        im: &mut ImServerRef<'_>,
        client: &ImClient,
        ic: &InputContext,
        frame: &ExtForwardKeyeventMessage,
        key_event: &KeyPressEvent,
    )
        where
            Self: Sized,
        default_ensures
            *final(self) == *old(self),
            *final(im) == *old(im),
    {
    }

    fn handle_sync_reply(
        &mut self,
        im: &mut ImServerRef<'_>,
        client: &ImClient,
        ic: &InputContext,
        frame: &SyncReplyMessage,
    )
        where
            Self: Sized,
        default_ensures
            *final(self) == *old(self),
            *final(im) == *old(im),
    {
    }

    fn handle_trigger_notify(
        &mut self,
        im: &mut ImServerRef<'_>,
        client: &ImClient,
        ic: &InputContext,
        frame: &TriggerNotifyMessage,
    )
        where
            Self: Sized,
        default_ensures
            *final(self) == *old(self),
            *final(im) == *old(im),
    {
    }

    fn handle_preedit_start_reply(
        &mut self,
        im: &mut ImServerRef<'_>,
        client: &ImClient,
        ic: &InputContext,
        frame: &PreeditStartReplyMessage,
    )
        where
            Self: Sized,
        default_ensures
            *final(self) == *old(self),
            *final(im) == *old(im),
    {
    }

    fn handle_preedit_caret_reply(
        &mut self,
        im: &mut ImServerRef<'_>,
        client: &ImClient,
        ic: &InputContext,
        frame: &PreeditCaretReplyMessage,
    )
        where
            Self: Sized,
        default_ensures
            *final(self) == *old(self),
            *final(im) == *old(im),
    {
    }
}

/// How the dispatch of one event ended, and what goes into the engine's
/// reply slot.
#[derive(Debug, Clone, PartialEq, Eq)]
pub enum CallbackOutcome {
    /// The event was passed over. No handler ran.
    Ignored,
    /// The handler ran. Nothing goes into the reply slot.
    Handled,
    /// The handler for a creation ran and left this in the reply slot.
    CreateIc(CreateIcReplyMessage),
    /// The handler for a reset ran. The reply slot gets the frame, if there
    /// is one, and stays as it is otherwise.
    ResetIc(Option<ResetIcReplyFrame>),
}

impl CallbackOutcome {
    /// Whether the outcome is one that the delivery of a message of kind
    /// `kind` ends in.
    pub open spec fn answers(&self, kind: MessageKind) -> bool {
        match self {
            CallbackOutcome::Ignored => false,
            CallbackOutcome::Handled => kind != MessageKind::CreateIc && kind
                != MessageKind::ResetIc,
            CallbackOutcome::CreateIc(_) => kind == MessageKind::CreateIc,
            CallbackOutcome::ResetIc(slot) => kind == MessageKind::ResetIc && (slot matches Some(
                frame,
            ) ==> exists|text: Seq<u8>| text.len() > 0 && #[trigger] frame.carries(text)),
        }
    }
}

/// Whether `slot` is what goes into the engine's reply slot for the text
/// `text` that a handler answered a reset with: see `reset_ic_reply`.
pub open spec fn reset_slot(text: Seq<u8>, slot: Option<ResetIcReplyFrame>) -> bool {
    &&& slot is None <==> text.len() == 0
    &&& slot matches Some(frame) ==> frame.carries(text)
}

/// Whether the handler method for the record `frame`, and no other, was
/// called on the handler `h` and the handle `i`, was handed the client, the
/// context and the message that `parse_message` makes of the record, and the
/// call ended in `outcome`. For a creation the method was handed the reply
/// slot `reply_frame`, which it left as `reply_after`.
pub open spec fn handed<'a, H: ImMessageHandler>(
    h: &mut H,
    i: &mut ImServerRef<'a>,
    reply_frame: &mut CreateIcReplyMessage,
    reply_after: CreateIcReplyMessage,
    client: ImClient,
    ic: InputContext,
    frame: RawFrame,
    outcome: CallbackOutcome,
) -> bool {
    match frame {
        RawFrame::Connect(fr) => outcome == CallbackOutcome::Handled && exists|
            msg: ConnectMessage<'a>,
        |
            msg.reads(&fr) && #[trigger] call_ensures(
                H::handle_connect,
                (h, i, &client, &msg),
                (),
            ),
        RawFrame::Disconnect => outcome == CallbackOutcome::Handled && call_ensures(
            H::handle_disconnect,
            (h, i, &client),
            (),
        ),
        RawFrame::Open(fr) => outcome == CallbackOutcome::Handled && exists|msg: OpenMessage<'a>|
            msg.reads(&fr) && #[trigger] call_ensures(H::handle_open, (h, i, &client, &msg), ()),
        RawFrame::Close(fr) => outcome == CallbackOutcome::Handled && call_ensures(
            H::handle_close,
            (h, i, &client, &fr),
            (),
        ),
        RawFrame::CreateIc(fr, slot) => exists|msg: CreateIcMessage<'a>|
            msg.reads(&fr) && *reply_frame == slot && outcome == CallbackOutcome::CreateIc(
                reply_after,
            ) && #[trigger] call_ensures(
                H::handle_create_ic,
                (h, i, &client, &ic, &msg, reply_frame),
                (),
            ),
        RawFrame::SetIcValues(fr) => outcome == CallbackOutcome::Handled && exists|
            msg: SetIcValuesMessage<'a>,
        |
            msg.reads(&fr) && #[trigger] call_ensures(
                H::handle_set_ic_values,
                (h, i, &client, &ic, &msg),
                (),
            ),
        RawFrame::GetIcValues(fr) => outcome == CallbackOutcome::Handled && exists|
            msg: GetIcValuesMessage<'a>,
        |
            msg.reads(&fr) && #[trigger] call_ensures(
                H::handle_get_ic_values,
                (h, i, &client, &ic, &msg),
                (),
            ),
        RawFrame::SetIcFocus(fr) => outcome == CallbackOutcome::Handled && call_ensures(
            H::handle_set_ic_focus,
            (h, i, &client, &ic, &fr),
            (),
        ),
        RawFrame::UnsetIcFocus(fr) => outcome == CallbackOutcome::Handled && call_ensures(
            H::handle_unset_ic_focus,
            (h, i, &client, &ic, &fr),
            (),
        ),
        RawFrame::DestroyIc => outcome == CallbackOutcome::Handled && call_ensures(
            H::handle_destoy_ic,
            (h, i, &client, &ic),
            (),
        ),
        RawFrame::ResetIc(fr) => exists|reply: ResetIcReplyMessage|
            outcome matches CallbackOutcome::ResetIc(slot) && reset_slot(
                reply.preedit_string@,
                slot,
            ) && #[trigger] call_ensures(H::handle_reset_ic, (h, i, &client, &ic, &fr), reply),
        RawFrame::ForwardEvent(fr, event) => outcome == CallbackOutcome::Handled && exists|
            msg: ForwardEventMessage,
        |
            msg.reads(&fr) && #[trigger] call_ensures(
                H::handle_forward_event,
                (h, i, &client, &ic, &msg, &event),
                (),
            ),
        RawFrame::ExtForwardKeyevent(fr, event) => outcome == CallbackOutcome::Handled && exists|
            msg: ExtForwardKeyeventMessage,
        |
            msg.reads(&fr) && #[trigger] call_ensures(
                H::handle_ext_forward_keyevent,
                (h, i, &client, &ic, &msg, &event),
                (),
            ),
        RawFrame::SyncReply(fr) => outcome == CallbackOutcome::Handled && call_ensures(
            H::handle_sync_reply,
            (h, i, &client, &ic, &fr),
            (),
        ),
        RawFrame::TriggerNotify(fr) => outcome == CallbackOutcome::Handled && call_ensures(
            H::handle_trigger_notify,
            (h, i, &client, &ic, &TriggerNotifyMessage::decode(fr)),
            (),
        ),
        RawFrame::PreeditStartReply(fr) => outcome == CallbackOutcome::Handled && call_ensures(
            H::handle_preedit_start_reply,
            (h, i, &client, &ic, &PreeditStartReplyMessage::decode(fr)),
            (),
        ),
        RawFrame::PreeditCaretReply(fr) => outcome == CallbackOutcome::Handled && call_ensures(
            H::handle_preedit_caret_reply,
            (h, i, &client, &ic, &fr),
            (),
        ),
        RawFrame::Unread => false,
    }
}

/// Hands a vetted message to the handler method of its kind.
fn deliver<H: ImMessageHandler>(
    im: &mut ImServerRef<'_>,
    args: &RawCallbackArgs,
    handler: &mut H,
) -> (r: CallbackOutcome)
    requires
        args.kind() != MessageKind::Unsupported,
        args.client is Some,
        args.kind().needs_input_context() ==> args.ic is Some,
        args.kind() == MessageKind::CreateIc ==> old(im).live().contains(args.ic->0.addr()),
    ensures
        r.answers(args.kind()),
        exists|h: &mut H, i: &mut ImServerRef<'_>, reply_frame: &mut CreateIcReplyMessage|
            {
                &&& *h == *old(handler)
                &&& *final(h) == *final(handler)
                &&& *i == *old(im)
                &&& *final(i) == *final(im)
                &&& #[trigger] handed(
                    h,
                    i,
                    reply_frame,
                    *final(reply_frame),
                    args.client->0,
                    args.ic->0,
                    args.frame,
                    r,
                )
            },
{
    let client = args.client.unwrap();
    let ghost context = args.ic->0;
    let ghost handler_before = *handler;
    let ghost im_before = *im;
    let ghost unused: &mut CreateIcReplyMessage = arbitrary();
    match parse_message(args) {
        ImMessage::Connect(frame) => {
            handler.handle_connect(im, &client, &frame);
            proof {
                let (h, i) = choose|h: &mut H, i: &mut ImServerRef<'_>|
                    *h == handler_before && *final(h) == *handler && *i == im_before && *final(i)
                        == *im && #[trigger] call_ensures(H::handle_connect, (h, i, &client, &frame), ());
                assert(handed(
                    h,
                    i,
                    unused,
                    *final(unused),
                    client,
                    context,
                    args.frame,
                    CallbackOutcome::Handled,
                ));
            }
            CallbackOutcome::Handled
        },
        ImMessage::Disconnect => {
            handler.handle_disconnect(im, &client);
            proof {
                let (h, i) = choose|h: &mut H, i: &mut ImServerRef<'_>|
                    *h == handler_before && *final(h) == *handler && *i == im_before && *final(i)
                        == *im && #[trigger] call_ensures(H::handle_disconnect, (h, i, &client), ());
                assert(handed(
                    h,
                    i,
                    unused,
                    *final(unused),
                    client,
                    context,
                    args.frame,
                    CallbackOutcome::Handled,
                ));
            }
            CallbackOutcome::Handled
        },
        ImMessage::Open(frame) => {
            handler.handle_open(im, &client, &frame);
            proof {
                let (h, i) = choose|h: &mut H, i: &mut ImServerRef<'_>|
                    *h == handler_before && *final(h) == *handler && *i == im_before && *final(i)
                        == *im && #[trigger] call_ensures(H::handle_open, (h, i, &client, &frame), ());
                assert(handed(
                    h,
                    i,
                    unused,
                    *final(unused),
                    client,
                    context,
                    args.frame,
                    CallbackOutcome::Handled,
                ));
            }
            CallbackOutcome::Handled
        },
        ImMessage::Close(frame) => {
            handler.handle_close(im, &client, frame);
            proof {
                let (h, i) = choose|h: &mut H, i: &mut ImServerRef<'_>|
                    *h == handler_before && *final(h) == *handler && *i == im_before && *final(i)
                        == *im && #[trigger] call_ensures(H::handle_close, (h, i, &client, frame), ());
                assert(handed(
                    h,
                    i,
                    unused,
                    *final(unused),
                    client,
                    context,
                    args.frame,
                    CallbackOutcome::Handled,
                ));
            }
            CallbackOutcome::Handled
        },
        ImMessage::CreateIc(frame, slot) => {
            let ic = args.ic.unwrap();
            let mut reply_frame: CreateIcReplyMessage = slot;
            handler.handle_create_ic(im, &client, &ic, &frame, &mut reply_frame);
            proof {
                let (h, i, rf) = choose|
                    h: &mut H,
                    i: &mut ImServerRef<'_>,
                    rf: &mut CreateIcReplyMessage,
                |
                    *h == handler_before && *final(h) == *handler && *i == im_before && *final(i)
                        == *im && *rf == slot && *final(rf) == reply_frame && #[trigger] call_ensures(
                        H::handle_create_ic,
                        (h, i, &client, &ic, &frame, rf),
                        (),
                    );
                assert(handed(
                    h,
                    i,
                    rf,
                    *final(rf),
                    client,
                    context,
                    args.frame,
                    CallbackOutcome::CreateIc(reply_frame),
                ));
            }
            CallbackOutcome::CreateIc(reply_frame)
        },
        ImMessage::SetIcValues(frame) => {
            let ic = args.ic.unwrap();
            handler.handle_set_ic_values(im, &client, &ic, &frame);
            proof {
                let (h, i) = choose|h: &mut H, i: &mut ImServerRef<'_>|
                    *h == handler_before && *final(h) == *handler && *i == im_before && *final(i)
                        == *im && #[trigger] call_ensures(H::handle_set_ic_values, (h, i, &client, &ic, &frame), ());
                assert(handed(
                    h,
                    i,
                    unused,
                    *final(unused),
                    client,
                    context,
                    args.frame,
                    CallbackOutcome::Handled,
                ));
            }
            CallbackOutcome::Handled
        },
        ImMessage::GetIcValues(frame) => {
            let ic = args.ic.unwrap();
            handler.handle_get_ic_values(im, &client, &ic, &frame);
            proof {
                let (h, i) = choose|h: &mut H, i: &mut ImServerRef<'_>|
                    *h == handler_before && *final(h) == *handler && *i == im_before && *final(i)
                        == *im && #[trigger] call_ensures(H::handle_get_ic_values, (h, i, &client, &ic, &frame), ());
                assert(handed(
                    h,
                    i,
                    unused,
                    *final(unused),
                    client,
                    context,
                    args.frame,
                    CallbackOutcome::Handled,
                ));
            }
            CallbackOutcome::Handled
        },
        ImMessage::SetIcFocus(frame) => {
            let ic = args.ic.unwrap();
            handler.handle_set_ic_focus(im, &client, &ic, frame);
            proof {
                let (h, i) = choose|h: &mut H, i: &mut ImServerRef<'_>|
                    *h == handler_before && *final(h) == *handler && *i == im_before && *final(i)
                        == *im && #[trigger] call_ensures(H::handle_set_ic_focus, (h, i, &client, &ic, frame), ());
                assert(handed(
                    h,
                    i,
                    unused,
                    *final(unused),
                    client,
                    context,
                    args.frame,
                    CallbackOutcome::Handled,
                ));
            }
            CallbackOutcome::Handled
        },
        ImMessage::UnsetIcFocus(frame) => {
            let ic = args.ic.unwrap();
            handler.handle_unset_ic_focus(im, &client, &ic, frame);
            proof {
                let (h, i) = choose|h: &mut H, i: &mut ImServerRef<'_>|
                    *h == handler_before && *final(h) == *handler && *i == im_before && *final(i)
                        == *im && #[trigger] call_ensures(H::handle_unset_ic_focus, (h, i, &client, &ic, frame), ());
                assert(handed(
                    h,
                    i,
                    unused,
                    *final(unused),
                    client,
                    context,
                    args.frame,
                    CallbackOutcome::Handled,
                ));
            }
            CallbackOutcome::Handled
        },
        ImMessage::DestroyIc => {
            let ic = args.ic.unwrap();
            handler.handle_destoy_ic(im, &client, &ic);
            proof {
                let (h, i) = choose|h: &mut H, i: &mut ImServerRef<'_>|
                    *h == handler_before && *final(h) == *handler && *i == im_before && *final(i)
                        == *im && #[trigger] call_ensures(H::handle_destoy_ic, (h, i, &client, &ic), ());
                assert(handed(
                    h,
                    i,
                    unused,
                    *final(unused),
                    client,
                    context,
                    args.frame,
                    CallbackOutcome::Handled,
                ));
            }
            CallbackOutcome::Handled
        },
        ImMessage::ResetIc(frame) => {
            let ic = args.ic.unwrap();
            let reply = handler.handle_reset_ic(im, &client, &ic, frame);
            let ghost answered = reply;
            let slot = reset_ic_reply(reply);
            proof {
                let (h, i) = choose|h: &mut H, i: &mut ImServerRef<'_>|
                    *h == handler_before && *final(h) == *handler && *i == im_before && *final(i)
                        == *im && #[trigger] call_ensures(H::handle_reset_ic, (h, i, &client, &ic, frame), answered);
                if slot is Some {
                    assert(answered.preedit_string@.len() > 0 && slot->0.carries(
                        answered.preedit_string@,
                    ));
                }
                assert(handed(
                    h,
                    i,
                    unused,
                    *final(unused),
                    client,
                    context,
                    args.frame,
                    CallbackOutcome::ResetIc(slot),
                ));
            }
            CallbackOutcome::ResetIc(slot)
        },
        ImMessage::ForwardEvent(frame, key_event) => {
            let ic = args.ic.unwrap();
            handler.handle_forward_event(im, &client, &ic, &frame, key_event);
            proof {
                let (h, i) = choose|h: &mut H, i: &mut ImServerRef<'_>|
                    *h == handler_before && *final(h) == *handler && *i == im_before && *final(i)
                        == *im && #[trigger] call_ensures(H::handle_forward_event, (h, i, &client, &ic, &frame, key_event), ());
                assert(handed(
                    h,
                    i,
                    unused,
                    *final(unused),
                    client,
                    context,
                    args.frame,
                    CallbackOutcome::Handled,
                ));
            }
            CallbackOutcome::Handled
        },
        ImMessage::ExtForwardKeyevent(frame, key_event) => {
            let ic = args.ic.unwrap();
            handler.handle_ext_forward_keyevent(im, &client, &ic, &frame, key_event);
            proof {
                let (h, i) = choose|h: &mut H, i: &mut ImServerRef<'_>|
                    *h == handler_before && *final(h) == *handler && *i == im_before && *final(i)
                        == *im && #[trigger] call_ensures(H::handle_ext_forward_keyevent, (h, i, &client, &ic, &frame, key_event), ());
                assert(handed(
                    h,
                    i,
                    unused,
                    *final(unused),
                    client,
                    context,
                    args.frame,
                    CallbackOutcome::Handled,
                ));
            }
            CallbackOutcome::Handled
        },
        ImMessage::SyncReply(frame) => {
            let ic = args.ic.unwrap();
            handler.handle_sync_reply(im, &client, &ic, frame);
            proof {
                let (h, i) = choose|h: &mut H, i: &mut ImServerRef<'_>|
                    *h == handler_before && *final(h) == *handler && *i == im_before && *final(i)
                        == *im && #[trigger] call_ensures(H::handle_sync_reply, (h, i, &client, &ic, frame), ());
                assert(handed(
                    h,
                    i,
                    unused,
                    *final(unused),
                    client,
                    context,
                    args.frame,
                    CallbackOutcome::Handled,
                ));
            }
            CallbackOutcome::Handled
        },
        ImMessage::TriggerNotify(frame) => {
            let ic = args.ic.unwrap();
            handler.handle_trigger_notify(im, &client, &ic, &frame);
            proof {
                let (h, i) = choose|h: &mut H, i: &mut ImServerRef<'_>|
                    *h == handler_before && *final(h) == *handler && *i == im_before && *final(i)
                        == *im && #[trigger] call_ensures(H::handle_trigger_notify, (h, i, &client, &ic, &frame), ());
                assert(handed(
                    h,
                    i,
                    unused,
                    *final(unused),
                    client,
                    context,
                    args.frame,
                    CallbackOutcome::Handled,
                ));
            }
            CallbackOutcome::Handled
        },
        ImMessage::PreeditStartReply(frame) => {
            let ic = args.ic.unwrap();
            handler.handle_preedit_start_reply(im, &client, &ic, &frame);
            proof {
                let (h, i) = choose|h: &mut H, i: &mut ImServerRef<'_>|
                    *h == handler_before && *final(h) == *handler && *i == im_before && *final(i)
                        == *im && #[trigger] call_ensures(H::handle_preedit_start_reply, (h, i, &client, &ic, &frame), ());
                assert(handed(
                    h,
                    i,
                    unused,
                    *final(unused),
                    client,
                    context,
                    args.frame,
                    CallbackOutcome::Handled,
                ));
            }
            CallbackOutcome::Handled
        },
        ImMessage::PreeditCaretReply(frame) => {
            let ic = args.ic.unwrap();
            handler.handle_preedit_caret_reply(im, &client, &ic, frame);
            proof {
                let (h, i) = choose|h: &mut H, i: &mut ImServerRef<'_>|
                    *h == handler_before && *final(h) == *handler && *i == im_before && *final(i)
                        == *im && #[trigger] call_ensures(H::handle_preedit_caret_reply, (h, i, &client, &ic, frame), ());
                assert(handed(
                    h,
                    i,
                    unused,
                    *final(unused),
                    client,
                    context,
                    args.frame,
                    CallbackOutcome::Handled,
                ));
            }
            CallbackOutcome::Handled
        },
        // Not reached: a message of the table never parses to `Other`.
        ImMessage::Other { .. } => CallbackOutcome::Ignored,
    }
}

/// Dispatches one event: decides what becomes of it, and hands a message
/// that is delivered to the handler method of its kind.
///
/// An event that is rejected or ignored reaches no handler and leaves the
/// handle as it was. What a handler does with the handle is its own business;
/// what it answers to a reset goes through `reset_ic_reply`.
pub fn handle_callback<H: ImMessageHandler>(
    im: &mut ImServerRef<'_>,
    args: &RawCallbackArgs,
    handler: &mut H,
    strictness: Strictness,
) -> (r: Result<CallbackOutcome, ImError>)
    ensures
        match verdict(old(im).live(), *args, strictness) {
            Verdict::Reject(e) => r == Err::<CallbackOutcome, ImError>(e) && *final(im) == *old(im)
                && *final(handler) == *old(handler),
            Verdict::Ignore => r == Ok::<CallbackOutcome, ImError>(CallbackOutcome::Ignored)
                && *final(im) == *old(im) && *final(handler) == *old(handler),
            Verdict::Deliver => r matches Ok(outcome) && outcome.answers(args.kind()) && exists|
                h: &mut H,
                i: &mut ImServerRef<'_>,
                reply_frame: &mut CreateIcReplyMessage,
            |
                {
                    &&& *h == *old(handler)
                    &&& *final(h) == *final(handler)
                    &&& *i == *old(im)
                    &&& *final(i) == *final(im)
                    &&& #[trigger] handed(
                        h,
                        i,
                        reply_frame,
                        *final(reply_frame),
                        args.client->0,
                        args.ic->0,
                        args.frame,
                        outcome,
                    )
                },
        },
{
    match vet(im, args, strictness) {
        Verdict::Reject(e) => Err(e),
        Verdict::Ignore => Ok(CallbackOutcome::Ignored),
        Verdict::Deliver => Ok(deliver(im, args, handler)),
    }
}

} // verus!
