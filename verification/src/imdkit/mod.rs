//! The XIM server side: data types, messages, handlers and the server itself.

use vstd::prelude::*;

pub mod data_types;
pub mod error;
pub mod flags;
pub mod frame;
pub mod im_message;
pub mod im_server;
pub mod input_context;
pub mod request;
pub mod wire;

pub use self::data_types::{
    attributes_read,
    borrow_attributes,
    CaretDirection,
    CaretStyle,
    PreeditCaretMessage,
    PreeditDrawMessage,
    StatusDrawBitmapMessage,
    StatusDrawTextMessage,
    TriggerNotifyFlag,
    XicAttribute,
    XimTriggerKey,
};
pub use self::error::{ImError, ProtocolField, Strictness};
pub use self::flags::{
    Decoded,
    DrawStatus,
    ExtForwardKeyeventFlag,
    Feedback,
    ForwardEventFlag,
    InputStyle,
};
pub use self::frame::{KeyPressEvent, MessageKind, RawFrame};
pub use self::im_message::{
    check_frame,
    handed,
    handle_callback,
    parse_message,
    reset_ic_reply,
    vet,
    CallbackOutcome,
    CloseMessage,
    ConnectMessage,
    CreateIcMessage,
    CreateIcReplyMessage,
    ExtForwardKeyeventMessage,
    ForwardEventMessage,
    GetIcValuesMessage,
    ImMessage,
    ImMessageHandler,
    OpenMessage,
    PreeditCaretReplyMessage,
    PreeditStartReplyMessage,
    RawCallbackArgs,
    ResetIcMessage,
    ResetIcReplyFrame,
    ResetIcReplyMessage,
    SetIcFocusMessage,
    SetIcValuesMessage,
    SyncReplyMessage,
    TriggerNotifyMessage,
    UnsetIcFocusMessage,
    Verdict,
};
pub use self::im_server::{
    live_requests,
    Dispatch,
    ImServer,
    ImServerParams,
    ImServerRef,
    ShutdownStep,
};
pub use self::input_context::{decode_input_style, InputContext, InputContextRegistry};
pub use self::request::{CommittedString, ImRequest};

verus! {

/// One connected client, known by the address of the engine's object for it.
/// The address is never null and is never followed: it only tells one client
/// from another.
#[derive(Debug, Clone, Copy, PartialEq, Eq, Hash)]
pub struct ImClient(usize);

impl ImClient {
    #[verifier::type_invariant]
    spec fn non_null(self) -> bool {
        self.0 != 0
    }

    /// The address that identifies the client.
    pub closed spec fn addr(&self) -> usize {
        self.0
    }

    /// The client whose address is `addr`.
    pub closed spec fn at(addr: usize) -> ImClient {
        ImClient(addr)
    }

    /// A client is its address and nothing else.
    pub broadcast proof fn lemma_at(addr: usize)
        ensures
            (#[trigger] ImClient::at(addr)).addr() == addr,
    {
    }

    /// The client at `addr`, or nothing for the null address.
    pub fn from_ptr(addr: usize) -> (r: Option<ImClient>)
        ensures
            r == ImClient::resolve(addr),
            r is Some <==> addr != 0,
            r matches Some(client) ==> client.addr() == addr,
    {
        if addr != 0 {
            Some(ImClient(addr))
        } else {
            None
        }
    }

    /// The client that the engine means by `addr`: none for the null address.
    pub open spec fn resolve(addr: usize) -> Option<ImClient> {
        if addr != 0 {
            Some(ImClient::at(addr))
        } else {
            None
        }
    }

    /// The address that identifies the client.
    pub fn as_ptr(&self) -> (r: usize)
        ensures
            r == self.addr(),
            r != 0,
    {
        proof {
            use_type_invariant(self);
        }
        self.0
    }

    /// The address that identifies the client, which is never null.
    pub fn as_ptr_non_null(&self) -> (r: usize)
        ensures
            r == self.addr(),
            r != 0,
    {
        self.as_ptr()
    }
}

} // verus!
