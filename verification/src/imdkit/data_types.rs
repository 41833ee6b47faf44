//! Plain data types shared by inbound messages and outbound requests.

use vstd::prelude::*;
use vstd::std_specs::convert::FromSpecImpl;
use crate::imdkit::flags::{DrawStatus, Feedback};
use crate::imdkit::frame::XicAttributeFrame;

verus! {

/// A key chord that switches the input method on or off.
#[derive(Debug, Clone, Copy, PartialEq, Eq, Structural, Hash)]
pub struct XimTriggerKey {
    pub keysym: u32,
    pub modifier: u32,
    pub modifier_mask: u32,
}

/// A change of the preedit text that the client is asked to draw.
#[derive(Debug, Clone, Copy)]
pub struct PreeditDrawMessage<'a> {
    pub caret: i32,
    pub chg_first: i32,
    pub chg_length: i32,
    pub status: DrawStatus,
    pub preedit_string: &'a [u8],
    pub feedback_array: &'a [Feedback],
}

/// A move of the preedit caret that the client is asked to make.
#[derive(Debug, Clone, Copy)]
pub struct PreeditCaretMessage {
    pub position: i32,
    pub direction: CaretDirection,
    pub style: CaretStyle,
}

/// A status text that the client is asked to draw.
#[derive(Debug, Clone, Copy)]
pub struct StatusDrawTextMessage<'a> {
    pub status: DrawStatus,
    pub status_string: &'a [u8],
    pub feedback_array: &'a [Feedback],
}

/// A status bitmap that the client is asked to draw.
#[derive(Debug, Clone, Copy)]
pub struct StatusDrawBitmapMessage {
    pub pixmap_data: xcb::Pixmap,
}

/// One input-context attribute, borrowed from the record it came in.
#[derive(Debug, Clone)]
pub struct XicAttribute<'a> {
    pub attribute_id: u16,
    pub value: &'a [u8],
}

impl<'a> XicAttribute<'a> {
    /// Whether the attribute carries exactly what the record holds.
    pub open spec fn reads(&self, fr: &XicAttributeFrame) -> bool {
        &&& self.attribute_id == fr.attribute_id
        &&& self.value@ == fr.value@
    }
}

impl<'a> From<&'a XicAttributeFrame> for XicAttribute<'a> {
    fn from(fr: &'a XicAttributeFrame) -> (r: Self)
        ensures
            r.reads(fr),
    {
        XicAttribute { attribute_id: fr.attribute_id, value: fr.value.as_slice() }
    }
}

/// A borrowed attribute is described by `reads`: a slice cannot be written
/// down as a value in a specification, so `from_spec` is left open.
impl<'a> FromSpecImpl<&'a XicAttributeFrame> for XicAttribute<'a> {
    open spec fn obeys_from_spec() -> bool {
        false
    }

    open spec fn from_spec(fr: &'a XicAttributeFrame) -> Self {
        arbitrary()
    }
}

/// Whether each attribute of `attrs` carries exactly what the record at the
/// same place in `frames` holds.
pub open spec fn attributes_read(attrs: Seq<XicAttribute<'_>>, frames: Seq<XicAttributeFrame>) -> bool {
    &&& attrs.len() == frames.len()
    &&& forall|i: int| 0 <= i < attrs.len() ==> (#[trigger] attrs[i]).reads(&frames[i])
}

/// Borrows every attribute of a record list, in order.
pub fn borrow_attributes<'a>(frames: &'a Vec<XicAttributeFrame>) -> (r: Vec<XicAttribute<'a>>)
    ensures
        attributes_read(r@, frames@),
{
    let mut attrs: Vec<XicAttribute<'a>> = Vec::new();
    let mut i: usize = 0;
    while i < frames.len()
        invariant
            i <= frames.len(),
            attrs.len() == i,
            forall|j: int| 0 <= j < i ==> (#[trigger] attrs[j]).reads(&frames[j]),
        decreases frames.len() - i,
    {
        attrs.push(XicAttribute::from(&frames[i]));
        i = i + 1;
    }
    attrs
}

/// The direction in which the preedit caret is to move.
#[derive(Debug, Clone, Copy, PartialEq, Eq, Structural, PartialOrd, Ord, Hash)]
pub enum CaretDirection {
    ForwardChar,
    BackwardChar,
    ForwardWord,
    BackwardWord,
    CaretUp,
    CaretDown,
    NextLine,
    PreviousLine,
    LineStart,
    LineEnd,
    AbsolutePosition,
    DontChange,
}

impl CaretDirection {
    /// The protocol number of a direction.
    pub open spec fn code(self) -> u32 {
        match self {
            CaretDirection::ForwardChar => 0,
            CaretDirection::BackwardChar => 1,
            CaretDirection::ForwardWord => 2,
            CaretDirection::BackwardWord => 3,
            CaretDirection::CaretUp => 4,
            CaretDirection::CaretDown => 5,
            CaretDirection::NextLine => 6,
            CaretDirection::PreviousLine => 7,
            CaretDirection::LineStart => 8,
            CaretDirection::LineEnd => 9,
            CaretDirection::AbsolutePosition => 10,
            CaretDirection::DontChange => 11,
        }
    }

    /// The protocol number of a direction.
    pub fn to_u32(self) -> (r: u32)
        ensures
            r == self.code(),
            r <= 11,
    {
        match self {
            CaretDirection::ForwardChar => 0,
            CaretDirection::BackwardChar => 1,
            CaretDirection::ForwardWord => 2,
            CaretDirection::BackwardWord => 3,
            CaretDirection::CaretUp => 4,
            CaretDirection::CaretDown => 5,
            CaretDirection::NextLine => 6,
            CaretDirection::PreviousLine => 7,
            CaretDirection::LineStart => 8,
            CaretDirection::LineEnd => 9,
            CaretDirection::AbsolutePosition => 10,
            CaretDirection::DontChange => 11,
        }
    }
}

impl Default for CaretDirection {
    fn default() -> (r: Self)
        ensures
            r == CaretDirection::ForwardChar,
    {
        CaretDirection::ForwardChar
    }
}

/// How the preedit caret is to be shown.
#[derive(Debug, Clone, Copy, PartialEq, Eq, Structural, PartialOrd, Ord, Hash)]
pub enum CaretStyle {
    Invisible,
    Primary,
    Secondary,
}

impl CaretStyle {
    /// The protocol number of a caret style.
    pub open spec fn code(self) -> u32 {
        match self {
            CaretStyle::Invisible => 0,
            CaretStyle::Primary => 1,
            CaretStyle::Secondary => 2,
        }
    }

    /// The protocol number of a caret style.
    pub fn to_u32(self) -> (r: u32)
        ensures
            r == self.code(),
            r <= 2,
    {
        match self {
            CaretStyle::Invisible => 0,
            CaretStyle::Primary => 1,
            CaretStyle::Secondary => 2,
        }
    }
}

impl Default for CaretStyle {
    fn default() -> (r: Self)
        ensures
            r == CaretStyle::Invisible,
    {
        CaretStyle::Invisible
    }
}

/// Which of the registered trigger-key lists a trigger notification refers to.
///
/// The protocol defines the values `0` and `1`. Any other number is kept as it
/// came, in `Other`, so that nothing the client sent is lost.
#[derive(Debug, Clone, Copy, PartialEq, Eq, Structural, PartialOrd, Ord, Hash)]
pub enum TriggerNotifyFlag {
    OnKeysList,
    OffKeysList,
    Other(u32),
}

impl TriggerNotifyFlag {
    /// The flag that a protocol number stands for.
    pub open spec fn decode(x: u32) -> TriggerNotifyFlag {
        if x == 0 {
            TriggerNotifyFlag::OnKeysList
        } else if x == 1 {
            TriggerNotifyFlag::OffKeysList
        } else {
            TriggerNotifyFlag::Other(x)
        }
    }

    /// The protocol number that a flag is sent as.
    pub open spec fn encode(self) -> u32 {
        match self {
            TriggerNotifyFlag::OnKeysList => 0,
            TriggerNotifyFlag::OffKeysList => 1,
            TriggerNotifyFlag::Other(x) => x,
        }
    }

    /// Whether the flag is one of the two values that the protocol defines.
    pub open spec fn is_known(self) -> bool {
        self is OnKeysList || self is OffKeysList
    }

    /// Whether the flag is one of the two values that the protocol defines.
    pub fn known(&self) -> (r: bool)
        ensures
            r == self.is_known(),
    {
        match self {
            TriggerNotifyFlag::Other(_) => false,
            _ => true,
        }
    }

    /// Decoding maps `0` and `1` to the two lists and keeps every other
    /// number as it is; encoding gives the number back, whatever it was.
    pub proof fn lemma_decode(x: u32)
        ensures
            x == 0 <==> Self::decode(x) == TriggerNotifyFlag::OnKeysList,
            x == 1 <==> Self::decode(x) == TriggerNotifyFlag::OffKeysList,
            x > 1 <==> Self::decode(x) == TriggerNotifyFlag::Other(x),
            Self::decode(x).is_known() <==> x <= 1,
            Self::decode(x).encode() == x,
    {
    }
}

impl Default for TriggerNotifyFlag {
    fn default() -> (r: Self)
        ensures
            r == TriggerNotifyFlag::OnKeysList,
    {
        TriggerNotifyFlag::OnKeysList
    }
}

impl From<u32> for TriggerNotifyFlag {
    fn from(x: u32) -> (r: Self) {
        match x {
            0 => TriggerNotifyFlag::OnKeysList,
            1 => TriggerNotifyFlag::OffKeysList,
            x => TriggerNotifyFlag::Other(x),
        }
    }
}

impl FromSpecImpl<u32> for TriggerNotifyFlag {
    open spec fn obeys_from_spec() -> bool {
        true
    }

    open spec fn from_spec(x: u32) -> Self {
        TriggerNotifyFlag::decode(x)
    }
}

impl From<TriggerNotifyFlag> for u32 {
    fn from(x: TriggerNotifyFlag) -> (r: Self) {
        match x {
            TriggerNotifyFlag::OnKeysList => 0,
            TriggerNotifyFlag::OffKeysList => 1,
            TriggerNotifyFlag::Other(x) => x,
        }
    }
}

impl FromSpecImpl<TriggerNotifyFlag> for u32 {
    open spec fn obeys_from_spec() -> bool {
        true
    }

    open spec fn from_spec(x: TriggerNotifyFlag) -> Self {
        x.encode()
    }
}

} // verus!
