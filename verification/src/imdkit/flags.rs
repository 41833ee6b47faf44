//! The bit sets of the protocol.
//!
//! Each set is a number in which every bit has a name. A value of one of these
//! types never holds a bit without a name. A field that comes from the client
//! is decoded: it gives the set if every bit of it has a name, and is kept as
//! the number it is otherwise, so that nothing the client sent is lost.

use vstd::prelude::*;

verus! {

/// A protocol field that holds a bit set, as it was decoded: the set, if
/// every bit of the field has a name, and else the field's number as it came.
#[derive(Debug, Clone, Copy, PartialEq, Eq, Hash)]
pub enum Decoded<F, N> {
    Known(F),
    Other(N),
}

/// The input styles that a server offers and an input context selects: one
/// way of showing the preedit text together with one way of showing the
/// status.
#[derive(Debug, Clone, Copy, PartialEq, Eq, Hash)]
pub struct InputStyle {
    bits: u32,
}

impl View for InputStyle {
    type V = u32;

    closed spec fn view(&self) -> u32 {
        self.bits
    }
}

impl InputStyle {
    pub const PREEDIT_AREA: u32 = 0x0001;
    pub const PREEDIT_CALLBACKS: u32 = 0x0002;
    pub const PREEDIT_POSITION: u32 = 0x0004;
    pub const PREEDIT_NOTHING: u32 = 0x0008;
    pub const PREEDIT_NONE: u32 = 0x0010;
    pub const STATUS_AREA: u32 = 0x0100;
    pub const STATUS_CALLBACKS: u32 = 0x0200;
    pub const STATUS_NOTHING: u32 = 0x0400;
    pub const STATUS_NONE: u32 = 0x0800;
    /// Every named bit.
    pub const ALL: u32 = 0x0f1f;

    #[verifier::type_invariant]
    spec fn named_bits_only(self) -> bool {
        self.bits & !0x0f1fu32 == 0
    }

    /// Whether `bits` sets named bits only.
    pub open spec fn valid_bits(bits: u32) -> bool {
        bits & !0x0f1fu32 == 0
    }

    /// The empty set.
    pub fn empty() -> (r: Self)
        ensures
            r@ == 0,
    {
        assert(0u32 & !0x0f1fu32 == 0) by (bit_vector);
        InputStyle { bits: 0 }
    }

    /// The set of every named bit.
    pub fn all() -> (r: Self)
        ensures
            r@ == 0x0f1f,
    {
        assert(0x0f1fu32 & !0x0f1fu32 == 0) by (bit_vector);
        InputStyle { bits: 0x0f1f }
    }

    /// The set as a number.
    pub fn bits(&self) -> (r: u32)
        ensures
            r == self@,
            Self::valid_bits(r),
    {
        proof {
            use_type_invariant(self);
        }
        self.bits
    }

    /// The set that `bits` denotes, if every bit of it has a name.
    pub fn from_bits(bits: u32) -> (r: Option<Self>)
        ensures
            r is Some <==> Self::valid_bits(bits),
            r matches Some(s) ==> s@ == bits,
    {
        if bits & !0x0f1fu32 == 0 {
            Some(InputStyle { bits })
        } else {
            None
        }
    }


    /// Whether `decoded` is what the field `bits` decodes to: the set of
    /// exactly those bits if each of them has a name, and the number itself
    /// otherwise.
    pub open spec fn decodes(bits: u32, decoded: Decoded<InputStyle, u32>) -> bool {
        match decoded {
            Decoded::Known(set) => Self::valid_bits(bits) && set@ == bits,
            Decoded::Other(number) => !Self::valid_bits(bits) && number == bits,
        }
    }

    /// Decodes the field `bits`. No bit of it is dropped: a field with a bit
    /// that has no name is kept whole, as `Other`.
    pub fn decode(bits: u32) -> (r: Decoded<InputStyle, u32>)
        ensures
            Self::decodes(bits, r),
    {
        match Self::from_bits(bits) {
            Some(set) => Decoded::Known(set),
            None => Decoded::Other(bits),
        }
    }
    /// The set that `bits` denotes once the bits without a name are dropped.
    pub fn from_bits_truncate(bits: u32) -> (r: Self)
        ensures
            r@ == bits & 0x0f1f,
            Self::valid_bits(bits) ==> r@ == bits,
    {
        let kept: u32 = bits & 0x0f1f;
        assert(kept & !0x0f1fu32 == 0 && (bits & !0x0f1fu32 == 0 ==> kept == bits)) by (bit_vector)
            requires
                kept == bits & 0x0f1fu32,
        ;
        InputStyle { bits: kept }
    }

    /// Whether the set is empty.
    pub fn is_empty(&self) -> (r: bool)
        ensures
            r == (self@ == 0),
    {
        self.bits == 0
    }

    /// Whether every bit of `other` is set in `self`.
    pub fn contains(&self, other: InputStyle) -> (r: bool)
        ensures
            r == (self@ & other@ == other@),
    {
        self.bits & other.bits == other.bits
    }

    /// The bits of `self` and of `other` together.
    pub fn union(self, other: InputStyle) -> (r: Self)
        ensures
            r@ == self@ | other@,
    {
        proof {
            use_type_invariant(&self);
            use_type_invariant(&other);
        }
        let a: u32 = self.bits;
        let b: u32 = other.bits;
        let joined: u32 = a | b;
        assert(joined & !0x0f1fu32 == 0) by (bit_vector)
            requires
                joined == a | b,
                a & !0x0f1fu32 == 0,
                b & !0x0f1fu32 == 0,
        ;
        InputStyle { bits: joined }
    }
}

impl Default for InputStyle {
    fn default() -> (r: Self)
        ensures
            r@ == 0,
    {
        InputStyle::empty()
    }
}

/// What a draw request leaves out: the string, the feedback array, or both.
#[derive(Debug, Clone, Copy, PartialEq, Eq, Hash)]
pub struct DrawStatus {
    bits: u32,
}

impl View for DrawStatus {
    type V = u32;

    closed spec fn view(&self) -> u32 {
        self.bits
    }
}

impl DrawStatus {
    pub const NO_STRING: u32 = 0x0001;
    pub const NO_FEEDBACK: u32 = 0x0002;
    /// Every named bit.
    pub const ALL: u32 = 0x0003;

    #[verifier::type_invariant]
    spec fn named_bits_only(self) -> bool {
        self.bits & !0x0003u32 == 0
    }

    /// Whether `bits` sets named bits only.
    pub open spec fn valid_bits(bits: u32) -> bool {
        bits & !0x0003u32 == 0
    }

    /// The empty set.
    pub fn empty() -> (r: Self)
        ensures
            r@ == 0,
    {
        assert(0u32 & !0x0003u32 == 0) by (bit_vector);
        DrawStatus { bits: 0 }
    }

    /// The set of every named bit.
    pub fn all() -> (r: Self)
        ensures
            r@ == 0x0003,
    {
        assert(0x0003u32 & !0x0003u32 == 0) by (bit_vector);
        DrawStatus { bits: 0x0003 }
    }

    /// The set as a number.
    pub fn bits(&self) -> (r: u32)
        ensures
            r == self@,
            Self::valid_bits(r),
    {
        proof {
            use_type_invariant(self);
        }
        self.bits
    }

    /// The set that `bits` denotes, if every bit of it has a name.
    pub fn from_bits(bits: u32) -> (r: Option<Self>)
        ensures
            r is Some <==> Self::valid_bits(bits),
            r matches Some(s) ==> s@ == bits,
    {
        if bits & !0x0003u32 == 0 {
            Some(DrawStatus { bits })
        } else {
            None
        }
    }


    /// Whether `decoded` is what the field `bits` decodes to: the set of
    /// exactly those bits if each of them has a name, and the number itself
    /// otherwise.
    pub open spec fn decodes(bits: u32, decoded: Decoded<DrawStatus, u32>) -> bool {
        match decoded {
            Decoded::Known(set) => Self::valid_bits(bits) && set@ == bits,
            Decoded::Other(number) => !Self::valid_bits(bits) && number == bits,
        }
    }

    /// Decodes the field `bits`. No bit of it is dropped: a field with a bit
    /// that has no name is kept whole, as `Other`.
    pub fn decode(bits: u32) -> (r: Decoded<DrawStatus, u32>)
        ensures
            Self::decodes(bits, r),
    {
        match Self::from_bits(bits) {
            Some(set) => Decoded::Known(set),
            None => Decoded::Other(bits),
        }
    }
    /// The set that `bits` denotes once the bits without a name are dropped.
    pub fn from_bits_truncate(bits: u32) -> (r: Self)
        ensures
            r@ == bits & 0x0003,
            Self::valid_bits(bits) ==> r@ == bits,
    {
        let kept: u32 = bits & 0x0003;
        assert(kept & !0x0003u32 == 0 && (bits & !0x0003u32 == 0 ==> kept == bits)) by (bit_vector)
            requires
                kept == bits & 0x0003u32,
        ;
        DrawStatus { bits: kept }
    }

    /// Whether the set is empty.
    pub fn is_empty(&self) -> (r: bool)
        ensures
            r == (self@ == 0),
    {
        self.bits == 0
    }

    /// Whether every bit of `other` is set in `self`.
    pub fn contains(&self, other: DrawStatus) -> (r: bool)
        ensures
            r == (self@ & other@ == other@),
    {
        self.bits & other.bits == other.bits
    }

    /// The bits of `self` and of `other` together.
    pub fn union(self, other: DrawStatus) -> (r: Self)
        ensures
            r@ == self@ | other@,
    {
        proof {
            use_type_invariant(&self);
            use_type_invariant(&other);
        }
        let a: u32 = self.bits;
        let b: u32 = other.bits;
        let joined: u32 = a | b;
        assert(joined & !0x0003u32 == 0) by (bit_vector)
            requires
                joined == a | b,
                a & !0x0003u32 == 0,
                b & !0x0003u32 == 0,
        ;
        DrawStatus { bits: joined }
    }
}

impl Default for DrawStatus {
    fn default() -> (r: Self)
        ensures
            r@ == 0,
    {
        DrawStatus::empty()
    }
}

/// How one character of preedit or status text is to be rendered.
#[derive(Debug, Clone, Copy, PartialEq, Eq, Hash)]
pub struct Feedback {
    bits: u32,
}

impl View for Feedback {
    type V = u32;

    closed spec fn view(&self) -> u32 {
        self.bits
    }
}

impl Feedback {
    pub const REVERSE: u32 = 0x0001;
    pub const UNDERLINE: u32 = 0x0002;
    pub const HIGHLIGHT: u32 = 0x0004;
    pub const PRIMARY: u32 = 0x0020;
    pub const SECONDARY: u32 = 0x0040;
    pub const TERTIARY: u32 = 0x0080;
    pub const VISIBLE_TO_FORWARD: u32 = 0x0100;
    pub const VISIBLE_TO_BACKWORD: u32 = 0x0200;
    pub const VISIBLE_TO_CENTER: u32 = 0x0400;
    /// Every named bit.
    pub const ALL: u32 = 0x07e7;

    #[verifier::type_invariant]
    spec fn named_bits_only(self) -> bool {
        self.bits & !0x07e7u32 == 0
    }

    /// Whether `bits` sets named bits only.
    pub open spec fn valid_bits(bits: u32) -> bool {
        bits & !0x07e7u32 == 0
    }

    /// The empty set.
    pub fn empty() -> (r: Self)
        ensures
            r@ == 0,
    {
        assert(0u32 & !0x07e7u32 == 0) by (bit_vector);
        Feedback { bits: 0 }
    }

    /// The set of every named bit.
    pub fn all() -> (r: Self)
        ensures
            r@ == 0x07e7,
    {
        assert(0x07e7u32 & !0x07e7u32 == 0) by (bit_vector);
        Feedback { bits: 0x07e7 }
    }

    /// The set as a number.
    pub fn bits(&self) -> (r: u32)
        ensures
            r == self@,
            Self::valid_bits(r),
    {
        proof {
            use_type_invariant(self);
        }
        self.bits
    }

    /// The set that `bits` denotes, if every bit of it has a name.
    pub fn from_bits(bits: u32) -> (r: Option<Self>)
        ensures
            r is Some <==> Self::valid_bits(bits),
            r matches Some(s) ==> s@ == bits,
    {
        if bits & !0x07e7u32 == 0 {
            Some(Feedback { bits })
        } else {
            None
        }
    }


    /// Whether `decoded` is what the field `bits` decodes to: the set of
    /// exactly those bits if each of them has a name, and the number itself
    /// otherwise.
    pub open spec fn decodes(bits: u32, decoded: Decoded<Feedback, u32>) -> bool {
        match decoded {
            Decoded::Known(set) => Self::valid_bits(bits) && set@ == bits,
            Decoded::Other(number) => !Self::valid_bits(bits) && number == bits,
        }
    }

    /// Decodes the field `bits`. No bit of it is dropped: a field with a bit
    /// that has no name is kept whole, as `Other`.
    pub fn decode(bits: u32) -> (r: Decoded<Feedback, u32>)
        ensures
            Self::decodes(bits, r),
    {
        match Self::from_bits(bits) {
            Some(set) => Decoded::Known(set),
            None => Decoded::Other(bits),
        }
    }
    /// The set that `bits` denotes once the bits without a name are dropped.
    pub fn from_bits_truncate(bits: u32) -> (r: Self)
        ensures
            r@ == bits & 0x07e7,
            Self::valid_bits(bits) ==> r@ == bits,
    {
        let kept: u32 = bits & 0x07e7;
        assert(kept & !0x07e7u32 == 0 && (bits & !0x07e7u32 == 0 ==> kept == bits)) by (bit_vector)
            requires
                kept == bits & 0x07e7u32,
        ;
        Feedback { bits: kept }
    }

    /// Whether the set is empty.
    pub fn is_empty(&self) -> (r: bool)
        ensures
            r == (self@ == 0),
    {
        self.bits == 0
    }

    /// Whether every bit of `other` is set in `self`.
    pub fn contains(&self, other: Feedback) -> (r: bool)
        ensures
            r == (self@ & other@ == other@),
    {
        self.bits & other.bits == other.bits
    }

    /// The bits of `self` and of `other` together.
    pub fn union(self, other: Feedback) -> (r: Self)
        ensures
            r@ == self@ | other@,
    {
        proof {
            use_type_invariant(&self);
            use_type_invariant(&other);
        }
        let a: u32 = self.bits;
        let b: u32 = other.bits;
        let joined: u32 = a | b;
        assert(joined & !0x07e7u32 == 0) by (bit_vector)
            requires
                joined == a | b,
                a & !0x07e7u32 == 0,
                b & !0x07e7u32 == 0,
        ;
        Feedback { bits: joined }
    }
}

impl Default for Feedback {
    fn default() -> (r: Self)
        ensures
            r@ == 0,
    {
        Feedback::empty()
    }
}

/// What the sender of a forwarded event asks of its receiver.
#[derive(Debug, Clone, Copy, PartialEq, Eq, Hash)]
pub struct ForwardEventFlag {
    bits: u16,
}

impl View for ForwardEventFlag {
    type V = u16;

    closed spec fn view(&self) -> u16 {
        self.bits
    }
}

impl ForwardEventFlag {
    pub const SYNCHRONOUS: u16 = 0x0001;
    pub const REQUEST_FILTERING: u16 = 0x0002;
    pub const REQUEST_LOOKUPSTRING: u16 = 0x0004;
    /// Every named bit.
    pub const ALL: u16 = 0x0007;

    #[verifier::type_invariant]
    spec fn named_bits_only(self) -> bool {
        self.bits & !0x0007u16 == 0
    }

    /// Whether `bits` sets named bits only.
    pub open spec fn valid_bits(bits: u16) -> bool {
        bits & !0x0007u16 == 0
    }

    /// The empty set.
    pub fn empty() -> (r: Self)
        ensures
            r@ == 0,
    {
        assert(0u16 & !0x0007u16 == 0) by (bit_vector);
        ForwardEventFlag { bits: 0 }
    }

    /// The set of every named bit.
    pub fn all() -> (r: Self)
        ensures
            r@ == 0x0007,
    {
        assert(0x0007u16 & !0x0007u16 == 0) by (bit_vector);
        ForwardEventFlag { bits: 0x0007 }
    }

    /// The set as a number.
    pub fn bits(&self) -> (r: u16)
        ensures
            r == self@,
            Self::valid_bits(r),
    {
        proof {
            use_type_invariant(self);
        }
        self.bits
    }

    /// The set that `bits` denotes, if every bit of it has a name.
    pub fn from_bits(bits: u16) -> (r: Option<Self>)
        ensures
            r is Some <==> Self::valid_bits(bits),
            r matches Some(s) ==> s@ == bits,
    {
        if bits & !0x0007u16 == 0 {
            Some(ForwardEventFlag { bits })
        } else {
            None
        }
    }


    /// Whether `decoded` is what the field `bits` decodes to: the set of
    /// exactly those bits if each of them has a name, and the number itself
    /// otherwise.
    pub open spec fn decodes(bits: u16, decoded: Decoded<ForwardEventFlag, u16>) -> bool {
        match decoded {
            Decoded::Known(set) => Self::valid_bits(bits) && set@ == bits,
            Decoded::Other(number) => !Self::valid_bits(bits) && number == bits,
        }
    }

    /// Decodes the field `bits`. No bit of it is dropped: a field with a bit
    /// that has no name is kept whole, as `Other`.
    pub fn decode(bits: u16) -> (r: Decoded<ForwardEventFlag, u16>)
        ensures
            Self::decodes(bits, r),
    {
        match Self::from_bits(bits) {
            Some(set) => Decoded::Known(set),
            None => Decoded::Other(bits),
        }
    }
    /// The set that `bits` denotes once the bits without a name are dropped.
    pub fn from_bits_truncate(bits: u16) -> (r: Self)
        ensures
            r@ == bits & 0x0007,
            Self::valid_bits(bits) ==> r@ == bits,
    {
        let kept: u16 = bits & 0x0007;
        assert(kept & !0x0007u16 == 0 && (bits & !0x0007u16 == 0 ==> kept == bits)) by (bit_vector)
            requires
                kept == bits & 0x0007u16,
        ;
        ForwardEventFlag { bits: kept }
    }

    /// Whether the set is empty.
    pub fn is_empty(&self) -> (r: bool)
        ensures
            r == (self@ == 0),
    {
        self.bits == 0
    }

    /// Whether every bit of `other` is set in `self`.
    pub fn contains(&self, other: ForwardEventFlag) -> (r: bool)
        ensures
            r == (self@ & other@ == other@),
    {
        self.bits & other.bits == other.bits
    }

    /// The bits of `self` and of `other` together.
    pub fn union(self, other: ForwardEventFlag) -> (r: Self)
        ensures
            r@ == self@ | other@,
    {
        proof {
            use_type_invariant(&self);
            use_type_invariant(&other);
        }
        let a: u16 = self.bits;
        let b: u16 = other.bits;
        let joined: u16 = a | b;
        assert(joined & !0x0007u16 == 0) by (bit_vector)
            requires
                joined == a | b,
                a & !0x0007u16 == 0,
                b & !0x0007u16 == 0,
        ;
        ForwardEventFlag { bits: joined }
    }
}

impl Default for ForwardEventFlag {
    fn default() -> (r: Self)
        ensures
            r@ == 0,
    {
        ForwardEventFlag::empty()
    }
}

/// What the sender of a key event forwarded through the extension asks of its
/// receiver.
#[derive(Debug, Clone, Copy, PartialEq, Eq, Hash)]
pub struct ExtForwardKeyeventFlag {
    bits: u16,
}

impl View for ExtForwardKeyeventFlag {
    type V = u16;

    closed spec fn view(&self) -> u16 {
        self.bits
    }
}

impl ExtForwardKeyeventFlag {
    pub const SYNCHRONOUS: u16 = 0x0001;
    /// Every named bit.
    pub const ALL: u16 = 0x0001;

    #[verifier::type_invariant]
    spec fn named_bits_only(self) -> bool {
        self.bits & !0x0001u16 == 0
    }

    /// Whether `bits` sets named bits only.
    pub open spec fn valid_bits(bits: u16) -> bool {
        bits & !0x0001u16 == 0
    }

    /// The empty set.
    pub fn empty() -> (r: Self)
        ensures
            r@ == 0,
    {
        assert(0u16 & !0x0001u16 == 0) by (bit_vector);
        ExtForwardKeyeventFlag { bits: 0 }
    }

    /// The set of every named bit.
    pub fn all() -> (r: Self)
        ensures
            r@ == 0x0001,
    {
        assert(0x0001u16 & !0x0001u16 == 0) by (bit_vector);
        ExtForwardKeyeventFlag { bits: 0x0001 }
    }

    /// The set as a number.
    pub fn bits(&self) -> (r: u16)
        ensures
            r == self@,
            Self::valid_bits(r),
    {
        proof {
            use_type_invariant(self);
        }
        self.bits
    }

    /// The set that `bits` denotes, if every bit of it has a name.
    pub fn from_bits(bits: u16) -> (r: Option<Self>)
        ensures
            r is Some <==> Self::valid_bits(bits),
            r matches Some(s) ==> s@ == bits,
    {
        if bits & !0x0001u16 == 0 {
            Some(ExtForwardKeyeventFlag { bits })
        } else {
            None
        }
    }


    /// Whether `decoded` is what the field `bits` decodes to: the set of
    /// exactly those bits if each of them has a name, and the number itself
    /// otherwise.
    pub open spec fn decodes(bits: u16, decoded: Decoded<ExtForwardKeyeventFlag, u16>) -> bool {
        match decoded {
            Decoded::Known(set) => Self::valid_bits(bits) && set@ == bits,
            Decoded::Other(number) => !Self::valid_bits(bits) && number == bits,
        }
    }

    /// Decodes the field `bits`. No bit of it is dropped: a field with a bit
    /// that has no name is kept whole, as `Other`.
    pub fn decode(bits: u16) -> (r: Decoded<ExtForwardKeyeventFlag, u16>)
        ensures
            Self::decodes(bits, r),
    {
        match Self::from_bits(bits) {
            Some(set) => Decoded::Known(set),
            None => Decoded::Other(bits),
        }
    }
    /// The set that `bits` denotes once the bits without a name are dropped.
    pub fn from_bits_truncate(bits: u16) -> (r: Self)
        ensures
            r@ == bits & 0x0001,
            Self::valid_bits(bits) ==> r@ == bits,
    {
        let kept: u16 = bits & 0x0001;
        assert(kept & !0x0001u16 == 0 && (bits & !0x0001u16 == 0 ==> kept == bits)) by (bit_vector)
            requires
                kept == bits & 0x0001u16,
        ;
        ExtForwardKeyeventFlag { bits: kept }
    }

    /// Whether the set is empty.
    pub fn is_empty(&self) -> (r: bool)
        ensures
            r == (self@ == 0),
    {
        self.bits == 0
    }

    /// Whether every bit of `other` is set in `self`.
    pub fn contains(&self, other: ExtForwardKeyeventFlag) -> (r: bool)
        ensures
            r == (self@ & other@ == other@),
    {
        self.bits & other.bits == other.bits
    }

    /// The bits of `self` and of `other` together.
    pub fn union(self, other: ExtForwardKeyeventFlag) -> (r: Self)
        ensures
            r@ == self@ | other@,
    {
        proof {
            use_type_invariant(&self);
            use_type_invariant(&other);
        }
        let a: u16 = self.bits;
        let b: u16 = other.bits;
        let joined: u16 = a | b;
        assert(joined & !0x0001u16 == 0) by (bit_vector)
            requires
                joined == a | b,
                a & !0x0001u16 == 0,
                b & !0x0001u16 == 0,
        ;
        ExtForwardKeyeventFlag { bits: joined }
    }
}

impl Default for ExtForwardKeyeventFlag {
    fn default() -> (r: Self)
        ensures
            r@ == 0,
    {
        ExtForwardKeyeventFlag::empty()
    }
}

} // verus!
