//! Input contexts: the identity of one, and the registry of those alive.

use vstd::prelude::*;
use std::collections::HashSet;
use crate::imdkit::error::{ImError, ProtocolField, Strictness};
use crate::imdkit::flags::{Decoded, InputStyle};

verus! {

/// One input session of a client window, known by the address of the
/// engine's object for it. The address is never null and is never followed:
/// it only tells one context from another.
#[derive(Debug, Clone, Copy, PartialEq, Eq, Hash)]
pub struct InputContext(usize);

impl InputContext {
    #[verifier::type_invariant]
    spec fn non_null(self) -> bool {
        self.0 != 0
    }

    /// The address that identifies the context.
    pub closed spec fn addr(&self) -> usize {
        self.0
    }

    /// The context whose address is `addr`.
    pub closed spec fn at(addr: usize) -> InputContext {
        InputContext(addr)
    }

    /// A context is its address and nothing else.
    pub broadcast proof fn lemma_at(addr: usize)
        ensures
            (#[trigger] InputContext::at(addr)).addr() == addr,
    {
    }

    /// The context that the engine means by `addr`: none for the null
    /// address.
    pub open spec fn resolve(addr: usize) -> Option<InputContext> {
        if addr != 0 {
            Some(InputContext::at(addr))
        } else {
            None
        }
    }

    /// The context at `addr`, or nothing for the null address.
    pub fn from_ptr(addr: usize) -> (r: Option<InputContext>)
        ensures
            r == InputContext::resolve(addr),
            r is Some <==> addr != 0,
            r matches Some(ic) ==> ic.addr() == addr,
    {
        if addr != 0 {
            Some(InputContext(addr))
        } else {
            None
        }
    }

    /// The address that identifies the context.
    pub fn as_ptr(&self) -> (r: usize)
        ensures
            r == self.addr(),
            r != 0,
    {
        proof {
            use_type_invariant(self);
        }
        self.0
    }

    /// The address that identifies the context, which is never null.
    pub fn as_ptr_non_null(&self) -> (r: usize)
        ensures
            r == self.addr(),
            r != 0,
    {
        self.as_ptr()
    }

    /// Whether two contexts are the same one.
    pub fn same(&self, other: &InputContext) -> (r: bool)
        ensures
            r == (self.addr() == other.addr()),
    {
        self.0 == other.0
    }

    /// Two contexts with the same address are equal.
    pub proof fn lemma_identity(a: InputContext, b: InputContext)
        ensures
            a.addr() == b.addr() <==> a == b,
    {
    }
}

/// The input style that the engine reports for a context as a number.
///
/// A number with bits that name no style is an error under `Strict`. Under
/// `Tolerant` it is kept whole, as `Other`.
pub fn decode_input_style(bits: u32, strictness: Strictness) -> (r: Result<
    Decoded<InputStyle, u32>,
    ImError,
>)
    ensures
        r is Err <==> strictness == Strictness::Strict && !InputStyle::valid_bits(bits),
        r matches Err(e) ==> e == (ImError::ProtocolInvariantViolation {
            field: ProtocolField::InputStyle,
            value: bits,
        }),
        r matches Ok(style) ==> InputStyle::decodes(bits, style),
{
    let decoded = InputStyle::decode(bits);
    match decoded {
        Decoded::Known(_) => Ok(decoded),
        Decoded::Other(_) => match strictness {
            Strictness::Strict => Err(
                ImError::ProtocolInvariantViolation { field: ProtocolField::InputStyle, value: bits },
            ),
            Strictness::Tolerant => Ok(decoded),
        },
    }
}

/// The input contexts that are alive.
///
/// A context enters when the engine reports its creation and leaves when the
/// engine reports its destruction. Only a context in the registry may be
/// named in a request to the engine.
#[derive(Debug)]
pub struct InputContextRegistry {
    live: HashSet<usize>,
}

impl View for InputContextRegistry {
    type V = Set<usize>;

    closed spec fn view(&self) -> Set<usize> {
        self.live@
    }
}

impl InputContextRegistry {
    /// The registry with no context in it.
    pub fn new() -> (r: Self)
        ensures
            r@ == Set::<usize>::empty(),
    {
        InputContextRegistry { live: HashSet::new() }
    }

    /// Enters a context. Returns whether it was absent before.
    pub fn insert(&mut self, ic: InputContext) -> (r: bool)
        ensures
            final(self)@ == old(self)@.insert(ic.addr()),
            r == !old(self)@.contains(ic.addr()),
    {
        broadcast use vstd::std_specs::hash::group_hash_axioms;

        self.live.insert(ic.as_ptr())
    }

    /// Takes a context out. Returns whether it was present before.
    pub fn remove(&mut self, ic: &InputContext) -> (r: bool)
        ensures
            final(self)@ == old(self)@.remove(ic.addr()),
            r == old(self)@.contains(ic.addr()),
    {
        broadcast use vstd::std_specs::hash::group_hash_axioms;

        let addr: usize = ic.as_ptr();
        self.live.remove(&addr)
    }

    /// Whether a context is alive.
    pub fn contains(&self, ic: &InputContext) -> (r: bool)
        ensures
            r == self@.contains(ic.addr()),
    {
        broadcast use vstd::std_specs::hash::group_hash_axioms;

        let addr: usize = ic.as_ptr();
        self.live.contains(&addr)
    }

    /// The context at `addr`, if one is alive there.
    pub fn get(&self, addr: usize) -> (r: Option<InputContext>)
        ensures
            r is Some <==> addr != 0 && self@.contains(addr),
            r matches Some(ic) ==> ic.addr() == addr,
    {
        match InputContext::from_ptr(addr) {
            Some(ic) => if self.contains(&ic) {
                Some(ic)
            } else {
                None
            },
            None => None,
        }
    }

    /// How many contexts are alive.
    pub fn len(&self) -> (r: usize)
        ensures
            r == self@.len(),
    {
        broadcast use vstd::std_specs::hash::group_hash_axioms;

        self.live.len()
    }
}

} // verus!
