//! The two-variant container at the heart of the adapter: either an
//! already-resolved value, or a textual name by which one can be looked up.

use vstd::prelude::*;

verus! {

/// Either a resolved value of type `V`, or an unresolved textual name of
/// type `S` intended to be turned into a `V` later.
///
/// Exactly one variant is inhabited; construction is total and performs no
/// conversion. Turning a `Descriptor(S)` into a `Value(V)` is resolution,
/// and is the consumer's responsibility — no operation here does it
/// silently. The same shape serves class, method and field descriptors.
pub enum Desc<S, V> {
    /// An unresolved name, to be looked up by the consumer.
    Descriptor(S),
    /// An already-resolved value, usable directly.
    Value(V),
}

impl<S, V> Desc<S, V> {
    /// Discriminates without consuming: true exactly on the name-carrying
    /// variant.
    pub fn is_descriptor(&self) -> (b: bool)
        ensures
            b == (self is Descriptor),
    {
        match self {
            Desc::Descriptor(_) => true,
            Desc::Value(_) => false,
        }
    }

    /// Discriminates without consuming: true exactly on the value-carrying
    /// variant.
    pub fn is_value(&self) -> (b: bool)
        ensures
            b == (self is Value),
    {
        match self {
            Desc::Descriptor(_) => false,
            Desc::Value(_) => true,
        }
    }
}

/// Two-variant totality: every `Desc` inhabits exactly one of `Descriptor`
/// and `Value` — the two are never both present, never neither.
pub proof fn lemma_desc_exactly_one_variant<S, V>(d: Desc<S, V>)
    ensures
        d is Descriptor <==> !(d is Value),
{
}

} // verus!
