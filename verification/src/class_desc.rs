//! The canonical class-descriptor form and the conversion protocol that
//! normalises every accepted caller input into it.

use crate::descriptors::Desc;
use crate::objects::JClass;
use crate::strings::IntoJNIString;
use vstd::prelude::*;

verus! {

/// Specialisation of [`Desc`] for class descriptors: the payload value is a
/// live [`JClass`] handle, and the payload name is any textual type
/// convertible to a JNI string.
///
/// The newtype gives the class case its own nominal identity so the
/// conversion rules of [`IntoClassDesc`] can target it specifically. It is
/// created by the protocol, consumed by move by the facade, and never
/// mutated in between.
pub struct ClassDesc<'a, S: IntoJNIString>(pub Desc<S, JClass<'a>>);

impl<'a, S: IntoJNIString> ClassDesc<'a, S> {
    /// Wraps `inner` without inspecting or converting it.
    pub fn new(inner: Desc<S, JClass<'a>>) -> (r: ClassDesc<'a, S>)
        ensures
            r.0 == inner,
    {
        ClassDesc(inner)
    }

    /// Consumes the wrapper, yielding the inhabited variant untouched.
    pub fn into_inner(self) -> (r: Desc<S, JClass<'a>>)
        ensures
            r == self.0,
    {
        self.0
    }
}

/// Anything that can be turned into a class descriptor.
///
/// Implementations are provided for [`ClassDesc`] itself (the identity
/// conversion), for `Desc<S, JClass>` (wrapped, variant preserved), for
/// [`JClass`] (becomes `Value(handle)`), and for anything convertible to a
/// JNI string (becomes `Descriptor(name)`). This set is the entire design
/// surface: nothing else is accepted.
///
/// Implementors are better off declaring [`IntoJNIString`] and letting the
/// provided blanket implementation for it do the rest.
///
/// The conversion is total: it cannot fail, performs no I/O, and moves the
/// payload without converting it. `desc_spec` pins down, per input shape,
/// exactly which `Desc` the produced descriptor carries.
pub trait IntoClassDesc<'a>: Sized {
    /// The textual type the resulting descriptor will carry.
    type Desc: IntoJNIString;

    /// The exact container the conversion yields for this input.
    spec fn desc_spec(self) -> Desc<Self::Desc, JClass<'a>>;

    /// Normalises `self` into the canonical class-descriptor form.
    fn into_desc(self) -> (r: ClassDesc<'a, Self::Desc>)
        ensures
            r.0 == self.desc_spec(),
    ;
}

/// The identity conversion: a `ClassDesc` is already canonical and is
/// returned exactly as it came — same variant, same payload. This is the
/// idempotence law of the protocol.
impl<'a, S: IntoJNIString> IntoClassDesc<'a> for ClassDesc<'a, S> {
    type Desc = S;

    open spec fn desc_spec(self) -> Desc<S, JClass<'a>> {
        self.0
    }

    fn into_desc(self) -> (r: ClassDesc<'a, S>)
        ensures
            r == self,
    {
        self
    }
}

/// The catch-all for textual names: any type convertible to a JNI string
/// becomes an unresolved `Descriptor(name)`, with the payload moved as-is
/// and no JNI string materialised at this layer.
impl<'a, S: IntoJNIString> IntoClassDesc<'a> for S {
    type Desc = S;

    open spec fn desc_spec(self) -> Desc<S, JClass<'a>> {
        Desc::Descriptor(self)
    }

    fn into_desc(self) -> (r: ClassDesc<'a, S>) {
        ClassDesc(Desc::Descriptor(self))
    }
}

/// A live handle becomes a resolved `Value(handle)`, moved, not duplicated.
/// The textual type is fixed to `&'static str` only so the descriptor type
/// is well-formed; no descriptor string exists and none is ever inspected,
/// because the variant is `Value`.
impl<'a> IntoClassDesc<'a> for JClass<'a> {
    type Desc = &'static str;

    open spec fn desc_spec(self) -> Desc<&'static str, JClass<'a>> {
        Desc::Value(self)
    }

    fn into_desc(self) -> (r: ClassDesc<'a, &'static str>) {
        ClassDesc(Desc::Value(self))
    }
}

/// A bare `Desc` over a class handle is wrapped with its variant and
/// payload preserved.
impl<'a, S: IntoJNIString> IntoClassDesc<'a> for Desc<S, JClass<'a>> {
    type Desc = S;

    open spec fn desc_spec(self) -> Desc<S, JClass<'a>> {
        self
    }

    fn into_desc(self) -> (r: ClassDesc<'a, S>) {
        ClassDesc(self)
    }
}

} // verus!
