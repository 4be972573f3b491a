//! The interned textual form consumed by the JNI facade, and the
//! "convertible to it" capability that descriptor payloads must declare.

use vstd::prelude::*;

verus! {

/// The normalised textual form the JNI facade expects for class names.
///
/// This adapter layer stores descriptor payloads in the caller's own textual
/// type and never materialises a `JNIString` itself; the facade performs the
/// conversion on demand, when it actually resolves a class by name.
pub struct JNIString {
    inner: String,
}

impl View for JNIString {
    type V = Seq<char>;

    closed spec fn view(&self) -> Seq<char> {
        self.inner@
    }
}

impl JNIString {
    /// Interns the given text.
    pub fn new(s: String) -> (r: JNIString)
        ensures
            r@ == s@,
    {
        JNIString { inner: s }
    }

    /// The interned text, for consumption by the facade.
    pub fn as_str(&self) -> (r: &str)
        ensures
            r@ == self@,
    {
        self.inner.as_str()
    }
}

/// The capability "can be turned into a [`JNIString`]".
///
/// Every textual payload carried by a class descriptor must declare this, so
/// that the facade, given any descriptor, can obtain the class name on demand.
/// The conversion is content-preserving: the produced `JNIString` holds
/// exactly the characters of the input, as `jni_chars` describes them.
pub trait IntoJNIString: Sized {
    /// The characters the conversion will intern.
    spec fn jni_chars(self) -> Seq<char>;

    /// Performs the conversion, preserving the characters exactly.
    fn into_jni_string(self) -> (r: JNIString)
        ensures
            r@ == self.jni_chars(),
    ;
}

impl IntoJNIString for String {
    open spec fn jni_chars(self) -> Seq<char> {
        self@
    }

    fn into_jni_string(self) -> (r: JNIString) {
        JNIString::new(self)
    }
}

impl<'s> IntoJNIString for &'s str {
    open spec fn jni_chars(self) -> Seq<char> {
        self@
    }

    fn into_jni_string(self) -> (r: JNIString) {
        JNIString::new(self.to_string())
    }
}

impl IntoJNIString for JNIString {
    open spec fn jni_chars(self) -> Seq<char> {
        self@
    }

    fn into_jni_string(self) -> (r: JNIString) {
        self
    }
}

} // verus!
