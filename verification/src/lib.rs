//! A small adapter layer that unifies how callers refer to a Java class when
//! invoking operations through a JNI bridge.
//!
//! A caller may already hold a live, resolved class handle ([`JClass`]), or may
//! wish to name a class by its textual descriptor (e.g. `"java/lang/String"`)
//! and have it resolved lazily on first use. The adapter collapses these
//! alternatives into one canonical form, [`ClassDesc`], accepted by all
//! class-consuming operations of the surrounding facade.

pub mod class_desc;
pub mod descriptors;
pub mod objects;
pub mod strings;

pub use crate::class_desc::{ClassDesc, IntoClassDesc};
pub use crate::descriptors::{lemma_desc_exactly_one_variant, Desc};
pub use crate::objects::{JClass, JniEnv};
pub use crate::strings::{IntoJNIString, JNIString};
