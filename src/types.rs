//! Type tags on both sides of the bridge.
use vstd::prelude::*;

verus! {

/// The runtime tag of a guest value.
#[derive(Clone, Copy, Debug, PartialEq, Eq, Structural)]
pub enum Ruby {
    Array,
    Bool,
    Data,
    Fixnum,
    Nil,
    String,
    /// A tag internal to the guest runtime: such a value must never be
    /// dispatched to or read by host code.
    Unreachable,
}

/// The host type that a conversion starts from or aims at.
#[derive(Clone, Copy, Debug, PartialEq, Eq, Structural)]
pub enum Rust {
    Bool,
    Fixnum,
    Object,
    String,
    Vec,
}

/// The class name that the debug rendering of a value shows for `tag`.
pub open spec fn class_name_of(tag: Ruby) -> Seq<char> {
    match tag {
        Ruby::Array => "Array"@,
        Ruby::Bool => "Boolean"@,
        Ruby::Data => "Data"@,
        Ruby::Fixnum => "Fixnum"@,
        Ruby::Nil => "NilClass"@,
        Ruby::String => "String"@,
        Ruby::Unreachable => "Unreachable"@,
    }
}

impl Ruby {
    /// The class name that the debug rendering of a value shows.
    pub fn class_name(&self) -> (r: String)
        ensures
            r@ == class_name_of(*self),
    {
        match self {
            Ruby::Array => String::from_str("Array"),
            Ruby::Bool => String::from_str("Boolean"),
            Ruby::Data => String::from_str("Data"),
            Ruby::Fixnum => String::from_str("Fixnum"),
            Ruby::Nil => String::from_str("NilClass"),
            Ruby::String => String::from_str("String"),
            Ruby::Unreachable => String::from_str("Unreachable"),
        }
    }
}

} // verus!
