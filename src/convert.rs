//! Typed conversions across the bridge.
//!
//! Guest to host is fallible: the runtime tag decides whether a value has a
//! representation in the requested host type. Host to guest is infallible
//! for immediates and fallible for text, which cannot carry a NUL character
//! into the runtime's C-string representation.
use vstd::prelude::*;

use crate::error::{convert_error, ArtichokeError, ConvertError};
use crate::interp::{elements_in, heap_extends, tag_of, text_in, Artichoke, MrbValue, RObject, Slot};
use crate::types::{Ruby, Rust};
use crate::value::Value;

verus! {

/// A host type that a guest value may be converted to.
pub trait TryConvert: Sized {
    /// Whether `r` is what converting `v`, read against `heap`, gives.
    spec fn converts(heap: Seq<Slot>, v: MrbValue, r: Result<Self, ConvertError>) -> bool;

    /// Converts `v` to this host type.
    fn try_convert(interp: &Artichoke, v: MrbValue) -> (r: Result<Self, ConvertError>)
        ensures
            Self::converts(interp.heap@, v, r),
    ;
}

/// Whether `r`, a classified result, is what converting `v` gives.
pub open spec fn converts_call<T: TryConvert>(
    heap: Seq<Slot>,
    v: MrbValue,
    r: Result<T, ArtichokeError>,
) -> bool {
    match r {
        Ok(t) => T::converts(heap, v, Ok(t)),
        Err(e) => exists|c: ConvertError| e == convert_error(c) && T::converts(heap, v, Err(c)),
    }
}

impl TryConvert for bool {
    open spec fn converts(heap: Seq<Slot>, v: MrbValue, r: Result<bool, ConvertError>) -> bool {
        match r {
            Ok(b) => v == MrbValue::Bool(b),
            Err(e) => !(v is Bool) && e == (ConvertError::ToRust { from: tag_of(v), to: Rust::Bool }),
        }
    }

    fn try_convert(interp: &Artichoke, v: MrbValue) -> (r: Result<bool, ConvertError>) {
        match v {
            MrbValue::Bool(b) => Ok(b),
            _ => Err(ConvertError::ToRust { from: v.tag(), to: Rust::Bool }),
        }
    }
}

impl TryConvert for i64 {
    open spec fn converts(heap: Seq<Slot>, v: MrbValue, r: Result<i64, ConvertError>) -> bool {
        match r {
            Ok(n) => v == MrbValue::Fixnum(n),
            Err(e) => !(v is Fixnum) && e == (ConvertError::ToRust { from: tag_of(v), to: Rust::Fixnum }),
        }
    }

    fn try_convert(interp: &Artichoke, v: MrbValue) -> (r: Result<i64, ConvertError>) {
        match v {
            MrbValue::Fixnum(n) => Ok(n),
            _ => Err(ConvertError::ToRust { from: v.tag(), to: Rust::Fixnum }),
        }
    }
}

impl TryConvert for String {
    open spec fn converts(heap: Seq<Slot>, v: MrbValue, r: Result<String, ConvertError>) -> bool {
        match r {
            Ok(s) => text_in(heap, v) == Some(s@),
            Err(e) => text_in(heap, v) is None && e == (ConvertError::ToRust {
                from: tag_of(v),
                to: Rust::String,
            }),
        }
    }

    fn try_convert(interp: &Artichoke, v: MrbValue) -> (r: Result<String, ConvertError>) {
        match interp.text_of(v) {
            Some(s) => Ok(String::from_str(s.as_str())),
            None => Err(ConvertError::ToRust { from: v.tag(), to: Rust::String }),
        }
    }
}

/// Whether every element of `els` is a string whose text `vs` holds, in order.
pub open spec fn texts_match(heap: Seq<Slot>, els: Seq<MrbValue>, vs: Seq<String>) -> bool {
    els.len() == vs.len() && forall|k: int| 0 <= k < els.len() ==> text_in(heap, #[trigger] els[k])
        == Some(vs[k]@)
}

/// Whether every element of `els` is a string.
pub open spec fn all_texts(heap: Seq<Slot>, els: Seq<MrbValue>) -> bool {
    forall|k: int| 0 <= k < els.len() ==> text_in(heap, #[trigger] els[k]) is Some
}

impl TryConvert for Vec<String> {
    open spec fn converts(heap: Seq<Slot>, v: MrbValue, r: Result<Vec<String>, ConvertError>) -> bool {
        match r {
            Ok(vs) => match elements_in(heap, v) {
                Some(els) => texts_match(heap, els, vs@),
                None => false,
            },
            Err(e) => !(match elements_in(heap, v) {
                Some(els) => all_texts(heap, els),
                None => false,
            }) && e == (ConvertError::ToRust { from: tag_of(v), to: Rust::Vec }),
        }
    }

    fn try_convert(interp: &Artichoke, v: MrbValue) -> (r: Result<Vec<String>, ConvertError>) {
        let els = match interp.elements_of(v) {
            Some(els) => els,
            None => {
                return Err(ConvertError::ToRust { from: v.tag(), to: Rust::Vec });
            },
        };
        let mut out: Vec<String> = Vec::new();
        let n = els.len();
        let mut i: usize = 0;
        while i < n
            invariant
                n == els@.len(),
                elements_in(interp.heap@, v) == Some(els@),
                i <= n,
                texts_match(interp.heap@, els@.take(i as int), out@),
            decreases n - i,
        {
            match interp.text_of(els[i]) {
                Some(s) => {
                    out.push(String::from_str(s.as_str()));
                    assert(els@.take(i + 1) =~= els@.take(i as int).push(els@[i as int]));
                },
                None => {
                    return Err(ConvertError::ToRust { from: v.tag(), to: Rust::Vec });
                },
            }
            i = i + 1;
        }
        assert(els@.take(n as int) =~= els@);
        Ok(out)
    }
}

impl TryConvert for Value {
    open spec fn converts(heap: Seq<Slot>, v: MrbValue, r: Result<Value, ConvertError>) -> bool {
        match r {
            Ok(val) => val.raw() == v,
            Err(_) => false,
        }
    }

    fn try_convert(interp: &Artichoke, v: MrbValue) -> (r: Result<Value, ConvertError>) {
        Ok(Value::new(v))
    }
}

impl Value {
    /// A guest `true` or `false`.
    pub fn from_bool(b: bool) -> (r: Value)
        ensures
            r.raw() == MrbValue::Bool(b),
    {
        Value::new(MrbValue::Bool(b))
    }

    /// A guest integer.
    pub fn from_int(n: i64) -> (r: Value)
        ensures
            r.raw() == MrbValue::Fixnum(n),
    {
        Value::new(MrbValue::Fixnum(n))
    }

    /// The guest `nil`.
    pub fn nil() -> (r: Value)
        ensures
            r.raw() == MrbValue::Nil,
    {
        Value::new(MrbValue::Nil)
    }

    /// `Some(v)` as `v`, and `None` as `nil`.
    pub fn from_option(v: Option<Value>) -> (r: Value)
        ensures
            r.raw() == match v {
                Some(v) => v.raw(),
                None => MrbValue::Nil,
            },
    {
        match v {
            Some(v) => v,
            None => Value::nil(),
        }
    }

    /// A new guest string holding `s`; text with a NUL character has no
    /// guest representation and is refused, with nothing created.
    pub fn try_from_mrb(interp: &mut Artichoke, s: &str) -> (r: Result<Value, ConvertError>)
        requires
            old(interp).heap@.len() + 1 < usize::MAX,
        ensures
            s@.contains('\0') ==> r == Err::<Value, ConvertError>(
                ConvertError::ToRuby { from: Rust::String, to: Ruby::String },
            ) && *final(interp) == *old(interp),
            !s@.contains('\0') ==> r is Ok && text_in(final(interp).heap@, r->Ok_0.raw()) == Some(s@)
                && final(interp).heap@.len() == old(interp).heap@.len() + 1
                && heap_extends(old(interp).heap@, final(interp).heap@)
                && final(interp).arena@ == old(interp).arena@.push(old(interp).heap@.len() as usize)
                && final(interp).symbols == old(interp).symbols
                && final(interp).exc == old(interp).exc,
    {
        if crate::text::contains_nul(s) {
            return Err(ConvertError::ToRuby { from: Rust::String, to: Ruby::String });
        }
        let i = interp.allocate(RObject::Str(String::from_str(s)));
        assert(text_in(interp.heap@, MrbValue::Str(i)) == Some(s@));
        Ok(Value::new(MrbValue::Str(i)))
    }
}

} // verus!
