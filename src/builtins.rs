//! The core methods that the guest runtime answers, stated as what a call
//! replies, and the dispatch that performs a call on the heap.
use vstd::prelude::*;

use crate::interp::{
    elements_in, heap_extends, tag_of, text_in, Artichoke, MrbValue, RObject, Slot,
};
use crate::text::{decimal, int_to_s, int_to_string, push_decimal, quote, quoted, str_eq};
use crate::types::Ruby;

verus! {

/// What a call into the guest answers, before anything is allocated for it.
pub enum Reply {
    /// An existing value.
    Value(MrbValue),
    /// A new string object with this text.
    Text(Seq<char>),
    /// New string objects with these texts, gathered in a new array.
    Texts(Seq<Seq<char>>),
    /// An exception with this message (`Class: text`).
    Raise(Seq<char>),
}

/// Whether `name` is a method that every value answers.
pub open spec fn is_kernel_method(name: Seq<char>) -> bool {
    name == "to_s"@ || name == "inspect"@ || name == "nil?"@ || name == "itself"@ || name
        == "freeze"@ || name == "=="@ || name == "respond_to?"@
}

/// Whether `name` is a method that strings answer besides those of every value.
pub open spec fn is_string_method(name: Seq<char>) -> bool {
    name == "+"@ || name == "split"@
}

/// Whether a receiver `recv` answers the method `name`.
pub open spec fn responds(recv: MrbValue, name: Seq<char>) -> bool {
    is_kernel_method(name) || (tag_of(recv) == Ruby::String && is_string_method(name))
}

/// How many arguments the method `name` takes.
pub open spec fn arity(name: Seq<char>) -> nat {
    if name == "=="@ || name == "respond_to?"@ || name == "+"@ || name == "split"@ {
        1
    } else {
        0
    }
}

/// The message of calling a method that the receiver does not answer.
pub open spec fn no_method_message(name: Seq<char>) -> Seq<char> {
    "NoMethodError: undefined method '"@ + name + "'"@
}

/// The message of calling a method with the wrong number of arguments.
pub open spec fn arity_message(given: nat, expected: nat) -> Seq<char> {
    "ArgumentError: wrong number of arguments (given "@ + decimal(given) + ", expected "@ + decimal(
        expected,
    ) + ")"@
}

/// How a value that should have been a string is named in a type error.
pub open spec fn describe(v: MrbValue) -> Seq<char> {
    match v {
        MrbValue::Nil => "nil"@,
        MrbValue::Bool(b) => if b { "true"@ } else { "false"@ },
        MrbValue::Fixnum(_) => "Integer"@,
        MrbValue::Str(_) => "String"@,
        MrbValue::Ary(_) => "Array"@,
        MrbValue::Data(_) => "Data"@,
        MrbValue::Undef => "Unreachable"@,
    }
}

/// The message of passing `v` where a string is needed.
pub open spec fn type_message(v: MrbValue) -> Seq<char> {
    "TypeError: "@ + describe(v) + " cannot be converted to String"@
}

/// The message of splitting on a separator other than the empty string.
pub open spec fn split_message() -> Seq<char> {
    "NotImplementedError: split supports only the empty separator"@
}

/// The text of `true` or `false`.
pub open spec fn bool_text(b: bool) -> Seq<char> {
    if b { "true"@ } else { "false"@ }
}

/// What `to_s` answers on `v`.
pub open spec fn to_s_reply(heap: Seq<Slot>, v: MrbValue) -> Reply {
    match v {
        MrbValue::Nil => Reply::Text(Seq::empty()),
        MrbValue::Bool(b) => Reply::Text(bool_text(b)),
        MrbValue::Fixnum(n) => Reply::Text(int_to_s(n as int)),
        MrbValue::Str(_) => if text_in(heap, v) is Some { Reply::Value(v) } else { Reply::Value(MrbValue::Undef) },
        MrbValue::Ary(_) => Reply::Text("#<Array>"@),
        MrbValue::Data(_) => Reply::Text("#<Data>"@),
        MrbValue::Undef => Reply::Value(MrbValue::Undef),
    }
}

/// What `inspect` answers on `v`.
pub open spec fn inspect_reply(heap: Seq<Slot>, v: MrbValue) -> Reply {
    match v {
        MrbValue::Nil => Reply::Text("nil"@),
        MrbValue::Str(_) => match text_in(heap, v) {
            Some(t) => Reply::Text(quoted(t)),
            None => Reply::Value(MrbValue::Undef),
        },
        _ => to_s_reply(heap, v),
    }
}

/// Whether `==` holds of `v` and `w`: strings compare by text, everything
/// else by identity.
pub open spec fn guest_equal(heap: Seq<Slot>, v: MrbValue, w: MrbValue) -> bool {
    match (text_in(heap, v), text_in(heap, w)) {
        (Some(t), Some(u)) => t == u,
        _ => v == w,
    }
}

/// Each character of `t` as a text of its own.
pub open spec fn chars_of(t: Seq<char>) -> Seq<Seq<char>> {
    Seq::new(t.len(), |k: int| seq![t[k]])
}

/// What the method `name` answers on receiver `recv` with arguments `args`.
pub open spec fn reply(heap: Seq<Slot>, recv: MrbValue, name: Seq<char>, args: Seq<MrbValue>) -> Reply {
    if !responds(recv, name) {
        Reply::Raise(no_method_message(name))
    } else if args.len() != arity(name) {
        Reply::Raise(arity_message(args.len(), arity(name)))
    } else if name == "to_s"@ {
        to_s_reply(heap, recv)
    } else if name == "inspect"@ {
        inspect_reply(heap, recv)
    } else if name == "nil?"@ {
        Reply::Value(MrbValue::Bool(recv == MrbValue::Nil))
    } else if name == "=="@ {
        Reply::Value(MrbValue::Bool(guest_equal(heap, recv, args[0])))
    } else if name == "respond_to?"@ {
        match text_in(heap, args[0]) {
            Some(u) => Reply::Value(MrbValue::Bool(responds(recv, u))),
            None => Reply::Raise(type_message(args[0])),
        }
    } else if name == "+"@ || name == "split"@ {
        match text_in(heap, recv) {
            None => Reply::Value(MrbValue::Undef),
            Some(t) => match text_in(heap, args[0]) {
                None => Reply::Raise(type_message(args[0])),
                Some(u) => if name == "+"@ {
                    Reply::Text(t + u)
                } else if u.len() == 0 {
                    Reply::Texts(chars_of(t))
                } else {
                    Reply::Raise(split_message())
                },
            },
        }
    } else {
        // `itself` and `freeze`
        Reply::Value(recv)
    }
}

/// How many heap cells delivering `r` takes.
pub open spec fn cells_needed(r: Reply) -> nat {
    match r {
        Reply::Value(_) => 0,
        Reply::Text(_) => 1,
        Reply::Texts(ts) => ts.len() + 1,
        Reply::Raise(_) => 1,
    }
}

/// The rooting stack `arena` with the indices `from .. from + n` pushed.
pub open spec fn pushed(arena: Seq<usize>, from: nat, n: nat) -> Seq<usize> {
    arena + Seq::new(n, |k: int| (from + k) as usize)
}

/// The heap `new` holds, from index `from` on, live string objects with the
/// texts `ts`.
pub open spec fn holds_texts(new: Seq<Slot>, from: nat, ts: Seq<Seq<char>>) -> bool {
    forall|k: int| 0 <= k < ts.len() ==> text_in(new, MrbValue::Str((from + k) as usize)) == Some(
        #[trigger] ts[k],
    ) && !new[from + k].dead
}

/// `v` refers to an array of strings whose texts are `ts`, in order.
pub open spec fn array_texts(heap: Seq<Slot>, v: MrbValue, ts: Seq<Seq<char>>) -> bool {
    match elements_in(heap, v) {
        Some(els) => els.len() == ts.len() && forall|k: int| 0 <= k < els.len() ==> text_in(
            heap,
            #[trigger] els[k],
        ) == Some(ts[k]),
        None => false,
    }
}

/// The value that the guest hands back for `r` when its heap held `base`
/// objects before the call.
pub open spec fn returned(base: nat, r: Reply) -> MrbValue {
    match r {
        Reply::Value(v) => v,
        Reply::Text(_) => MrbValue::Str(base as usize),
        Reply::Texts(ts) => MrbValue::Ary((base + ts.len()) as usize),
        Reply::Raise(_) => MrbValue::Nil,
    }
}

/// The heap `new` is `old` with the objects that delivering `r` creates
/// appended, alive.
pub open spec fn heap_delivered(old: Seq<Slot>, new: Seq<Slot>, r: Reply) -> bool {
    let base = old.len();
    &&& heap_extends(old, new)
    &&& new.len() == base + cells_needed(r)
    &&& match r {
        Reply::Value(_) => true,
        Reply::Text(t) => holds_texts(new, base, seq![t]),
        Reply::Texts(ts) => holds_texts(new, base, ts) && elements_in(new, returned(base, r)) == Some(
            Seq::new(ts.len(), |k: int| MrbValue::Str((base + k) as usize)),
        ) && !new[(base + ts.len()) as int].dead && array_texts(new, returned(base, r), ts),
        Reply::Raise(m) => holds_texts(new, base, seq![m]),
    }
}

/// `new` is `old` after the guest delivered `r`, handing back `ret`: new
/// objects are appended to the heap, alive and rooted, and a raised
/// exception lands in the last-error slot.
pub open spec fn delivered(old: Artichoke, new: Artichoke, r: Reply, ret: MrbValue) -> bool {
    let base = old.heap@.len();
    &&& heap_delivered(old.heap@, new.heap@, r)
    &&& ret == returned(base, r)
    &&& new.arena@ == pushed(old.arena@, base, cells_needed(r))
    &&& new.symbols == old.symbols
    &&& new.exc == (match r {
        Reply::Raise(_) => Some(MrbValue::Str(base as usize)),
        _ => None,
    })
}

proof fn lemma_pushed(arena: Seq<usize>, from: nat, n: nat)
    ensures
        n == 0 ==> pushed(arena, from, n) == arena,
        pushed(arena, from, n + 1) == pushed(arena, from, n).push((from + n) as usize),
{
    assert(pushed(arena, from, 0) =~= arena);
    assert(pushed(arena, from, n + 1) =~= pushed(arena, from, n).push((from + n) as usize));
}

/// Whether receiver `recv` answers the method `name`.
pub fn answers(recv: MrbValue, name: &str) -> (r: bool)
    ensures
        r == responds(recv, name@),
{
    let kernel = str_eq(name, "to_s") || str_eq(name, "inspect") || str_eq(name, "nil?")
        || str_eq(name, "itself") || str_eq(name, "freeze") || str_eq(name, "==") || str_eq(
        name,
        "respond_to?",
    );
    let string_method = str_eq(name, "+") || str_eq(name, "split");
    kernel || (recv.tag() == Ruby::String && string_method)
}

/// How `v` is named in a type error.
fn describe_of(v: MrbValue) -> (r: &'static str)
    ensures
        r@ == describe(v),
{
    match v {
        MrbValue::Nil => "nil",
        MrbValue::Bool(b) => if b { "true" } else { "false" },
        MrbValue::Fixnum(_) => "Integer",
        MrbValue::Str(_) => "String",
        MrbValue::Ary(_) => "Array",
        MrbValue::Data(_) => "Data",
        MrbValue::Undef => "Unreachable",
    }
}

impl Artichoke {
    /// Hands back an existing value.
    fn deliver_value(&mut self, v: MrbValue) -> (ret: MrbValue)
        requires
            old(self).exc is None,
        ensures
            delivered(*old(self), *final(self), Reply::Value(v), ret),
    {
        proof {
            lemma_pushed(self.arena@, self.heap@.len(), 0);
        }
        v
    }

    /// Hands back a new string object holding `s`.
    fn deliver_text(&mut self, s: String) -> (ret: MrbValue)
        requires
            old(self).exc is None,
            old(self).heap@.len() + 1 < usize::MAX,
        ensures
            delivered(*old(self), *final(self), Reply::Text(s@), ret),
    {
        let ghost t = s@;
        let i = self.allocate(RObject::Str(s));
        proof {
            lemma_pushed(old(self).arena@, old(self).heap@.len(), 0);
            lemma_pushed(old(self).arena@, old(self).heap@.len(), 1);
            assert(text_in(self.heap@, MrbValue::Str(i)) == Some(t));
        }
        MrbValue::Str(i)
    }

    /// Raises an exception with message `m`.
    fn deliver_raise(&mut self, m: String) -> (ret: MrbValue)
        requires
            old(self).exc is None,
            old(self).heap@.len() + 1 < usize::MAX,
        ensures
            delivered(*old(self), *final(self), Reply::Raise(m@), ret),
    {
        let ghost t = m@;
        let i = self.allocate(RObject::Str(m));
        self.exc = Some(MrbValue::Str(i));
        proof {
            lemma_pushed(old(self).arena@, old(self).heap@.len(), 0);
            lemma_pushed(old(self).arena@, old(self).heap@.len(), 1);
            assert(text_in(self.heap@, MrbValue::Str(i)) == Some(t));
        }
        MrbValue::Nil
    }

    /// Hands back a new array of new one-character strings, one for each
    /// character of `t`.
    fn deliver_chars(&mut self, t: &str) -> (ret: MrbValue)
        requires
            old(self).exc is None,
            old(self).heap@.len() + t@.len() + 1 < usize::MAX,
        ensures
            delivered(*old(self), *final(self), Reply::Texts(chars_of(t@)), ret),
    {
        let base = self.heap.len();
        let n = t.unicode_len();
        let mut elems: Vec<MrbValue> = Vec::new();
        let mut i: usize = 0;
        proof {
            lemma_pushed(self.arena@, base as nat, 0);
        }
        while i < n
            invariant
                n == t@.len(),
                base == old(self).heap@.len(),
                base + n + 1 < usize::MAX,
                i <= n,
                self.heap@.len() == base + i,
                heap_extends(old(self).heap@, self.heap@),
                forall|k: int| 0 <= k < i ==> text_in(self.heap@, MrbValue::Str((base + k) as usize))
                    == Some(#[trigger] chars_of(t@)[k]) && !self.heap@[base + k].dead,
                self.arena@ == pushed(old(self).arena@, base as nat, i as nat),
                elems@ == Seq::new(i as nat, |k: int| MrbValue::Str((base + k) as usize)),
                self.exc is None,
                self.symbols == old(self).symbols,
            decreases n - i,
        {
            let one = t.substring_char(i, i + 1);
            let idx = self.allocate(RObject::Str(String::from_str(one)));
            elems.push(MrbValue::Str(idx));
            proof {
                lemma_pushed(old(self).arena@, base as nat, i as nat);
                assert(elems@ =~= Seq::new((i + 1) as nat, |k: int| MrbValue::Str((base + k) as usize)));
                assert(chars_of(t@)[i as int] =~= one@);
            }
            i = i + 1;
        }
        let ghost es = elems@;
        let ghost before = self.heap@;
        let a = self.allocate(RObject::Ary(elems));
        proof {
            assert(chars_of(t@).len() == n as nat);
            assert forall|k: int| 0 <= k < n implies text_in(self.heap@, MrbValue::Str((base + k) as usize))
                == Some(#[trigger] chars_of(t@)[k]) && !self.heap@[base + k].dead by {
                assert(self.heap@[base + k] == before[base + k]);
            }
            assert(holds_texts(self.heap@, base as nat, chars_of(t@)));
            assert forall|k: int| 0 <= k < es.len() implies text_in(self.heap@, #[trigger] es[k]) == Some(
                chars_of(t@)[k],
            ) by {
                assert(es[k] == MrbValue::Str((base + k) as usize));
            }
            lemma_pushed(old(self).arena@, base as nat, n as nat);
            assert(elements_in(self.heap@, MrbValue::Ary(a)) == Some(es));
        }
        MrbValue::Ary(a)
    }

    /// Whether `==` holds of `v` and `w` in the guest.
    pub fn guest_eq(&self, v: MrbValue, w: MrbValue) -> (r: bool)
        ensures
            r == guest_equal(self.heap@, v, w),
    {
        match (self.text_of(v), self.text_of(w)) {
            (Some(a), Some(b)) => str_eq(a.as_str(), b.as_str()),
            _ => v == w,
        }
    }

    /// Performs `to_s` on `v`.
    fn reply_to_s(&mut self, v: MrbValue) -> (ret: MrbValue)
        requires
            old(self).exc is None,
            old(self).heap@.len() + cells_needed(to_s_reply(old(self).heap@, v)) < usize::MAX,
        ensures
            delivered(*old(self), *final(self), to_s_reply(old(self).heap@, v), ret),
    {
        match v {
            MrbValue::Nil => self.deliver_text(String::new()),
            MrbValue::Bool(b) => if b {
                self.deliver_text(String::from_str("true"))
            } else {
                self.deliver_text(String::from_str("false"))
            },
            MrbValue::Fixnum(n) => self.deliver_text(int_to_string(n)),
            MrbValue::Str(_) => if self.text_of(v).is_some() {
                self.deliver_value(v)
            } else {
                self.deliver_value(MrbValue::Undef)
            },
            MrbValue::Ary(_) => self.deliver_text(String::from_str("#<Array>")),
            MrbValue::Data(_) => self.deliver_text(String::from_str("#<Data>")),
            MrbValue::Undef => self.deliver_value(MrbValue::Undef),
        }
    }

    /// Performs `inspect` on `v`.
    fn reply_inspect(&mut self, v: MrbValue) -> (ret: MrbValue)
        requires
            old(self).exc is None,
            old(self).heap@.len() + cells_needed(inspect_reply(old(self).heap@, v)) < usize::MAX,
        ensures
            delivered(*old(self), *final(self), inspect_reply(old(self).heap@, v), ret),
    {
        match v {
            MrbValue::Nil => self.deliver_text(String::from_str("nil")),
            MrbValue::Str(_) => {
                let q = match self.text_of(v) {
                    Some(t) => Some(quote(t.as_str())),
                    None => None,
                };
                match q {
                    Some(q) => self.deliver_text(q),
                    None => self.deliver_value(MrbValue::Undef),
                }
            },
            _ => self.reply_to_s(v),
        }
    }
}

impl Artichoke {
    /// Performs the method `name` on `recv` with `args` inside the guest:
    /// what it answers is `reply`; an exception is left in the last-error
    /// slot rather than unwinding.
    pub fn dispatch(&mut self, recv: MrbValue, name: &str, args: &[MrbValue]) -> (ret: MrbValue)
        requires
            old(self).heap@.len() + cells_needed(reply(old(self).heap@, recv, name@, args@))
                < usize::MAX,
        ensures
            delivered(*old(self), *final(self), reply(old(self).heap@, recv, name@, args@), ret),
    {
        self.exc = None;
        if !answers(recv, name) {
            return self.deliver_raise(no_method_message_of(name));
        }
        let one = str_eq(name, "==") || str_eq(name, "respond_to?") || str_eq(name, "+") || str_eq(
            name,
            "split",
        );
        let expected: usize = if one { 1 } else { 0 };
        if args.len() != expected {
            return self.deliver_raise(arity_message_of(args.len(), expected));
        }
        if str_eq(name, "to_s") {
            self.reply_to_s(recv)
        } else if str_eq(name, "inspect") {
            self.reply_inspect(recv)
        } else if str_eq(name, "nil?") {
            self.deliver_value(MrbValue::Bool(recv == MrbValue::Nil))
        } else if str_eq(name, "==") {
            let b = self.guest_eq(recv, args[0]);
            self.deliver_value(MrbValue::Bool(b))
        } else if str_eq(name, "respond_to?") {
            let b = match self.text_of(args[0]) {
                Some(u) => Some(answers(recv, u.as_str())),
                None => None,
            };
            match b {
                Some(b) => self.deliver_value(MrbValue::Bool(b)),
                None => self.deliver_raise(type_message_of(args[0])),
            }
        } else if str_eq(name, "+") || str_eq(name, "split") {
            let plus = str_eq(name, "+");
            let t = match self.text_of(recv) {
                Some(t) => String::from_str(t.as_str()),
                None => {
                    return self.deliver_value(MrbValue::Undef);
                },
            };
            let u = match self.text_of(args[0]) {
                Some(u) => String::from_str(u.as_str()),
                None => {
                    return self.deliver_raise(type_message_of(args[0]));
                },
            };
            if plus {
                let mut s = t;
                s.append(u.as_str());
                self.deliver_text(s)
            } else if u.unicode_len() == 0 {
                self.deliver_chars(t.as_str())
            } else {
                proof {
                    reveal_strlit("NotImplementedError: split supports only the empty separator");
                }
                self.deliver_raise(
                    String::from_str("NotImplementedError: split supports only the empty separator"),
                )
            }
        } else {
            self.deliver_value(recv)
        }
    }
}

/// The message of passing `v` where a string is needed.
fn type_message_of(v: MrbValue) -> (r: String)
    ensures
        r@ == type_message(v),
{
    let mut s = String::from_str("TypeError: ");
    s.append(describe_of(v));
    s.append(" cannot be converted to String");
    s
}

/// The message of calling a method with the wrong number of arguments.
fn arity_message_of(given: usize, expected: usize) -> (r: String)
    ensures
        r@ == arity_message(given as nat, expected as nat),
{
    let mut s = String::from_str("ArgumentError: wrong number of arguments (given ");
    push_decimal(&mut s, given as u64);
    s.append(", expected ");
    push_decimal(&mut s, expected as u64);
    s.append(")");
    s
}

/// The message of calling a method that the receiver does not answer.
fn no_method_message_of(name: &str) -> (r: String)
    ensures
        r@ == no_method_message(name@),
{
    let mut s = String::from_str("NoMethodError: undefined method '");
    s.append(name);
    s.append("'");
    s
}

} // verus!
