//! Value handles and the protected invocation protocol.
use vstd::prelude::*;

use crate::builtins::{heap_delivered, pushed, reply, responds, returned, Reply};
use crate::convert::{converts_call, TryConvert};
use crate::error::{convert_error, ArtichokeError, MRB_FUNCALL_ARGC_MAX};
use crate::interp::{dead_in, names, protected, tag_of, text_in, Artichoke, MrbValue, Slot};
use crate::types::Ruby;

verus! {

/// A handle to a guest value.
///
/// The handle carries the tagged datum only; the runtime context it belongs
/// to is passed to every operation that reads or changes guest state.
pub struct Value {
    value: MrbValue,
}

impl Value {
    /// The tagged datum this handle wraps.
    pub closed spec fn raw(&self) -> MrbValue {
        self.value
    }

    /// A handle for `value`.
    pub fn new(value: MrbValue) -> (r: Value)
        ensures
            r.raw() == value,
    {
        Value { value }
    }

    /// The tagged datum this handle wraps.
    pub fn inner(&self) -> (r: MrbValue)
        ensures
            r == self.raw(),
    {
        self.value
    }

    /// The runtime tag of this value.
    pub fn ruby_type(&self) -> (r: Ruby)
        ensures
            r == tag_of(self.raw()),
    {
        self.value.tag()
    }

    /// Whether this value carries the runtime's internal tag, which host
    /// code must never dispatch to or read.
    pub fn is_unreachable(&self) -> (r: bool)
        ensures
            r == (tag_of(self.raw()) == Ruby::Unreachable),
    {
        self.ruby_type() == Ruby::Unreachable
    }
}

/// The tagged data of a list of handles.
pub open spec fn raws(args: Seq<Value>) -> Seq<MrbValue> {
    args.map_values(|v: Value| v.raw())
}

/// The symbol table `new` is `old` with `name` interned: unchanged if it
/// held `name`, else with `name` appended.
pub open spec fn interned(old: Seq<String>, new: Seq<String>, name: Seq<char>) -> bool {
    if names(old).contains(name) {
        new == old
    } else {
        new.len() == old.len() + 1 && names(new) == names(old).push(name)
    }
}

/// `new` is `old` after one protected call of `name` on `recv` with `args`:
/// the objects of the guest's answer are on the heap, the rooting stack is
/// back at its depth before the call, the last-error slot is empty and the
/// method name is interned.
pub open spec fn called(
    old: Artichoke,
    new: Artichoke,
    recv: MrbValue,
    name: Seq<char>,
    args: Seq<MrbValue>,
) -> bool {
    &&& heap_delivered(old.heap@, new.heap@, reply(old.heap@, recv, name, args))
    &&& new.arena@ == old.arena@
    &&& new.exc is None
    &&& interned(old.symbols@, new.symbols@, name)
}

/// Whether `r` is how the protocol classifies the guest's answer `rep`,
/// given the heap after the call, which held `base` objects before it.
pub open spec fn classified<T: TryConvert>(
    heap: Seq<Slot>,
    base: nat,
    rep: Reply,
    r: Result<T, ArtichokeError>,
) -> bool {
    match rep {
        Reply::Raise(m) => match r {
            Err(ArtichokeError::Exec(e)) => e@ == m,
            _ => false,
        },
        _ => if returned(base, rep) == MrbValue::Undef {
            r == Err::<T, ArtichokeError>(ArtichokeError::UnreachableValue(Ruby::Unreachable))
        } else {
            converts_call::<T>(heap, returned(base, rep), r)
        },
    }
}

/// Whether `r` is the argument-count error.
pub open spec fn is_too_many_args<T>(r: Result<T, ArtichokeError>) -> bool {
    r is Err && r->Err_0 is TooManyArgs
}

/// What a call descriptor hands the trampoline: receiver, method symbol and
/// arguments.
pub struct ProtectArgs {
    pub slf: MrbValue,
    pub func_sym: usize,
    pub args: Vec<MrbValue>,
}

/// A call descriptor that also carries a block.
pub struct ProtectArgsWithBlock {
    pub slf: MrbValue,
    pub func_sym: usize,
    pub args: Vec<MrbValue>,
    pub block: MrbValue,
}

impl ProtectArgs {
    /// A descriptor for calling `func_sym` on `slf` with `args`.
    pub fn new(slf: MrbValue, func_sym: usize, args: Vec<MrbValue>) -> (r: ProtectArgs)
        ensures
            r.slf == slf,
            r.func_sym == func_sym,
            r.args == args,
    {
        ProtectArgs { slf, func_sym, args }
    }

    /// The same descriptor, carrying `block` as well.
    pub fn with_block(self, block: MrbValue) -> (r: ProtectArgsWithBlock)
        ensures
            r.slf == self.slf,
            r.func_sym == self.func_sym,
            r.args == self.args,
            r.block == block,
    {
        ProtectArgsWithBlock { slf: self.slf, func_sym: self.func_sym, args: self.args, block }
    }
}

/// The trampoline: exactly one dispatch inside the guest, consuming the
/// descriptor; an exception stays in the last-error slot.
fn run_protected(interp: &mut Artichoke, args: ProtectArgs) -> (ret: MrbValue)
    requires
        args.func_sym < old(interp).symbols@.len(),
        old(interp).heap@.len() + crate::builtins::cells_needed(
            reply(old(interp).heap@, args.slf, names(old(interp).symbols@)[args.func_sym as int], args.args@),
        ) < usize::MAX,
    ensures
        crate::builtins::delivered(
            *old(interp),
            *final(interp),
            reply(old(interp).heap@, args.slf, names(old(interp).symbols@)[args.func_sym as int], args.args@),
            ret,
        ),
{
    let name = String::from_str(interp.symbols[args.func_sym].as_str());
    interp.dispatch(args.slf, name.as_str(), args.args.as_slice())
}

/// The trampoline for a call with a block. The core methods take no block,
/// so the guest answers as without one.
fn run_protected_with_block(interp: &mut Artichoke, args: ProtectArgsWithBlock) -> (ret: MrbValue)
    requires
        args.func_sym < old(interp).symbols@.len(),
        old(interp).heap@.len() + crate::builtins::cells_needed(
            reply(old(interp).heap@, args.slf, names(old(interp).symbols@)[args.func_sym as int], args.args@),
        ) < usize::MAX,
    ensures
        crate::builtins::delivered(
            *old(interp),
            *final(interp),
            reply(old(interp).heap@, args.slf, names(old(interp).symbols@)[args.func_sym as int], args.args@),
            ret,
        ),
{
    let name = String::from_str(interp.symbols[args.func_sym].as_str());
    interp.dispatch(args.slf, name.as_str(), args.args.as_slice())
}

/// Reads and clears the last-error slot, then classifies the value the
/// guest handed back.
fn classify<T: TryConvert>(interp: &mut Artichoke, value: MrbValue) -> (r: Result<T, ArtichokeError>)
    ensures
        final(interp).heap == old(interp).heap,
        final(interp).arena == old(interp).arena,
        final(interp).symbols == old(interp).symbols,
        final(interp).exc is None,
        match old(interp).exc {
            Some(e) => match text_in(old(interp).heap@, e) {
                Some(m) => match r {
                    Err(ArtichokeError::Exec(x)) => x@ == m,
                    _ => false,
                },
                None => r == Err::<T, ArtichokeError>(ArtichokeError::UnableToExtractException),
            },
            None => if value == MrbValue::Undef {
                r == Err::<T, ArtichokeError>(ArtichokeError::UnreachableValue(Ruby::Unreachable))
            } else {
                converts_call::<T>(old(interp).heap@, value, r)
            },
        },
{
    match interp.exc {
        Some(e) => {
            let msg = match interp.text_of(e) {
                Some(t) => Some(String::from_str(t.as_str())),
                None => None,
            };
            interp.exc = None;
            match msg {
                Some(m) => Err(ArtichokeError::Exec(m)),
                None => Err(ArtichokeError::UnableToExtractException),
            }
        },
        None => {
            if value == MrbValue::Undef {
                return Err(ArtichokeError::UnreachableValue(value.tag()));
            }
            match T::try_convert(interp, value) {
                Ok(t) => Ok(t),
                Err(c) => {
                    let e = ArtichokeError::from_convert(c);
                    assert(e == convert_error(c));
                    Err(e)
                },
            }
        },
    }
}

proof fn lemma_restore_pushed(arena: Seq<usize>, from: nat, n: nat)
    ensures
        pushed(arena, from, n).take(arena.len() as int) == arena,
        arena.len() <= pushed(arena, from, n).len(),
{
    assert(pushed(arena, from, n).take(arena.len() as int) =~= arena);
}

/// Copies the tagged data out of a list of handles.
fn raw_args(args: &[Value]) -> (r: Vec<MrbValue>)
    ensures
        r@ == raws(args@),
{
    let mut out: Vec<MrbValue> = Vec::new();
    let n = args.len();
    let mut i: usize = 0;
    while i < n
        invariant
            n == args@.len(),
            i <= n,
            out@ == raws(args@).take(i as int),
        decreases n - i,
    {
        out.push(args[i].inner());
        assert(raws(args@).take(i + 1) =~= raws(args@).take(i as int).push(args@[i as int].raw()));
        i = i + 1;
    }
    assert(raws(args@).take(n as int) =~= raws(args@));
    out
}

/// Calls methods on guest values through the protected invocation protocol.
pub trait ValueLike: Sized {
    /// The tagged datum of this handle.
    spec fn receiver(&self) -> MrbValue;

    /// The tagged datum of this handle.
    fn inner(&self) -> (r: MrbValue)
        ensures
            r == self.receiver(),
    ;

    /// Whether this value answers the method `method`, asked of the guest
    /// through `respond_to?`; a name with a NUL character cannot reach the
    /// guest and is refused.
    fn respond_to(&self, interp: &mut Artichoke, method: &str) -> (r: Result<bool, ArtichokeError>)
        requires
            old(interp).symbols@.len() < usize::MAX,
            old(interp).heap@.len() + 2 < usize::MAX,
        ensures
            method@.contains('\0') ==> r == Err::<bool, ArtichokeError>(
                ArtichokeError::ConvertToRuby { from: crate::types::Rust::String, to: Ruby::String },
            ),
            !method@.contains('\0') ==> r == Ok::<bool, ArtichokeError>(responds(self.receiver(), method@)),
    ;

    /// Calls `func` with `args` and converts the result to `T`.
    ///
    /// More than sixteen arguments fail at once and leave the context
    /// untouched. Otherwise the call crosses into the guest exactly once,
    /// inside one rooting savepoint that is restored on every path, and the
    /// outcome is classified: a raised exception, then an unreachable
    /// value, then the conversion to `T`.
    fn funcall<T: TryConvert>(&self, interp: &mut Artichoke, func: &str, args: &[Value]) -> (r: Result<
        T,
        ArtichokeError,
    >)
        requires
            old(interp).symbols@.len() < usize::MAX,
            old(interp).heap@.len() + crate::builtins::cells_needed(
                reply(old(interp).heap@, self.receiver(), func@, raws(args@)),
            ) < usize::MAX,
        ensures
            args@.len() > MRB_FUNCALL_ARGC_MAX ==> r == Err::<T, ArtichokeError>(
                ArtichokeError::TooManyArgs { given: args@.len() as usize, max: MRB_FUNCALL_ARGC_MAX },
            ) && *final(interp) == *old(interp),
            args@.len() <= MRB_FUNCALL_ARGC_MAX ==> !is_too_many_args(r),
            args@.len() <= MRB_FUNCALL_ARGC_MAX ==> called(
                *old(interp),
                *final(interp),
                self.receiver(),
                func@,
                raws(args@),
            ) && classified::<T>(
                final(interp).heap@,
                old(interp).heap@.len(),
                reply(old(interp).heap@, self.receiver(), func@, raws(args@)),
                r,
            ),
    ;

    /// `funcall` with a block as the last, extra argument; counted,
    /// rooted and classified the same way.
    fn funcall_with_block<T: TryConvert>(
        &self,
        interp: &mut Artichoke,
        func: &str,
        args: &[Value],
        block: Value,
    ) -> (r: Result<T, ArtichokeError>)
        requires
            old(interp).symbols@.len() < usize::MAX,
            old(interp).heap@.len() + crate::builtins::cells_needed(
                reply(old(interp).heap@, self.receiver(), func@, raws(args@)),
            ) < usize::MAX,
        ensures
            args@.len() > MRB_FUNCALL_ARGC_MAX ==> r == Err::<T, ArtichokeError>(
                ArtichokeError::TooManyArgs { given: args@.len() as usize, max: MRB_FUNCALL_ARGC_MAX },
            ) && *final(interp) == *old(interp),
            args@.len() <= MRB_FUNCALL_ARGC_MAX ==> !is_too_many_args(r),
            args@.len() <= MRB_FUNCALL_ARGC_MAX ==> called(
                *old(interp),
                *final(interp),
                self.receiver(),
                func@,
                raws(args@),
            ) && classified::<T>(
                final(interp).heap@,
                old(interp).heap@.len(),
                reply(old(interp).heap@, self.receiver(), func@, raws(args@)),
                r,
            ),
    ;
}

impl ValueLike for Value {
    open spec fn receiver(&self) -> MrbValue {
        self.raw()
    }

    fn inner(&self) -> (r: MrbValue) {
        self.value
    }

    fn respond_to(&self, interp: &mut Artichoke, method: &str) -> (r: Result<bool, ArtichokeError>) {
        proof {
            lemma_method_names();
        }
        let m = match Value::try_from_mrb(interp, method) {
            Ok(m) => m,
            Err(e) => {
                return Err(ArtichokeError::from_convert(e));
            },
        };
        let ghost mv = m.raw();
        let args = vec![m];
        assert(raws(args@) =~= seq![mv]);
        self.funcall::<bool>(interp, "respond_to?", args.as_slice())
    }

    fn funcall<T: TryConvert>(&self, interp: &mut Artichoke, func: &str, args: &[Value]) -> (r: Result<
        T,
        ArtichokeError,
    >) {
        let arena = interp.create_arena_savepoint();
        let raw = raw_args(args);
        if raw.len() > MRB_FUNCALL_ARGC_MAX {
            return Err(ArtichokeError::TooManyArgs { given: raw.len(), max: MRB_FUNCALL_ARGC_MAX });
        }
        let ghost before = *interp;
        let sym = interp.sym_intern(func);
        let descriptor = ProtectArgs::new(self.value, sym, raw);
        let value = run_protected(interp, descriptor);
        let ghost rep = reply(before.heap@, self.value, func@, raws(args@));
        proof {
            if let Reply::Raise(m) = rep {
                assert(text_in(interp.heap@, MrbValue::Str((before.heap@.len() + 0) as usize)) == Some(
                    seq![m][0],
                ));
            }
            lemma_restore_pushed(before.arena@, before.heap@.len(), crate::builtins::cells_needed(rep));
        }
        let r = classify::<T>(interp, value);
        arena.restore(interp);
        r
    }

    fn funcall_with_block<T: TryConvert>(
        &self,
        interp: &mut Artichoke,
        func: &str,
        args: &[Value],
        block: Value,
    ) -> (r: Result<T, ArtichokeError>) {
        let arena = interp.create_arena_savepoint();
        let raw = raw_args(args);
        if raw.len() > MRB_FUNCALL_ARGC_MAX {
            return Err(ArtichokeError::TooManyArgs { given: raw.len(), max: MRB_FUNCALL_ARGC_MAX });
        }
        let ghost before = *interp;
        let sym = interp.sym_intern(func);
        let descriptor = ProtectArgs::new(self.value, sym, raw).with_block(block.inner());
        let value = run_protected_with_block(interp, descriptor);
        let ghost rep = reply(before.heap@, self.value, func@, raws(args@));
        proof {
            if let Reply::Raise(m) = rep {
                assert(text_in(interp.heap@, MrbValue::Str((before.heap@.len() + 0) as usize)) == Some(
                    seq![m][0],
                ));
            }
            lemma_restore_pushed(before.arena@, before.heap@.len(), crate::builtins::cells_needed(rep));
        }
        let r = classify::<T>(interp, value);
        arena.restore(interp);
        r
    }
}

/// The text that `to_s` and `inspect` give for the guest's answer `rep`,
/// read against the heap before the call: the placeholder `<unknown>` when
/// the answer is not a string.
pub open spec fn shown(heap: Seq<Slot>, rep: Reply) -> Seq<char> {
    match rep {
        Reply::Text(t) => t,
        Reply::Value(v) => match text_in(heap, v) {
            Some(t) => t,
            None => "<unknown>"@,
        },
        _ => "<unknown>"@,
    }
}

proof fn lemma_shown(old: Seq<Slot>, new: Seq<Slot>, rep: Reply, r: Result<String, ArtichokeError>)
    requires
        heap_delivered(old, new, rep),
        classified::<String>(new, old.len(), rep, r),
    ensures
        (match r {
            Ok(s) => s@,
            Err(_) => "<unknown>"@,
        }) == shown(old, rep),
{
    match rep {
        Reply::Text(t) => {
            assert(text_in(new, MrbValue::Str((old.len() + 0) as usize)) == Some(seq![t][0]));
        },
        Reply::Value(v) => {
            assert(new =~= old);
        },
        _ => {},
    }
}

/// The core method names, spelled out, so that they can be told apart.
pub proof fn lemma_method_names()
    ensures
        "to_s"@ == seq!['t', 'o', '_', 's'],
        "inspect"@ == seq!['i', 'n', 's', 'p', 'e', 'c', 't'],
        "nil?"@ == seq!['n', 'i', 'l', '?'],
        "itself"@ == seq!['i', 't', 's', 'e', 'l', 'f'],
        "freeze"@ == seq!['f', 'r', 'e', 'e', 'z', 'e'],
        "=="@ == seq!['=', '='],
        "respond_to?"@ == seq!['r', 'e', 's', 'p', 'o', 'n', 'd', '_', 't', 'o', '?'],
        "+"@ == seq!['+'],
        "split"@ == seq!['s', 'p', 'l', 'i', 't'],
{
    reveal_strlit("to_s");
    reveal_strlit("inspect");
    reveal_strlit("nil?");
    reveal_strlit("itself");
    reveal_strlit("freeze");
    reveal_strlit("==");
    reveal_strlit("respond_to?");
    reveal_strlit("+");
    reveal_strlit("split");
    assert("to_s"@ =~= seq!['t', 'o', '_', 's']);
    assert("inspect"@ =~= seq!['i', 'n', 's', 'p', 'e', 'c', 't']);
    assert("nil?"@ =~= seq!['n', 'i', 'l', '?']);
    assert("itself"@ =~= seq!['i', 't', 's', 'e', 'l', 'f']);
    assert("freeze"@ =~= seq!['f', 'r', 'e', 'e', 'z', 'e']);
    assert("=="@ =~= seq!['=', '=']);
    assert("respond_to?"@ =~= seq!['r', 'e', 's', 'p', 'o', 'n', 'd', '_', 't', 'o', '?']);
    assert("+"@ =~= seq!['+']);
    assert("split"@ =~= seq!['s', 'p', 'l', 'i', 't']);
}

impl Value {
    /// The text of `#to_s` on this value; never fails: any failure gives
    /// the placeholder `<unknown>`.
    pub fn to_s(&self, interp: &mut Artichoke) -> (r: String)
        requires
            old(interp).symbols@.len() < usize::MAX,
            old(interp).heap@.len() + 1 < usize::MAX,
        ensures
            r@ == shown(old(interp).heap@, reply(old(interp).heap@, self.raw(), "to_s"@, Seq::empty())),
            called(*old(interp), *final(interp), self.raw(), "to_s"@, Seq::empty()),
    {
        let none: Vec<Value> = Vec::new();
        assert(raws(none@) =~= Seq::<MrbValue>::empty());
        let ghost h = interp.heap@;
        let r = self.funcall::<String>(interp, "to_s", none.as_slice());
        proof {
            lemma_shown(h, interp.heap@, reply(h, self.raw(), "to_s"@, Seq::empty()), r);
        }
        match r {
            Ok(s) => s,
            Err(_) => String::from_str("<unknown>"),
        }
    }

    /// The text of `#inspect` on this value; never fails: any failure
    /// gives the placeholder `<unknown>`.
    pub fn inspect(&self, interp: &mut Artichoke) -> (r: String)
        requires
            old(interp).symbols@.len() < usize::MAX,
            old(interp).heap@.len() + 1 < usize::MAX,
        ensures
            r@ == shown(old(interp).heap@, reply(old(interp).heap@, self.raw(), "inspect"@, Seq::empty())),
            called(*old(interp), *final(interp), self.raw(), "inspect"@, Seq::empty()),
    {
        let none: Vec<Value> = Vec::new();
        assert(raws(none@) =~= Seq::<MrbValue>::empty());
        let ghost h = interp.heap@;
        let r = self.funcall::<String>(interp, "inspect", none.as_slice());
        proof {
            lemma_shown(h, interp.heap@, reply(h, self.raw(), "inspect"@, Seq::empty()), r);
        }
        match r {
            Ok(s) => s,
            Err(_) => String::from_str("<unknown>"),
        }
    }

    /// `Class<inspect>`: the class name of the tag, then `#inspect` in
    /// angle brackets; never fails.
    pub fn to_s_debug(&self, interp: &mut Artichoke) -> (r: String)
        requires
            old(interp).symbols@.len() < usize::MAX,
            old(interp).heap@.len() + 1 < usize::MAX,
        ensures
            r@ == crate::types::class_name_of(tag_of(self.raw())) + "<"@ + shown(
                old(interp).heap@,
                reply(old(interp).heap@, self.raw(), "inspect"@, Seq::empty()),
            ) + ">"@,
            called(*old(interp), *final(interp), self.raw(), "inspect"@, Seq::empty()),
    {
        let mut s = self.ruby_type().class_name();
        s.append("<");
        let i = self.inspect(interp);
        s.append(i.as_str());
        s.append(">");
        s
    }

    /// Converts this value to `T`, consuming the handle.
    pub fn try_into<T: TryConvert>(self, interp: &Artichoke) -> (r: Result<T, ArtichokeError>)
        ensures
            converts_call::<T>(interp.heap@, self.raw(), r),
    {
        match T::try_convert(interp, self.value) {
            Ok(t) => Ok(t),
            Err(c) => {
                let e = ArtichokeError::from_convert(c);
                assert(e == convert_error(c));
                Err(e)
            },
        }
    }

    /// Converts this value to `T`, keeping the handle. A handle to boxed
    /// host data cannot be duplicated, so it is not accepted here.
    pub fn itself<T: TryConvert>(&self, interp: &Artichoke) -> (r: Result<T, ArtichokeError>)
        requires
            tag_of(self.raw()) != Ruby::Data,
        ensures
            converts_call::<T>(interp.heap@, self.raw(), r),
    {
        self.clone().try_into(interp)
    }

    /// Calls `#freeze` and hands back the frozen value, rooted in the
    /// caller's savepoint.
    pub fn freeze(self, interp: &mut Artichoke) -> (r: Result<Value, ArtichokeError>)
        requires
            old(interp).symbols@.len() < usize::MAX,
            old(interp).heap@.len() + 1 < usize::MAX,
        ensures
            tag_of(self.raw()) == Ruby::Unreachable ==> r == Err::<Value, ArtichokeError>(
                ArtichokeError::UnreachableValue(Ruby::Unreachable),
            ) && final(interp).arena@ == old(interp).arena@,
            tag_of(self.raw()) != Ruby::Unreachable ==> r is Ok && r->Ok_0.raw() == self.raw()
                && final(interp).arena@ == protected(old(interp).arena@, self.raw()),
            final(interp).heap@ == old(interp).heap@,
            interned(old(interp).symbols@, final(interp).symbols@, "freeze"@),
    {
        proof {
            lemma_method_names();
        }
        let none: Vec<Value> = Vec::new();
        assert(raws(none@) =~= Seq::<MrbValue>::empty());
        let frozen = self.funcall::<Value>(interp, "freeze", none.as_slice());
        proof {
            assert(interp.heap@ =~= old(interp).heap@);
        }
        match frozen {
            Ok(v) => {
                v.protect(interp);
                Ok(v)
            },
            Err(e) => Err(e),
        }
    }

    /// A second handle to the same value. A handle to boxed host data owns
    /// that data alone and must not be duplicated, so it is not accepted.
    pub fn clone(&self) -> (r: Value)
        requires
            tag_of(self.raw()) != Ruby::Data,
        ensures
            r.raw() == self.raw(),
            tag_of(r.raw()) == tag_of(self.raw()),
    {
        Value { value: self.value }
    }

    /// Roots this value until the rooting stack is restored below this
    /// point.
    pub fn protect(&self, interp: &mut Artichoke)
        ensures
            final(interp).arena@ == protected(old(interp).arena@, self.raw()),
            final(interp).heap == old(interp).heap,
            final(interp).symbols == old(interp).symbols,
            final(interp).exc == old(interp).exc,
    {
        interp.protect(self.value)
    }

    /// Whether the last collection found this value unreachable.
    pub fn is_dead(&self, interp: &Artichoke) -> (r: bool)
        ensures
            r == dead_in(interp.heap@, self.raw()),
    {
        interp.value_is_dead(self.value)
    }
}

} // verus!
