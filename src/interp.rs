//! The guest runtime's state as the bridge sees it: an object heap with
//! liveness marks, the rooting arena, the symbol table and the last-error
//! slot.
use vstd::prelude::*;

use crate::text::str_eq;
use crate::types::Ruby;

verus! {

/// A guest value as the runtime stores it: an immediate, or a reference to
/// an object of the heap, or the runtime's internal sentinel.
#[derive(Clone, Copy, Debug, PartialEq, Eq, Structural)]
pub enum MrbValue {
    Nil,
    Bool(bool),
    Fixnum(i64),
    Str(usize),
    Ary(usize),
    Data(usize),
    Undef,
}

/// The runtime tag of a stored value.
pub open spec fn tag_of(v: MrbValue) -> Ruby {
    match v {
        MrbValue::Nil => Ruby::Nil,
        MrbValue::Bool(_) => Ruby::Bool,
        MrbValue::Fixnum(_) => Ruby::Fixnum,
        MrbValue::Str(_) => Ruby::String,
        MrbValue::Ary(_) => Ruby::Array,
        MrbValue::Data(_) => Ruby::Data,
        MrbValue::Undef => Ruby::Unreachable,
    }
}

/// Whether `v` refers to the heap object at index `i`.
pub open spec fn refers_to(v: MrbValue, i: int) -> bool {
    match v {
        MrbValue::Str(j) => j == i,
        MrbValue::Ary(j) => j == i,
        MrbValue::Data(j) => j == i,
        _ => false,
    }
}

impl MrbValue {
    /// The runtime tag of this value.
    pub fn tag(&self) -> (r: Ruby)
        ensures
            r == tag_of(*self),
    {
        match self {
            MrbValue::Nil => Ruby::Nil,
            MrbValue::Bool(_) => Ruby::Bool,
            MrbValue::Fixnum(_) => Ruby::Fixnum,
            MrbValue::Str(_) => Ruby::String,
            MrbValue::Ary(_) => Ruby::Array,
            MrbValue::Data(_) => Ruby::Data,
            MrbValue::Undef => Ruby::Unreachable,
        }
    }
}

/// An object of the guest heap.
pub enum RObject {
    Str(String),
    Ary(Vec<MrbValue>),
    /// Boxed host data, known to the guest by an opaque handle.
    Data(u64),
}

/// One heap cell: the object and whether the collector found it unreachable.
pub struct Slot {
    pub obj: RObject,
    pub dead: bool,
}

/// A guest runtime context.
///
/// Every method takes the context by reference, so the borrow checker
/// enforces that at most one caller mutates it at a time.
pub struct Artichoke {
    /// Objects in order of creation; a reference is an index here.
    pub heap: Vec<Slot>,
    /// The rooting stack: objects named here survive a collection.
    pub arena: Vec<usize>,
    /// Interned names; a symbol is an index here.
    pub symbols: Vec<String>,
    /// The exception raised by the last call, if any.
    pub exc: Option<MrbValue>,
}

/// A checkpoint of the rooting stack's depth.
pub struct ArenaIndex {
    pub index: usize,
}

/// The text of the string object that `v` refers to, if it refers to one.
pub open spec fn text_in(heap: Seq<Slot>, v: MrbValue) -> Option<Seq<char>> {
    match v {
        MrbValue::Str(i) => if i < heap.len() {
            match heap[i as int].obj {
                RObject::Str(s) => Some(s@),
                _ => None,
            }
        } else {
            None
        },
        _ => None,
    }
}

/// The elements of the array object that `v` refers to, if it refers to one.
pub open spec fn elements_in(heap: Seq<Slot>, v: MrbValue) -> Option<Seq<MrbValue>> {
    match v {
        MrbValue::Ary(i) => if i < heap.len() {
            match heap[i as int].obj {
                RObject::Ary(a) => Some(a@),
                _ => None,
            }
        } else {
            None
        },
        _ => None,
    }
}

/// Whether one of the first `m` elements of `a` refers to the object at `i`.
pub open spec fn holds_within(a: Seq<MrbValue>, m: int, i: int) -> bool {
    exists|k: int| 0 <= k < m && refers_to(#[trigger] a[k], i)
}

/// Whether a root at `j` keeps the object at `i` alive: it is that object,
/// or an array that holds it.
pub open spec fn marks(heap: Seq<Slot>, j: int, i: int) -> bool {
    j == i || (0 <= j < heap.len() && match heap[j].obj {
        RObject::Ary(a) => holds_within(a@, a@.len() as int, i),
        _ => false,
    })
}

/// Whether a root among the first `t` entries of `arena` keeps the object at
/// `i` alive.
pub open spec fn marked_within(heap: Seq<Slot>, arena: Seq<usize>, t: int, i: int) -> bool {
    exists|u: int| 0 <= u < t && marks(heap, #[trigger] arena[u] as int, i)
}

/// Whether the object at `i` is reachable from the rooting stack `arena`.
pub open spec fn reachable(heap: Seq<Slot>, arena: Seq<usize>, i: int) -> bool {
    marked_within(heap, arena, arena.len() as int, i)
}

/// The rooting stack `arena` after `v` is protected: the object it refers
/// to is pushed; an immediate needs no root.
pub open spec fn protected(arena: Seq<usize>, v: MrbValue) -> Seq<usize> {
    match v {
        MrbValue::Str(i) => arena.push(i),
        MrbValue::Ary(i) => arena.push(i),
        MrbValue::Data(i) => arena.push(i),
        _ => arena,
    }
}

/// Whether the object that `v` refers to was found dead by the last
/// collection; immediates are never dead.
pub open spec fn dead_in(heap: Seq<Slot>, v: MrbValue) -> bool {
    match v {
        MrbValue::Str(i) => i < heap.len() && heap[i as int].dead,
        MrbValue::Ary(i) => i < heap.len() && heap[i as int].dead,
        MrbValue::Data(i) => i < heap.len() && heap[i as int].dead,
        _ => false,
    }
}

/// The rooting stack after a savepoint taken at depth `depth` is restored.
pub open spec fn restored(arena: Seq<usize>, depth: nat) -> Seq<usize> {
    arena.take(depth as int)
}

/// The symbol table as text.
pub open spec fn names(symbols: Seq<String>) -> Seq<Seq<char>> {
    symbols.map_values(|s: String| s@)
}

/// The heap grew, if at all, only at its end, and nothing in it changed.
pub open spec fn heap_extends(old: Seq<Slot>, new: Seq<Slot>) -> bool {
    old.len() <= new.len() && forall|i: int| 0 <= i < old.len() ==> #[trigger] new[i] == old[i]
}

impl Artichoke {
    /// A fresh context: empty heap, empty rooting stack, no symbols and no
    /// pending exception.
    pub fn new() -> (r: Artichoke)
        ensures
            r.heap@.len() == 0,
            r.arena@.len() == 0,
            r.symbols@.len() == 0,
            r.exc is None,
    {
        Artichoke { heap: Vec::new(), arena: Vec::new(), symbols: Vec::new(), exc: None }
    }

    /// The text of the string that `v` refers to, if any.
    pub fn text_of(&self, v: MrbValue) -> (r: Option<&String>)
        ensures
            match r {
                Some(s) => text_in(self.heap@, v) == Some(s@),
                None => text_in(self.heap@, v) is None,
            },
    {
        match v {
            MrbValue::Str(i) => if i < self.heap.len() {
                match &self.heap[i].obj {
                    RObject::Str(s) => Some(s),
                    _ => None,
                }
            } else {
                None
            },
            _ => None,
        }
    }

    /// The elements of the array that `v` refers to, if any.
    pub fn elements_of(&self, v: MrbValue) -> (r: Option<&Vec<MrbValue>>)
        ensures
            match r {
                Some(a) => elements_in(self.heap@, v) == Some(a@),
                None => elements_in(self.heap@, v) is None,
            },
    {
        match v {
            MrbValue::Ary(i) => if i < self.heap.len() {
                match &self.heap[i].obj {
                    RObject::Ary(a) => Some(a),
                    _ => None,
                }
            } else {
                None
            },
            _ => None,
        }
    }

    /// Adds `obj` to the heap, alive and rooted, and returns its index.
    pub fn allocate(&mut self, obj: RObject) -> (r: usize)
        requires
            old(self).heap@.len() < usize::MAX,
        ensures
            r == old(self).heap@.len(),
            final(self).heap@ == old(self).heap@.push(Slot { obj, dead: false }),
            final(self).arena@ == old(self).arena@.push(r),
            final(self).symbols == old(self).symbols,
            final(self).exc == old(self).exc,
    {
        let r = self.heap.len();
        self.heap.push(Slot { obj, dead: false });
        self.arena.push(r);
        r
    }

    /// The symbol for `name`: the first entry of the table that holds it,
    /// or a new entry at the end.
    pub fn sym_intern(&mut self, name: &str) -> (r: usize)
        requires
            old(self).symbols@.len() < usize::MAX,
        ensures
            r < final(self).symbols@.len(),
            names(final(self).symbols@)[r as int] == name@,
            forall|k: int| 0 <= k < r ==> names(final(self).symbols@)[k] != name@,
            names(old(self).symbols@).contains(name@) ==> final(self).symbols@ == old(self).symbols@,
            !names(old(self).symbols@).contains(name@) ==> final(self).symbols@.len()
                == old(self).symbols@.len() + 1 && names(final(self).symbols@) == names(
                old(self).symbols@,
            ).push(name@),
            final(self).heap == old(self).heap,
            final(self).arena == old(self).arena,
            final(self).exc == old(self).exc,
    {
        let n = self.symbols.len();
        let mut i: usize = 0;
        while i < n
            invariant
                n == self.symbols@.len(),
                i <= n,
                forall|k: int| 0 <= k < i ==> names(self.symbols@)[k] != name@,
            decreases n - i,
        {
            if str_eq(self.symbols[i].as_str(), name) {
                assert(names(self.symbols@)[i as int] == name@);
                assert(names(self.symbols@).contains(name@));
                return i;
            }
            i = i + 1;
        }
        proof {
            if names(self.symbols@).contains(name@) {
                let k = choose|k: int| 0 <= k < names(self.symbols@).len() && names(self.symbols@)[k] == name@;
                assert(names(self.symbols@)[k] != name@);
            }
        }
        self.symbols.push(String::from_str(name));
        assert(names(self.symbols@) =~= names(old(self).symbols@).push(name@));
        n
    }

    /// A checkpoint of the rooting stack at its current depth.
    pub fn create_arena_savepoint(&self) -> (r: ArenaIndex)
        ensures
            r.index == self.arena@.len(),
    {
        ArenaIndex { index: self.arena.len() }
    }

    /// Roots the object that `v` refers to until the rooting stack is
    /// restored below this point; an immediate needs no root.
    pub fn protect(&mut self, v: MrbValue)
        ensures
            final(self).heap == old(self).heap,
            final(self).symbols == old(self).symbols,
            final(self).exc == old(self).exc,
            final(self).arena@ == protected(old(self).arena@, v),
    {
        match v {
            MrbValue::Str(i) => self.arena.push(i),
            MrbValue::Ary(i) => self.arena.push(i),
            MrbValue::Data(i) => self.arena.push(i),
            _ => {},
        }
    }

    /// Whether the object that `v` refers to was found unreachable by the
    /// last collection; immediates are never dead.
    pub fn value_is_dead(&self, v: MrbValue) -> (r: bool)
        ensures
            r == dead_in(self.heap@, v),
    {
        match v {
            MrbValue::Str(i) => i < self.heap.len() && self.heap[i].dead,
            MrbValue::Ary(i) => i < self.heap.len() && self.heap[i].dead,
            MrbValue::Data(i) => i < self.heap.len() && self.heap[i].dead,
            _ => false,
        }
    }
}

impl Artichoke {
    /// Marks every object of the heap that the rooting stack does not reach
    /// as dead, and every other one as alive.
    pub fn full_gc(&mut self)
        ensures
            final(self).heap@.len() == old(self).heap@.len(),
            forall|i: int| 0 <= i < old(self).heap@.len() ==> (#[trigger] final(self).heap@[i]).obj
                == old(self).heap@[i].obj,
            forall|i: int| 0 <= i < old(self).heap@.len() ==> (#[trigger] final(self).heap@[i]).dead
                == !reachable(old(self).heap@, old(self).arena@, i),
            final(self).arena == old(self).arena,
            final(self).symbols == old(self).symbols,
            final(self).exc == old(self).exc,
    {
        let ghost h = self.heap@;
        let ghost ar = self.arena@;
        let n = self.heap.len();
        let mut live: Vec<bool> = Vec::new();
        let mut i: usize = 0;
        while i < n
            invariant
                n == h.len(),
                i <= n,
                live@.len() == i,
                forall|k: int| 0 <= k < i ==> !live@[k],
            decreases n - i,
        {
            live.push(false);
            i = i + 1;
        }
        let na = self.arena.len();
        let mut t: usize = 0;
        while t < na
            invariant
                n == h.len(),
                na == ar.len(),
                self.heap@ == h,
                self.arena@ == ar,
                t <= na,
                live@.len() == n,
                forall|k: int| 0 <= k < n ==> live@[k] == marked_within(h, ar, t as int, k),
            decreases na - t,
        {
            let j = self.arena[t];
            if j < n {
                live[j] = true;
                match &self.heap[j].obj {
                    RObject::Ary(a) => {
                        let m = a.len();
                        let mut q: usize = 0;
                        while q < m
                            invariant
                                n == h.len(),
                                self.heap@ == h,
                                j < n,
                                h[j as int].obj == RObject::Ary(*a),
                                m == a@.len(),
                                q <= m,
                                live@.len() == n,
                                forall|k: int| 0 <= k < n ==> live@[k] == (marked_within(h, ar, t as int, k)
                                    || k == j || holds_within(a@, q as int, k)),
                            decreases m - q,
                        {
                            let e = a[q];
                            match e {
                                MrbValue::Str(k) => if k < n { live[k] = true; },
                                MrbValue::Ary(k) => if k < n { live[k] = true; },
                                MrbValue::Data(k) => if k < n { live[k] = true; },
                                _ => {},
                            }
                            assert forall|k: int| 0 <= k < n implies live@[k] == (marked_within(h, ar, t as int, k)
                                || k == j || holds_within(a@, q + 1, k)) by {
                                if refers_to(a@[q as int], k) {
                                    assert(holds_within(a@, q + 1, k));
                                }
                                if holds_within(a@, q + 1, k) && !holds_within(a@, q as int, k) {
                                    let w = choose|w: int| 0 <= w < q + 1 && refers_to(#[trigger] a@[w], k);
                                    assert(w == q);
                                }
                            }
                            q = q + 1;
                        }
                    },
                    _ => {},
                }
            }
            assert forall|k: int| 0 <= k < n implies live@[k] == marked_within(h, ar, t + 1, k) by {
                if marks(h, j as int, k) {
                    assert(marked_within(h, ar, t + 1, k));
                }
                if marked_within(h, ar, t + 1, k) && !marked_within(h, ar, t as int, k) {
                    let w = choose|w: int| 0 <= w < t + 1 && marks(h, #[trigger] ar[w] as int, k);
                    assert(w == t);
                }
            }
            t = t + 1;
        }
        let mut i: usize = 0;
        while i < n
            invariant
                n == h.len(),
                live@.len() == n,
                self.arena@ == ar,
                self.arena == old(self).arena,
                self.symbols == old(self).symbols,
                self.exc == old(self).exc,
                i <= n,
                self.heap@.len() == n,
                forall|k: int| 0 <= k < n ==> live@[k] == reachable(h, ar, k),
                forall|k: int| 0 <= k < n ==> (#[trigger] self.heap@[k]).obj == h[k].obj,
                forall|k: int| 0 <= k < i ==> (#[trigger] self.heap@[k]).dead == !live@[k],
            decreases n - i,
        {
            self.heap[i].dead = !live[i];
            i = i + 1;
        }
    }
}

impl ArenaIndex {
    /// Truncates the rooting stack back to this checkpoint's depth.
    pub fn restore(self, interp: &mut Artichoke)
        requires
            self.index <= old(interp).arena@.len(),
        ensures
            final(interp).arena@ == restored(old(interp).arena@, self.index as nat),
            final(interp).heap == old(interp).heap,
            final(interp).symbols == old(interp).symbols,
            final(interp).exc == old(interp).exc,
    {
        interp.arena.truncate(self.index);
    }
}

} // verus!
