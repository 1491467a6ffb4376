//! Laws that relate several operations of the bridge.
use vstd::prelude::*;

use crate::convert::TryConvert;
use crate::error::ConvertError;
use crate::interp::{marks, names, reachable, restored, text_in, MrbValue, Slot};
use crate::value::interned;

verus! {

/// What happens to the rooting stack between acquiring a savepoint and
/// restoring it: objects are rooted, and inner savepoints are acquired and
/// restored in strict nesting.
pub enum Nesting {
    Done,
    /// An object is rooted, then the rest happens.
    Root(usize, Box<Nesting>),
    /// An inner savepoint is acquired, its body happens, it is restored,
    /// then the rest happens.
    Inner(Box<Nesting>, Box<Nesting>),
}

/// The rooting stack after `n` happens to `arena`.
pub open spec fn replay(arena: Seq<usize>, n: Nesting) -> Seq<usize>
    decreases n,
{
    match n {
        Nesting::Done => arena,
        Nesting::Root(i, rest) => replay(arena.push(i), *rest),
        Nesting::Inner(body, rest) => replay(restored(replay(arena, *body), arena.len()), *rest),
    }
}

/// Strictly nested savepoints never reach below the depth at which they
/// started: what was on the rooting stack stays there.
pub proof fn lemma_replay_keeps_prefix(arena: Seq<usize>, n: Nesting)
    ensures
        arena.len() <= replay(arena, n).len(),
        replay(arena, n).take(arena.len() as int) == arena,
    decreases n,
{
    match n {
        Nesting::Done => {
            assert(arena.take(arena.len() as int) =~= arena);
        },
        Nesting::Root(i, rest) => {
            lemma_replay_keeps_prefix(arena.push(i), *rest);
            let r = replay(arena.push(i), *rest);
            assert(r.take(arena.len() as int) =~= r.take((arena.len() + 1) as int).take(arena.len() as int));
            assert(arena.push(i).take(arena.len() as int) =~= arena);
        },
        Nesting::Inner(body, rest) => {
            lemma_replay_keeps_prefix(arena, *body);
            let mid = restored(replay(arena, *body), arena.len());
            assert(mid =~= arena);
            lemma_replay_keeps_prefix(mid, *rest);
        },
    }
}

/// For any strictly nested sequence of savepoint acquires and restores,
/// restoring the outermost savepoint brings the rooting stack back to its
/// depth, and its contents, before the outermost acquire.
pub proof fn lemma_savepoint_nesting(arena: Seq<usize>, body: Nesting)
    ensures
        restored(replay(arena, body), arena.len()) == arena,
        restored(replay(arena, body), arena.len()).len() == arena.len(),
{
    lemma_replay_keeps_prefix(arena, body);
}

/// An object that only roots above a savepoint kept alive is unreachable
/// once that savepoint is restored, so the next full collection marks it
/// dead.
pub proof fn lemma_restored_root_is_dead(heap: Seq<Slot>, arena: Seq<usize>, depth: nat, i: int)
    requires
        depth <= arena.len(),
        forall|t: int| 0 <= t < depth ==> !marks(heap, #[trigger] arena[t] as int, i),
    ensures
        !reachable(heap, restored(arena, depth), i),
{
    let kept = restored(arena, depth);
    assert forall|t: int| 0 <= t < kept.len() implies !marks(heap, #[trigger] kept[t] as int, i) by {
        assert(kept[t] == arena[t]);
    }
}

/// Host text without a NUL character survives the trip into the guest and
/// back unchanged: once it is stored as a guest string, converting that
/// string to host text gives the same text back.
pub proof fn lemma_string_round_trip(
    s: Seq<char>,
    heap: Seq<Slot>,
    v: MrbValue,
    back: Result<String, ConvertError>,
)
    requires
        !s.contains('\0'),
        text_in(heap, v) == Some(s),
        <String as TryConvert>::converts(heap, v, back),
    ensures
        back is Ok,
        back->Ok_0@ == s,
{
}

/// Interning is idempotent: interning a name that was just interned leaves
/// the symbol table as it is.
pub proof fn lemma_intern_idempotent(
    s0: Seq<String>,
    s1: Seq<String>,
    s2: Seq<String>,
    name: Seq<char>,
)
    requires
        interned(s0, s1, name),
        interned(s1, s2, name),
    ensures
        s2 == s1,
        names(s1).contains(name),
{
    if !names(s0).contains(name) {
        assert(names(s1)[names(s0).len() as int] == name);
    }
}

} // verus!
