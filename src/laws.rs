use crate::{pushed, pushed_all, popped, top_of, FunctionalStackOps, StackPointer};
use vstd::prelude::*;

verus! {

/// Popping right after a push gives back exactly the stack that was pushed onto.
pub proof fn lemma_pop_after_push<T>(s: Seq<T>, v: T)
    ensures
        popped(pushed(s, v)) == Some(s),
{
    assert(pushed(s, v).drop_first() =~= s);
}

/// The top after a push is the value pushed. The stack pushed onto is only
/// borrowed by `push`, so its content stays what it was.
pub proof fn lemma_top_after_push<T>(s: Seq<T>, v: T)
    ensures
        top_of(pushed(s, v)) == Some(v),
{
}

/// The empty stack has no top and cannot be popped.
pub proof fn lemma_empty_stack<T>()
    ensures
        top_of(Seq::<T>::empty()) is None,
        popped(Seq::<T>::empty()) is None,
{
}

/// Reading a handle twice gives the same answer: two calls of `top` on one
/// handle agree, and so do two calls of `empty`.
pub proof fn lemma_reads_repeat<T>(
    s: StackPointer<T>,
    a: Option<&T>,
    b: Option<&T>,
    x: bool,
    y: bool,
)
    requires
        call_ensures(<StackPointer<T> as FunctionalStackOps<T>>::top, (&s,), a),
        call_ensures(<StackPointer<T> as FunctionalStackOps<T>>::top, (&s,), b),
        call_ensures(<StackPointer<T> as FunctionalStackOps<T>>::empty, (&s,), x),
        call_ensures(<StackPointer<T> as FunctionalStackOps<T>>::empty, (&s,), y),
    ensures
        a == b,
        x == y,
{
}

/// Pushing `n` items onto the empty stack leaves exactly `n` elements, the
/// last pushed on top: a traversal meets them in reverse order of pushing.
pub proof fn lemma_pushes_come_back_reversed<T>(items: Seq<T>)
    ensures
        pushed_all(Seq::empty(), items) == items.reverse(),
        pushed_all(Seq::empty(), items).len() == items.len(),
    decreases items.len(),
{
    if items.len() > 0 {
        lemma_pushes_come_back_reversed(items.drop_last());
        assert(pushed(items.drop_last().reverse(), items.last()) =~= items.reverse());
    } else {
        assert(items.reverse() =~= Seq::<T>::empty());
    }
}

} // verus!
