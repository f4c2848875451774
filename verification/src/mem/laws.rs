//! What holds of the stack over several calls.
use super::stack::{pop_result, popped, push_result, pushed};
use super::Error;
use vstd::prelude::*;

verus! {

/// The frames after each of `frames` was pushed in turn.
pub open spec fn pushed_all(stack: Seq<u16>, frames: Seq<u16>) -> Seq<u16>
    decreases frames.len(),
{
    if frames.len() == 0 {
        stack
    } else {
        pushed_all(pushed(stack, frames.first()), frames.drop_first())
    }
}

/// Whether each push of `frames` in turn succeeds.
pub open spec fn pushes_succeed(stack: Seq<u16>, frames: Seq<u16>) -> bool
    decreases frames.len(),
{
    frames.len() == 0 || (push_result(stack, frames.first()) is Ok && pushes_succeed(
        pushed(stack, frames.first()),
        frames.drop_first(),
    ))
}

/// What `n` pops in turn return.
pub open spec fn popped_results(stack: Seq<u16>, n: nat) -> Seq<Result<u16, Error>>
    decreases n,
{
    if n == 0 {
        Seq::empty()
    } else {
        seq![pop_result(stack)] + popped_results(popped(stack), (n - 1) as nat)
    }
}

/// The frames after `n` pops.
pub open spec fn popped_times(stack: Seq<u16>, n: nat) -> Seq<u16>
    decreases n,
{
    if n == 0 {
        stack
    } else {
        popped_times(popped(stack), (n - 1) as nat)
    }
}

/// Pushing frames onto a stack with room for them puts them on top, in
/// order.
pub proof fn lemma_pushed_all(stack: Seq<u16>, frames: Seq<u16>)
    requires
        stack.len() + frames.len() <= 16,
    ensures
        pushes_succeed(stack, frames),
        pushed_all(stack, frames) == stack + frames,
    decreases frames.len(),
{
    if frames.len() > 0 {
        lemma_pushed_all(pushed(stack, frames.first()), frames.drop_first());
        assert(stack.push(frames.first()) + frames.drop_first() =~= stack + frames);
    } else {
        assert(stack + frames =~= stack);
    }
}

/// Popping as many frames as a stack holds returns them, the newest first,
/// and leaves the stack empty.
pub proof fn lemma_popped_all(stack: Seq<u16>)
    ensures
        popped_times(stack, stack.len()) == Seq::<u16>::empty(),
        popped_results(stack, stack.len()) == Seq::new(
            stack.len(),
            |k: int| Ok::<u16, Error>(stack[stack.len() - 1 - k]),
        ),
    decreases stack.len(),
{
    if stack.len() > 0 {
        lemma_popped_all(popped(stack));
        assert(popped_results(stack, stack.len()) =~= Seq::new(
            stack.len(),
            |k: int| Ok::<u16, Error>(stack[stack.len() - 1 - k]),
        ));
    } else {
        assert(popped_times(stack, stack.len()) =~= Seq::<u16>::empty());
        assert(popped_results(stack, stack.len()) =~= Seq::new(
            stack.len(),
            |k: int| Ok::<u16, Error>(stack[stack.len() - 1 - k]),
        ));
    }
}

/// Pushing at most sixteen frames onto an empty stack and popping as many
/// returns the frames in the reverse order of the pushes, every call
/// succeeds, and the stack is empty again.
pub proof fn lemma_push_pop_round_trip(frames: Seq<u16>)
    requires
        frames.len() <= 16,
    ensures
        pushes_succeed(Seq::empty(), frames),
        popped_results(pushed_all(Seq::empty(), frames), frames.len()) == Seq::new(
            frames.len(),
            |k: int| Ok::<u16, Error>(frames[frames.len() - 1 - k]),
        ),
        popped_times(pushed_all(Seq::empty(), frames), frames.len()).len() == 0,
{
    lemma_pushed_all(Seq::empty(), frames);
    assert(Seq::<u16>::empty() + frames =~= frames);
    lemma_popped_all(frames);
}

} // verus!
