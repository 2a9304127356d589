//! The call stack: return addresses, last in, first out.

use vstd::prelude::*;

verus! {

/// A stack of 16-bit return addresses. It grows as far as the host's memory
/// allows; no depth limit is imposed.
#[derive(Clone, Debug, PartialEq, Eq)]
pub struct Stack {
    frames: Vec<u16>,
}

impl View for Stack {
    type V = Seq<u16>;

    /// The addresses held, the oldest first and the most recent last.
    closed spec fn view(&self) -> Seq<u16> {
        self.frames@
    }
}

/// What `pop` hands back from a stack holding `s`: the most recent address,
/// or nothing when `s` is empty.
pub open spec fn popped_value(s: Seq<u16>) -> Option<u16> {
    if s.len() == 0 {
        None
    } else {
        Some(s.last())
    }
}

/// What `pop` leaves of a stack holding `s`: all but the most recent address.
/// An empty stack stays empty.
pub open spec fn popped_rest(s: Seq<u16>) -> Seq<u16> {
    if s.len() == 0 {
        s
    } else {
        s.drop_last()
    }
}

/// The stack `s` after each address of `values` was pushed in turn.
pub open spec fn push_all(s: Seq<u16>, values: Seq<u16>) -> Seq<u16>
    decreases values.len(),
{
    if values.len() == 0 {
        s
    } else {
        push_all(s.push(values.first()), values.drop_first())
    }
}

/// The values that `n` pops in a row hand back from a stack holding `s`, in
/// the order of the pops.
pub open spec fn pop_results(s: Seq<u16>, n: nat) -> Seq<Option<u16>>
    decreases n,
{
    if n == 0 {
        Seq::empty()
    } else {
        seq![popped_value(s)] + pop_results(popped_rest(s), (n - 1) as nat)
    }
}

/// The stack that `n` pops in a row leave of a stack holding `s`.
pub open spec fn pop_remainder(s: Seq<u16>, n: nat) -> Seq<u16>
    decreases n,
{
    if n == 0 {
        s
    } else {
        pop_remainder(popped_rest(s), (n - 1) as nat)
    }
}

impl Stack {
    /// An empty stack.
    pub fn new() -> (stack: Self)
        ensures
            stack@ == Seq::<u16>::empty(),
    {
        Stack { frames: Vec::new() }
    }

    /// Puts `value` on top of the stack.
    pub fn push(&mut self, value: u16)
        ensures
            final(self)@ == old(self)@.push(value),
    {
        self.frames.push(value);
    }

    /// Takes the most recent address off the stack and returns it. On an empty
    /// stack it returns `None` and the stack stays empty.
    pub fn pop(&mut self) -> (top: Option<u16>)
        ensures
            top == popped_value(old(self)@),
            final(self)@ == popped_rest(old(self)@),
    {
        self.frames.pop()
    }

    /// Returns the most recent address and leaves the stack as it is.
    pub fn peak(&mut self) -> (top: Option<u16>)
        ensures
            top == popped_value(old(self)@),
            final(self)@ == old(self)@,
    {
        let n: usize = self.frames.len();
        if n == 0 {
            None
        } else {
            Some(self.frames[n - 1])
        }
    }
}

/// Pushing a run of addresses appends them, the first pushed lowest.
pub proof fn lemma_push_all_appends(s: Seq<u16>, values: Seq<u16>)
    ensures
        push_all(s, values) == s + values,
    decreases values.len(),
{
    if values.len() == 0 {
        assert(s + values =~= s);
    } else {
        lemma_push_all_appends(s.push(values.first()), values.drop_first());
        assert(s.push(values.first()) + values.drop_first() =~= s + values);
    }
}

/// Last in, first out: after the addresses of `values` were pushed onto any
/// stack, as many pops return them in reverse order, the last pushed first,
/// and leave the stack as it was before the pushes.
pub proof fn lemma_pushes_then_pops(s: Seq<u16>, values: Seq<u16>)
    ensures
        pop_results(push_all(s, values), values.len()) == Seq::new(
            values.len(),
            |i: int| Some(values[values.len() - 1 - i]),
        ),
        pop_remainder(push_all(s, values), values.len()) == s,
    decreases values.len(),
{
    lemma_push_all_appends(s, values);
    let n: nat = values.len();
    let expected: Seq<Option<u16>> = Seq::new(n, |i: int| Some(values[n - 1 - i]));
    if n == 0 {
        assert(s + values =~= s);
        assert(pop_results(s + values, 0) =~= expected);
    } else {
        let full: Seq<u16> = s + values;
        let shorter: Seq<u16> = values.drop_last();
        assert(popped_value(full) == Some(values.last()));
        assert(popped_rest(full) =~= s + shorter);
        lemma_pushes_then_pops(s, shorter);
        lemma_push_all_appends(s, shorter);
        let tail: Seq<Option<u16>> = pop_results(s + shorter, shorter.len());
        assert(pop_results(full, n) == seq![popped_value(full)] + tail);
        assert(seq![popped_value(full)] + tail =~= expected);
    }
}

/// Popping an empty stack returns nothing, however often it is tried, and the
/// stack stays empty.
pub proof fn lemma_pop_empty(n: nat)
    ensures
        pop_results(Seq::<u16>::empty(), n) == Seq::new(n, |i: int| None::<u16>),
        pop_remainder(Seq::<u16>::empty(), n) == Seq::<u16>::empty(),
    decreases n,
{
    let empty: Seq<u16> = Seq::empty();
    if n == 0 {
        assert(pop_results(empty, 0) =~= Seq::new(0, |i: int| None::<u16>));
    } else {
        lemma_pop_empty((n - 1) as nat);
        assert(seq![None::<u16>] + Seq::new((n - 1) as nat, |i: int| None::<u16>) =~= Seq::new(
            n,
            |i: int| None::<u16>,
        ));
    }
}

} // verus!
