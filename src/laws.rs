//! Laws relating the operations of `Incrementer`, stated over its view.
use vstd::prelude::*;

use crate::incrementer::{wrap_add, IncrementerView};
use crate::storage::AccountId;

verus! {

/// Flipping twice gives back the state; flipping once negates the flag.
pub proof fn lemma_flip_involutive(s: IncrementerView)
    ensures
        s.flipped().flipped() == s,
        s.flipped().flag == !s.flag,
{
}

/// Reading the eager counter right after setting it gives the value set.
pub proof fn lemma_set_then_get(s: IncrementerView, v: u32)
    ensures
        s.with_number(v).number == v,
{
}

/// Setting the eager counter to `v` and then incrementing it by `by` leaves
/// `v + by` modulo 2^32, which is `v + by` itself when that fits.
pub proof fn lemma_set_then_inc(s: IncrementerView, v: u32, by: u32)
    ensures
        s.with_number(v).incremented(by).number == wrap_add(v, by),
        v + by <= u32::MAX ==> s.with_number(v).incremented(by).number == v + by,
{
}

/// One call on a counter: read it, set it, or add to it.
pub enum CounterCall {
    Read,
    Write(u32),
    Add(u32),
}

/// A call on the eager counter: the state after it, and what it returned.
pub open spec fn eager_call(s: IncrementerView, c: CounterCall) -> (IncrementerView, Option<u32>) {
    match c {
        CounterCall::Read => (s, Some(s.number)),
        CounterCall::Write(v) => (s.with_number(v), None),
        CounterCall::Add(by) => (s.incremented(by), None),
    }
}

/// A call on the lazy counter: the state after it, and what it returned.
pub open spec fn lazy_call(s: IncrementerView, c: CounterCall) -> (IncrementerView, Option<u32>) {
    match c {
        CounterCall::Read => (s, Some(s.lazy_number)),
        CounterCall::Write(v) => (s.with_lazy_number(v), None),
        CounterCall::Add(by) => (s.lazy_incremented(by), None),
    }
}

/// What a sequence of calls on the eager counter returns, call by call, and
/// the state it ends in.
pub open spec fn eager_run(s: IncrementerView, calls: Seq<CounterCall>) -> (IncrementerView, Seq<Option<u32>>)
    decreases calls.len(),
{
    if calls.len() == 0 {
        (s, Seq::empty())
    } else {
        let (t, out) = eager_call(s, calls[0]);
        let (u, rest) = eager_run(t, calls.drop_first());
        (u, seq![out] + rest)
    }
}

/// What a sequence of calls on the lazy counter returns, call by call, and
/// the state it ends in.
pub open spec fn lazy_run(s: IncrementerView, calls: Seq<CounterCall>) -> (IncrementerView, Seq<Option<u32>>)
    decreases calls.len(),
{
    if calls.len() == 0 {
        (s, Seq::empty())
    } else {
        let (t, out) = lazy_call(s, calls[0]);
        let (u, rest) = lazy_run(t, calls.drop_first());
        (u, seq![out] + rest)
    }
}

/// The lazy counter cannot be told apart from the eager one: started from the
/// same value, any sequence of calls returns the same values on both and
/// leaves both counters equal.
pub proof fn lemma_lazy_matches_eager(s: IncrementerView, t: IncrementerView, calls: Seq<CounterCall>)
    requires
        s.number == t.lazy_number,
    ensures
        eager_run(s, calls).1 == lazy_run(t, calls).1,
        eager_run(s, calls).0.number == lazy_run(t, calls).0.lazy_number,
    decreases calls.len(),
{
    if calls.len() > 0 {
        lemma_lazy_matches_eager(eager_call(s, calls[0]).0, lazy_call(t, calls[0]).0, calls.drop_first());
    }
}

/// An account that has no entry reads as zero.
pub proof fn lemma_unwritten_reads_zero(s: IncrementerView, who: AccountId)
    requires
        !s.accounts.contains_key(who),
    ensures
        s.number_of(who) == 0,
{
}

/// Adding to an account's counter is setting it to its current value plus the
/// amount; two additions in a row add both amounts (modulo 2^32).
pub proof fn lemma_add_is_set_of_sum(s: IncrementerView, who: AccountId, a: u32, b: u32)
    ensures
        s.account_added(who, a) == s.with_account(who, wrap_add(s.number_of(who), a)),
        s.account_added(who, a).account_added(who, b).number_of(who)
            == wrap_add(wrap_add(s.number_of(who), a), b),
        s.number_of(who) + a + b <= u32::MAX ==>
            s.account_added(who, a).account_added(who, b).number_of(who) == s.number_of(who) + a + b,
{
}

} // verus!
