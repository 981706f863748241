//! The one-shot protocol as a ghost transition system.
//!
//! A configuration pairs what the cell currently holds with which capability
//! token is live for it: while the producer payload is held the producer
//! token is live, after it is taken the empty token is live, after a result
//! is installed the result token is live, and once the result is taken no
//! token is live and the protocol is complete. Each operation consumes the
//! live token, so a configuration fully describes a protocol run in flight.
//!
//! The contracts of the executable operations in [`crate::dyn_once`] are
//! stated over [`enabled`], [`step`] and [`accepts`], and the proof
//! functions at the end of this module state the laws of the protocol over
//! those same spec functions.

use vstd::prelude::*;

verus! {

/// A configuration of one protocol run: what the cell holds, together with
/// the capability token currently live for it.
pub enum State<T, U> {
    /// The cell holds the producer payload `v`; the producer token is live.
    Visitor { v: T },
    /// The producer has been taken; the empty token is live.
    Empty,
    /// A result `w` has been installed; the result token is live.
    Value { w: U },
    /// The result has been taken; no token is live and no operation is
    /// enabled again: the protocol is complete.
    Done,
}

/// The token-consuming operations of the protocol.
pub enum Op<U> {
    /// Exchange the producer token for the producer payload.
    TakeVisitor,
    /// Exchange the empty token for the result token, installing `w`.
    SetValue { w: U },
    /// Exchange the result token for the result payload.
    TakeValue,
}

/// The abstract value of a cell: its brand and its current configuration.
pub struct CellView<T, U> {
    pub brand: u64,
    pub state: State<T, U>,
}

/// Whether `op` is legal in configuration `s`: exactly the operation whose
/// live token the configuration grants, and none once the run is `Done`.
pub open spec fn enabled<T, U>(s: State<T, U>, op: Op<U>) -> bool {
    match op {
        Op::TakeVisitor => s is Visitor,
        Op::SetValue { .. } => s is Empty,
        Op::TakeValue => s is Value,
    }
}

/// The configuration after `op` is performed. Meaningful under
/// [`enabled`]`(s, op)`.
pub open spec fn step<T, U>(s: State<T, U>, op: Op<U>) -> State<T, U> {
    match op {
        Op::TakeVisitor => State::Empty,
        Op::SetValue { w } => (State::Value { w }),
        Op::TakeValue => State::Done,
    }
}

/// Whether a cell described by `c` accepts a token of brand `brand`
/// presented for `op`: the brand must be the cell's own and `op` must be
/// enabled. This is the precondition of every token-consuming operation.
pub open spec fn accepts<T, U>(c: CellView<T, U>, brand: u64, op: Op<U>) -> bool {
    brand == c.brand && enabled(c.state, op)
}

/// The configuration reached from `s` by performing `ops` in order.
pub open spec fn run<T, U>(s: State<T, U>, ops: Seq<Op<U>>) -> State<T, U>
    decreases ops.len(),
{
    if ops.len() == 0 {
        s
    } else {
        run(step(s, ops.first()), ops.drop_first())
    }
}

/// Whether every operation of `ops`, performed in order from `s`, is
/// enabled at the configuration it is performed in.
pub open spec fn valid_run<T, U>(s: State<T, U>, ops: Seq<Op<U>>) -> bool
    decreases ops.len(),
{
    ops.len() == 0 || (enabled(s, ops.first()) && valid_run(step(s, ops.first()), ops.drop_first()))
}

/// Law: from a fresh construction holding `v`, taking the producer is a
/// valid run; it yields the construction value `v` and leaves the empty
/// configuration.
pub proof fn lemma_construct_then_take<T, U>(v: T)
    ensures
        valid_run(State::<T, U>::Visitor { v }, seq![Op::<U>::TakeVisitor]),
        run(State::<T, U>::Visitor { v }, seq![Op::<U>::TakeVisitor]) == State::<T, U>::Empty,
        (State::<T, U>::Visitor { v })->v == v,
{
    let s = (State::<T, U>::Visitor { v });
    let ops = seq![Op::<U>::TakeVisitor];
    reveal_with_fuel(valid_run, 2);
    reveal_with_fuel(run, 2);
    assert(ops.drop_first() =~= Seq::<Op<U>>::empty());
    assert(valid_run(s, ops));
    assert(run(s, ops) == State::<T, U>::Empty);
}

/// Law: from the empty configuration, installing `w` and then taking the
/// result is a valid run; the installed configuration holds exactly `w`,
/// and taking it completes the protocol.
pub proof fn lemma_set_then_take<T, U>(w: U)
    ensures
        valid_run(State::<T, U>::Empty, seq![(Op::<U>::SetValue { w }), Op::<U>::TakeValue]),
        run(State::<T, U>::Empty, seq![(Op::<U>::SetValue { w })]) == (State::<T, U>::Value { w }),
        (State::<T, U>::Value { w })->w == w,
        run(State::<T, U>::Empty, seq![(Op::<U>::SetValue { w }), Op::<U>::TakeValue])
            == State::<T, U>::Done,
{
    let ops = seq![(Op::<U>::SetValue { w }), Op::<U>::TakeValue];
    let one = seq![(Op::<U>::SetValue { w })];
    reveal_with_fuel(valid_run, 3);
    reveal_with_fuel(run, 3);
    assert(one.drop_first() =~= Seq::<Op<U>>::empty());
    assert(ops.drop_first() =~= seq![Op::<U>::TakeValue]);
    assert(ops.drop_first().drop_first() =~= Seq::<Op<U>>::empty());
    assert(valid_run(State::<T, U>::Empty, ops));
    assert(run(State::<T, U>::Empty, one) == (State::<T, U>::Value { w }));
    assert(run(State::<T, U>::Empty, ops) == State::<T, U>::Done);
}

/// Law: the complete protocol composes. For every producer value `v` and
/// every total function `f`, taking the producer, installing `f(v)` and
/// taking the result is a valid run from a fresh construction holding `v`;
/// the configuration before the final take holds exactly `f(v)`, and the
/// run ends complete.
pub proof fn lemma_compose<T, U>(v: T, f: spec_fn(T) -> U)
    ensures
        valid_run(
            State::<T, U>::Visitor { v },
            seq![Op::<U>::TakeVisitor, (Op::<U>::SetValue { w: f(v) }), Op::<U>::TakeValue],
        ),
        run(State::<T, U>::Visitor { v }, seq![Op::<U>::TakeVisitor, (Op::<U>::SetValue { w: f(v) })])
            == (State::<T, U>::Value { w: f(v) }),
        run(State::<T, U>::Visitor { v }, seq![Op::<U>::TakeVisitor, (Op::<U>::SetValue { w: f(v) })])->w
            == f(v),
        run(
            State::<T, U>::Visitor { v },
            seq![Op::<U>::TakeVisitor, (Op::<U>::SetValue { w: f(v) }), Op::<U>::TakeValue],
        ) == State::<T, U>::Done,
{
    let w = f(v);
    let s = (State::<T, U>::Visitor { v });
    let three = seq![Op::<U>::TakeVisitor, (Op::<U>::SetValue { w }), Op::<U>::TakeValue];
    let two = seq![Op::<U>::TakeVisitor, (Op::<U>::SetValue { w })];
    reveal_with_fuel(valid_run, 4);
    reveal_with_fuel(run, 4);
    assert(three.drop_first() =~= seq![(Op::<U>::SetValue { w }), Op::<U>::TakeValue]);
    assert(three.drop_first().drop_first() =~= seq![Op::<U>::TakeValue]);
    assert(three.drop_first().drop_first().drop_first() =~= Seq::<Op<U>>::empty());
    assert(two.drop_first() =~= seq![(Op::<U>::SetValue { w })]);
    assert(two.drop_first().drop_first() =~= Seq::<Op<U>>::empty());
    assert(valid_run(s, three));
    assert(run(s, two) == (State::<T, U>::Value { w }));
    assert(run(s, three) == State::<T, U>::Done);
}

/// Law: cross-instance rejection. A token carrying a brand other than the
/// cell's own is accepted by no operation, whatever the cell holds and
/// whatever the operation.
pub proof fn lemma_cross_instance_rejection<T, U>(c: CellView<T, U>, brand: u64, op: Op<U>)
    requires
        brand != c.brand,
    ensures
        !accepts(c, brand, op),
{
}

/// Law: unreachability of an early result read. Every valid run from a
/// fresh construction is a prefix of take-producer, set-result,
/// take-result: the result can be taken only as the third operation, after
/// the producer has been taken and a result has been explicitly set, and no
/// operation at all follows the final take.
pub proof fn lemma_run_shape<T, U>(v: T, ops: Seq<Op<U>>)
    requires
        valid_run(State::<T, U>::Visitor { v }, ops),
    ensures
        ops.len() <= 3,
        ops.len() >= 1 ==> ops[0] is TakeVisitor,
        ops.len() >= 2 ==> ops[1] is SetValue,
        ops.len() >= 3 ==> ops[2] is TakeValue,
        forall|i: int|
            0 <= i < ops.len() && (#[trigger] ops[i]) is TakeValue ==> i == 2 && ops[0]
                is TakeVisitor && ops[1] is SetValue,
{
    let s0 = (State::<T, U>::Visitor { v });
    if ops.len() >= 1 {
        assert(enabled(s0, ops.first()));
        assert(ops[0] is TakeVisitor);
        let s1 = step(s0, ops.first());
        let ops1 = ops.drop_first();
        assert(valid_run(s1, ops1));
        assert(s1 is Empty);
        if ops.len() >= 2 {
            assert(ops1.first() == ops[1]);
            assert(enabled(s1, ops1.first()));
            assert(ops[1] is SetValue);
            let s2 = step(s1, ops1.first());
            let ops2 = ops1.drop_first();
            assert(valid_run(s2, ops2));
            assert(s2 is Value);
            if ops.len() >= 3 {
                assert(ops2.first() == ops[2]);
                assert(enabled(s2, ops2.first()));
                assert(ops[2] is TakeValue);
                let s3 = step(s2, ops2.first());
                let ops3 = ops2.drop_first();
                assert(valid_run(s3, ops3));
                assert(s3 is Done);
                if ops.len() >= 4 {
                    assert(!enabled(s3, ops3.first()));
                    assert(false);
                }
            }
        }
    }
    assert forall|i: int| 0 <= i < ops.len() && (#[trigger] ops[i]) is TakeValue implies i == 2
        && ops[0] is TakeVisitor && ops[1] is SetValue by {
        assert(i != 0 && i != 1);
    }
}

} // verus!
