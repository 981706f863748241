//! The single-use cell, its capability tokens, and the operations on them.
//!
//! [`DynOnce::new`] mints a fresh brand, stores the producer payload, and
//! hands out the cell together with the only producer token of that brand.
//! Each operation consumes the token presented — tokens are affine values
//! with no way to copy them — and, while the protocol is not complete,
//! mints the token of the next phase with the same brand. A token of a
//! foreign brand satisfies no operation's precondition, and each operation
//! also re-checks the brand at run time and fails fatally rather than act
//! on a mismatched token.

use std::collections::hash_map::{DefaultHasher, RandomState};
use std::hash::{BuildHasher, Hasher};

use vstd::prelude::*;

use crate::protocol::{accepts, step, CellView, Op, State};

verus! {

/// The per-construction brand: an identity minted once by [`DynOnce::new`]
/// and carried both by the cell and by every token the cell mints, so that
/// each token is scoped to the one cell it was minted for.
pub struct InvariantLifetime {
    tag: u64,
}

impl View for InvariantLifetime {
    type V = u64;

    closed spec fn view(&self) -> u64 {
        self.tag
    }
}

/// The producer token: proof that its cell still holds the producer
/// payload, and the sole permission to read or take that payload. Minted by
/// [`DynOnce::new`]; consumed by [`DynOnce::take_visitor`].
pub struct Visitor(InvariantLifetime);

impl View for Visitor {
    type V = u64;

    closed spec fn view(&self) -> u64 {
        self.0@
    }
}

/// The empty token: proof that the producer has been taken and no result
/// has been installed yet, and the sole permission to install one. Minted
/// by [`DynOnce::take_visitor`]; consumed by [`DynOnce::set_value`].
pub struct Empty(InvariantLifetime);

impl View for Empty {
    type V = u64;

    closed spec fn view(&self) -> u64 {
        self.0@
    }
}

/// The result token: proof that a result has been installed, and the sole
/// permission to take it. Minted by [`DynOnce::set_value`]; consumed by
/// [`DynOnce::take_value`].
pub struct Value(InvariantLifetime);

impl View for Value {
    type V = u64;

    closed spec fn view(&self) -> u64 {
        self.0@
    }
}

/// What the cell holds: exactly one of the producer payload, the result
/// payload, or nothing.
enum DynInner<T, U> {
    Visitor(T),
    Value(U),
    Empty,
}

/// The single-use cell. It holds exactly one of a producer payload of type
/// `T`, a result payload of type `U`, or nothing, plus its brand; its
/// abstract value is a [`CellView`], whose configuration moves only
/// forward: producer, then empty, then result, then done.
pub struct DynOnce<T, U> {
    inner: DynInner<T, U>,
    brand: InvariantLifetime,
    done: Ghost<bool>,
}

impl<T, U> View for DynOnce<T, U> {
    type V = CellView<T, U>;

    closed spec fn view(&self) -> CellView<T, U> {
        CellView {
            brand: self.brand@,
            state: if self.done@ {
                State::Done
            } else {
                match self.inner {
                    DynInner::Visitor(v) => State::Visitor { v },
                    DynInner::Value(w) => State::Value { w },
                    DynInner::Empty => State::Empty,
                }
            },
        }
    }
}

/// Relies on std's `RandomState::new`: a hasher factory initialized with
/// freshly chosen random keys. Nothing is promised of the keys, so no two
/// calls are related by any contract.
#[verifier::external_body]
fn new_random_state() -> RandomState {
    RandomState::new()
}

/// Relies on std's `BuildHasher::build_hasher` for `RandomState`: a hasher
/// seeded from the factory's keys. Nothing is promised of its state.
#[verifier::external_body]
fn build_brand_hasher(state: &RandomState) -> DefaultHasher {
    state.build_hasher()
}

/// Mints the tag of a fresh brand. No contract relates one call to
/// another, so no two constructions can be proved to share a brand — which
/// is what scopes every token to the one cell that minted it.
fn mint_tag() -> u64 {
    let state = new_random_state();
    let hasher = build_brand_hasher(&state);
    hasher.finish()
}

impl<T, U> DynOnce<T, U> {
    /// Constructs a cell holding `visitor` and mints its brand together
    /// with the one producer token of that brand. The cell and the first
    /// token are introduced in the same call, so a token can never be had
    /// except from a cell's own operations.
    pub fn new(visitor: T) -> (r: (DynOnce<T, U>, Visitor))
        ensures
            r.0@.state == (State::<T, U>::Visitor { v: visitor }),
            r.1@ == r.0@.brand,
    {
        let tag = mint_tag();
        (
            DynOnce {
                inner: DynInner::Visitor(visitor),
                brand: InvariantLifetime { tag },
                done: Ghost(false),
            },
            Visitor(InvariantLifetime { tag }),
        )
    }

    /// Reads the producer payload without consuming the token: callable
    /// any number of times while the producer is held, always returning
    /// the payload stored at construction, and changing nothing.
    pub fn as_visitor<'b>(&'b self, token: &'b Visitor) -> (r: &'b T)
        requires
            accepts(self@, token@, Op::<U>::TakeVisitor),
        ensures
            *r == self@.state->v,
    {
        if token.0.tag != self.brand.tag {
            return unreached();
        }
        match &self.inner {
            DynInner::Visitor(visitor) => visitor,
            _ => unreached(),
        }
    }

    /// Exchanges the producer token for the producer payload: moves the
    /// payload out, leaves the cell empty, and mints the empty token of
    /// the same brand. The presented token is consumed and gone.
    pub fn take_visitor(&mut self, token: Visitor) -> (r: (T, Empty))
        requires
            accepts(old(self)@, token@, Op::<U>::TakeVisitor),
        ensures
            final(self)@.brand == old(self)@.brand,
            final(self)@.state == step(old(self)@.state, Op::<U>::TakeVisitor),
            r.0 == old(self)@.state->v,
            r.1@ == old(self)@.brand,
    {
        if token.0.tag != self.brand.tag {
            return unreached();
        }
        let mut slot = DynInner::Empty;
        core::mem::swap(&mut slot, &mut self.inner);
        match slot {
            DynInner::Visitor(visitor) => (visitor, Empty(token.0)),
            _ => unreached(),
        }
    }

    /// Exchanges the empty token for the result token of the same brand,
    /// installing `value` as the cell's result payload. The presented
    /// token is consumed and gone.
    pub fn set_value(&mut self, token: Empty, value: U) -> (r: Value)
        requires
            accepts(old(self)@, token@, (Op::<U>::SetValue { w: value })),
        ensures
            final(self)@.brand == old(self)@.brand,
            final(self)@.state == step(old(self)@.state, (Op::<U>::SetValue { w: value })),
            r@ == old(self)@.brand,
    {
        if token.0.tag != self.brand.tag {
            return unreached();
        }
        let mut slot = DynInner::Value(value);
        core::mem::swap(&mut slot, &mut self.inner);
        match slot {
            DynInner::Empty => Value(token.0),
            _ => unreached(),
        }
    }

    /// Exchanges the result token for the result payload: moves the
    /// payload out and completes the protocol. The presented token is
    /// consumed, and no further token is minted: no operation on this cell
    /// can ever be authorized again.
    pub fn take_value(&mut self, token: Value) -> (r: U)
        requires
            accepts(old(self)@, token@, Op::<U>::TakeValue),
        ensures
            final(self)@.brand == old(self)@.brand,
            final(self)@.state == step(old(self)@.state, Op::<U>::TakeValue),
            r == old(self)@.state->w,
    {
        if token.0.tag != self.brand.tag {
            return unreached();
        }
        let mut slot = DynInner::Empty;
        core::mem::swap(&mut slot, &mut self.inner);
        self.done = Ghost(true);
        match slot {
            DynInner::Value(value) => value,
            _ => unreached(),
        }
    }
}

} // verus!
