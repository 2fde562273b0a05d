//! Descriptions of the calls the relay asks the host to schedule.
//!
//! A `Promise` is a plan, not an act: the relay builds it, the host carries
//! it out. Calls joined by `and` may run in any order; the callback that
//! `then` appends runs once, after every joined call has ended.

use vstd::prelude::*;

use crate::types::{AccountId, SignRequest, SignRequestView};

verus! {

/// One call of `sign` on the signing service.
#[derive(Debug, PartialEq, Eq)]
pub struct SignCall {
    /// The signing service.
    pub receiver: AccountId,
    /// The gas the call may use.
    pub gas: u64,
    /// The deposit attached to the call, in the smallest unit of the token.
    pub deposit: u128,
    /// What is to be signed.
    pub request: SignRequest,
}

/// What a `SignCall` holds.
pub struct SignCallView {
    pub receiver: Seq<char>,
    pub gas: u64,
    pub deposit: u128,
    pub request: SignRequestView,
}

impl View for SignCall {
    type V = SignCallView;

    open spec fn view(&self) -> SignCallView {
        SignCallView {
            receiver: self.receiver@,
            gas: self.gas,
            deposit: self.deposit,
            request: self.request@,
        }
    }
}

/// The call of `resolve_signatures` that ends a batch.
#[derive(Debug, PartialEq, Eq)]
pub struct Callback {
    /// The relay itself.
    pub receiver: AccountId,
    /// The gas the callback may use.
    pub gas: u64,
    /// The batch, in the order in which it was submitted.
    pub requests: Vec<SignRequest>,
}

/// What a `Callback` holds.
pub struct CallbackView {
    pub receiver: Seq<char>,
    pub gas: u64,
    pub requests: Seq<SignRequestView>,
}

impl View for Callback {
    type V = CallbackView;

    open spec fn view(&self) -> CallbackView {
        CallbackView {
            receiver: self.receiver@,
            gas: self.gas,
            requests: crate::types::request_views(self.requests@),
        }
    }
}

/// Calls to be scheduled, and how they hang together.
#[derive(Debug, PartialEq, Eq)]
pub enum Promise {
    /// A single call of the signing service.
    Sign(SignCall),
    /// Both sides, independently of each other.
    And(Box<Promise>, Box<Promise>),
    /// The left side, and the callback once all of it has ended.
    Then(Box<Promise>, Callback),
}

/// What a `Promise` holds.
pub enum PromiseView {
    Sign(SignCallView),
    And(Box<PromiseView>, Box<PromiseView>),
    Then(Box<PromiseView>, CallbackView),
}

impl PromiseView {
    /// The calls of the signing service, in the order in which the host
    /// numbers their outcomes.
    pub open spec fn sign_calls(self) -> Seq<SignCallView>
        decreases self,
    {
        match self {
            PromiseView::Sign(call) => seq![call],
            PromiseView::And(left, right) => left.sign_calls() + right.sign_calls(),
            PromiseView::Then(first, _) => first.sign_calls(),
        }
    }
}

impl View for Promise {
    type V = PromiseView;

    open spec fn view(&self) -> PromiseView {
        self.plan()
    }
}

impl Promise {
    /// What the promise holds: the same tree, each call by its view.
    pub open spec fn plan(self) -> PromiseView
        decreases self,
    {
        match self {
            Promise::Sign(call) => PromiseView::Sign(call@),
            Promise::And(left, right) => PromiseView::And(
                Box::new(left.plan()),
                Box::new(right.plan()),
            ),
            Promise::Then(first, callback) => PromiseView::Then(Box::new(first.plan()), callback@),
        }
    }

    /// A single call of the signing service.
    pub fn sign(call: SignCall) -> (promise: Promise)
        ensures
            promise == Promise::Sign(call),
    {
        Promise::Sign(call)
    }

    /// This and `other`, independently of each other.
    pub fn and(self, other: Promise) -> (joined: Promise)
        ensures
            joined == Promise::And(Box::new(self), Box::new(other)),
    {
        Promise::And(Box::new(self), Box::new(other))
    }

    /// This, and `callback` once all of it has ended.
    pub fn then_callback(self, callback: Callback) -> (chained: Promise)
        ensures
            chained == Promise::Then(Box::new(self), callback),
    {
        Promise::Then(Box::new(self), callback)
    }
}

/// The views of a sequence of promises, in order.
pub open spec fn promise_views(promises: Seq<Promise>) -> Seq<PromiseView> {
    promises.map_values(|promise: Promise| promise@)
}

/// The join of a non-empty sequence: the first promise, to which each
/// further one is added on the right by `and`.
pub open spec fn spec_join_all(promises: Seq<PromiseView>) -> PromiseView
    recommends
        promises.len() > 0,
    decreases promises.len(),
{
    if promises.len() <= 1 {
        promises[0]
    } else {
        PromiseView::And(
            Box::new(spec_join_all(promises.drop_last())),
            Box::new(promises.last()),
        )
    }
}

/// Joins the promises into one that ends when all of them have ended.
///
/// There is no join of nothing: the sequence must hold a promise.
pub fn join_all(promises: Vec<Promise>) -> (joined: Promise)
    requires
        promises.len() > 0,
    ensures
        joined@ == spec_join_all(promise_views(promises@)),
{
    let ghost all = promises@;
    let mut joined: Option<Promise> = None;
    for promise in iter: promises
        invariant
            iter.seq() == all,
            joined is None <==> iter.index() == 0,
            joined matches Some(so_far) ==> so_far@ == spec_join_all(
                promise_views(all.take(iter.index() as int)),
            ),
    {
        let ghost before = all.take(iter.index() as int);
        let ghost after = all.take(iter.index() + 1);
        proof {
            assert(promise_views(after).drop_last() =~= promise_views(before));
            assert(promise_views(after).last() == promise@);
        }
        joined = match joined {
            None => Some(promise),
            Some(so_far) => Some(so_far.and(promise)),
        };
    }
    proof {
        assert(all.take(all.len() as int) =~= all);
    }
    joined.unwrap()
}

/// The calls of a join are the calls of the joined promises, one promise
/// after the other.
pub proof fn lemma_join_all_sign_calls(promises: Seq<PromiseView>)
    requires
        promises.len() > 0,
    ensures
        spec_join_all(promises).sign_calls() == promises.map_values(
            |promise: PromiseView| promise.sign_calls(),
        ).flatten(),
    decreases promises.len(),
{
    let calls = promises.map_values(|promise: PromiseView| promise.sign_calls());
    if promises.len() == 1 {
        assert(calls =~= seq![promises[0].sign_calls()]);
        calls.lemma_flatten_one_element();
    } else {
        lemma_join_all_sign_calls(promises.drop_last());
        let front = promises.drop_last().map_values(|promise: PromiseView| promise.sign_calls());
        assert(calls =~= front.push(promises.last().sign_calls()));
        front.lemma_flatten_push(promises.last().sign_calls());
    }
}

} // verus!
