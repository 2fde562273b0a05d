//! Turning the outcomes of the scheduled calls into the result batch.
//!
//! A call that failed and an answer that cannot be read are both a failure
//! of that one request and of no other: the batch always comes back whole,
//! each request beside its own result.

use omni_transaction::signer::types::SignatureResponse as WireSignatureResponse;
use vstd::prelude::*;

use crate::types::{
    request_views, PromiseResult, SignRequest, SignRequestView, SignatureResponse,
    SignatureResponseView,
};

verus! {

/// The result of one request: the signature, or nothing but the fact that
/// there is none.
pub type SignatureResult = Result<SignatureResponse, ()>;

/// What a `SignatureResult` holds.
pub type SignatureResultView = Result<SignatureResponseView, ()>;

/// `serde_json::Error`, taken as it comes: the relay reads nothing from it.
#[verifier::external_type_specification]
#[verifier::external_body]
pub struct ExJsonError(serde_json::Error);

/// The signature that `serde_json::from_slice` reads from `data` as the
/// signing service's answer, if it reads one.
pub uninterp spec fn signature_response_json(data: Seq<u8>) -> Option<SignatureResponseView>;

/// Calls `serde_json::from_slice` for the signing service's answer type.
/// Trusted: whether the bytes are read, and as what, is a function of the
/// bytes alone, and that function is `signature_response_json`.
#[verifier::external_body]
fn signature_response_from_slice(data: &[u8]) -> (decoded: Result<
    SignatureResponse,
    serde_json::Error,
>)
    ensures
        decoded matches Ok(response) ==> signature_response_json(data@) == Some(response@),
        decoded is Err ==> signature_response_json(data@) is None,
{
    match serde_json::from_slice::<WireSignatureResponse>(data) {
        Ok(wire) => Ok(
            SignatureResponse {
                big_r: wire.big_r.affine_point,
                s: wire.s.scalar,
                recovery_id: wire.recovery_id,
            },
        ),
        Err(error) => Err(error),
    }
}

impl View for PromiseResult {
    type V = Option<Seq<u8>>;

    open spec fn view(&self) -> Option<Seq<u8>> {
        match self {
            PromiseResult::Successful(data) => Some(data@),
            PromiseResult::Failed => None,
        }
    }
}

/// The views of a sequence of outcomes, in order.
pub open spec fn outcome_views(outcomes: Seq<PromiseResult>) -> Seq<Option<Seq<u8>>> {
    outcomes.map_values(|outcome: PromiseResult| outcome@)
}

/// What a `SignatureResult` holds.
pub open spec fn result_view(result: SignatureResult) -> SignatureResultView {
    match result {
        Ok(response) => Ok(response@),
        Err(_) => Err(()),
    }
}

/// What a pair of a request and its result holds.
pub open spec fn entry_view(entry: (SignRequest, SignatureResult)) -> (
    SignRequestView,
    SignatureResultView,
) {
    (entry.0@, result_view(entry.1))
}

/// The views of a result batch, in order.
pub open spec fn batch_view(batch: Seq<(SignRequest, SignatureResult)>) -> Seq<
    (SignRequestView, SignatureResultView),
> {
    batch.map_values(|entry: (SignRequest, SignatureResult)| entry_view(entry))
}

/// The views of a sequence of results, in order.
pub open spec fn result_views(results: Seq<SignatureResult>) -> Seq<SignatureResultView> {
    results.map_values(|result: SignatureResult| result_view(result))
}

/// The result of a request whose call ended with `outcome`: a success only
/// if the call returned bytes and the bytes are read as a signature.
pub open spec fn spec_classify(outcome: Option<Seq<u8>>) -> SignatureResultView {
    match outcome {
        Some(data) => match signature_response_json(data) {
            Some(response) => Ok(response),
            None => Err(()),
        },
        None => Err(()),
    }
}

/// Each request beside its own result, in the order of the batch.
pub open spec fn spec_pair(
    requests: Seq<SignRequestView>,
    results: Seq<SignatureResultView>,
) -> Seq<(SignRequestView, SignatureResultView)>
    recommends
        requests.len() == results.len(),
{
    Seq::new(requests.len(), |i: int| (requests[i], results[i]))
}

/// The result batch of `requests` whose calls ended with `outcomes`.
pub open spec fn spec_resolve(
    requests: Seq<SignRequestView>,
    outcomes: Seq<Option<Seq<u8>>>,
) -> Seq<(SignRequestView, SignatureResultView)>
    recommends
        requests.len() == outcomes.len(),
{
    Seq::new(requests.len(), |i: int| (requests[i], spec_classify(outcomes[i])))
}

/// How many entries of a batch are successes.
pub open spec fn spec_successful(batch: Seq<(SignRequestView, SignatureResultView)>) -> nat
    decreases batch.len(),
{
    if batch.len() == 0 {
        0
    } else {
        spec_successful(batch.drop_last()) + if batch.last().1 is Ok {
            1nat
        } else {
            0nat
        }
    }
}

/// Reads the outcome of one call as the result of its request.
pub fn classify(outcome: &PromiseResult) -> (result: SignatureResult)
    ensures
        result_view(result) == spec_classify(outcome@),
{
    match outcome {
        PromiseResult::Successful(data) => match signature_response_from_slice(data.as_slice()) {
            Ok(response) => Ok(response),
            Err(_) => Err(()),
        },
        PromiseResult::Failed => Err(()),
    }
}

/// Puts each request beside the result at the same position.
pub fn pair_results(requests: Vec<SignRequest>, results: Vec<SignatureResult>) -> (batch: Vec<
    (SignRequest, SignatureResult),
>)
    requires
        requests.len() == results.len(),
    ensures
        batch.len() == requests.len(),
        batch_view(batch@) == spec_pair(request_views(requests@), result_views(results@)),
{
    let ghost all_requests = requests@;
    let ghost all_results = results@;
    let ghost count = all_requests.len() as int;
    // The results go on a stack, last one first, so that they come off it
    // in the order of the requests.
    let mut stack: Vec<SignatureResult> = Vec::new();
    for result in iter: results.into_iter().rev()
        invariant
            iter.seq() == all_results.reverse(),
            stack@ == all_results.reverse().take(iter.index() as int),
    {
        stack.push(result);
        assert(stack@ =~= all_results.reverse().take(iter.index() + 1));
    }
    assert(stack@ =~= all_results.reverse());
    let mut batch: Vec<(SignRequest, SignatureResult)> = Vec::new();
    for request in iter: requests
        invariant
            iter.seq() == all_requests,
            count == all_requests.len() == all_results.len(),
            stack@ == all_results.reverse().take(count - iter.index()),
            batch.len() == iter.index(),
            forall|j: int|
                0 <= j < batch.len() ==> (#[trigger] batch[j]) == (all_requests[j], all_results[j]),
    {
        let result = stack.pop().unwrap();
        assert(stack@ =~= all_results.reverse().take(count - iter.index() - 1));
        batch.push((request, result));
    }
    assert(batch_view(batch@) =~= spec_pair(
        request_views(all_requests),
        result_views(all_results),
    ));
    batch
}

/// Reconciles a batch with the outcomes of its calls: each request beside
/// what the outcome at its position reads as.
pub fn resolve(requests: Vec<SignRequest>, outcomes: &Vec<PromiseResult>) -> (batch: Vec<
    (SignRequest, SignatureResult),
>)
    requires
        requests.len() == outcomes.len(),
    ensures
        batch.len() == requests.len(),
        batch_view(batch@) == spec_resolve(request_views(requests@), outcome_views(outcomes@)),
{
    let mut results: Vec<SignatureResult> = Vec::new();
    let mut i: usize = 0;
    while i < outcomes.len()
        invariant
            i <= outcomes.len(),
            results.len() == i,
            forall|j: int|
                0 <= j < i ==> result_view(#[trigger] results[j]) == spec_classify(outcomes[j]@),
        decreases outcomes.len() - i,
    {
        results.push(classify(&outcomes[i]));
        i += 1;
    }
    let ghost views = request_views(requests@);
    assert(spec_pair(views, result_views(results@)) =~= spec_resolve(
        views,
        outcome_views(outcomes@),
    ));
    pair_results(requests, results)
}

/// The tally of a result batch.
#[derive(Debug, Clone, Copy, PartialEq, Eq, Structural)]
pub struct Summary {
    /// How many requests the batch holds.
    pub total: usize,
    /// How many of them were signed.
    pub successful: usize,
    /// How many of them were not.
    pub failed: usize,
}

/// Counts the successes and the failures of a result batch.
pub fn summarize(batch: &Vec<(SignRequest, SignatureResult)>) -> (summary: Summary)
    ensures
        summary.total == batch.len(),
        summary.successful == spec_successful(batch_view(batch@)),
        summary.failed == summary.total - summary.successful,
{
    let ghost views = batch_view(batch@);
    let mut successful: usize = 0;
    let mut i: usize = 0;
    while i < batch.len()
        invariant
            i <= batch.len(),
            views == batch_view(batch@),
            successful <= i,
            successful == spec_successful(views.take(i as int)),
        decreases batch.len() - i,
    {
        assert(views.take(i + 1).drop_last() =~= views.take(i as int));
        assert(views.take(i + 1).last() == entry_view(batch[i as int]));
        if batch[i].1.is_ok() {
            successful += 1;
        }
        i += 1;
    }
    assert(views.take(batch.len() as int) =~= views);
    Summary { total: batch.len(), successful, failed: batch.len() - successful }
}

/// The sequence that holds, at each position `i`, the item that `items`
/// holds at position `order[i]`.
pub open spec fn reordered<T>(items: Seq<T>, order: Seq<int>) -> Seq<T> {
    Seq::new(order.len(), |i: int| items[order[i]])
}

/// The result batch is as long as the batch, and each of its entries holds
/// the request of the same position.
pub proof fn lemma_resolve_pairs_by_position(
    requests: Seq<SignRequestView>,
    outcomes: Seq<Option<Seq<u8>>>,
)
    requires
        requests.len() == outcomes.len(),
    ensures
        spec_resolve(requests, outcomes).len() == requests.len(),
        forall|i: int|
            0 <= i < requests.len() ==> (#[trigger] spec_resolve(requests, outcomes)[i]).0
                == requests[i],
{
}

/// Where every call returned bytes that are read as a signature, every
/// entry of the result batch is a success.
pub proof fn lemma_all_calls_succeed(
    requests: Seq<SignRequestView>,
    outcomes: Seq<Option<Seq<u8>>>,
)
    requires
        requests.len() == outcomes.len(),
        forall|i: int|
            0 <= i < outcomes.len() ==> (#[trigger] outcomes[i]) is Some
                && signature_response_json(outcomes[i]->Some_0) is Some,
    ensures
        spec_resolve(requests, outcomes).len() == requests.len(),
        forall|i: int|
            0 <= i < requests.len() ==> (#[trigger] spec_resolve(requests, outcomes)[i]).1 is Ok,
        spec_successful(spec_resolve(requests, outcomes)) == requests.len(),
{
    let batch = spec_resolve(requests, outcomes);
    assert forall|i: int| 0 <= i < requests.len() implies (#[trigger] batch[i]).1 is Ok by {
        assert(outcomes[i] is Some);
    }
    lemma_successful_counts_all(batch);
}

/// A batch of successes counts as many successes as it has entries.
proof fn lemma_successful_counts_all(batch: Seq<(SignRequestView, SignatureResultView)>)
    requires
        forall|i: int| 0 <= i < batch.len() ==> (#[trigger] batch[i]).1 is Ok,
    ensures
        spec_successful(batch) == batch.len(),
    decreases batch.len(),
{
    if batch.len() > 0 {
        lemma_successful_counts_all(batch.drop_last());
    }
}

/// A call that failed makes a failure of its own request and leaves every
/// other entry of the result batch as it would have been.
pub proof fn lemma_failure_is_local(
    requests: Seq<SignRequestView>,
    outcomes: Seq<Option<Seq<u8>>>,
    k: int,
)
    requires
        requests.len() == outcomes.len(),
        0 <= k < requests.len(),
    ensures
        spec_resolve(requests, outcomes.update(k, None)) == spec_resolve(requests, outcomes).update(
            k,
            (requests[k], Err(())),
        ),
{
    assert(spec_resolve(requests, outcomes.update(k, None)) =~= spec_resolve(
        requests,
        outcomes,
    ).update(k, (requests[k], Err(()))));
}

/// Submitting the requests in another order, each with its own outcome,
/// gives the same entries in that other order.
pub proof fn lemma_resolve_reordered(
    requests: Seq<SignRequestView>,
    outcomes: Seq<Option<Seq<u8>>>,
    order: Seq<int>,
)
    requires
        requests.len() == outcomes.len(),
        forall|i: int| 0 <= i < order.len() ==> 0 <= #[trigger] order[i] < requests.len(),
    ensures
        spec_resolve(reordered(requests, order), reordered(outcomes, order)) == reordered(
            spec_resolve(requests, outcomes),
            order,
        ),
{
    assert(spec_resolve(reordered(requests, order), reordered(outcomes, order)) =~= reordered(
        spec_resolve(requests, outcomes),
        order,
    ));
}

} // verus!
