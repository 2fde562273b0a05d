//! Turning an admitted batch into the calls that sign it.

use vstd::prelude::*;

use crate::budget::{callback_gas, spec_callback_gas, SIGNATURE_GAS};
use crate::error::AdmissionError;
use crate::promise::{
    join_all, promise_views, spec_join_all, Callback, CallbackView, Promise, PromiseView, SignCall,
    SignCallView,
};
use crate::types::{request_views, AccountId, SignRequest, SignRequestView};

verus! {

/// The deposit the signing service asks for with each call, in the smallest
/// unit of the token.
pub const ATTACHED_DEPOSIT: u128 = 1;

/// The call that signs `request` on the service `signer`.
pub open spec fn spec_sign_call(signer: Seq<char>, request: SignRequestView) -> SignCallView {
    SignCallView { receiver: signer, gas: SIGNATURE_GAS, deposit: ATTACHED_DEPOSIT, request }
}

/// One promise for each request, in the order of the batch.
pub open spec fn spec_sign_promises(
    signer: Seq<char>,
    requests: Seq<SignRequestView>,
) -> Seq<PromiseView> {
    Seq::new(requests.len(), |i: int| PromiseView::Sign(spec_sign_call(signer, requests[i])))
}

/// Whether every payload of the batch is short enough to be signed.
pub open spec fn all_payloads_fit(requests: Seq<SignRequestView>) -> bool {
    forall|i: int| 0 <= i < requests.len() ==> (#[trigger] requests[i]).payload_fits()
}

/// Whether `index` is the position of the first payload that is too long.
pub open spec fn first_invalid_payload(requests: Seq<SignRequestView>, index: int) -> bool {
    &&& 0 <= index < requests.len()
    &&& !requests[index].payload_fits()
    &&& forall|i: int| 0 <= i < index ==> (#[trigger] requests[i]).payload_fits()
}

/// What a batch is turned into: the join of one call per request, and then
/// the callback on `relay` that carries the whole batch.
pub open spec fn spec_dispatch(
    requests: Seq<SignRequestView>,
    signer: Seq<char>,
    relay: Seq<char>,
) -> PromiseView
    recommends
        requests.len() > 0,
{
    PromiseView::Then(
        Box::new(spec_join_all(spec_sign_promises(signer, requests))),
        CallbackView {
            receiver: relay,
            gas: spec_callback_gas(requests.len() as int) as u64,
            requests,
        },
    )
}

/// Plans the signing of a batch: one call of the service `mpc_contract_id`
/// for each request, joined, and then the callback on
/// `current_account_id`.
///
/// Nothing is planned for an empty batch, nor for one in which a payload is
/// too long: the first such request is reported and the whole batch is
/// refused.
pub fn internal_request_signatures(
    requests: Vec<SignRequest>,
    mpc_contract_id: AccountId,
    current_account_id: AccountId,
) -> (planned: Result<Promise, AdmissionError>)
    ensures
        requests.len() == 0 ==> planned == Err::<Promise, AdmissionError>(
            AdmissionError::EmptyBatch,
        ),
        requests.len() > 0 && all_payloads_fit(request_views(requests@)) ==> planned is Ok
            && planned->Ok_0@ == spec_dispatch(
            request_views(requests@),
            mpc_contract_id@,
            current_account_id@,
        ),
        !all_payloads_fit(request_views(requests@)) ==> planned is Err
            && planned->Err_0 is InvalidPayload && first_invalid_payload(
            request_views(requests@),
            planned->Err_0->InvalidPayload_0 as int,
        ),
{
    let ghost views = request_views(requests@);
    let count = requests.len();
    if count == 0 {
        return Err(AdmissionError::EmptyBatch);
    }
    let mut calls: Vec<Promise> = Vec::new();
    let mut i: usize = 0;
    while i < count
        invariant
            i <= count,
            count == requests.len(),
            views == request_views(requests@),
            calls.len() == i,
            forall|j: int| 0 <= j < i ==> (#[trigger] views[j]).payload_fits(),
            forall|j: int|
                0 <= j < i ==> (#[trigger] calls[j])@ == PromiseView::Sign(
                    spec_sign_call(mpc_contract_id@, views[j]),
                ),
        decreases count - i,
    {
        let request = &requests[i];
        assert(request@ == views[i as int]);
        if request.validate_payload_length().is_err() {
            return Err(AdmissionError::InvalidPayload(i));
        }
        calls.push(
            Promise::sign(
                SignCall {
                    receiver: mpc_contract_id.clone(),
                    gas: SIGNATURE_GAS,
                    deposit: ATTACHED_DEPOSIT,
                    request: request.clone(),
                },
            ),
        );
        i += 1;
    }
    assert(promise_views(calls@) =~= spec_sign_promises(mpc_contract_id@, views));
    let callback = Callback {
        receiver: current_account_id,
        gas: callback_gas(count as u64),
        requests,
    };
    Ok(join_all(calls).then_callback(callback))
}

/// The join of one call per request holds exactly those calls, in the order
/// of the requests.
proof fn lemma_sign_promises_in_order(signer: Seq<char>, requests: Seq<SignRequestView>)
    requires
        requests.len() > 0,
    ensures
        spec_join_all(spec_sign_promises(signer, requests)).sign_calls() == requests.map_values(
            |request: SignRequestView| spec_sign_call(signer, request),
        ),
    decreases requests.len(),
{
    let promises = spec_sign_promises(signer, requests);
    let calls = requests.map_values(|request: SignRequestView| spec_sign_call(signer, request));
    if requests.len() == 1 {
        assert(spec_join_all(promises).sign_calls() =~= calls);
    } else {
        lemma_sign_promises_in_order(signer, requests.drop_last());
        assert(promises.drop_last() =~= spec_sign_promises(signer, requests.drop_last()));
        let front = spec_join_all(promises.drop_last());
        assert(spec_join_all(promises) == PromiseView::And(
            Box::new(front),
            Box::new(promises.last()),
        ));
        assert(spec_join_all(promises).sign_calls() == front.sign_calls()
            + promises.last().sign_calls());
        assert(promises.last().sign_calls() =~= seq![spec_sign_call(signer, requests.last())]);
        assert(spec_join_all(promises).sign_calls() =~= calls);
    }
}

/// A planned batch calls the signing service once for each request, and
/// the call at each position carries the request of that position. The
/// callback carries the whole batch in the same order.
pub proof fn lemma_dispatch_keeps_order(
    requests: Seq<SignRequestView>,
    signer: Seq<char>,
    relay: Seq<char>,
)
    requires
        requests.len() > 0,
    ensures
        spec_dispatch(requests, signer, relay).sign_calls().len() == requests.len(),
        forall|i: int|
            0 <= i < requests.len() ==> (#[trigger] spec_dispatch(
                requests,
                signer,
                relay,
            ).sign_calls()[i]) == spec_sign_call(signer, requests[i]),
        spec_dispatch(requests, signer, relay) matches PromiseView::Then(_, callback)
            && callback.requests == requests,
{
    lemma_sign_promises_in_order(signer, requests);
}

} // verus!
