//! The relay itself: who may use it, and its entry points.

use vstd::prelude::*;

use crate::budget::{require_enough_gas, spec_required_gas};
use crate::chainsig::{
    all_payloads_fit, first_invalid_payload, internal_request_signatures, spec_dispatch,
};
use crate::error::{AdmissionError, OwnerError, ResolveError, UpgradeError};
use crate::promise::Promise;
use crate::reconcile::{batch_view, outcome_views, resolve, spec_resolve, SignatureResult};
use crate::types::{request_views, AccountId, Context, PromiseResult, SignRequest};

verus! {

/// The relay's configuration.
#[derive(Debug, PartialEq, Eq)]
pub struct Contract {
    /// The signing service.
    pub mpc_contract_id: AccountId,
    /// The account that may change this configuration.
    pub owner_id: AccountId,
    /// The account that may ask for signatures.
    pub permitted_caller: AccountId,
}

/// The code to install on an account.
#[derive(Debug, PartialEq, Eq)]
pub struct DeployContract {
    /// The account that gets the code.
    pub receiver: AccountId,
    /// The code.
    pub code: Vec<u8>,
}

impl Contract {
    /// A relay for the signing service `mpc_contract_id`, owned by
    /// `owner_id` and open to `permitted_caller`.
    pub fn new(
        mpc_contract_id: AccountId,
        owner_id: AccountId,
        permitted_caller: AccountId,
    ) -> (contract: Self)
        ensures
            contract.mpc_contract_id == mpc_contract_id,
            contract.owner_id == owner_id,
            contract.permitted_caller == permitted_caller,
    {
        Self { mpc_contract_id, permitted_caller, owner_id }
    }

    /// Lets `new_permitted_caller` ask for signatures in place of the
    /// account that could so far. Only the owner may do this.
    pub fn update_permitted_caller(
        &mut self,
        context: &Context,
        new_permitted_caller: AccountId,
    ) -> (updated: Result<(), OwnerError>)
        ensures
            final(self).mpc_contract_id == old(self).mpc_contract_id,
            final(self).owner_id == old(self).owner_id,
            context.predecessor_account_id@ == old(self).owner_id@ ==> updated is Ok
                && final(self).permitted_caller == new_permitted_caller,
            context.predecessor_account_id@ != old(self).owner_id@ ==> updated == Err::<
                (),
                OwnerError,
            >(OwnerError::NotOwner) && final(self).permitted_caller == old(self).permitted_caller,
    {
        if !context.predecessor_account_id.same_as(&self.owner_id) {
            return Err(OwnerError::NotOwner);
        }
        self.permitted_caller = new_permitted_caller;
        Ok(())
    }

    /// Hands the relay over to `new_owner_id`. Only the owner may do this.
    pub fn update_owner(&mut self, context: &Context, new_owner_id: AccountId) -> (updated: Result<
        (),
        OwnerError,
    >)
        ensures
            final(self).mpc_contract_id == old(self).mpc_contract_id,
            final(self).permitted_caller == old(self).permitted_caller,
            context.predecessor_account_id@ == old(self).owner_id@ ==> updated is Ok
                && final(self).owner_id == new_owner_id,
            context.predecessor_account_id@ != old(self).owner_id@ ==> updated == Err::<
                (),
                OwnerError,
            >(OwnerError::NotOwner) && final(self).owner_id == old(self).owner_id,
    {
        if !context.predecessor_account_id.same_as(&self.owner_id) {
            return Err(OwnerError::NotOwner);
        }
        self.owner_id = new_owner_id;
        Ok(())
    }

    /// Whether a call in `context` comes from the permitted caller and with
    /// the gas that a batch of `count` requests needs.
    pub open spec fn admits(self, context: Context, count: nat) -> bool {
        &&& context.predecessor_account_id@ == self.permitted_caller@
        &&& context.prepaid_gas >= spec_required_gas(count as int)
    }

    /// Admits a batch and plans its signing.
    ///
    /// The batch is refused, and nothing is planned, if the caller is not
    /// the permitted caller, if the prepaid gas is below what the batch
    /// needs, if the batch is empty, or if one of its payloads is too long.
    /// The checks are made in this order, and the first that fails decides
    /// the refusal.
    pub fn request_signatures(&mut self, context: &Context, requests: Vec<SignRequest>) -> (planned:
        Result<Promise, AdmissionError>)
        ensures
            *final(self) == *old(self),
            context.predecessor_account_id@ != old(self).permitted_caller@ ==> planned == Err::<
                Promise,
                AdmissionError,
            >(AdmissionError::Unauthorized),
            context.predecessor_account_id@ == old(self).permitted_caller@ && context.prepaid_gas
                < spec_required_gas(requests.len() as int) ==> planned == Err::<
                Promise,
                AdmissionError,
            >(AdmissionError::InsufficientGas),
            old(self).admits(*context, requests.len() as nat) && requests.len() == 0 ==> planned
                == Err::<Promise, AdmissionError>(AdmissionError::EmptyBatch),
            old(self).admits(*context, requests.len() as nat) && !all_payloads_fit(
                request_views(requests@),
            ) ==> planned is Err && planned->Err_0 is InvalidPayload && first_invalid_payload(
                request_views(requests@),
                planned->Err_0->InvalidPayload_0 as int,
            ),
            old(self).admits(*context, requests.len() as nat) && requests.len() > 0
                && all_payloads_fit(request_views(requests@)) ==> planned is Ok
                && planned->Ok_0@ == spec_dispatch(
                request_views(requests@),
                old(self).mpc_contract_id@,
                context.current_account_id@,
            ),
    {
        if !context.predecessor_account_id.same_as(&self.permitted_caller) {
            return Err(AdmissionError::Unauthorized);
        }
        match require_enough_gas(context.prepaid_gas, requests.len() as u64) {
            Ok(_) => {},
            Err(refusal) => {
                return Err(refusal);
            },
        }
        internal_request_signatures(
            requests,
            self.mpc_contract_id.clone(),
            context.current_account_id.clone(),
        )
    }

    /// Reconciles a batch with the outcomes of its calls.
    ///
    /// This is the callback of `request_signatures` and of nothing else: it
    /// is refused unless the relay itself is the caller. It is also refused
    /// unless there is one outcome for each request. Otherwise the whole
    /// batch comes back, each request beside its own result, whatever the
    /// number of failures.
    pub fn resolve_signatures(
        &self,
        context: &Context,
        requests: Vec<SignRequest>,
        promise_results: &Vec<PromiseResult>,
    ) -> (resolved: Result<Vec<(SignRequest, SignatureResult)>, ResolveError>)
        ensures
            context.predecessor_account_id@ != context.current_account_id@ ==> resolved is Err
                && resolved->Err_0 == ResolveError::Private,
            context.predecessor_account_id@ == context.current_account_id@ && requests.len()
                != promise_results.len() ==> resolved is Err && resolved->Err_0
                == ResolveError::OutcomeCount,
            context.predecessor_account_id@ == context.current_account_id@ && requests.len()
                == promise_results.len() ==> resolved is Ok && resolved->Ok_0.len()
                == requests.len() && batch_view(resolved->Ok_0@) == spec_resolve(
                request_views(requests@),
                outcome_views(promise_results@),
            ),
    {
        if !context.predecessor_account_id.same_as(&context.current_account_id) {
            return Err(ResolveError::Private);
        }
        if requests.len() != promise_results.len() {
            return Err(ResolveError::OutcomeCount);
        }
        Ok(resolve(requests, promise_results))
    }

    /// Plans the replacement of the relay's own code by `input`. Only the
    /// owner may do this, and only with code at hand.
    pub fn update_contract(&self, context: &Context, input: Option<Vec<u8>>) -> (planned: Result<
        DeployContract,
        UpgradeError,
    >)
        ensures
            context.predecessor_account_id@ != self.owner_id@ ==> planned is Err && planned->Err_0
                == UpgradeError::NotOwner,
            context.predecessor_account_id@ == self.owner_id@ && input is None ==> planned is Err
                && planned->Err_0 == UpgradeError::NoInput,
            context.predecessor_account_id@ == self.owner_id@ && input is Some ==> planned is Ok
                && planned->Ok_0.receiver@ == context.current_account_id@ && planned->Ok_0.code
                == input->Some_0,
    {
        if !context.predecessor_account_id.same_as(&self.owner_id) {
            return Err(UpgradeError::NotOwner);
        }
        match input {
            None => Err(UpgradeError::NoInput),
            Some(code) => Ok(DeployContract { receiver: context.current_account_id.clone(), code }),
        }
    }
}

} // verus!
