use signature_relay::contract::Contract;
use signature_relay::error::ResolveError;
use signature_relay::reconcile::{
    classify, pair_results, resolve, summarize, SignatureResult, Summary,
};
use signature_relay::types::{AccountId, Context, PromiseResult, SignRequest, SignatureResponse};

fn named(name: &str) -> AccountId {
    AccountId::new(name.to_string())
}

fn service() -> Contract {
    Contract::new(named("v1.signer"), named("owner.near"), named("caller.near"))
}

fn called_by(predecessor: &str) -> Context {
    Context {
        current_account_id: named("relay.near"),
        predecessor_account_id: named(predecessor),
        prepaid_gas: 0,
    }
}

fn digest(tag: u8) -> SignRequest {
    SignRequest { payload: vec![tag; 32], path: format!("path-{}", tag), key_version: u32::from(tag) }
}

fn signature(tag: u8) -> SignatureResponse {
    SignatureResponse { big_r: format!("02{:062X}", tag), s: format!("{:064X}", tag), recovery_id: tag % 2 }
}

fn answer(tag: u8) -> PromiseResult {
    let response = signature(tag);
    let json = format!(
        "{{\"big_r\":{{\"affine_point\":\"{}\"}},\"s\":{{\"scalar\":\"{}\"}},\"recovery_id\":{}}}",
        response.big_r, response.s, response.recovery_id
    );
    PromiseResult::Successful(json.into_bytes())
}

#[test]
fn answer_of_the_service_is_read_field_by_field() {
    let json = br#"{"big_r":{"affine_point":"03D5"},"s":{"scalar":"5AE9"},"recovery_id":1}"#;
    let result = classify(&PromiseResult::Successful(json.to_vec()));
    let expected =
        SignatureResponse { big_r: "03D5".to_string(), s: "5AE9".to_string(), recovery_id: 1 };
    assert_eq!(result, Ok(expected));
}

#[test]
fn answer_is_read_whatever_the_order_of_its_fields() {
    let json = br#" { "recovery_id" : 0 , "s" : { "scalar" : "AB" } , "big_r" : { "affine_point" : "02" } } "#;
    let result = classify(&PromiseResult::Successful(json.to_vec()));
    let expected = SignatureResponse { big_r: "02".to_string(), s: "AB".to_string(), recovery_id: 0 };
    assert_eq!(result, Ok(expected));
}

#[test]
fn failed_call_is_a_failure() {
    assert_eq!(classify(&PromiseResult::Failed), Err(()));
}

#[test]
fn unreadable_answer_is_a_failure() {
    let unreadable: [&[u8]; 8] = [
        b"",
        b"not json",
        b"null",
        b"{}",
        br#"{"big_r":{"affine_point":"03D5"},"s":{"scalar":"5AE9"}}"#,
        br#"{"big_r":{"affine_point":"03D5"},"s":{"scalar":"5AE9"},"recovery_id":256}"#,
        br#"{"big_r":"03D5","s":"5AE9","recovery_id":1}"#,
        br#"{"big_r":{"affine_point":"03D5"},"s":{"scalar":"5AE9"},"recovery_id":1} trailing"#,
    ];
    for bytes in unreadable {
        assert_eq!(classify(&PromiseResult::Successful(bytes.to_vec())), Err(()));
    }
}

#[test]
fn pairs_are_made_by_position() {
    let requests = vec![digest(0), digest(1), digest(2)];
    let results: Vec<SignatureResult> = vec![Ok(signature(0)), Err(()), Ok(signature(2))];
    let batch = pair_results(requests, results);
    assert_eq!(
        batch,
        vec![(digest(0), Ok(signature(0))), (digest(1), Err(())), (digest(2), Ok(signature(2)))]
    );
}

#[test]
fn pairing_nothing_gives_nothing() {
    assert_eq!(pair_results(vec![], vec![]), vec![]);
    assert_eq!(resolve(vec![], &vec![]), vec![]);
}

#[test]
fn middle_call_times_out() {
    let requests = vec![digest(0), digest(1), digest(2)];
    let outcomes = vec![answer(0), PromiseResult::Failed, answer(2)];
    let resolved = service().resolve_signatures(&called_by("relay.near"), requests, &outcomes);
    let batch = resolved.unwrap();
    assert_eq!(
        batch,
        vec![(digest(0), Ok(signature(0))), (digest(1), Err(())), (digest(2), Ok(signature(2)))]
    );
    assert_eq!(summarize(&batch), Summary { total: 3, successful: 2, failed: 1 });
}

#[test]
fn every_call_succeeds() {
    let requests: Vec<SignRequest> = (0..5).map(digest).collect();
    let outcomes: Vec<PromiseResult> = (0..5).map(answer).collect();
    let batch = resolve(requests, &outcomes);
    assert_eq!(batch.len(), 5);
    for (tag, entry) in (0u8..5).zip(batch.iter()) {
        assert_eq!(entry, &(digest(tag), Ok(signature(tag))));
    }
    assert_eq!(summarize(&batch), Summary { total: 5, successful: 5, failed: 0 });
}

#[test]
fn every_call_fails() {
    let requests: Vec<SignRequest> = (0..4).map(digest).collect();
    let outcomes: Vec<PromiseResult> = (0..4).map(|_| PromiseResult::Failed).collect();
    let batch = resolve(requests, &outcomes);
    assert_eq!(batch, (0..4).map(|tag| (digest(tag), Err(()))).collect::<Vec<_>>());
    assert_eq!(summarize(&batch), Summary { total: 4, successful: 0, failed: 4 });
}

#[test]
fn one_failure_leaves_the_other_entries_alone() {
    for k in 0..4usize {
        let requests: Vec<SignRequest> = (0..4).map(digest).collect();
        let mut outcomes: Vec<PromiseResult> = (0..4).map(answer).collect();
        let mut expected = resolve(requests.clone(), &outcomes);
        outcomes[k] = PromiseResult::Failed;
        expected[k].1 = Err(());
        assert_eq!(resolve(requests, &outcomes), expected);
    }
}

#[test]
fn unreadable_answer_fails_its_own_request_only() {
    let requests = vec![digest(0), digest(1)];
    let outcomes = vec![PromiseResult::Successful(b"\"oops\"".to_vec()), answer(1)];
    let batch = resolve(requests, &outcomes);
    assert_eq!(batch, vec![(digest(0), Err(())), (digest(1), Ok(signature(1)))]);
    assert_eq!(summarize(&batch), Summary { total: 2, successful: 1, failed: 1 });
}

#[test]
fn reordered_batch_gives_reordered_results() {
    let order = [2usize, 0, 3, 1];
    let requests: Vec<SignRequest> = (0..4).map(digest).collect();
    let outcomes = vec![answer(0), PromiseResult::Failed, answer(2), answer(3)];
    let straight = resolve(requests.clone(), &outcomes);
    let shuffled_requests: Vec<SignRequest> = order.iter().map(|&i| requests[i].clone()).collect();
    let shuffled_outcomes: Vec<PromiseResult> = order
        .iter()
        .map(|&i| match &outcomes[i] {
            PromiseResult::Successful(data) => PromiseResult::Successful(data.clone()),
            PromiseResult::Failed => PromiseResult::Failed,
        })
        .collect();
    let shuffled = resolve(shuffled_requests, &shuffled_outcomes);
    for (position, &i) in order.iter().enumerate() {
        assert_eq!(shuffled[position], straight[i]);
        assert_eq!(shuffled[position].0, requests[i]);
    }
}

#[test]
fn summary_of_nothing_is_all_zero() {
    assert_eq!(summarize(&vec![]), Summary { total: 0, successful: 0, failed: 0 });
}

#[test]
fn only_the_relay_itself_may_resolve() {
    for stranger in ["caller.near", "owner.near", "v1.signer", "stranger.near"] {
        let resolved =
            service().resolve_signatures(&called_by(stranger), vec![digest(0)], &vec![answer(0)]);
        assert_eq!(resolved, Err(ResolveError::Private));
    }
    let resolved =
        service().resolve_signatures(&called_by("relay.near"), vec![digest(0)], &vec![answer(0)]);
    assert_eq!(resolved, Ok(vec![(digest(0), Ok(signature(0)))]));
}

#[test]
fn outcomes_must_match_the_requests_in_number() {
    let resolved =
        service().resolve_signatures(&called_by("relay.near"), vec![digest(0), digest(1)], &vec![answer(0)]);
    assert_eq!(resolved, Err(ResolveError::OutcomeCount));
    let resolved = service().resolve_signatures(&called_by("relay.near"), vec![], &vec![answer(0)]);
    assert_eq!(resolved, Err(ResolveError::OutcomeCount));
    let resolved = service().resolve_signatures(&called_by("stranger.near"), vec![], &vec![answer(0)]);
    assert_eq!(resolved, Err(ResolveError::Private));
}

#[test]
fn resolve_errors_have_their_messages() {
    assert_eq!(ResolveError::Private.message(), "Method resolve_signatures is private");
    assert_eq!(
        ResolveError::OutcomeCount.message(),
        "Expected one promise result for each request"
    );
}
