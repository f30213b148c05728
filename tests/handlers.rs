use std::collections::HashMap;

use jwt_simple::prelude::{Claims, Duration, ECDSAP256kKeyPairLike, ES256kKeyPair};
use thvote_gateway::common::{BackendReply, ErrorResponse, PostResult, ServiceError, VoteTokenClaim};
use thvote_gateway::context::Context;
use thvote_gateway::services::{BackendService, Route};
use thvote_gateway::submit_handler::{
    authorize, character_vote_request, getSubmitCharacterVote_impl, getVotingStatus_impl, paper_query_result,
    submitCPVote_impl, submitCharacterVote_impl, submitMusicVote_impl, submitPaperVote_impl, submitWorkVote_impl,
    verify_vote_token, CPSubmit, CPSubmitGQL, CharacterSubmit, CharacterSubmitGQL, MusicSubmit, MusicSubmitGQL,
    PaperSubmitGQL, PaperSubmitRest, SubmitMetadata, WorkSubmit, WorkSubmitGQL,
};
use thvote_gateway::token::{verify, VerificationFailure};

const VOTE_ID: &str = "thvote-2021-email-42";

fn sign(key: &ES256kKeyPair, audience: &str, vote_id: Option<&str>) -> String {
    let mut custom: HashMap<String, String> = HashMap::new();
    if let Some(id) = vote_id {
        custom.insert("vote_id".to_string(), id.to_string());
    }
    let claims = Claims::with_custom_claims(custom, Duration::from_hours(2)).with_audience(audience);
    key.sign(claims).unwrap()
}

fn context_for(key: &ES256kKeyPair) -> Context {
    Context {
        user_ip: "10.0.0.7".to_string(),
        additional_fingureprint: Some("fp-1".to_string()),
        public_key: key.public_key().to_bytes(),
    }
}

fn reimu() -> Vec<CharacterSubmit> {
    vec![CharacterSubmit { name: "Reimu".to_string(), reason: None, first: Some(true) }]
}

fn now_secs() -> u64 {
    chrono::Utc::now().timestamp() as u64
}

#[test]
fn character_vote_builds_envelope() {
    let key = ES256kKeyPair::generate();
    let ctx = context_for(&key);
    let before = chrono::Utc::now().timestamp_millis();
    let content = CharacterSubmitGQL { vote_token: sign(&key, "vote", Some(VOTE_ID)), characters: reimu() };
    let req = submitCharacterVote_impl(&ctx, content).unwrap();
    let after = chrono::Utc::now().timestamp_millis();
    assert_eq!(req.route, Route::Character);
    assert_eq!(req.route.service(), BackendService::SubmitHandler);
    assert_eq!(req.route.path(), "/v1/character/");
    assert_eq!(req.body.characters, reimu());
    assert_eq!(req.body.meta.vote_id, VOTE_ID);
    assert_eq!(req.body.meta.user_ip, "10.0.0.7");
    assert_eq!(req.body.meta.additional_fingreprint, Some("fp-1".to_string()));
    assert!(before <= req.body.meta.created_at && req.body.meta.created_at <= after);
    let echoed = PostResult { code: 0, message: "accepted".to_string() };
    let settled = thvote_gateway::common::settle_reply(BackendReply::Success(Some(echoed.clone())));
    assert_eq!(settled, Ok(echoed));
}

#[test]
fn paper_vote_rejects_invalid_json() {
    let key = ES256kKeyPair::generate();
    let ctx = context_for(&key);
    let content = PaperSubmitGQL {
        vote_token: sign(&key, "vote", Some(VOTE_ID)),
        paper_json: "{not valid json".to_string(),
    };
    assert!(matches!(submitPaperVote_impl(&ctx, content), Err(ServiceError::InvalidContent)));
}

#[test]
fn paper_vote_passes_answers_through() {
    let key = ES256kKeyPair::generate();
    let ctx = context_for(&key);
    let content = PaperSubmitGQL {
        vote_token: sign(&key, "vote", Some(VOTE_ID)),
        paper_json: "{\"q1\": \"a\", \"q2\": [1, 2]}".to_string(),
    };
    let req = submitPaperVote_impl(&ctx, content).ok().unwrap();
    assert_eq!(req.route, Route::Work);
    assert_eq!(req.body.papers.len(), 2);
    assert_eq!(req.body.papers["q1"], serde_json::Value::String("a".to_string()));
    assert_eq!(req.body.meta.vote_id, VOTE_ID);
}

#[test]
fn paper_vote_with_json_array_is_invalid() {
    let key = ES256kKeyPair::generate();
    let ctx = context_for(&key);
    let content = PaperSubmitGQL { vote_token: sign(&key, "vote", Some(VOTE_ID)), paper_json: "[1, 2]".to_string() };
    assert!(matches!(submitPaperVote_impl(&ctx, content), Err(ServiceError::InvalidContent)));
}

#[test]
fn paper_vote_without_vote_id_is_forbidden_first() {
    let key = ES256kKeyPair::generate();
    let ctx = context_for(&key);
    let content = PaperSubmitGQL { vote_token: sign(&key, "vote", None), paper_json: "{not valid json".to_string() };
    assert!(matches!(submitPaperVote_impl(&ctx, content), Err(ServiceError::Forbidden)));
}

#[test]
fn rate_limited_backend_is_too_many_attempts() {
    let body = ErrorResponse {
        code: 429,
        error: "rate_limited".to_string(),
        message: "slow down".to_string(),
        detail: None,
        session_id: None,
        nickname: None,
    };
    let r = thvote_gateway::common::settle_reply::<PostResult>(BackendReply::Failure(Some(body)));
    assert_eq!(r, Err(ServiceError::TooManyAttempts));
}

#[test]
fn token_from_another_key_is_rejected() {
    let key = ES256kKeyPair::generate();
    let other = ES256kKeyPair::generate();
    let ctx = context_for(&key);
    let token = sign(&other, "vote", Some(VOTE_ID));
    assert_eq!(verify(&ctx.public_key, &token, "vote", now_secs()), Err(VerificationFailure));
    let content = CharacterSubmitGQL { vote_token: token, characters: reimu() };
    assert!(matches!(submitCharacterVote_impl(&ctx, content), Err(ServiceError::Forbidden)));
}

#[test]
fn token_with_other_audience_is_forbidden() {
    let key = ES256kKeyPair::generate();
    let ctx = context_for(&key);
    let content = MusicSubmitGQL {
        vote_token: sign(&key, "login", Some(VOTE_ID)),
        musics: vec![MusicSubmit { name: "Bad Apple".to_string(), reason: None, first: None }],
    };
    assert!(matches!(submitMusicVote_impl(&ctx, content), Err(ServiceError::Forbidden)));
}

#[test]
fn token_without_vote_id_is_forbidden() {
    let key = ES256kKeyPair::generate();
    let ctx = context_for(&key);
    let token = sign(&key, "vote", None);
    let claim = verify(&ctx.public_key, &token, "vote", now_secs()).unwrap();
    assert_eq!(claim.vote_id, None);
    let content = WorkSubmitGQL {
        vote_token: token,
        work: vec![WorkSubmit { name: "EoSD".to_string(), reason: None }],
    };
    assert!(matches!(submitWorkVote_impl(&ctx, content), Err(ServiceError::Forbidden)));
}

#[test]
fn garbage_token_is_forbidden() {
    let key = ES256kKeyPair::generate();
    let ctx = context_for(&key);
    let content = CPSubmitGQL { vote_token: "not-a-token".to_string(), cps: vec![] };
    assert!(matches!(submitCPVote_impl(&ctx, content), Err(ServiceError::Forbidden)));
}

#[test]
fn verify_returns_claim() {
    let key = ES256kKeyPair::generate();
    let token = sign(&key, "vote", Some(VOTE_ID));
    let claim = verify(&key.public_key().to_bytes(), &token, "vote", now_secs()).unwrap();
    assert_eq!(claim, VoteTokenClaim { vote_id: Some(VOTE_ID.to_string()) });
}

#[test]
fn verify_rejects_expired_token() {
    let key = ES256kKeyPair::generate();
    let token = sign(&key, "vote", Some(VOTE_ID));
    let later = now_secs() + 3 * 3600;
    assert_eq!(verify(&key.public_key().to_bytes(), &token, "vote", later), Err(VerificationFailure));
}

#[test]
fn verify_rejects_time_outside_window() {
    let key = ES256kKeyPair::generate();
    let token = sign(&key, "vote", Some(VOTE_ID));
    assert_eq!(verify(&key.public_key().to_bytes(), &token, "vote", 10), Err(VerificationFailure));
}

#[test]
fn verify_rejects_malformed_key() {
    let key = ES256kKeyPair::generate();
    let token = sign(&key, "vote", Some(VOTE_ID));
    assert_eq!(verify(&vec![1, 2, 3], &token, "vote", now_secs()), Err(VerificationFailure));
}

#[test]
fn verify_vote_token_uses_server_millis() {
    let key = ES256kKeyPair::generate();
    let ctx = context_for(&key);
    let token = sign(&key, "vote", Some(VOTE_ID));
    let now_ms = chrono::Utc::now().timestamp_millis();
    assert!(verify_vote_token(&ctx, &token, now_ms).is_ok());
    assert!(verify_vote_token(&ctx, &token, -5).is_err());
}

#[test]
fn authorize_needs_vote_id() {
    assert_eq!(authorize(Ok(VoteTokenClaim { vote_id: Some("v".to_string()) })), Ok("v".to_string()));
    assert_eq!(authorize(Ok(VoteTokenClaim { vote_id: None })), Err(ServiceError::Forbidden));
    assert_eq!(authorize(Err(VerificationFailure)), Err(ServiceError::Forbidden));
}

#[test]
fn created_at_is_the_server_time_given() {
    let key = ES256kKeyPair::generate();
    let ctx = context_for(&key);
    let claim = Ok(VoteTokenClaim { vote_id: Some(VOTE_ID.to_string()) });
    let req = character_vote_request(&ctx, reimu(), claim, 1_633_000_000_000).unwrap();
    assert_eq!(
        req.body.meta,
        SubmitMetadata {
            vote_id: VOTE_ID.to_string(),
            created_at: 1_633_000_000_000,
            user_ip: "10.0.0.7".to_string(),
            additional_fingreprint: Some("fp-1".to_string()),
        }
    );
}

#[test]
fn same_envelope_planned_twice_gives_two_requests() {
    let key = ES256kKeyPair::generate();
    let ctx = context_for(&key);
    let token = sign(&key, "vote", Some(VOTE_ID));
    let first = submitCharacterVote_impl(&ctx, CharacterSubmitGQL { vote_token: token.clone(), characters: reimu() })
        .unwrap();
    let second = submitCharacterVote_impl(&ctx, CharacterSubmitGQL { vote_token: token, characters: reimu() })
        .unwrap();
    assert_eq!(first.route, second.route);
    assert_eq!(first.body.characters, second.body.characters);
    assert_eq!(first.body.meta.vote_id, second.body.meta.vote_id);
}

#[test]
fn queries_carry_vote_id() {
    let key = ES256kKeyPair::generate();
    let ctx = context_for(&key);
    let req = getSubmitCharacterVote_impl(&ctx, sign(&key, "vote", Some(VOTE_ID))).unwrap();
    assert_eq!(req.route, Route::GetCharacter);
    assert_eq!(req.body.vote_id, VOTE_ID);
    let req = getVotingStatus_impl(&ctx, sign(&key, "vote", Some(VOTE_ID))).unwrap();
    assert_eq!(req.route.path(), "/v1/voting-status/");
    assert!(matches!(getVotingStatus_impl(&ctx, sign(&key, "vote", None)), Err(ServiceError::Forbidden)));
}

#[test]
fn cp_vote_builds_envelope() {
    let key = ES256kKeyPair::generate();
    let ctx = context_for(&key);
    let cps = vec![CPSubmit {
        name_a: "Reimu".to_string(),
        name_b: "Marisa".to_string(),
        name_c: None,
        active: Some("Marisa".to_string()),
        first: Some(true),
    }];
    let req = submitCPVote_impl(&ctx, CPSubmitGQL { vote_token: sign(&key, "vote", Some(VOTE_ID)), cps: cps.clone() })
        .unwrap();
    assert_eq!(req.route.path(), "/v1/cp/");
    assert_eq!(req.body.cps, cps);
}

#[test]
fn paper_query_writes_answers_as_text() {
    let mut papers = serde_json::Map::new();
    papers.insert("q1".to_string(), serde_json::Value::String("a".to_string()));
    let meta = SubmitMetadata {
        vote_id: VOTE_ID.to_string(),
        created_at: 0,
        user_ip: "1.2.3.4".to_string(),
        additional_fingreprint: None,
    };
    let r = paper_query_result(BackendReply::Success(Some(PaperSubmitRest { papers, meta }))).unwrap();
    assert_eq!(r.papers_json, "{\"q1\":\"a\"}");
    assert!(matches!(paper_query_result(BackendReply::TransportFailed), Err(ServiceError::Unknown)));
}

#[test]
fn paper_query_answers_round_trip() {
    let mut papers = serde_json::Map::new();
    papers.insert("q1".to_string(), serde_json::Value::String("a".to_string()));
    papers.insert("q2".to_string(), serde_json::Value::Array(vec![serde_json::Value::Bool(true)]));
    let meta = SubmitMetadata {
        vote_id: VOTE_ID.to_string(),
        created_at: 0,
        user_ip: "1.2.3.4".to_string(),
        additional_fingreprint: None,
    };
    let r = paper_query_result(BackendReply::Success(Some(PaperSubmitRest { papers: papers.clone(), meta }))).unwrap();
    let back: serde_json::Map<String, serde_json::Value> = serde_json::from_str(&r.papers_json).unwrap();
    assert_eq!(back, papers);
    let failed = ErrorResponse {
        code: 403,
        error: "forbidden".to_string(),
        message: "no".to_string(),
        detail: None,
        session_id: None,
        nickname: None,
    };
    assert!(matches!(paper_query_result(BackendReply::Failure(Some(failed))), Err(ServiceError::Forbidden)));
}
