//! The vote submission and query handlers: each verifies the caller's vote
//! token, and only then builds the envelope for the submit-handler service.
use vstd::prelude::*;
use crate::common::{ServiceError, VoteTokenClaim, BackendReply, reply_outcome, settle_reply};
use crate::context::{Context, clone_opt_string};
use crate::json::{is_json_object_text, json_text_of, parse_json_object, json_object_to_text};
use crate::services::{BackendRequest, Route};
use crate::token::{VerificationFailure, opt_view, verified_claim, verify, server_clock_millis};

verus! {

// ------------------------------------------------
// Envelopes sent to the submit-handler service
// ------------------------------------------------

/// Request metadata stamped on every submission by the gateway itself.
#[derive(Debug, Clone, PartialEq, Eq)]
pub struct SubmitMetadata {
    /// Vote identifier, of the form `thvote-{YYYY}-{phone|email}-{ID}`.
    pub vote_id: String,
    /// Submission time on the server clock, in milliseconds since the epoch.
    pub created_at: i64,
    /// The caller's address.
    pub user_ip: String,
    /// An optional device fingerprint of the caller.
    pub additional_fingreprint: Option<String>,
}

#[derive(Debug, Clone, PartialEq, Eq)]
pub struct CharacterSubmitRest {
    pub characters: Vec<CharacterSubmit>,
    pub meta: SubmitMetadata,
}

#[derive(Debug, Clone, PartialEq, Eq)]
pub struct CharacterSubmitRestQuery {
    pub characters: Vec<CharacterSubmitQuery>,
}

#[derive(Debug, Clone, PartialEq, Eq)]
pub struct MusicSubmitRest {
    pub music: Vec<MusicSubmit>,
    pub meta: SubmitMetadata,
}

#[derive(Debug, Clone, PartialEq, Eq)]
pub struct MusicSubmitRestQuery {
    pub music: Vec<MusicSubmitQuery>,
}

#[derive(Debug, Clone, PartialEq, Eq)]
pub struct WorkSubmitRest {
    pub works: Vec<WorkSubmit>,
    pub meta: SubmitMetadata,
}

#[derive(Debug, Clone, PartialEq, Eq)]
pub struct CPSubmitRest {
    pub cps: Vec<CPSubmit>,
    pub meta: SubmitMetadata,
}

#[derive(Debug, Clone, PartialEq, Eq)]
pub struct CPSubmitRestQuery {
    pub cps: Vec<CPSubmitQuery>,
}

pub struct PaperSubmitRest {
    /// The answers, a JSON object passed through unread.
    pub papers: serde_json::Map<String, serde_json::Value>,
    pub meta: SubmitMetadata,
}

#[derive(Debug, Clone, PartialEq, Eq)]
pub struct PaperSubmitRestQuery {
    pub papers_json: String,
}

/// The body of every query: whose submissions to look up.
#[derive(Debug, Clone, PartialEq, Eq)]
pub struct QuerySubmitRest {
    pub vote_id: String,
}

/// Which parts of the vote a voter has completed.
#[derive(Debug, Clone, Copy, PartialEq, Eq)]
pub struct VotingStatus {
    pub characters: bool,
    pub musics: bool,
    pub cps: bool,
    pub papers: bool,
}

// ------------------------------------------------
// Client input
// ------------------------------------------------

/// One character vote.
#[derive(Debug, Clone, PartialEq, Eq)]
pub struct CharacterSubmit {
    pub name: String,
    pub reason: Option<String>,
    /// Whether this is the voter's favourite.
    pub first: Option<bool>,
}

#[derive(Debug, Clone, PartialEq, Eq)]
pub struct CharacterSubmitQuery {
    pub name: String,
    pub reason: Option<String>,
    pub first: Option<bool>,
}

#[derive(Debug, Clone, PartialEq, Eq)]
pub struct CharacterSubmitGQL {
    pub vote_token: String,
    pub characters: Vec<CharacterSubmit>,
}

/// One couple vote: two or three characters.
#[derive(Debug, Clone, PartialEq, Eq)]
pub struct CPSubmit {
    pub name_a: String,
    pub name_b: String,
    pub name_c: Option<String>,
    /// The active one of the couple, if any.
    pub active: Option<String>,
    pub first: Option<bool>,
}

#[derive(Debug, Clone, PartialEq, Eq)]
pub struct CPSubmitQuery {
    pub name_a: String,
    pub name_b: String,
    pub name_c: Option<String>,
    pub active: Option<String>,
    pub first: Option<bool>,
}

#[derive(Debug, Clone, PartialEq, Eq)]
pub struct CPSubmitGQL {
    pub vote_token: String,
    pub cps: Vec<CPSubmit>,
}

/// One music vote.
#[derive(Debug, Clone, PartialEq, Eq)]
pub struct MusicSubmit {
    pub name: String,
    pub reason: Option<String>,
    pub first: Option<bool>,
}

#[derive(Debug, Clone, PartialEq, Eq)]
pub struct MusicSubmitQuery {
    pub name: String,
    pub reason: Option<String>,
    pub first: Option<bool>,
}

#[derive(Debug, Clone, PartialEq, Eq)]
pub struct MusicSubmitGQL {
    pub vote_token: String,
    pub musics: Vec<MusicSubmit>,
}

/// One work vote.
#[derive(Debug, Clone, PartialEq, Eq)]
pub struct WorkSubmit {
    pub name: String,
    pub reason: Option<String>,
}

#[derive(Debug, Clone, PartialEq, Eq)]
pub struct WorkSubmitGQL {
    pub vote_token: String,
    pub work: Vec<WorkSubmit>,
}

/// One answer of the questionnaire.
#[derive(Debug, Clone, PartialEq, Eq)]
pub struct PaperSubmit {
    pub id: String,
    pub answer: String,
}

#[derive(Debug, Clone, PartialEq, Eq)]
pub struct PaperSubmitQuery {
    pub id: String,
    pub answer: String,
}

#[derive(Debug, Clone, PartialEq, Eq)]
pub struct PaperSubmitGQL {
    pub vote_token: String,
    /// The questionnaire's answers as a JSON object text.
    pub paper_json: String,
}

// ------------------------------------------------
// Authorisation and metadata
// ------------------------------------------------

/// The audience that vote tokens must be scoped to.
pub open spec fn vote_audience() -> Seq<char> {
    "vote"@
}

/// The vote identifier that a verification outcome admits: none when the
/// token was rejected or its claim carries no identifier.
pub open spec fn admitted_vote_id(verdict: Result<VoteTokenClaim, VerificationFailure>) -> Option<Seq<char>> {
    match verdict {
        Ok(claim) => opt_view(claim.vote_id),
        Err(_) => None,
    }
}

/// The vote identifier that the token admits when verified at `now_ms`.
pub open spec fn token_vote_id(public_key: Seq<u8>, token: Seq<char>, now_ms: i64) -> Option<Seq<char>> {
    match verified_claim(public_key, token, vote_audience(), secs_of_millis(now_ms)) {
        Some(Some(id)) => Some(id),
        _ => None,
    }
}

/// Whole seconds of a time in milliseconds; times before the epoch count as 0.
pub open spec fn secs_of_millis(ms: i64) -> u64 {
    if ms < 0 {
        0
    } else {
        (ms / 1000) as u64
    }
}

fn millis_to_secs(ms: i64) -> (r: u64)
    ensures
        r == secs_of_millis(ms),
{
    if ms < 0 {
        0
    } else {
        (ms / 1000) as u64
    }
}

/// Verifies a vote token with the audience `vote` at the server time `now_ms`.
pub fn verify_vote_token(context: &Context, token: &str, now_ms: i64) -> (r: Result<VoteTokenClaim, VerificationFailure>)
    ensures
        admitted_vote_id(r) == token_vote_id(context.public_key@, token@, now_ms),
{
    let r = verify(&context.public_key, token, "vote", millis_to_secs(now_ms));
    r
}

/// Steps two and three of every submission: a rejected token, or a trusted
/// one without a vote identifier, is `Forbidden`.
pub fn authorize(verdict: Result<VoteTokenClaim, VerificationFailure>) -> (r: Result<String, ServiceError>)
    ensures
        match admitted_vote_id(verdict) {
            Some(id) => r matches Ok(s) && s@ == id,
            None => r == Err::<String, ServiceError>(ServiceError::Forbidden),
        },
{
    match verdict {
        Ok(claim) => match claim.vote_id {
            Some(id) => Ok(id),
            None => Err(ServiceError::Forbidden),
        },
        Err(_) => Err(ServiceError::Forbidden),
    }
}

/// Whether `meta` is the metadata of vote `vote_id` stamped at `created_at`
/// for the caller of `context`.
pub open spec fn stamped(meta: SubmitMetadata, vote_id: Seq<char>, context: Context, created_at: i64) -> bool {
    &&& meta.vote_id@ == vote_id
    &&& meta.created_at == created_at
    &&& meta.user_ip == context.user_ip
    &&& meta.additional_fingreprint == context.additional_fingureprint
}

/// The metadata of vote `vote_id`, stamped with the server time `created_at`
/// and the caller's address and fingerprint.
pub fn submit_metadata_at(vote_id: &str, context: &Context, created_at: i64) -> (r: SubmitMetadata)
    ensures
        stamped(r, vote_id@, *context, created_at),
{
    SubmitMetadata {
        vote_id: vote_id.to_owned(),
        created_at,
        user_ip: context.user_ip.clone(),
        additional_fingreprint: clone_opt_string(&context.additional_fingureprint),
    }
}

/// The metadata of vote `vote_id`, stamped with the server clock's current
/// time.
pub fn generate_submit_metadata(vote_id: &str, context: &Context) -> (r: SubmitMetadata)
    ensures
        stamped(r, vote_id@, *context, r.created_at),
{
    submit_metadata_at(vote_id, context, server_clock_millis())
}

// ------------------------------------------------
// Submissions
// ------------------------------------------------

/// Whether `r` is what a submission of the vote `vote_id` plans: `Forbidden`
/// without an identifier, else one request on `route` whose body `accepted`
/// approves for that identifier.
pub open spec fn submission_planned<B>(
    r: Result<BackendRequest<B>, ServiceError>,
    route: Route,
    vote_id: Option<Seq<char>>,
    accepted: spec_fn(B, Seq<char>) -> bool,
) -> bool {
    match vote_id {
        None => r == Err::<BackendRequest<B>, ServiceError>(ServiceError::Forbidden),
        Some(id) => r matches Ok(q) && q.route == route && accepted(q.body, id),
    }
}

pub open spec fn character_planned(
    r: Result<BackendRequest<CharacterSubmitRest>, ServiceError>,
    context: Context,
    characters: Vec<CharacterSubmit>,
    vote_id: Option<Seq<char>>,
    created_at: i64,
) -> bool {
    submission_planned(
        r,
        Route::Character,
        vote_id,
        |b: CharacterSubmitRest, id: Seq<char>| b.characters == characters && stamped(b.meta, id, context, created_at),
    )
}

/// The character submission that the verification outcome `verdict` allows,
/// stamped at the server time `created_at`.
pub fn character_vote_request(
    context: &Context,
    characters: Vec<CharacterSubmit>,
    verdict: Result<VoteTokenClaim, VerificationFailure>,
    created_at: i64,
) -> (r: Result<BackendRequest<CharacterSubmitRest>, ServiceError>)
    ensures
        character_planned(r, *context, characters, admitted_vote_id(verdict), created_at),
{
    let vote_id = match authorize(verdict) {
        Ok(id) => id,
        Err(e) => return Err(e),
    };
    let meta = submit_metadata_at(vote_id.as_str(), context, created_at);
    Ok(BackendRequest { route: Route::Character, body: CharacterSubmitRest { characters, meta } })
}

/// Verifies the token of a character submission and plans its dispatch to
/// `/v1/character/`.
#[allow(non_snake_case)]
pub fn submitCharacterVote_impl(context: &Context, content: CharacterSubmitGQL) -> (r: Result<
    BackendRequest<CharacterSubmitRest>,
    ServiceError,
>)
    ensures
        exists|now_ms: i64|
            #[trigger] character_planned(
                r,
                *context,
                content.characters,
                token_vote_id(context.public_key@, content.vote_token@, now_ms),
                now_ms,
            ),
{
    let now_ms = server_clock_millis();
    let verdict = verify_vote_token(context, content.vote_token.as_str(), now_ms);
    let r = character_vote_request(context, content.characters, verdict, now_ms);
    assert(character_planned(r, *context, content.characters, token_vote_id(context.public_key@, content.vote_token@, now_ms), now_ms));
    r
}

pub open spec fn music_planned(
    r: Result<BackendRequest<MusicSubmitRest>, ServiceError>,
    context: Context,
    musics: Vec<MusicSubmit>,
    vote_id: Option<Seq<char>>,
    created_at: i64,
) -> bool {
    submission_planned(
        r,
        Route::Music,
        vote_id,
        |b: MusicSubmitRest, id: Seq<char>| b.music == musics && stamped(b.meta, id, context, created_at),
    )
}

/// The music submission that the verification outcome `verdict` allows,
/// stamped at the server time `created_at`.
pub fn music_vote_request(
    context: &Context,
    musics: Vec<MusicSubmit>,
    verdict: Result<VoteTokenClaim, VerificationFailure>,
    created_at: i64,
) -> (r: Result<BackendRequest<MusicSubmitRest>, ServiceError>)
    ensures
        music_planned(r, *context, musics, admitted_vote_id(verdict), created_at),
{
    let vote_id = match authorize(verdict) {
        Ok(id) => id,
        Err(e) => return Err(e),
    };
    let meta = submit_metadata_at(vote_id.as_str(), context, created_at);
    Ok(BackendRequest { route: Route::Music, body: MusicSubmitRest { music: musics, meta } })
}

/// Verifies the token of a music submission and plans its dispatch to
/// `/v1/music/`.
#[allow(non_snake_case)]
pub fn submitMusicVote_impl(context: &Context, content: MusicSubmitGQL) -> (r: Result<
    BackendRequest<MusicSubmitRest>,
    ServiceError,
>)
    ensures
        exists|now_ms: i64|
            #[trigger] music_planned(
                r,
                *context,
                content.musics,
                token_vote_id(context.public_key@, content.vote_token@, now_ms),
                now_ms,
            ),
{
    let now_ms = server_clock_millis();
    let verdict = verify_vote_token(context, content.vote_token.as_str(), now_ms);
    let r = music_vote_request(context, content.musics, verdict, now_ms);
    assert(music_planned(r, *context, content.musics, token_vote_id(context.public_key@, content.vote_token@, now_ms), now_ms));
    r
}

pub open spec fn cp_planned(
    r: Result<BackendRequest<CPSubmitRest>, ServiceError>,
    context: Context,
    cps: Vec<CPSubmit>,
    vote_id: Option<Seq<char>>,
    created_at: i64,
) -> bool {
    submission_planned(
        r,
        Route::Cp,
        vote_id,
        |b: CPSubmitRest, id: Seq<char>| b.cps == cps && stamped(b.meta, id, context, created_at),
    )
}

/// The couple submission that the verification outcome `verdict` allows,
/// stamped at the server time `created_at`.
pub fn cp_vote_request(
    context: &Context,
    cps: Vec<CPSubmit>,
    verdict: Result<VoteTokenClaim, VerificationFailure>,
    created_at: i64,
) -> (r: Result<BackendRequest<CPSubmitRest>, ServiceError>)
    ensures
        cp_planned(r, *context, cps, admitted_vote_id(verdict), created_at),
{
    let vote_id = match authorize(verdict) {
        Ok(id) => id,
        Err(e) => return Err(e),
    };
    let meta = submit_metadata_at(vote_id.as_str(), context, created_at);
    Ok(BackendRequest { route: Route::Cp, body: CPSubmitRest { cps: cps, meta } })
}

/// Verifies the token of a couple submission and plans its dispatch to
/// `/v1/cp/`.
#[allow(non_snake_case)]
pub fn submitCPVote_impl(context: &Context, content: CPSubmitGQL) -> (r: Result<
    BackendRequest<CPSubmitRest>,
    ServiceError,
>)
    ensures
        exists|now_ms: i64|
            #[trigger] cp_planned(
                r,
                *context,
                content.cps,
                token_vote_id(context.public_key@, content.vote_token@, now_ms),
                now_ms,
            ),
{
    let now_ms = server_clock_millis();
    let verdict = verify_vote_token(context, content.vote_token.as_str(), now_ms);
    let r = cp_vote_request(context, content.cps, verdict, now_ms);
    assert(cp_planned(r, *context, content.cps, token_vote_id(context.public_key@, content.vote_token@, now_ms), now_ms));
    r
}

pub open spec fn work_planned(
    r: Result<BackendRequest<WorkSubmitRest>, ServiceError>,
    context: Context,
    works: Vec<WorkSubmit>,
    vote_id: Option<Seq<char>>,
    created_at: i64,
) -> bool {
    submission_planned(
        r,
        Route::Work,
        vote_id,
        |b: WorkSubmitRest, id: Seq<char>| b.works == works && stamped(b.meta, id, context, created_at),
    )
}

/// The work submission that the verification outcome `verdict` allows,
/// stamped at the server time `created_at`.
pub fn work_vote_request(
    context: &Context,
    works: Vec<WorkSubmit>,
    verdict: Result<VoteTokenClaim, VerificationFailure>,
    created_at: i64,
) -> (r: Result<BackendRequest<WorkSubmitRest>, ServiceError>)
    ensures
        work_planned(r, *context, works, admitted_vote_id(verdict), created_at),
{
    let vote_id = match authorize(verdict) {
        Ok(id) => id,
        Err(e) => return Err(e),
    };
    let meta = submit_metadata_at(vote_id.as_str(), context, created_at);
    Ok(BackendRequest { route: Route::Work, body: WorkSubmitRest { works: works, meta } })
}

/// Verifies the token of a work submission and plans its dispatch to
/// `/v1/work/`.
#[allow(non_snake_case)]
pub fn submitWorkVote_impl(context: &Context, content: WorkSubmitGQL) -> (r: Result<
    BackendRequest<WorkSubmitRest>,
    ServiceError,
>)
    ensures
        exists|now_ms: i64|
            #[trigger] work_planned(
                r,
                *context,
                content.work,
                token_vote_id(context.public_key@, content.vote_token@, now_ms),
                now_ms,
            ),
{
    let now_ms = server_clock_millis();
    let verdict = verify_vote_token(context, content.vote_token.as_str(), now_ms);
    let r = work_vote_request(context, content.work, verdict, now_ms);
    assert(work_planned(r, *context, content.work, token_vote_id(context.public_key@, content.vote_token@, now_ms), now_ms));
    r
}

/// Whether `r` is what a paper submission plans: `Forbidden` without a vote
/// identifier, else `InvalidContent` when the answers are not a JSON object,
/// else one request on the work route, `/v1/work/`, stamped at `created_at`.
pub open spec fn paper_planned(
    r: Result<BackendRequest<PaperSubmitRest>, ServiceError>,
    context: Context,
    papers_parse: Option<serde_json::Map<String, serde_json::Value>>,
    vote_id: Option<Seq<char>>,
    created_at: i64,
) -> bool {
    match papers_parse {
        None => match vote_id {
            None => r == Err::<BackendRequest<PaperSubmitRest>, ServiceError>(ServiceError::Forbidden),
            Some(_) => r == Err::<BackendRequest<PaperSubmitRest>, ServiceError>(ServiceError::InvalidContent),
        },
        Some(papers) => submission_planned(
            r,
            Route::Work,
            vote_id,
            |b: PaperSubmitRest, id: Seq<char>| b.papers == papers && stamped(b.meta, id, context, created_at),
        ),
    }
}

/// The paper submission that the verification outcome `verdict` allows, with
/// the answers as parsed (`None`: they were not a JSON object).
pub fn paper_vote_request(
    context: &Context,
    papers: Option<serde_json::Map<String, serde_json::Value>>,
    verdict: Result<VoteTokenClaim, VerificationFailure>,
    created_at: i64,
) -> (r: Result<BackendRequest<PaperSubmitRest>, ServiceError>)
    ensures
        paper_planned(r, *context, papers, admitted_vote_id(verdict), created_at),
{
    let vote_id = match authorize(verdict) {
        Ok(id) => id,
        Err(e) => return Err(e),
    };
    let meta = submit_metadata_at(vote_id.as_str(), context, created_at);
    match papers {
        Some(papers) => Ok(BackendRequest { route: Route::Work, body: PaperSubmitRest { papers, meta } }),
        None => Err(ServiceError::InvalidContent),
    }
}

/// Whether `r` is what a paper submission of the answer text `paper_json`
/// plans, stated over whether that text is a JSON object.
pub open spec fn paper_text_planned(
    r: Result<BackendRequest<PaperSubmitRest>, ServiceError>,
    context: Context,
    paper_json: Seq<char>,
    vote_id: Option<Seq<char>>,
    created_at: i64,
) -> bool {
    match vote_id {
        None => r == Err::<BackendRequest<PaperSubmitRest>, ServiceError>(ServiceError::Forbidden),
        Some(id) => if is_json_object_text(paper_json) {
            r matches Ok(q) && q.route == Route::Work && stamped(q.body.meta, id, context, created_at)
        } else {
            r == Err::<BackendRequest<PaperSubmitRest>, ServiceError>(ServiceError::InvalidContent)
        },
    }
}

/// Verifies the token of a paper submission, parses its answers, and plans
/// the dispatch; answers that are not a JSON object are `InvalidContent`.
#[allow(non_snake_case)]
pub fn submitPaperVote_impl(context: &Context, content: PaperSubmitGQL) -> (r: Result<
    BackendRequest<PaperSubmitRest>,
    ServiceError,
>)
    ensures
        exists|now_ms: i64|
            #[trigger] paper_text_planned(
                r,
                *context,
                content.paper_json@,
                token_vote_id(context.public_key@, content.vote_token@, now_ms),
                now_ms,
            ),
{
    let now_ms = server_clock_millis();
    let verdict = verify_vote_token(context, content.vote_token.as_str(), now_ms);
    let papers = parse_json_object(content.paper_json.as_str());
    let r = paper_vote_request(context, papers, verdict, now_ms);
    assert(paper_text_planned(r, *context, content.paper_json@, token_vote_id(context.public_key@, content.vote_token@, now_ms), now_ms));
    r
}

// ------------------------------------------------
// Laws of the submission handlers
// ------------------------------------------------

/// A token that was rejected, or that is trusted but carries no vote
/// identifier, admits no vote; a submission or query planned for no vote is
/// `Forbidden` and holds no backend request, so nothing is sent.
pub proof fn lemma_unadmitted_is_forbidden<B>(
    verdict: Result<VoteTokenClaim, VerificationFailure>,
    r: Result<BackendRequest<B>, ServiceError>,
    route: Route,
    accepted: spec_fn(B, Seq<char>) -> bool,
)
    requires
        verdict is Err || verdict->Ok_0.vote_id is None,
        submission_planned(r, route, admitted_vote_id(verdict), accepted),
    ensures
        admitted_vote_id(verdict) is None,
        r == Err::<BackendRequest<B>, ServiceError>(ServiceError::Forbidden),
{
}

/// A paper submission without an admitted vote is `Forbidden` before its
/// answers are looked at, whether or not they parse.
pub proof fn lemma_paper_unadmitted_is_forbidden(
    verdict: Result<VoteTokenClaim, VerificationFailure>,
    r: Result<BackendRequest<PaperSubmitRest>, ServiceError>,
    context: Context,
    papers: Option<serde_json::Map<String, serde_json::Value>>,
    created_at: i64,
)
    requires
        verdict is Err || verdict->Ok_0.vote_id is None,
        paper_planned(r, context, papers, admitted_vote_id(verdict), created_at),
    ensures
        r == Err::<BackendRequest<PaperSubmitRest>, ServiceError>(ServiceError::Forbidden),
{
}

/// The submission time of an envelope is the server time it was planned at,
/// never a value of the client's: two character submissions planned at the
/// same time carry the same `created_at`, whatever votes they hold.
pub proof fn lemma_created_at_is_server_time(
    context: Context,
    votes1: Vec<CharacterSubmit>,
    votes2: Vec<CharacterSubmit>,
    vote_id1: Seq<char>,
    vote_id2: Seq<char>,
    created_at: i64,
    r1: Result<BackendRequest<CharacterSubmitRest>, ServiceError>,
    r2: Result<BackendRequest<CharacterSubmitRest>, ServiceError>,
)
    requires
        character_planned(r1, context, votes1, Some(vote_id1), created_at),
        character_planned(r2, context, votes2, Some(vote_id2), created_at),
    ensures
        r1 is Ok && r2 is Ok,
        r1->Ok_0.body.meta.created_at == created_at,
        r1->Ok_0.body.meta.created_at == r2->Ok_0.body.meta.created_at,
{
}

/// Planning keeps no state: the same votes, admitted for the same vote at the
/// same server time, are planned as the same request each time; a repeated
/// submission is a new request to send, never folded into an earlier one.
pub proof fn lemma_replanning_repeats_the_request(
    context: Context,
    votes: Vec<CharacterSubmit>,
    vote_id: Seq<char>,
    created_at: i64,
    r1: Result<BackendRequest<CharacterSubmitRest>, ServiceError>,
    r2: Result<BackendRequest<CharacterSubmitRest>, ServiceError>,
)
    requires
        character_planned(r1, context, votes, Some(vote_id), created_at),
        character_planned(r2, context, votes, Some(vote_id), created_at),
    ensures
        r1 is Ok && r2 is Ok,
        r1->Ok_0.route == r2->Ok_0.route,
        r1->Ok_0.body.characters == r2->Ok_0.body.characters,
        r1->Ok_0.body.meta.vote_id@ == r2->Ok_0.body.meta.vote_id@,
        r1->Ok_0.body.meta.created_at == r2->Ok_0.body.meta.created_at,
        r1->Ok_0.body.meta.user_ip == r2->Ok_0.body.meta.user_ip,
        r1->Ok_0.body.meta.additional_fingreprint == r2->Ok_0.body.meta.additional_fingreprint,
{
}

// ------------------------------------------------
// Queries
// ------------------------------------------------

pub open spec fn query_planned(
    r: Result<BackendRequest<QuerySubmitRest>, ServiceError>,
    route: Route,
    vote_id: Option<Seq<char>>,
) -> bool {
    submission_planned(r, route, vote_id, |b: QuerySubmitRest, id: Seq<char>| b.vote_id@ == id)
}

/// The lookup on `route` that the verification outcome `verdict` allows.
pub fn query_request(route: Route, verdict: Result<VoteTokenClaim, VerificationFailure>) -> (r: Result<
    BackendRequest<QuerySubmitRest>,
    ServiceError,
>)
    ensures
        query_planned(r, route, admitted_vote_id(verdict)),
{
    let vote_id = match authorize(verdict) {
        Ok(id) => id,
        Err(e) => return Err(e),
    };
    Ok(BackendRequest { route, body: QuerySubmitRest { vote_id } })
}

fn plan_query(context: &Context, vote_token: &str, route: Route) -> (r: Result<
    BackendRequest<QuerySubmitRest>,
    ServiceError,
>)
    ensures
        exists|now_ms: i64|
            #[trigger] query_planned(r, route, token_vote_id(context.public_key@, vote_token@, now_ms)),
{
    let now_ms = server_clock_millis();
    let verdict = verify_vote_token(context, vote_token, now_ms);
    let r = query_request(route, verdict);
    assert(query_planned(r, route, token_vote_id(context.public_key@, vote_token@, now_ms)));
    r
}

/// Verifies the token and plans the lookup of the caller's character submissions at
/// `/v1/get-character/`.
#[allow(non_snake_case)]
pub fn getSubmitCharacterVote_impl(context: &Context, vote_token: String) -> (r: Result<
    BackendRequest<QuerySubmitRest>,
    ServiceError,
>)
    ensures
        exists|now_ms: i64|
            #[trigger] query_planned(r, Route::GetCharacter, token_vote_id(context.public_key@, vote_token@, now_ms)),
{
    plan_query(context, vote_token.as_str(), Route::GetCharacter)
}

/// Verifies the token and plans the lookup of the caller's music submissions at
/// `/v1/get-music/`.
#[allow(non_snake_case)]
pub fn getSubmitMusicVote_impl(context: &Context, vote_token: String) -> (r: Result<
    BackendRequest<QuerySubmitRest>,
    ServiceError,
>)
    ensures
        exists|now_ms: i64|
            #[trigger] query_planned(r, Route::GetMusic, token_vote_id(context.public_key@, vote_token@, now_ms)),
{
    plan_query(context, vote_token.as_str(), Route::GetMusic)
}

/// Verifies the token and plans the lookup of the caller's couple submissions at
/// `/v1/get-cp/`.
#[allow(non_snake_case)]
pub fn getSubmitCPVote_impl(context: &Context, vote_token: String) -> (r: Result<
    BackendRequest<QuerySubmitRest>,
    ServiceError,
>)
    ensures
        exists|now_ms: i64|
            #[trigger] query_planned(r, Route::GetCp, token_vote_id(context.public_key@, vote_token@, now_ms)),
{
    plan_query(context, vote_token.as_str(), Route::GetCp)
}

/// Verifies the token and plans the lookup of the caller's paper answers at
/// `/v1/get-paper/`.
#[allow(non_snake_case)]
pub fn getSubmitPaperVote_impl(context: &Context, vote_token: String) -> (r: Result<
    BackendRequest<QuerySubmitRest>,
    ServiceError,
>)
    ensures
        exists|now_ms: i64|
            #[trigger] query_planned(r, Route::GetPaper, token_vote_id(context.public_key@, vote_token@, now_ms)),
{
    plan_query(context, vote_token.as_str(), Route::GetPaper)
}

/// Verifies the token and plans the lookup of the caller's voting progress at
/// `/v1/voting-status/`.
#[allow(non_snake_case)]
pub fn getVotingStatus_impl(context: &Context, vote_token: String) -> (r: Result<
    BackendRequest<QuerySubmitRest>,
    ServiceError,
>)
    ensures
        exists|now_ms: i64|
            #[trigger] query_planned(r, Route::VotingStatus, token_vote_id(context.public_key@, vote_token@, now_ms)),
{
    plan_query(context, vote_token.as_str(), Route::VotingStatus)
}

/// The answer of a paper lookup: the stored answers as JSON text. A failed
/// lookup keeps its error.
pub fn paper_query_result(reply: BackendReply<PaperSubmitRest>) -> (r: Result<PaperSubmitRestQuery, ServiceError>)
    ensures
        reply_outcome(reply) is Err ==> r == Err::<PaperSubmitRestQuery, ServiceError>(reply_outcome(reply)->Err_0),
        reply_outcome(reply) is Ok ==> (r is Ok && r->Ok_0.papers_json@ == json_text_of(reply_outcome(reply)->Ok_0.papers)),
{
    match settle_reply(reply) {
        Ok(stored) => match json_object_to_text(&stored.papers) {
            Some(papers_json) => Ok(PaperSubmitRestQuery { papers_json }),
            None => Err(ServiceError::Unknown),
        },
        Err(e) => Err(e),
    }
}

} // verus!
