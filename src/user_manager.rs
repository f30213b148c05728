//! The user-management handlers: login, verification codes and account
//! updates. They verify nothing locally; each builds the body for the
//! user-manager service, which checks credentials and tokens itself.
use vstd::prelude::*;
use crate::context::{Context, clone_opt_string};
use crate::services::{BackendRequest, Route};

verus! {

/// What the gateway tells the user manager about the caller of an event.
#[derive(Debug, Clone, PartialEq, Eq)]
pub struct UserEventMeta {
    pub user_ip: String,
    pub additional_fingureprint: Option<String>,
}

#[derive(Debug, Clone, PartialEq, Eq)]
pub struct SendPhoneVerifyCodeRequest {
    pub phone: String,
    pub meta: UserEventMeta,
}

#[derive(Debug, Clone, PartialEq, Eq)]
pub struct SendEmailVerifyCodeRequest {
    pub email: String,
    pub meta: UserEventMeta,
}

#[derive(Debug, Clone, PartialEq, Eq)]
pub struct EmailLoginInputsForExistingVoters {
    pub email: String,
    pub password: String,
    pub meta: UserEventMeta,
}

#[derive(Debug, Clone, PartialEq, Eq)]
pub struct EmailLoginInputs {
    pub email: String,
    pub nickname: Option<String>,
    pub verify_code: String,
    pub meta: UserEventMeta,
}

#[derive(Debug, Clone, PartialEq, Eq)]
pub struct PhoneLoginInputs {
    pub phone: String,
    pub nickname: Option<String>,
    pub verify_code: String,
    pub meta: UserEventMeta,
}

/// A voter's account as the user manager reports it.
#[derive(Debug, Clone, PartialEq, Eq)]
pub struct Voter {
    pub username: Option<String>,
    pub pfp: Option<String>,
    pub password: bool,
    pub phone: Option<String>,
    pub email: Option<String>,
    pub thbwiki: bool,
    pub patchyvideo: bool,
}

/// The answer of a successful login.
#[derive(Debug, Clone, PartialEq, Eq)]
pub struct LoginResults {
    pub user: Voter,
    pub vote_token: String,
    pub session_token: String,
}

#[derive(Debug, Clone, PartialEq, Eq)]
pub struct UpdateEmailInputs {
    pub user_token: String,
    pub email: String,
    pub verify_code: String,
    pub meta: UserEventMeta,
}

#[derive(Debug, Clone, PartialEq, Eq)]
pub struct UpdatePhoneInputs {
    pub user_token: String,
    pub phone: String,
    pub verify_code: String,
    pub meta: UserEventMeta,
}

#[derive(Debug, Clone, PartialEq, Eq)]
pub struct UpdatePasswordInputs {
    pub user_token: String,
    pub old_password: Option<String>,
    pub new_password: String,
    pub meta: UserEventMeta,
}

#[derive(Debug, Clone, PartialEq, Eq)]
pub struct TokenStatusInputs {
    pub user_token: String,
}

#[derive(Debug, Clone, PartialEq, Eq)]
pub struct TokenStatusOutput {
    pub status: String,
}

/// The body of an account creation.
#[derive(Debug, Clone, PartialEq, Eq)]
pub struct UserCreateRest {
    pub email: String,
}

/// Whether `meta` describes the caller of `context`.
pub open spec fn describes_caller(meta: UserEventMeta, context: Context) -> bool {
    meta.user_ip == context.user_ip && meta.additional_fingureprint == context.additional_fingureprint
}

/// The caller's address and fingerprint, copied from the context.
pub fn user_event_meta(context: &Context) -> (r: UserEventMeta)
    ensures
        describes_caller(r, *context),
{
    UserEventMeta {
        user_ip: context.user_ip.clone(),
        additional_fingureprint: clone_opt_string(&context.additional_fingureprint),
    }
}

/// Login of an existing voter with email and password.
pub fn login_email_password(context: &Context, email: String, password: String) -> (r: BackendRequest<
    EmailLoginInputsForExistingVoters,
>)
    ensures
        r.route == Route::LoginEmailPassword,
        r.body.email == email,
        r.body.password == password,
        describes_caller(r.body.meta, *context),
{
    let meta = user_event_meta(context);
    BackendRequest { route: Route::LoginEmailPassword, body: EmailLoginInputsForExistingVoters { email, password, meta } }
}

/// Login with an email verification code.
pub fn login_email(context: &Context, email: String, nickname: Option<String>, verify_code: String) -> (r: BackendRequest<
    EmailLoginInputs,
>)
    ensures
        r.route == Route::LoginEmail,
        r.body.email == email,
        r.body.nickname == nickname,
        r.body.verify_code == verify_code,
        describes_caller(r.body.meta, *context),
{
    let meta = user_event_meta(context);
    BackendRequest { route: Route::LoginEmail, body: EmailLoginInputs { email, nickname, verify_code, meta } }
}

/// Asks for a verification code to be mailed.
pub fn request_email_code(context: &Context, email: String) -> (r: BackendRequest<SendEmailVerifyCodeRequest>)
    ensures
        r.route == Route::SendEmailCode,
        r.body.email == email,
        describes_caller(r.body.meta, *context),
{
    let meta = user_event_meta(context);
    BackendRequest { route: Route::SendEmailCode, body: SendEmailVerifyCodeRequest { email, meta } }
}

/// Login with a phone verification code.
pub fn login_phone(context: &Context, phone: String, nickname: Option<String>, verify_code: String) -> (r: BackendRequest<
    PhoneLoginInputs,
>)
    ensures
        r.route == Route::LoginPhone,
        r.body.phone == phone,
        r.body.nickname == nickname,
        r.body.verify_code == verify_code,
        describes_caller(r.body.meta, *context),
{
    let meta = user_event_meta(context);
    BackendRequest { route: Route::LoginPhone, body: PhoneLoginInputs { phone, nickname, verify_code, meta } }
}

/// Asks for a verification code to be sent by SMS.
pub fn request_phone_code(context: &Context, phone: String) -> (r: BackendRequest<SendPhoneVerifyCodeRequest>)
    ensures
        r.route == Route::SendSmsCode,
        r.body.phone == phone,
        describes_caller(r.body.meta, *context),
{
    let meta = user_event_meta(context);
    BackendRequest { route: Route::SendSmsCode, body: SendPhoneVerifyCodeRequest { phone, meta } }
}

/// Changes the email of the account that `user_token` identifies.
pub fn update_email(context: &Context, user_token: String, email: String, verify_code: String) -> (r: BackendRequest<
    UpdateEmailInputs,
>)
    ensures
        r.route == Route::UpdateEmail,
        r.body.user_token == user_token,
        r.body.email == email,
        r.body.verify_code == verify_code,
        describes_caller(r.body.meta, *context),
{
    let meta = user_event_meta(context);
    BackendRequest { route: Route::UpdateEmail, body: UpdateEmailInputs { user_token, email, verify_code, meta } }
}

/// Changes the phone of the account that `user_token` identifies.
pub fn update_phone(context: &Context, user_token: String, phone: String, verify_code: String) -> (r: BackendRequest<
    UpdatePhoneInputs,
>)
    ensures
        r.route == Route::UpdatePhone,
        r.body.user_token == user_token,
        r.body.phone == phone,
        r.body.verify_code == verify_code,
        describes_caller(r.body.meta, *context),
{
    let meta = user_event_meta(context);
    BackendRequest { route: Route::UpdatePhone, body: UpdatePhoneInputs { user_token, phone, verify_code, meta } }
}

/// Changes the password of the account that `user_token` identifies.
pub fn update_password(
    context: &Context,
    user_token: String,
    old_password: Option<String>,
    new_password: String,
) -> (r: BackendRequest<UpdatePasswordInputs>)
    ensures
        r.route == Route::UpdatePassword,
        r.body.user_token == user_token,
        r.body.old_password == old_password,
        r.body.new_password == new_password,
        describes_caller(r.body.meta, *context),
{
    let meta = user_event_meta(context);
    BackendRequest {
        route: Route::UpdatePassword,
        body: UpdatePasswordInputs { user_token, old_password, new_password, meta },
    }
}

/// Asks whether `user_token` is still valid.
pub fn user_token_status(user_token: String) -> (r: BackendRequest<TokenStatusInputs>)
    ensures
        r.route == Route::UserTokenStatus,
        r.body.user_token == user_token,
{
    BackendRequest { route: Route::UserTokenStatus, body: TokenStatusInputs { user_token } }
}

} // verus!
