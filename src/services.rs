//! The backend services the gateway forwards to, the fixed routes it calls on
//! them, and the outbound request that a handler hands to the transport.
use vstd::prelude::*;

verus! {

/// A logical backend service; its address is resolved by configuration
/// outside the library.
#[derive(Debug, Clone, Copy, PartialEq, Eq)]
pub enum BackendService {
    UserManager,
    SubmitHandler,
    ResultQuery,
    SubmitValidator,
}

/// The fixed backend routes the handlers call, each with its service and path.
#[derive(Debug, Clone, Copy, PartialEq, Eq)]
pub enum Route {
    LoginEmailPassword,
    LoginEmail,
    SendEmailCode,
    LoginPhone,
    SendSmsCode,
    UpdateEmail,
    UpdatePhone,
    UpdatePassword,
    UserTokenStatus,
    Character,
    Music,
    Cp,
    Work,
    GetCharacter,
    GetMusic,
    GetCp,
    GetPaper,
    VotingStatus,
}

impl Route {
    pub open spec fn service_spec(self) -> BackendService {
        match self {
            Route::LoginEmailPassword | Route::LoginEmail | Route::SendEmailCode | Route::LoginPhone
            | Route::SendSmsCode | Route::UpdateEmail | Route::UpdatePhone | Route::UpdatePassword
            | Route::UserTokenStatus => BackendService::UserManager,
            _ => BackendService::SubmitHandler,
        }
    }

    pub open spec fn path_spec(self) -> Seq<char> {
        match self {
            Route::LoginEmailPassword => "/v1/login-email-password"@,
            Route::LoginEmail => "/v1/login-email"@,
            Route::SendEmailCode => "/v1/send-email-code"@,
            Route::LoginPhone => "/v1/login-phone"@,
            Route::SendSmsCode => "/v1/send-sms-code"@,
            Route::UpdateEmail => "/v1/update-email"@,
            Route::UpdatePhone => "/v1/update-phone"@,
            Route::UpdatePassword => "/v1/update-password"@,
            Route::UserTokenStatus => "/v1/user-token-status"@,
            Route::Character => "/v1/character/"@,
            Route::Music => "/v1/music/"@,
            Route::Cp => "/v1/cp/"@,
            Route::Work => "/v1/work/"@,
            Route::GetCharacter => "/v1/get-character/"@,
            Route::GetMusic => "/v1/get-music/"@,
            Route::GetCp => "/v1/get-cp/"@,
            Route::GetPaper => "/v1/get-paper/"@,
            Route::VotingStatus => "/v1/voting-status/"@,
        }
    }

    /// The service that serves this route.
    pub fn service(&self) -> (r: BackendService)
        ensures
            r == self.service_spec(),
    {
        match self {
            Route::LoginEmailPassword | Route::LoginEmail | Route::SendEmailCode | Route::LoginPhone
            | Route::SendSmsCode | Route::UpdateEmail | Route::UpdatePhone | Route::UpdatePassword
            | Route::UserTokenStatus => BackendService::UserManager,
            _ => BackendService::SubmitHandler,
        }
    }

    /// The path of this route on its service.
    pub fn path(&self) -> (r: &'static str)
        ensures
            r@ == self.path_spec(),
    {
        match self {
            Route::LoginEmailPassword => "/v1/login-email-password",
            Route::LoginEmail => "/v1/login-email",
            Route::SendEmailCode => "/v1/send-email-code",
            Route::LoginPhone => "/v1/login-phone",
            Route::SendSmsCode => "/v1/send-sms-code",
            Route::UpdateEmail => "/v1/update-email",
            Route::UpdatePhone => "/v1/update-phone",
            Route::UpdatePassword => "/v1/update-password",
            Route::UserTokenStatus => "/v1/user-token-status",
            Route::Character => "/v1/character/",
            Route::Music => "/v1/music/",
            Route::Cp => "/v1/cp/",
            Route::Work => "/v1/work/",
            Route::GetCharacter => "/v1/get-character/",
            Route::GetMusic => "/v1/get-music/",
            Route::GetCp => "/v1/get-cp/",
            Route::GetPaper => "/v1/get-paper/",
            Route::VotingStatus => "/v1/voting-status/",
        }
    }
}

/// One outbound call: a JSON body to be POSTed to a fixed route. The
/// transport performs exactly one HTTP call for each request it is given.
pub struct BackendRequest<T> {
    pub route: Route,
    pub body: T,
}

} // verus!
