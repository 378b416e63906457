//! Typed results of the API operations that return structured data.
//! The HTTP client that fills them is an external collaborator; the
//! library only defines their shape.

use vstd::prelude::*;
use crate::records::{
    ApplicationKey, ApplicationVersion, Friend, FriendRequest, IAPRecord, Session, Transaction,
};

verus! {

/// Whether an email address has been verified.
#[derive(Clone, Debug, PartialEq, Eq)]
pub struct EmailVerificationCheckResponse {
    pub email_verified: bool,
}

/// The session a successful login opened.
#[derive(Clone, Debug, PartialEq, Eq)]
pub struct LoginResponse {
    pub session_id: String,
}

/// Whether a session identifier is valid, and for which user.
#[derive(Clone, Debug, PartialEq, Eq)]
pub struct SessionAuthenticationResponse {
    pub authenticated: bool,
    pub user_id: Option<i32>,
}

/// The identifier of a newly created application.
#[derive(Clone, Debug, PartialEq, Eq)]
pub struct ApplicationCreationResponse {
    pub details: String,
    pub application_id: i32,
}

/// All released versions of an application.
#[derive(Clone, Debug, PartialEq, Eq)]
pub struct GetApplicationVersionsResponse {
    pub versions: Vec<ApplicationVersion>,
}

/// A user's transactions.
#[derive(Clone, Debug, PartialEq, Eq)]
pub struct GetUserTransactionsResponse {
    pub transactions: Vec<Transaction>,
}

/// A user's application keys.
#[derive(Clone, Debug, PartialEq, Eq)]
pub struct GetUserApplicationKeysResponse {
    pub application_keys: Vec<ApplicationKey>,
}

/// A user's in-application purchase records.
#[derive(Clone, Debug, PartialEq, Eq)]
pub struct GetIAPRecordsResponse {
    pub iap_records: Vec<IAPRecord>,
}

/// The friend requests a user sent or received.
#[derive(Clone, Debug, PartialEq, Eq)]
pub struct GetFriendRequestsResponse {
    pub friend_requests: Vec<FriendRequest>,
}

/// A user's friends.
#[derive(Clone, Debug, PartialEq, Eq)]
pub struct GetFriendsResponse {
    pub friends: Vec<Friend>,
}

/// A user's login sessions.
#[derive(Clone, Debug, PartialEq, Eq)]
pub struct GetUserSessionsResponse {
    pub sessions: Vec<Session>,
}

} // verus!
