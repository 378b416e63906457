//! Records of the API data model, as the server reports them.  The
//! HTTP client that fills them is an external collaborator; the
//! library only defines their shape.

use vstd::prelude::*;

verus! {

/// A purchased or generated application key.
#[derive(Clone, Debug, PartialEq, Eq)]
pub struct ApplicationKey {
    pub id: i32,
    pub application_id: i32,
    pub key: String,
    pub kind: String,
    pub redeemed: bool,
    pub user_id: i32,
}

/// One play session of an application.
#[derive(Clone, Debug, PartialEq, Eq)]
pub struct ApplicationSession {
    pub id: i32,
    pub user_id: i32,
    pub application_id: i32,
    pub date: String,
    pub length: i32,
}

/// One released version of an application.
#[derive(Clone, Debug, PartialEq, Eq)]
pub struct ApplicationVersion {
    pub id: i32,
    pub application_id: i32,
    pub name: String,
    pub platform: String,
    pub release_date: String,
    pub filename: String,
    pub executable: String,
}

/// A confirmed friendship.
#[derive(Clone, Debug, PartialEq, Eq)]
pub struct Friend {
    pub id: i32,
    pub user_id: i32,
    pub other_user_id: i32,
    pub date: String,
}

/// A pending friend request.
#[derive(Clone, Debug, PartialEq, Eq)]
pub struct FriendRequest {
    pub id: i32,
    pub user_id: i32,
    pub from_user_id: i32,
    pub date: String,
}

/// A record of an in-application purchase.
#[derive(Clone, Debug, PartialEq, Eq)]
pub struct IAPRecord {
    pub id: i32,
    pub iap_id: i32,
    pub user_id: i32,
    pub application_id: i32,
    pub date: String,
    pub acknowledged: bool,
}

/// An uploaded photo.
#[derive(Clone, Debug, PartialEq, Eq)]
pub struct Photo {
    pub id: i32,
    pub filename: String,
    pub subfolder: String,
    pub created_at: String,
}

/// A login session.
#[derive(Clone, Debug, PartialEq, Eq)]
pub struct Session {
    pub id: i32,
    pub identifier: String,
    pub user_id: i32,
    pub hostname: String,
    pub mac_address: String,
    pub platform: String,
    pub start_date: String,
    pub last_activity: String,
}

/// One balance-affecting transaction.
#[derive(Clone, Debug, PartialEq, Eq)]
pub struct Transaction {
    pub id: i32,
    pub user_id: i32,
    pub transaction_id: i32,
    pub kind: String,
    pub date: String,
}

} // verus!
