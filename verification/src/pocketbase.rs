//! The client: the server's address and the session of whoever is
//! authenticated, with the requests that carry that session.

use vstd::prelude::*;

use crate::json::{
    bool_at, bool_member, member, member_of, parse, parsed, text_at, text_member, tree_of, JsonTree,
};

verus! {

/// The record of an authenticated identity.
#[derive(Debug, PartialEq, Eq)]
pub struct AuthStoreRecord {
    pub id: String,
    pub collection_id: String,
    pub collection_name: String,
    pub created: String,
    pub updated: String,
    pub email: String,
    pub email_visibility: bool,
    pub verified: bool,
}

/// A session: who is authenticated, and the token that says so.
#[derive(Debug, PartialEq, Eq)]
pub struct AuthStore {
    pub record: AuthStoreRecord,
    pub token: String,
}

/// A record of an identity, as mathematical values.
pub struct AuthStoreRecordView {
    pub id: Seq<char>,
    pub collection_id: Seq<char>,
    pub collection_name: Seq<char>,
    pub created: Seq<char>,
    pub updated: Seq<char>,
    pub email: Seq<char>,
    pub email_visibility: bool,
    pub verified: bool,
}

/// A session, as mathematical values.
pub struct AuthStoreView {
    pub record: AuthStoreRecordView,
    pub token: Seq<char>,
}

impl View for AuthStoreRecord {
    type V = AuthStoreRecordView;

    open spec fn view(&self) -> AuthStoreRecordView {
        AuthStoreRecordView {
            id: self.id@,
            collection_id: self.collection_id@,
            collection_name: self.collection_name@,
            created: self.created@,
            updated: self.updated@,
            email: self.email@,
            email_visibility: self.email_visibility,
            verified: self.verified,
        }
    }
}

impl View for AuthStore {
    type V = AuthStoreView;

    open spec fn view(&self) -> AuthStoreView {
        AuthStoreView { record: self.record@, token: self.token@ }
    }
}

/// The record that a JSON tree describes: an object with the string members
/// `id`, `collectionId`, `collectionName`, `created`, `updated` and `email`
/// and the boolean members `emailVisibility` and `verified`.
pub open spec fn record_of(tree: JsonTree) -> Option<AuthStoreRecordView> {
    if text_at(tree, "id"@) is Some && text_at(tree, "collectionId"@) is Some && text_at(
        tree,
        "collectionName"@,
    ) is Some && text_at(tree, "created"@) is Some && text_at(tree, "updated"@) is Some && text_at(
        tree,
        "email"@,
    ) is Some && bool_at(tree, "emailVisibility"@) is Some && bool_at(tree, "verified"@) is Some {
        Some(
            AuthStoreRecordView {
                id: text_at(tree, "id"@)->0,
                collection_id: text_at(tree, "collectionId"@)->0,
                collection_name: text_at(tree, "collectionName"@)->0,
                created: text_at(tree, "created"@)->0,
                updated: text_at(tree, "updated"@)->0,
                email: text_at(tree, "email"@)->0,
                email_visibility: bool_at(tree, "emailVisibility"@)->0,
                verified: bool_at(tree, "verified"@)->0,
            },
        )
    } else {
        None
    }
}

/// The session that a JSON tree describes: an object with a `record` member
/// that describes a record and a string member `token`.
pub open spec fn auth_store_of(tree: JsonTree) -> Option<AuthStoreView> {
    match (member_of(tree, "record"@), text_at(tree, "token"@)) {
        (Some(record), Some(token)) => match record_of(record) {
            Some(record) => Some(AuthStoreView { record, token }),
            None => None,
        },
        _ => None,
    }
}

/// The session that the text of a body describes.
pub open spec fn auth_store_in(body: Seq<char>) -> Option<AuthStoreView> {
    match parsed(body) {
        Some(tree) => auth_store_of(tree),
        None => None,
    }
}

impl Clone for AuthStoreRecord {
    fn clone(&self) -> (r: Self)
        ensures
            r == *self,
    {
        AuthStoreRecord {
            id: self.id.clone(),
            collection_id: self.collection_id.clone(),
            collection_name: self.collection_name.clone(),
            created: self.created.clone(),
            updated: self.updated.clone(),
            email: self.email.clone(),
            email_visibility: self.email_visibility,
            verified: self.verified,
        }
    }
}

impl Clone for AuthStore {
    fn clone(&self) -> (r: Self)
        ensures
            r == *self,
    {
        AuthStore { record: self.record.clone(), token: self.token.clone() }
    }
}

impl AuthStoreRecord {
    /// Reads a record from a parsed document. `Some` exactly where the
    /// document describes one.
    pub fn from_json(value: &serde_json::Value) -> (r: Option<AuthStoreRecord>)
        ensures
            record_of(tree_of(*value)) == (match r {
                Some(record) => Some(record@),
                None => None,
            }),
    {
        let id: String = match text_member(value, "id") {
            Some(found) => found,
            None => {
                return None;
            },
        };
        let collection_id: String = match text_member(value, "collectionId") {
            Some(found) => found,
            None => {
                return None;
            },
        };
        let collection_name: String = match text_member(value, "collectionName") {
            Some(found) => found,
            None => {
                return None;
            },
        };
        let created: String = match text_member(value, "created") {
            Some(found) => found,
            None => {
                return None;
            },
        };
        let updated: String = match text_member(value, "updated") {
            Some(found) => found,
            None => {
                return None;
            },
        };
        let email: String = match text_member(value, "email") {
            Some(found) => found,
            None => {
                return None;
            },
        };
        let email_visibility: bool = match bool_member(value, "emailVisibility") {
            Some(found) => found,
            None => {
                return None;
            },
        };
        let verified: bool = match bool_member(value, "verified") {
            Some(found) => found,
            None => {
                return None;
            },
        };
        Some(
            AuthStoreRecord {
                id,
                collection_id,
                collection_name,
                created,
                updated,
                email,
                email_visibility,
                verified,
            },
        )
    }
}

impl AuthStore {
    /// Reads a session from a parsed document. `Some` exactly where the
    /// document describes one.
    pub fn from_json(value: &serde_json::Value) -> (r: Option<AuthStore>)
        ensures
            auth_store_of(tree_of(*value)) == (match r {
                Some(store) => Some(store@),
                None => None,
            }),
    {
        let record: AuthStoreRecord = match member(value, "record") {
            Some(found) => match AuthStoreRecord::from_json(found) {
                Some(record) => record,
                None => {
                    return None;
                },
            },
            None => {
                return None;
            },
        };
        match text_member(value, "token") {
            Some(token) => Some(AuthStore { record, token }),
            None => None,
        }
    }

    /// Reads a session from the text of a body. `Some` exactly where the
    /// text is a JSON document that describes one.
    pub fn from_text(body: &str) -> (r: Option<AuthStore>)
        ensures
            auth_store_in(body@) == (match r {
                Some(store) => Some(store@),
                None => None,
            }),
    {
        match parse(body) {
            Some(value) => AuthStore::from_json(&value),
            None => None,
        }
    }
}

/// A client of one PocketBase server.
#[derive(Clone, Debug)]
pub struct PocketBase {
    base_url: String,
    auth_store: Option<AuthStore>,
}

impl PocketBase {
    /// The address of the server.
    pub closed spec fn base(&self) -> Seq<char> {
        self.base_url@
    }

    /// The session that the client holds.
    pub closed spec fn session(&self) -> Option<AuthStore> {
        self.auth_store
    }

    /// The token of the session that the client holds.
    pub open spec fn session_token(&self) -> Option<Seq<char>> {
        match self.session() {
            Some(store) => Some(store.token@),
            None => None,
        }
    }

    /// A client of the server at `base_url`, without a session.
    pub fn new(base_url: &str) -> (r: PocketBase)
        ensures
            r.base() == base_url@,
            r.session() is None,
    {
        PocketBase { base_url: base_url.to_string(), auth_store: None }
    }

    /// A copy of the session, if the client holds one.
    pub fn auth_store(&self) -> (r: Option<AuthStore>)
        ensures
            r == self.session(),
    {
        match &self.auth_store {
            Some(store) => Some(store.clone()),
            None => None,
        }
    }

    /// The token of the session, if the client holds one.
    pub fn token(&self) -> (r: Option<String>)
        ensures
            match self.session() {
                Some(store) => r == Some(store.token),
                None => r is None,
            },
    {
        match &self.auth_store {
            Some(store) => Some(store.token.clone()),
            None => None,
        }
    }

    /// The address of the server.
    pub fn base_url(&self) -> (r: String)
        ensures
            r@ == self.base(),
    {
        self.base_url.clone()
    }

    /// Replaces the session, whatever the client held.
    pub fn update_auth_store(&mut self, new_auth_store: AuthStore)
        ensures
            final(self).session() == Some(new_auth_store),
            final(self).base() == old(self).base(),
    {
        self.auth_store = Some(new_auth_store);
    }
}

} // verus!
