//! Collections: the handle through which records are reached, and the
//! addresses of a collection's endpoints.

use vstd::prelude::*;
use vstd::string::*;

use crate::json::{parsed, text_at, text_member, tree_of, JsonTree};
use crate::pocketbase::PocketBase;

verus! {

/// One collection of a server, reached through a client.
pub struct Collection<'a> {
    pub client: &'a mut PocketBase,
    pub name: &'a str,
}

/// One page of the records of a collection.
#[derive(Clone, Debug, PartialEq, Eq)]
pub struct RecordList<T> {
    /// The page, counted from 1.
    pub page: i32,
    /// The most records that a page holds.
    pub per_page: i32,
    /// How many records were found; -1 where the count was skipped.
    pub total_items: i32,
    /// How many pages were found; -1 where the count was skipped.
    pub total_pages: i32,
    /// The records of this page.
    pub items: Vec<T>,
}

/// What the server says of a record that it has written.
pub struct RecordSummary {
    pub collection_name: Seq<char>,
    pub collection_id: Seq<char>,
    pub id: Seq<char>,
    pub updated: Seq<char>,
    pub created: Seq<char>,
}

/// The summary that a JSON tree describes: an object with the string
/// members `collectionName`, `collectionId`, `id`, `updated` and `created`.
pub open spec fn summary_of(tree: JsonTree) -> Option<RecordSummary> {
    if text_at(tree, "collectionName"@) is Some && text_at(tree, "collectionId"@) is Some
        && text_at(tree, "id"@) is Some && text_at(tree, "updated"@) is Some && text_at(
        tree,
        "created"@,
    ) is Some {
        Some(
            RecordSummary {
                collection_name: text_at(tree, "collectionName"@)->0,
                collection_id: text_at(tree, "collectionId"@)->0,
                id: text_at(tree, "id"@)->0,
                updated: text_at(tree, "updated"@)->0,
                created: text_at(tree, "created"@)->0,
            },
        )
    } else {
        None
    }
}

/// The summary that the text of a body describes.
pub open spec fn summary_in(body: Seq<char>) -> Option<RecordSummary> {
    match parsed(body) {
        Some(tree) => summary_of(tree),
        None => None,
    }
}

/// The five strings of a summary, in the order of its fields.
pub open spec fn summary_texts(texts: (String, String, String, String, String)) -> RecordSummary {
    RecordSummary {
        collection_name: texts.0@,
        collection_id: texts.1@,
        id: texts.2@,
        updated: texts.3@,
        created: texts.4@,
    }
}

/// Reads the five strings of a summary from a parsed document. `Some`
/// exactly where the document describes a summary.
pub fn read_summary(value: &serde_json::Value) -> (r: Option<
    (String, String, String, String, String),
>)
    ensures
        summary_of(tree_of(*value)) == (match r {
            Some(texts) => Some(summary_texts(texts)),
            None => None,
        }),
{
    let collection_name: String = match text_member(value, "collectionName") {
        Some(found) => found,
        None => {
            return None;
        },
    };
    let collection_id: String = match text_member(value, "collectionId") {
        Some(found) => found,
        None => {
            return None;
        },
    };
    let id: String = match text_member(value, "id") {
        Some(found) => found,
        None => {
            return None;
        },
    };
    let updated: String = match text_member(value, "updated") {
        Some(found) => found,
        None => {
            return None;
        },
    };
    let created: String = match text_member(value, "created") {
        Some(found) => found,
        None => {
            return None;
        },
    };
    Some((collection_name, collection_id, id, updated, created))
}

/// The address of an action of a collection:
/// `{base}/api/collections/{name}/{action}`.
pub open spec fn action_url(base: Seq<char>, name: Seq<char>, action: Seq<char>) -> Seq<char> {
    base + "/api/collections/"@ + name + "/"@ + action
}

/// The address of the records of a collection:
/// `{base}/api/collections/{name}/records`.
pub open spec fn records_url(base: Seq<char>, name: Seq<char>) -> Seq<char> {
    action_url(base, name, "records"@)
}

/// The address of one record, or of an action on one identity:
/// `{base}/api/collections/{name}/{action}/{id}`.
pub open spec fn item_url(base: Seq<char>, name: Seq<char>, action: Seq<char>, id: Seq<char>) -> Seq<
    char,
> {
    action_url(base, name, action) + "/"@ + id
}

/// The address of one record: `{base}/api/collections/{name}/records/{id}`.
pub open spec fn record_url(base: Seq<char>, name: Seq<char>, id: Seq<char>) -> Seq<char> {
    item_url(base, name, "records"@, id)
}

/// The address of an action of a collection of a server.
pub fn action_endpoint(client: &PocketBase, name: &str, action: &str) -> (r: String)
    ensures
        r@ == action_url(client.base(), name@, action@),
{
    let mut url: String = client.base_url();
    url.append("/api/collections/");
    url.append(name);
    url.append("/");
    url.append(action);
    url
}

/// The address of one record, or of an action on one identity.
pub fn item_endpoint(client: &PocketBase, name: &str, action: &str, id: &str) -> (r: String)
    ensures
        r@ == item_url(client.base(), name@, action@, id@),
{
    let mut url: String = action_endpoint(client, name, action);
    url.append("/");
    url.append(id);
    url
}

impl<'a> Collection<'a> {
    /// The client through which the collection is reached, as it is now.
    pub open spec fn server(&self) -> PocketBase {
        *self.client
    }
}

impl PocketBase {
    /// The collection of the given name, reached through this client.
    pub fn collection<'a>(&'a mut self, collection_name: &'a str) -> (r: Collection<'a>)
        ensures
            r.name@ == collection_name@,
            *r.client == *old(self),
            *final(self) == *final(r.client),
    {
        Collection { client: self, name: collection_name }
    }
}

} // verus!
