//! Reading one record.

use vstd::prelude::*;

use crate::collection::{item_endpoint, record_url, Collection};
use crate::error::RequestError;
use crate::get_list::{fetched, optional_pair, optional_str, read_fetched};
use crate::pocketbase::PocketBase;
use crate::request::{accept_json, bare};
use crate::transport::{pairs_text, push_pair, HttpRequest, Method, Outcome, RequestView};

verus! {

/// A reading of one record that is being prepared.
pub struct CollectionGetOneBuilder<'a, T> {
    pub client: &'a PocketBase,
    pub collection_name: &'a str,
    pub record_id: &'a str,
    pub expand: Option<&'a str>,
    pub marker: std::marker::PhantomData<T>,
}

impl<'a> Collection<'a> {
    /// Prepares the reading of one record of the collection, with no option
    /// set. The client is only read from here on, and is left as it was.
    pub fn get_one<T>(self, record_id: &'a str) -> (r: CollectionGetOneBuilder<'a, T>)
        ensures
            *r.client == self.server(),
            r.collection_name == self.name,
            r.record_id == record_id,
            r.expand is None,
            *final(self.client) == self.server(),
    {
        CollectionGetOneBuilder {
            client: self.client,
            collection_name: self.name,
            record_id,
            expand: None,
            marker: std::marker::PhantomData,
        }
    }
}

impl<'a, T> CollectionGetOneBuilder<'a, T> {
    /// Sets the relations to expand.
    pub fn expand(self, expand: &'a str) -> (r: Self)
        ensures
            r == (CollectionGetOneBuilder { expand: Some(expand), ..self }),
    {
        let mut builder = self;
        builder.expand = Some(expand);
        builder
    }

    /// The request of the reading: a GET to the record, with `expand` as
    /// its query where it is set.
    pub fn request(&self) -> (r: HttpRequest)
        ensures
            r@ == self.client.authorized(
                RequestView {
                    headers: seq![accept_json()],
                    query: optional_pair("expand"@, optional_str(self.expand)),
                    ..bare(
                        Method::Get,
                        record_url(self.client.base(), self.collection_name@, self.record_id@),
                    )
                },
            ),
    {
        let url: String = item_endpoint(
            self.client,
            self.collection_name,
            "records",
            self.record_id,
        );
        match self.expand {
            Some(expand) => {
                let mut parameters: Vec<(String, String)> = Vec::new();
                push_pair(&mut parameters, "expand", expand);
                assert(pairs_text(parameters@) =~= seq![("expand"@, expand@)]);
                self.client.request_get(url.as_str(), Some(parameters))
            },
            None => self.client.request_get(url.as_str(), None),
        }
    }

    /// Takes what came back for the reading, with the body of the response
    /// read as a record: that record on a 2xx response, and the error of its
    /// kind for any other outcome.
    pub fn call(self, outcome: Outcome, decoded: Result<T, String>) -> (r: Result<T, RequestError>)
        ensures
            fetched(outcome, decoded, r),
    {
        read_fetched(outcome, decoded)
    }
}

} // verus!
