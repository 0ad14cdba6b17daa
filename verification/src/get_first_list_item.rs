//! Reading the first record that passes a filter.

use vstd::prelude::*;

use crate::collection::{action_endpoint, records_url, Collection, RecordList};
use crate::error::RequestError;
use crate::get_list::{list_parameters, list_query, optional_str, read_fault, read_fetched};
use crate::pocketbase::PocketBase;
use crate::request::{accept_json, bare};
use crate::transport::{HttpRequest, Method, Outcome, RequestView};

verus! {

/// A reading of the first matching record that is being prepared.
pub struct CollectionGetFirstListItemBuilder<'a, T> {
    pub client: &'a PocketBase,
    pub collection_name: &'a str,
    pub page: &'a str,
    pub per_page: &'a str,
    pub sort: Option<&'a str>,
    pub expand: Option<&'a str>,
    pub filter: Option<&'a str>,
    pub skip_total: bool,
    pub marker: std::marker::PhantomData<T>,
}

/// The message of the error for a page without records.
pub open spec fn no_record() -> Seq<char> {
    "No record found."@
}

/// Whether a result is what the outcome of a reading of the first record
/// calls for, where `decoded` is the body of the response read as a page of
/// records, or the reason for which it could not be read so. A page without
/// records is an error.
pub open spec fn first_fetched<T>(
    outcome: Outcome,
    decoded: Result<RecordList<T>, String>,
    r: Result<T, RequestError>,
) -> bool {
    match outcome {
        Outcome::Failure(failure) => r == Err::<T, RequestError>(
            RequestError::of_failure(failure),
        ),
        Outcome::Response(response) => {
            let code = response.status.code();
            if 200 <= code <= 299 {
                match decoded {
                    Ok(list) => if list.items@.len() == 0 {
                        r matches Err(RequestError::ParseError(message)) && message@
                            == no_record()
                    } else {
                        r == Ok::<T, RequestError>(list.items@[0])
                    },
                    Err(reason) => r == Err::<T, RequestError>(RequestError::ParseError(reason)),
                }
            } else {
                r == Err::<T, RequestError>(read_fault(code))
            }
        },
    }
}

impl<'a> Collection<'a> {
    /// Prepares the reading of the first record of the collection: page 1
    /// with one record, the count skipped, and no other option set. The
    /// client is only read from here on, and is left as it was.
    pub fn get_first_list_item<T>(self) -> (r: CollectionGetFirstListItemBuilder<'a, T>)
        ensures
            *r.client == self.server(),
            r.collection_name == self.name,
            r.page@ == "1"@,
            r.per_page@ == "1"@,
            r.sort is None,
            r.expand is None,
            r.filter is None,
            r.skip_total,
            *final(self.client) == self.server(),
    {
        CollectionGetFirstListItemBuilder {
            client: self.client,
            collection_name: self.name,
            page: "1",
            per_page: "1",
            sort: None,
            expand: None,
            filter: None,
            skip_total: true,
            marker: std::marker::PhantomData,
        }
    }
}

impl<'a, T> CollectionGetFirstListItemBuilder<'a, T> {
    /// Sets the order of the records.
    pub fn sort(self, sort: &'a str) -> (r: Self)
        ensures
            r == (CollectionGetFirstListItemBuilder { sort: Some(sort), ..self }),
    {
        let mut builder = self;
        builder.sort = Some(sort);
        builder
    }

    /// Sets the filter that the record has to pass.
    pub fn filter(self, filter: &'a str) -> (r: Self)
        ensures
            r == (CollectionGetFirstListItemBuilder { filter: Some(filter), ..self }),
    {
        let mut builder = self;
        builder.filter = Some(filter);
        builder
    }

    /// Sets the relations to expand.
    pub fn expand(self, expand: &'a str) -> (r: Self)
        ensures
            r == (CollectionGetFirstListItemBuilder { expand: Some(expand), ..self }),
    {
        let mut builder = self;
        builder.expand = Some(expand);
        builder
    }

    /// Sets whether the server skips counting the records.
    pub fn skip_total(self, skip_total: bool) -> (r: Self)
        ensures
            r == (CollectionGetFirstListItemBuilder { skip_total, ..self }),
    {
        let mut builder = self;
        builder.skip_total = skip_total;
        builder
    }

    /// The request of the reading: a GET to the collection's records with
    /// the page, the size of a page and the options as its query.
    pub fn request(&self) -> (r: HttpRequest)
        ensures
            r@ == self.client.authorized(
                RequestView {
                    headers: seq![accept_json()],
                    query: list_query(
                        Some(self.page@),
                        Some(self.per_page@),
                        optional_str(self.sort),
                        optional_str(self.filter),
                        optional_str(self.expand),
                        self.skip_total,
                    ),
                    ..bare(Method::Get, records_url(self.client.base(), self.collection_name@))
                },
            ),
    {
        let url: String = action_endpoint(self.client, self.collection_name, "records");
        let parameters: Vec<(String, String)> = list_parameters(
            Some(self.page),
            Some(self.per_page),
            self.sort,
            self.filter,
            self.expand,
            self.skip_total,
        );
        self.client.request_get(url.as_str(), Some(parameters))
    }

    /// Takes what came back for the reading, with the body of the response
    /// read as a page of records: the first record of that page on a 2xx
    /// response, an error where the page holds none, and the error of its
    /// kind for any other outcome.
    pub fn call(self, outcome: Outcome, decoded: Result<RecordList<T>, String>) -> (r: Result<
        T,
        RequestError,
    >)
        ensures
            first_fetched(outcome, decoded, r),
    {
        match read_fetched(outcome, decoded) {
            Ok(list) => {
                let mut items: Vec<T> = list.items;
                if items.len() == 0 {
                    Err(RequestError::ParseError("No record found.".to_string()))
                } else {
                    Ok(items.remove(0))
                }
            },
            Err(error) => Err(error),
        }
    }
}

} // verus!
