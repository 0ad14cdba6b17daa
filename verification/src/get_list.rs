//! Reading a page of the records of a collection.

use vstd::prelude::*;

use crate::collection::{action_endpoint, records_url, Collection, RecordList};
use crate::error::RequestError;
use crate::pocketbase::PocketBase;
use crate::request::{accept_json, bare};
use crate::status::StatusClass;
use crate::text::{boolean, boolean_text, decimal, decimal_text};
use crate::transport::{
    optional_text, pairs_text, push_pair, HttpRequest, Method, Outcome, RequestView,
};

verus! {

/// A reading of a page of records that is being prepared.
pub struct CollectionGetListBuilder<'a, T> {
    pub client: &'a PocketBase,
    pub collection_name: &'a str,
    /// The page, as a decimal numeral.
    pub page: Option<String>,
    /// The most records of a page, as a decimal numeral.
    pub per_page: Option<String>,
    pub sort: Option<&'a str>,
    pub expand: Option<&'a str>,
    pub filter: Option<&'a str>,
    pub skip_total: bool,
    pub marker: std::marker::PhantomData<T>,
}

/// The characters of an optional string slice.
pub open spec fn optional_str(text: Option<&str>) -> Option<Seq<char>> {
    match text {
        Some(text) => Some(text@),
        None => None,
    }
}

/// The query parameter of an option: one parameter where it is set, none
/// where it is not.
pub open spec fn optional_pair(name: Seq<char>, value: Option<Seq<char>>) -> Seq<
    (Seq<char>, Seq<char>),
> {
    match value {
        Some(value) => seq![(name, value)],
        None => Seq::empty(),
    }
}

/// The query of a reading of records: `page`, `perPage`, `sort`, `filter`
/// and `expand`, each where it is set, then `skipTotal`.
pub open spec fn list_query(
    page: Option<Seq<char>>,
    per_page: Option<Seq<char>>,
    sort: Option<Seq<char>>,
    filter: Option<Seq<char>>,
    expand: Option<Seq<char>>,
    skip_total: bool,
) -> Seq<(Seq<char>, Seq<char>)> {
    optional_pair("page"@, page) + optional_pair("perPage"@, per_page) + optional_pair(
        "sort"@,
        sort,
    ) + optional_pair("filter"@, filter) + optional_pair("expand"@, expand) + seq![
        ("skipTotal"@, boolean(skip_total)),
    ]
}

/// The error for a response to a reading with a status outside 200..=299.
pub open spec fn read_fault(code: u16) -> RequestError {
    if code == 401 {
        RequestError::Unauthorized
    } else if code == 403 {
        RequestError::Forbidden
    } else if code == 404 {
        RequestError::NotFound
    } else {
        RequestError::Unhandled
    }
}

/// Whether a result is what the outcome of a reading calls for, where
/// `decoded` is the body of the response read as the expected value, or the
/// reason for which it could not be read so.
pub open spec fn fetched<T>(
    outcome: Outcome,
    decoded: Result<T, String>,
    r: Result<T, RequestError>,
) -> bool {
    match outcome {
        Outcome::Failure(failure) => r == Err::<T, RequestError>(
            RequestError::of_failure(failure),
        ),
        Outcome::Response(response) => {
            let code = response.status.code();
            if 200 <= code <= 299 {
                match decoded {
                    Ok(value) => r == Ok::<T, RequestError>(value),
                    Err(reason) => r == Err::<T, RequestError>(RequestError::ParseError(reason)),
                }
            } else {
                r == Err::<T, RequestError>(read_fault(code))
            }
        },
    }
}

/// Appends the query parameter of an option, where the option is set.
pub fn push_optional(pairs: &mut Vec<(String, String)>, name: &str, value: Option<&str>)
    ensures
        pairs_text(final(pairs)@) == pairs_text(old(pairs)@) + optional_pair(
            name@,
            optional_str(value),
        ),
{
    match value {
        Some(value) => {
            push_pair(pairs, name, value);
            assert(pairs_text(final(pairs)@) =~= pairs_text(old(pairs)@) + optional_pair(
                name@,
                optional_str(Some(value)),
            ));
        },
        None => {
            assert(pairs_text(final(pairs)@) =~= pairs_text(old(pairs)@) + optional_pair(
                name@,
                optional_str(None),
            ));
        },
    }
}

/// The query parameters of a reading of records.
pub fn list_parameters(
    page: Option<&str>,
    per_page: Option<&str>,
    sort: Option<&str>,
    filter: Option<&str>,
    expand: Option<&str>,
    skip_total: bool,
) -> (r: Vec<(String, String)>)
    ensures
        pairs_text(r@) == list_query(
            optional_str(page),
            optional_str(per_page),
            optional_str(sort),
            optional_str(filter),
            optional_str(expand),
            skip_total,
        ),
{
    let mut parameters: Vec<(String, String)> = Vec::new();
    push_optional(&mut parameters, "page", page);
    push_optional(&mut parameters, "perPage", per_page);
    push_optional(&mut parameters, "sort", sort);
    push_optional(&mut parameters, "filter", filter);
    push_optional(&mut parameters, "expand", expand);
    push_pair(&mut parameters, "skipTotal", boolean_text(skip_total));
    assert(pairs_text(parameters@) =~= list_query(
        optional_str(page),
        optional_str(per_page),
        optional_str(sort),
        optional_str(filter),
        optional_str(expand),
        skip_total,
    ));
    parameters
}

/// Takes what came back for a reading, with the body of the response read
/// as the expected value: that value on a 2xx response, and the error of its
/// kind for any other outcome.
pub fn read_fetched<T>(outcome: Outcome, decoded: Result<T, String>) -> (r: Result<T, RequestError>)
    ensures
        fetched(outcome, decoded, r),
{
    match outcome {
        Outcome::Failure(failure) => Err(RequestError::from_failure(&failure)),
        Outcome::Response(response) => match response.status.class() {
            StatusClass::Success => match decoded {
                Ok(value) => Ok(value),
                Err(reason) => Err(RequestError::ParseError(reason)),
            },
            StatusClass::Unauthorized => Err(RequestError::Unauthorized),
            StatusClass::Forbidden => Err(RequestError::Forbidden),
            StatusClass::NotFound => Err(RequestError::NotFound),
            _ => Err(RequestError::Unhandled),
        },
    }
}

impl<'a> Collection<'a> {
    /// Prepares the reading of a page of the collection's records, with no
    /// option set. The client is only read from here on, and is left as it
    /// was.
    pub fn get_list<T>(self) -> (r: CollectionGetListBuilder<'a, T>)
        ensures
            *r.client == self.server(),
            r.collection_name == self.name,
            r.page is None,
            r.per_page is None,
            r.sort is None,
            r.expand is None,
            r.filter is None,
            !r.skip_total,
            *final(self.client) == self.server(),
    {
        CollectionGetListBuilder {
            client: self.client,
            collection_name: self.name,
            page: None,
            per_page: None,
            sort: None,
            expand: None,
            filter: None,
            skip_total: false,
            marker: std::marker::PhantomData,
        }
    }
}

impl<'a, T> CollectionGetListBuilder<'a, T> {
    /// Sets the page to read, counted from 1.
    pub fn page(self, page: u16) -> (r: Self)
        ensures
            r.page matches Some(text) && text@ == decimal(page as nat),
            r == (CollectionGetListBuilder { page: r.page, ..self }),
    {
        let mut builder = self;
        builder.page = Some(decimal_text(page as u128));
        builder
    }

    /// Sets the most records that a page holds.
    pub fn per_page(self, per_page: u16) -> (r: Self)
        ensures
            r.per_page matches Some(text) && text@ == decimal(per_page as nat),
            r == (CollectionGetListBuilder { per_page: r.per_page, ..self }),
    {
        let mut builder = self;
        builder.per_page = Some(decimal_text(per_page as u128));
        builder
    }

    /// Sets the order of the records.
    pub fn sort(self, sort: &'a str) -> (r: Self)
        ensures
            r == (CollectionGetListBuilder { sort: Some(sort), ..self }),
    {
        let mut builder = self;
        builder.sort = Some(sort);
        builder
    }

    /// Sets the filter that records have to pass.
    pub fn filter(self, filter: &'a str) -> (r: Self)
        ensures
            r == (CollectionGetListBuilder { filter: Some(filter), ..self }),
    {
        let mut builder = self;
        builder.filter = Some(filter);
        builder
    }

    /// Sets the relations to expand.
    pub fn expand(self, expand: &'a str) -> (r: Self)
        ensures
            r == (CollectionGetListBuilder { expand: Some(expand), ..self }),
    {
        let mut builder = self;
        builder.expand = Some(expand);
        builder
    }

    /// Sets whether the server skips counting the records.
    pub fn skip_total(self, skip_total: bool) -> (r: Self)
        ensures
            r == (CollectionGetListBuilder { skip_total, ..self }),
    {
        let mut builder = self;
        builder.skip_total = skip_total;
        builder
    }

    /// The request of the reading: a GET to the collection's records with
    /// the options as its query.
    pub fn request(&self) -> (r: HttpRequest)
        ensures
            r@ == self.client.authorized(
                RequestView {
                    headers: seq![accept_json()],
                    query: list_query(
                        optional_text(self.page),
                        optional_text(self.per_page),
                        optional_str(self.sort),
                        optional_str(self.filter),
                        optional_str(self.expand),
                        self.skip_total,
                    ),
                    ..bare(Method::Get, records_url(self.client.base(), self.collection_name@))
                },
            ),
    {
        let url: String = action_endpoint(self.client, self.collection_name, "records");
        let page: Option<&str> = match &self.page {
            Some(page) => Some(page.as_str()),
            None => None,
        };
        let per_page: Option<&str> = match &self.per_page {
            Some(per_page) => Some(per_page.as_str()),
            None => None,
        };
        let parameters: Vec<(String, String)> = list_parameters(
            page,
            per_page,
            self.sort,
            self.filter,
            self.expand,
            self.skip_total,
        );
        self.client.request_get(url.as_str(), Some(parameters))
    }

    /// Takes what came back for the reading, with the body of the response
    /// read as a page of records: that page on a 2xx response, and the error
    /// of its kind for any other outcome.
    pub fn call(self, outcome: Outcome, decoded: Result<RecordList<T>, String>) -> (r: Result<
        RecordList<T>,
        RequestError,
    >)
        ensures
            fetched(outcome, decoded, r),
    {
        read_fetched(outcome, decoded)
    }
}

} // verus!
