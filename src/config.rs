//! Endpoint URLs and the client configuration.
use vstd::prelude::*;

use crate::error::SanityError;

verus! {

/// The direct API endpoint of a dataset:
/// `https://{project_id}.api.sanity.io/v1/data/query/{data_set}`.
pub open spec fn api_url(project_id: Seq<char>, data_set: Seq<char>) -> Seq<char> {
    "https://"@ + project_id + ".api.sanity.io/v1/data/query/"@ + data_set
}

/// The host part that follows the project id: the CDN host for production
/// reads, the direct API host otherwise.
pub open spec fn host_suffix(use_prod: bool) -> Seq<char> {
    if use_prod {
        ".apicdn.sanity.io"@
    } else {
        ".api.sanity.io"@
    }
}

/// The base URL that queries are appended to:
/// `https://{project_id}{host}/v1/data/query/{data_set}/`.
pub open spec fn query_base_url(project_id: Seq<char>, data_set: Seq<char>, use_prod: bool) -> Seq<
    char,
> {
    "https://"@ + project_id + host_suffix(use_prod) + "/v1/data/query/"@ + data_set + "/"@
}

/// A base URL with a query string attached, the query taken over unescaped.
pub open spec fn with_query(base: Seq<char>, query: Seq<char>) -> Seq<char> {
    base + "?query="@ + query
}

/// The query that a request carries: the one given to the call if any, else
/// the stored one.
pub open spec fn chosen_query(given: Option<Seq<char>>, stored: Option<Seq<char>>) -> Option<
    Seq<char>,
> {
    match given {
        Some(q) => Some(q),
        None => stored,
    }
}

/// An optional `&str` as optional text.
pub open spec fn opt_view(q: Option<&str>) -> Option<Seq<char>> {
    match q {
        Some(s) => Some(s@),
        None => None,
    }
}

/// The endpoint URL for `project_id` and `data_set`, without a query.
pub fn get_url(project_id: &str, data_set: &str) -> (r: String)
    ensures
        r@ == api_url(project_id@, data_set@),
{
    let mut url = String::from_str("https://");
    url.append(project_id);
    url.append(".api.sanity.io/v1/data/query/");
    url.append(data_set);
    url
}

/// The query part of a configuration: the base URL that queries go to, and
/// the query that is used when a call gives none.
#[derive(Debug, Clone)]
pub struct Query {
    base_url: String,
    pub query: Option<String>,
}

/// What a `Query` holds, as text.
pub ghost struct QueryView {
    pub base_url: Seq<char>,
    pub query: Option<Seq<char>>,
}

impl View for Query {
    type V = QueryView;

    closed spec fn view(&self) -> QueryView {
        QueryView {
            base_url: self.base_url@,
            query: match self.query {
                Some(q) => Some(q@),
                None => None,
            },
        }
    }
}

impl Query {
    /// The base URL, without a query string.
    pub fn base_url(&self) -> (r: &str)
        ensures
            r@ == self@.base_url,
    {
        self.base_url.as_str()
    }

    /// The base URL followed by `?query=` and `query`, or by the stored query
    /// when `query` is `None`; `MissingQuery` when neither is there.
    pub fn build_url(&self, query: Option<&str>) -> (r: Result<String, SanityError>)
        ensures
            match chosen_query(opt_view(query), self@.query) {
                Some(q) => r is Ok && r->Ok_0@ == with_query(self@.base_url, q),
                None => r == Err::<String, SanityError>(SanityError::MissingQuery),
            },
    {
        let q: &str = match query {
            Some(q) => q,
            None => match &self.query {
                Some(stored) => stored.as_str(),
                None => {
                    return Err(SanityError::MissingQuery);
                },
            },
        };
        let mut url = self.base_url.clone();
        url.append("?query=");
        url.append(q);
        Ok(url)
    }
}

/// Everything needed to reach one dataset of one project.
#[derive(Debug, Clone)]
pub struct SanityConfig {
    project_id: String,
    access_token: String,
    data_set: String,
    url: String,
    pub query: Query,
}

/// What a `SanityConfig` holds, as text.
pub ghost struct ConfigView {
    pub project_id: Seq<char>,
    pub access_token: Seq<char>,
    pub data_set: Seq<char>,
    pub url: Seq<char>,
    pub query: QueryView,
}

impl View for SanityConfig {
    type V = ConfigView;

    closed spec fn view(&self) -> ConfigView {
        ConfigView {
            project_id: self.project_id@,
            access_token: self.access_token@,
            data_set: self.data_set@,
            url: self.url@,
            query: self.query@,
        }
    }
}

impl SanityConfig {
    /// The URL of a request for `query`, or for the stored query when `query`
    /// is `None`; `MissingQuery` when neither is there.
    pub fn build_url(&self, query: Option<&str>) -> (r: Result<String, SanityError>)
        ensures
            match chosen_query(opt_view(query), self@.query.query) {
                Some(q) => r is Ok && r->Ok_0@ == with_query(self@.query.base_url, q),
                None => r == Err::<String, SanityError>(SanityError::MissingQuery),
            },
    {
        self.query.build_url(query)
    }

    /// The project that requests go to.
    pub fn project_id(&self) -> (r: &str)
        ensures
            r@ == self@.project_id,
    {
        self.project_id.as_str()
    }

    /// The dataset that requests read.
    pub fn data_set(&self) -> (r: &str)
        ensures
            r@ == self@.data_set,
    {
        self.data_set.as_str()
    }

    /// The token sent as the bearer credential.
    pub fn access_token(&self) -> (r: &str)
        ensures
            r@ == self@.access_token,
    {
        self.access_token.as_str()
    }

    /// The direct API endpoint of the dataset, without a query.
    pub fn url(&self) -> (r: &str)
        ensures
            r@ == self@.url,
    {
        self.url.as_str()
    }
}

/// A configuration for `project_id` and `data_set` that authenticates with
/// `token`; queries go to the CDN host when `use_prod` holds, and to the
/// direct API host otherwise. No query is stored yet.
pub fn create(project_id: &str, data_set: &str, token: &str, use_prod: bool) -> (r: SanityConfig)
    ensures
        r@ == (ConfigView {
            project_id: project_id@,
            access_token: token@,
            data_set: data_set@,
            url: api_url(project_id@, data_set@),
            query: QueryView {
                base_url: query_base_url(project_id@, data_set@, use_prod),
                query: None,
            },
        }),
{
    let mut base_url = String::from_str("https://");
    base_url.append(project_id);
    if use_prod {
        base_url.append(".apicdn.sanity.io");
    } else {
        base_url.append(".api.sanity.io");
    }
    base_url.append("/v1/data/query/");
    base_url.append(data_set);
    base_url.append("/");
    proof {
        assert(base_url@ == query_base_url(project_id@, data_set@, use_prod));
    }
    SanityConfig {
        project_id: String::from_str(project_id),
        access_token: String::from_str(token),
        data_set: String::from_str(data_set),
        url: get_url(project_id, data_set),
        query: Query { base_url, query: None },
    }
}

} // verus!

verus! {

/// The query of a request URL comes back unchanged: the URL is the base URL,
/// then `?query=`, then the query text exactly as it was given.
pub proof fn lemma_query_round_trip(base: Seq<char>, query: Seq<char>)
    ensures
        with_query(base, query).subrange(0, base.len() as int) == base,
        with_query(base, query).subrange(base.len() as int, base.len() + 7int) == "?query="@,
        with_query(base, query).subrange(base.len() + 7int, with_query(base, query).len() as int)
            == query,
{
    reveal_strlit("?query=");
    let url = with_query(base, query);
    assert(url.subrange(0, base.len() as int) =~= base);
    assert(url.subrange(base.len() as int, base.len() + 7int) =~= "?query="@);
    assert(url.subrange(base.len() + 7int, url.len() as int) =~= query);
}

} // verus!
