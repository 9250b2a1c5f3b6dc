//! The two operations on a repository: its basic information, through the
//! GraphQL query, and its README as raw text, through the REST API.
//!
//! Each operation is one round trip. The library builds the request; the
//! caller sends it once and hands back what came of it; the library decides
//! the result.

use vstd::prelude::*;
use vstd::string::*;
use vstd::utf8::{decode_utf8, encode_utf8, encode_utf8_decode_utf8, encode_utf8_valid_utf8, valid_utf8};

use crate::error::ApiError;
use crate::graphql::{graphql_headers, graphql_request, query_body, query_body_bytes, query_graphql, GraphQLReply, Variables,
    GRAPHQL_URL};
use crate::http::{base_headers, headers_view, received_body, request, HttpMethod, HttpRequest, HttpResponse,
    TransportError};
use crate::repos::{repo_path, Repo, RepoRequest};

verus! {

/// Where the REST API serves repositories.
pub const BASE_URL: &'static str = "https://api.github.com/repos";

/// Asks the REST API for the README as raw text rather than JSON.
pub const RAW_MEDIA_TYPE: &'static str = "application/vnd.github.VERSION.raw";

/// The text that `String::from_utf8_lossy` makes of `b`.
pub uninterp spec fn lossy_utf8(b: Seq<u8>) -> Seq<char>;

/// Relies on `String::from_utf8_lossy`: the text of the bytes, decoded as it
/// is where they are valid UTF-8 (elsewhere with replacement characters).
#[verifier::external_body]
fn text_of(b: &[u8]) -> (r: String)
    ensures
        r@ == lossy_utf8(b@),
        valid_utf8(b@) ==> r@ == decode_utf8(b@),
{
    String::from_utf8_lossy(b).into_owned()
}

impl From<&Repo> for Variables {
    fn from(repo: &Repo) -> (r: Variables)
        ensures
            r.name@ == repo.repo_name@,
            r.owner@ == repo.repo_owner@,
    {
        Variables { name: repo.repo_name.clone(), owner: repo.repo_owner.clone() }
    }
}

impl vstd::std_specs::convert::FromSpecImpl<&Repo> for Variables {
    open spec fn obeys_from_spec() -> bool {
        false
    }

    open spec fn from_spec(repo: &Repo) -> Variables {
        Variables { name: repo.repo_name, owner: repo.repo_owner }
    }
}

/// `r` is the GraphQL request for the repository `owner`/`name`, authorised
/// by `token`.
pub open spec fn is_basic_info_request(r: HttpRequest, owner: Seq<char>, name: Seq<char>, token: Seq<char>) -> bool {
    &&& r.method == HttpMethod::Post
    &&& r.url@ == GRAPHQL_URL@
    &&& headers_view(r.headers@) == graphql_headers(token)
    &&& r.body@ == query_body_bytes(owner, name)
}

/// The URL of the README of `owner`/`name`.
pub open spec fn readme_url(owner: Seq<char>, name: Seq<char>) -> Seq<char> {
    BASE_URL@ + "/"@ + repo_path(owner, name) + "/readme"@
}

/// `r` is the README request for `owner`/`name`, authorised by `token`.
pub open spec fn is_readme_request(r: HttpRequest, owner: Seq<char>, name: Seq<char>, token: Seq<char>) -> bool {
    &&& r.method == HttpMethod::Get
    &&& r.url@ == readme_url(owner, name)
    &&& headers_view(r.headers@) == base_headers(token).push(("Accept"@, RAW_MEDIA_TYPE@))
    &&& r.body@.len() == 0
}

/// `r` is what the basic information operation returns for `reply`: the
/// transport's failure, a decode failure, the `data` of the envelope as it
/// came, or `NotFound` where the envelope has no `data` (whatever its
/// `errors` hold).
pub open spec fn basic_info_outcome<T>(reply: GraphQLReply<T>, r: Result<T, ApiError>) -> bool {
    match reply {
        Err(t) => r == Err::<T, ApiError>(ApiError::Transport(t.message)),
        Ok(Err(_)) => r is Err && r->Err_0 is Decode,
        Ok(Ok(resp)) => match resp.data {
            Some(d) => r == Ok::<T, ApiError>(d),
            None => r == Err::<T, ApiError>(ApiError::NotFound),
        },
    }
}

/// `r` is what the README operation returns for `sent`: the transport's
/// failure, or the body of the answer read as text (UTF-8 decoded as it is),
/// whatever its status.
pub open spec fn readme_outcome(sent: Result<HttpResponse, TransportError>, r: Result<String, ApiError>) -> bool {
    match sent {
        Err(t) => r == Err::<String, ApiError>(ApiError::Transport(t.message)),
        Ok(resp) => {
            &&& r is Ok
            &&& r->Ok_0@ == lossy_utf8(resp.body@)
            &&& valid_utf8(resp.body@) ==> r->Ok_0@ == decode_utf8(resp.body@)
        },
    }
}

/// The operations on a repository.
pub trait BasicInfo {
    /// The owner of the repository.
    spec fn owner(&self) -> Seq<char>;

    /// The name of the repository.
    spec fn name(&self) -> Seq<char>;

    /// The credential that the requests carry.
    spec fn token(&self) -> Seq<char>;

    /// The GraphQL request that asks for the repository's basic information.
    fn basic_info_request(&self) -> (r: HttpRequest)
        ensures
            is_basic_info_request(r, self.owner(), self.name(), self.token()),
    ;

    /// The basic information, from what came of sending
    /// `basic_info_request` once.
    fn get_basic_info<T>(&self, reply: GraphQLReply<T>) -> (r: Result<T, ApiError>)
        ensures
            basic_info_outcome(reply, r),
    ;

    /// The REST request for the README as raw text.
    fn readme_request(&self) -> (r: HttpRequest)
        ensures
            is_readme_request(r, self.owner(), self.name(), self.token()),
    ;

    /// The README text, from what came of sending `readme_request` once.
    fn get_raw_readme(&self, sent: Result<HttpResponse, TransportError>) -> (r: Result<String, ApiError>)
        ensures
            readme_outcome(sent, r),
    ;
}

impl BasicInfo for RepoRequest {
    open spec fn owner(&self) -> Seq<char> {
        self.0.repo_owner@
    }

    open spec fn name(&self) -> Seq<char> {
        self.0.repo_name@
    }

    open spec fn token(&self) -> Seq<char> {
        self.1@
    }

    fn basic_info_request(&self) -> (r: HttpRequest) {
        let RepoRequest(repo, auth_token) = self;
        let variables = Variables::from(repo);
        graphql_request(query_body(&variables), auth_token.as_str())
    }

    fn get_basic_info<T>(&self, reply: GraphQLReply<T>) -> (r: Result<T, ApiError>) {
        let resp = query_graphql(reply)?;
        match resp.data {
            Some(d) => Ok(d),
            None => Err(ApiError::NotFound),
        }
    }

    fn readme_request(&self) -> (r: HttpRequest) {
        let RepoRequest(repo, auth_token) = self;
        let url = String::from_str(BASE_URL).concat("/").concat(repo.path().as_str()).concat("/readme");
        request(url.as_str(), HttpMethod::Get, auth_token.as_str()).header("Accept", RAW_MEDIA_TYPE)
    }

    fn get_raw_readme(&self, sent: Result<HttpResponse, TransportError>) -> (r: Result<String, ApiError>) {
        let body = received_body(sent)?;
        Ok(text_of(body.as_slice()))
    }
}

/// An envelope that carries data yields that data, field for field as it came.
pub proof fn lemma_data_passed_through<T>(resp: graphql_client::Response<T>, r: Result<T, ApiError>)
    requires
        resp.data is Some,
        basic_info_outcome(Ok(Ok(resp)), r),
    ensures
        r == Ok::<T, ApiError>(resp.data->0),
{
}

/// An envelope without data yields `NotFound`, not its field errors.
pub proof fn lemma_missing_data_not_found<T>(resp: graphql_client::Response<T>, r: Result<T, ApiError>)
    requires
        resp.data is None,
        basic_info_outcome(Ok(Ok(resp)), r),
    ensures
        r == Err::<T, ApiError>(ApiError::NotFound),
{
}

/// An answer that does not decode yields a decode failure, which is never
/// `NotFound`.
pub proof fn lemma_undecodable_is_decode_failure<T>(e: serde_json::Error, r: Result<T, ApiError>)
    requires
        basic_info_outcome(Ok(Err::<graphql_client::Response<T>, serde_json::Error>(e)), r),
    ensures
        r is Err,
        r->Err_0 is Decode,
        !(r->Err_0 is NotFound),
{
}

/// The README comes back as the very text whose UTF-8 bytes the answer held.
pub proof fn lemma_readme_text_round_trip(text: Seq<char>, resp: HttpResponse, r: Result<String, ApiError>)
    requires
        resp.body@ == encode_utf8(text),
        readme_outcome(Ok(resp), r),
    ensures
        r is Ok,
        r->Ok_0@ == text,
{
    encode_utf8_valid_utf8(text);
    encode_utf8_decode_utf8(text);
}

/// A request that gets no answer makes both operations fail with that
/// transport failure.
pub proof fn lemma_unanswered_is_transport_failure<T>(
    t: TransportError,
    info: Result<T, ApiError>,
    readme: Result<String, ApiError>,
)
    requires
        basic_info_outcome(Err::<Result<graphql_client::Response<T>, serde_json::Error>, TransportError>(t), info),
        readme_outcome(Err(t), readme),
    ensures
        info == Err::<T, ApiError>(ApiError::Transport(t.message)),
        readme == Err::<String, ApiError>(ApiError::Transport(t.message)),
{
}

} // verus!
