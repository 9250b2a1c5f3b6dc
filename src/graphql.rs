//! The one GraphQL query of this library: its request body, the request that
//! carries it, and the decoded reply.

use vstd::prelude::*;
use vstd::string::*;
use vstd::utf8::encode_utf8;

use crate::error::ApiError;
use crate::http::{base_headers, headers_view, request, HttpMethod, HttpRequest, TransportError};
use crate::json::{json_string, lemma_plain_text_unescaped, plain_text, push_bytes, push_json_string};

verus! {

/// The service's GraphQL endpoint.
pub const GRAPHQL_URL: &'static str = "https://api.github.com/graphql";

/// The name of the operation in `QUERY`.
pub const OPERATION_NAME: &'static str = "RepoBasicInfoQuery";

/// The query document, fixed when the library is built.
pub const QUERY: &'static str = "query RepoBasicInfoQuery($owner: String!, $name: String!) { repository(owner: $owner, name: $name) { name nameWithOwner description url homepageUrl stargazerCount forkCount isArchived isFork createdAt updatedAt primaryLanguage { name } licenseInfo { name } owner { login } } }";

/// The variables of the query.
#[derive(Clone, Debug)]
pub struct Variables {
    pub name: String,
    pub owner: String,
}

/// The `variables` member of the request body: the name, then the owner, each
/// a JSON string of its UTF-8 text.
pub open spec fn variables_json(owner: Seq<char>, name: Seq<char>) -> Seq<u8> {
    encode_utf8("\"variables\":{\"name\":"@)
        + json_string(encode_utf8(name))
        + encode_utf8(",\"owner\":"@)
        + json_string(encode_utf8(owner))
        + encode_utf8("}"@)
}

/// The `operationName` member of the request body.
pub open spec fn operation_name_json() -> Seq<u8> {
    encode_utf8("\"operationName\":"@) + json_string(encode_utf8(OPERATION_NAME@))
}

/// The request body for the query with owner `owner` and name `name`:
/// `{"variables":{"name":..,"owner":..},"query":..,"operationName":..}`.
pub open spec fn query_body_bytes(owner: Seq<char>, name: Seq<char>) -> Seq<u8> {
    encode_utf8("{"@)
        + variables_json(owner, name)
        + encode_utf8(",\"query\":"@)
        + json_string(encode_utf8(QUERY@))
        + encode_utf8(","@)
        + operation_name_json()
        + encode_utf8("}"@)
}

/// True when `needle` occurs in `hay` as a run of consecutive bytes.
pub open spec fn contains(hay: Seq<u8>, needle: Seq<u8>) -> bool {
    exists|i: int| 0 <= i && i + needle.len() <= hay.len() && #[trigger] hay.subrange(i, i + needle.len()) == needle
}

/// Serialises the query with its variables as the JSON body of a request.
pub fn query_body(variables: &Variables) -> (r: Vec<u8>)
    ensures
        r@ == query_body_bytes(variables.owner@, variables.name@),
{
    let mut out: Vec<u8> = Vec::new();
    push_bytes(&mut out, "{".as_bytes());
    push_bytes(&mut out, "\"variables\":{\"name\":".as_bytes());
    push_json_string(&mut out, variables.name.as_str().as_bytes());
    push_bytes(&mut out, ",\"owner\":".as_bytes());
    push_json_string(&mut out, variables.owner.as_str().as_bytes());
    push_bytes(&mut out, "}".as_bytes());
    push_bytes(&mut out, ",\"query\":".as_bytes());
    push_json_string(&mut out, QUERY.as_bytes());
    push_bytes(&mut out, ",".as_bytes());
    push_bytes(&mut out, "\"operationName\":".as_bytes());
    push_json_string(&mut out, OPERATION_NAME.as_bytes());
    push_bytes(&mut out, "}".as_bytes());
    assert(out@ =~= query_body_bytes(variables.owner@, variables.name@));
    out
}

/// For every owner and name, the request body holds the `variables` member
/// with both of them and the fixed operation name; an owner or name whose text
/// needs no escape stands in it between quotes exactly as given.
pub proof fn lemma_query_body_members(owner: Seq<char>, name: Seq<char>)
    ensures
        contains(query_body_bytes(owner, name), variables_json(owner, name)),
        contains(query_body_bytes(owner, name), operation_name_json()),
        plain_text(encode_utf8(owner)) && plain_text(encode_utf8(name)) ==> variables_json(owner, name)
            == encode_utf8("\"variables\":{\"name\":"@) + seq![0x22u8] + encode_utf8(name) + seq![0x22u8]
            + encode_utf8(",\"owner\":"@) + seq![0x22u8] + encode_utf8(owner) + seq![0x22u8] + encode_utf8(
            "}"@,
        ),
{
    let body = query_body_bytes(owner, name);
    let open = encode_utf8("{"@);
    let vars = variables_json(owner, name);
    let op = operation_name_json();
    let before_op = open + vars + encode_utf8(",\"query\":"@) + json_string(encode_utf8(QUERY@)) + encode_utf8(
        ","@,
    );
    assert(body.subrange(open.len() as int, (open.len() + vars.len()) as int) =~= vars);
    assert(body.subrange(before_op.len() as int, (before_op.len() + op.len()) as int) =~= op);
    if plain_text(encode_utf8(owner)) && plain_text(encode_utf8(name)) {
        lemma_plain_text_unescaped(encode_utf8(owner));
        lemma_plain_text_unescaped(encode_utf8(name));
        assert(vars =~= encode_utf8("\"variables\":{\"name\":"@) + seq![0x22u8] + encode_utf8(name) + seq![0x22u8]
            + encode_utf8(",\"owner\":"@) + seq![0x22u8] + encode_utf8(owner) + seq![0x22u8] + encode_utf8(
            "}"@,
        ));
    }
}

/// The headers of a GraphQL request authorised by `token`.
pub open spec fn graphql_headers(token: Seq<char>) -> Seq<(Seq<char>, Seq<char>)> {
    base_headers(token).push(("Content-Type"@, "application/json"@))
}

/// A POST of `body` to the GraphQL endpoint, authorised by `token`.
pub fn graphql_request(body: Vec<u8>, token: &str) -> (r: HttpRequest)
    ensures
        r.method == HttpMethod::Post,
        r.url@ == GRAPHQL_URL@,
        headers_view(r.headers@) == graphql_headers(token@),
        r.body@ == body@,
{
    request(GRAPHQL_URL, HttpMethod::Post, token).header("Content-Type", "application/json").with_body(
        body,
    )
}

/// What came of sending a GraphQL request once: no answer, an answer that
/// would not decode, or the decoded envelope.
pub type GraphQLReply<T> = Result<Result<graphql_client::Response<T>, serde_json::Error>, TransportError>;

/// The envelope of a GraphQL reply, passed on whole (its `errors` too); or the
/// transport's failure; or a decode failure with the decoder's description.
pub fn query_graphql<T>(reply: GraphQLReply<T>) -> (r: Result<graphql_client::Response<T>, ApiError>)
    ensures
        match reply {
            Err(t) => r == Err::<graphql_client::Response<T>, ApiError>(ApiError::Transport(t.message)),
            Ok(Err(_)) => r is Err && r->Err_0 is Decode,
            Ok(Ok(resp)) => r == Ok::<graphql_client::Response<T>, ApiError>(resp),
        },
{
    match reply {
        Err(t) => Err(ApiError::Transport(t.message)),
        Ok(Err(e)) => Err(ApiError::Decode(e.to_string())),
        Ok(Ok(resp)) => Ok(resp),
    }
}

} // verus!
