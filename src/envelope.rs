//! Types of the GraphQL and JSON crates that values of this library carry.

use vstd::prelude::*;

verus! {

/// Relies on `graphql_client::Error`, a field error of a GraphQL reply
/// (message, locations, path): carried through as the decoder produced it,
/// never read.
#[verifier::external_type_specification]
#[verifier::external_body]
pub struct ExGraphQLError(graphql_client::Error);

/// Relies on `serde_json::Value`, the type of a reply's extensions: carried
/// through, never read.
#[verifier::external_type_specification]
#[verifier::external_body]
pub struct ExJsonValue(serde_json::Value);

/// Relies on `serde_json::Error`, why a reply body could not be decoded: only
/// its `Display` text is used.
#[verifier::external_type_specification]
#[verifier::external_body]
pub struct ExJsonError(serde_json::Error);

/// Relies on `graphql_client::Response`, the envelope of a GraphQL reply: its
/// three public fields `data`, `errors` and `extensions`, each an `Option`.
#[verifier::external_type_specification]
#[verifier::reject_recursive_types(Data)]
pub struct ExResponse<Data>(graphql_client::Response<Data>);

} // verus!
