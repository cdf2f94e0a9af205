use vstd::prelude::*;

verus! {

#[verifier::external_type_specification]
#[verifier::external_body]
pub struct ExJsonError(serde_json::Error);

/// Errors reported by the client.
#[derive(Debug)]
pub enum ClientError {
    /// The service answered, but not with usable data; the text says why.
    DataError(String),
    /// A body that claims to be JSON could not be parsed as JSON.
    Json(serde_json::Error),
    /// The request parameters could not be encoded.
    Encode(String),
    /// The transport failed to complete the HTTP exchange.
    Http(String),
}

/// `r` failed with `ClientError::DataError` carrying exactly the text `msg`.
pub open spec fn is_data_error<T>(r: Result<T, ClientError>, msg: Seq<char>) -> bool {
    r matches Err(ClientError::DataError(s)) && s@ == msg
}

} // verus!
