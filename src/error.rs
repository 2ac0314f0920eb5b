use vstd::prelude::*;

verus! {

/// The transport failure type of the outbound HTTP client, carried through
/// unchanged inside `ForgeError::RequestError`.
#[verifier::external_type_specification]
#[verifier::external_body]
pub struct ExTransportError(reqwest::Error);

/// Every failure a dispatched request can end in.
#[derive(Debug)]
pub enum ForgeError {
    /// Communicating with an identified forge failed; holds the transport detail.
    RequestError(reqwest::Error),
    /// No forge matched, or the matched forge does not offer the operation.
    EndpointUnavailable,
    /// A federated forge was targeted without a host and no flagship is configured.
    NoFlagshipInstance,
}

pub open spec fn status_of(e: ForgeError) -> u16 {
    match e {
        ForgeError::RequestError(_) => 500,
        ForgeError::EndpointUnavailable => 404,
        ForgeError::NoFlagshipInstance => 404,
    }
}

pub open spec fn message_of(e: ForgeError) -> Seq<char> {
    match e {
        ForgeError::RequestError(_) => "error communicating with the remote server"@,
        ForgeError::EndpointUnavailable => "endpoint not available for this forge"@,
        ForgeError::NoFlagshipInstance => "flagship instance unavailable for this forge"@,
    }
}

/// Server faults and configuration gaps are logged; a capability or
/// discovery miss is an expected outcome and is not.
pub open spec fn logged(e: ForgeError) -> bool {
    !(e is EndpointUnavailable)
}

/// The transport-level reply a caller receives for an error.
pub struct ErrorReply {
    pub status: u16,
    pub message: String,
}

impl ForgeError {
    /// HTTP status code for this error.
    pub fn status(&self) -> (r: u16)
        ensures
            r == status_of(*self),
    {
        match self {
            ForgeError::RequestError(_) => 500,
            ForgeError::EndpointUnavailable => 404,
            ForgeError::NoFlagshipInstance => 404,
        }
    }

    /// The fixed message shown to the caller; it never includes transport detail.
    pub fn message(&self) -> (r: String)
        ensures
            r@ == message_of(*self),
    {
        match self {
            ForgeError::RequestError(_) => String::from_str("error communicating with the remote server"),
            ForgeError::EndpointUnavailable => String::from_str("endpoint not available for this forge"),
            ForgeError::NoFlagshipInstance => String::from_str("flagship instance unavailable for this forge"),
        }
    }

    /// Whether this error is to be logged as a fault.
    pub fn is_logged(&self) -> (r: bool)
        ensures
            r == logged(*self),
    {
        match self {
            ForgeError::EndpointUnavailable => false,
            _ => true,
        }
    }

    /// Status and message together, as the boundary layer sends them.
    pub fn reply(&self) -> (r: ErrorReply)
        ensures
            r.status == status_of(*self),
            r.message@ == message_of(*self),
    {
        ErrorReply { status: self.status(), message: self.message() }
    }
}

impl From<reqwest::Error> for ForgeError {
    fn from(error: reqwest::Error) -> (r: ForgeError)
        ensures
            r == ForgeError::RequestError(error),
    {
        ForgeError::RequestError(error)
    }
}

impl vstd::std_specs::convert::FromSpecImpl<reqwest::Error> for ForgeError {
    open spec fn obeys_from_spec() -> bool {
        true
    }

    open spec fn from_spec(error: reqwest::Error) -> ForgeError {
        ForgeError::RequestError(error)
    }
}

/// Turns the outcome of an adapter's outbound call into the dispatcher's
/// result: a transport failure becomes `RequestError`, a success passes
/// through untouched. Nothing is retried here.
pub fn complete<T>(outcome: Result<T, reqwest::Error>) -> (r: Result<T, ForgeError>)
    ensures
        match outcome {
            Ok(v) => r == Ok::<T, ForgeError>(v),
            Err(e) => r == Err::<T, ForgeError>(ForgeError::RequestError(e)),
        },
{
    match outcome {
        Ok(v) => Ok(v),
        Err(e) => Err(ForgeError::from(e)),
    }
}

} // verus!
