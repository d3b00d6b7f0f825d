//! The error taxonomy, and the rule that tells a successful reply from
//! an error envelope.

use vstd::prelude::*;
use vstd::string::*;
use crate::outside::url_error_message;

verus! {

/// The error envelope that the service sends in place of an entity.
#[derive(Clone, Debug, PartialEq, Eq)]
pub struct ApiError {
    /// The type of error.
    pub error: String,
    /// The description of the error.
    pub error_description: Option<String>,
}

/// Everything that can go wrong between a call and its decoded reply.
#[derive(Debug, PartialEq, Eq)]
pub enum Error {
    /// The service answered with a decodable error envelope.
    Api(ApiError),
    /// The body was neither the expected entity nor an error envelope;
    /// the detail is the message of the failed decode.
    Serde(String),
    /// The transport failed; the detail is the transport's message.
    Http(String),
    /// The response body could not be drained.
    Io(String),
    /// The operation needs a client id, and the app is not registered.
    ClientIdRequired,
    /// The operation needs a client secret, and the app is not registered.
    ClientSecretRequired,
    /// The operation needs an access token, and the bundle holds none.
    AccessTokenRequired,
    /// A base URL or a constructed URL is malformed.
    Url(url::ParseError),
}

impl From<url::ParseError> for Error {
    fn from(from: url::ParseError) -> (r: Error)
        ensures
            r == Error::Url(from),
    {
        Error::Url(from)
    }
}

impl vstd::std_specs::convert::FromSpecImpl<url::ParseError> for Error {
    open spec fn obeys_from_spec() -> bool {
        true
    }

    open spec fn from_spec(from: url::ParseError) -> Error {
        Error::Url(from)
    }
}

impl Error {
    /// What `description` states of its result: the text is fixed for
    /// every kind but the one that carries a foreign error, whose
    /// message is whatever the foreign crate prints.
    pub open spec fn description_is(&self, text: Seq<char>) -> bool {
        match self {
            Error::Api(e) => text == e.error@,
            Error::Serde(detail) => text == detail@,
            Error::Http(detail) => text == detail@,
            Error::Io(detail) => text == detail@,
            Error::ClientIdRequired => text == "ClientIdRequired"@,
            Error::ClientSecretRequired => text == "ClientSecretRequired"@,
            Error::AccessTokenRequired => text == "AccessTokenRequired"@,
            Error::Url(_) => true,
        }
    }

    /// A short description of the error.
    pub fn description(&self) -> (r: String)
        ensures
            self.description_is(r@),
    {
        match self {
            Error::Api(e) => e.error.clone(),
            Error::Serde(detail) => detail.clone(),
            Error::Http(detail) => detail.clone(),
            Error::Io(detail) => detail.clone(),
            Error::ClientIdRequired => String::from_str("ClientIdRequired"),
            Error::ClientSecretRequired => String::from_str("ClientSecretRequired"),
            Error::AccessTokenRequired => String::from_str("AccessTokenRequired"),
            Error::Url(e) => url_error_message(e),
        }
    }
}

/// The outcome of the two-step decode, as a function of both attempts.
pub open spec fn decoded<T>(
    entity: Result<T, String>,
    envelope: Result<ApiError, String>,
) -> Result<T, Error> {
    match entity {
        Ok(t) => Ok(t),
        Err(first) => match envelope {
            Ok(e) => Err(Error::Api(e)),
            Err(_) => Err(Error::Serde(first)),
        },
    }
}

/// Settles a reply from the two attempts to decode its body: `entity`
/// as the expected entity, `envelope` as an error envelope, each with
/// the decoder's message where it failed. The entity
/// wins where both succeed; the envelope is the error where only it
/// succeeds; where both fail the error is the entity's decode failure.
pub fn decode<T>(
    entity: Result<T, String>,
    envelope: Result<ApiError, String>,
) -> (r: Result<T, Error>)
    ensures
        r == decoded(entity, envelope),
        entity is Ok ==> r is Ok && r->Ok_0 == entity->Ok_0,
        entity is Err && envelope is Ok ==> r is Err && r->Err_0 == Error::Api(envelope->Ok_0),
        entity is Err && envelope is Err ==> r is Err && r->Err_0 == Error::Serde(
            entity->Err_0,
        ),
{
    match entity {
        Ok(t) => Ok(t),
        Err(first) => match envelope {
            Ok(e) => Err(Error::Api(e)),
            Err(_) => Err(Error::Serde(first)),
        },
    }
}

} // verus!
