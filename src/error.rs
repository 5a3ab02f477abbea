//! The errors that end one connection at the transport boundary.

use vstd::prelude::*;
use actix_web_actors::ws::ProtocolError;
use crate::text::prefixed;

verus! {

#[verifier::external_type_specification]
#[verifier::external_body]
pub struct ExProtocolError(ProtocolError);

#[verifier::external_type_specification]
#[verifier::external_body]
pub struct ExActixError(actix_web::Error);

/// A failure that ends the affected connection only.
#[derive(Debug)]
pub enum WebSocketError {
    /// Reserved: no current logic raises it.
    ClientAlreadyConnected,
    /// Reserved: no current logic raises it.
    MessageParsingError,
    /// A framing violation reported by the transport.
    ProtocolError(ProtocolError),
    /// A lower-level I/O or handshake failure.
    ActixError(actix_web::Error),
}

/// Relies on the `Display` impl of actix's websocket `ProtocolError`.
#[verifier::external_body]
fn describe_protocol_error(e: &ProtocolError) -> (r: String) {
    e.to_string()
}

/// Relies on the `Display` impl of `actix_web::Error`.
#[verifier::external_body]
fn describe_actix_error(e: &actix_web::Error) -> (r: String) {
    e.to_string()
}

impl WebSocketError {
    /// A one-line description, led by the kind of the failure; a wrapped
    /// error's own text follows its prefix (joined by `prefixed`).
    pub fn message(&self) -> (r: String)
        ensures
            match self {
                WebSocketError::ClientAlreadyConnected => r@ == "Client already connected"@,
                WebSocketError::MessageParsingError => r@ == "Message parsing error"@,
                WebSocketError::ProtocolError(_) => r@.take(16) == "Protocol error: "@ && r@.len() >= 16,
                WebSocketError::ActixError(_) => r@.take(13) == "Actix error: "@ && r@.len() >= 13,
            },
    {
        match self {
            WebSocketError::ClientAlreadyConnected => String::from_str("Client already connected"),
            WebSocketError::MessageParsingError => String::from_str("Message parsing error"),
            WebSocketError::ProtocolError(e) => {
                let detail = describe_protocol_error(e);
                let out = prefixed("Protocol error: ", detail.as_str());
                proof {
                    reveal_strlit("Protocol error: ");
                    assert(out@.take(16) =~= "Protocol error: "@);
                }
                out
            },
            WebSocketError::ActixError(e) => {
                let detail = describe_actix_error(e);
                let out = prefixed("Actix error: ", detail.as_str());
                proof {
                    reveal_strlit("Actix error: ");
                    assert(out@.take(13) =~= "Actix error: "@);
                }
                out
            },
        }
    }
}

impl From<ProtocolError> for WebSocketError {
    fn from(err: ProtocolError) -> (r: WebSocketError) {
        WebSocketError::ProtocolError(err)
    }
}

impl vstd::std_specs::convert::FromSpecImpl<ProtocolError> for WebSocketError {
    open spec fn obeys_from_spec() -> bool {
        true
    }

    open spec fn from_spec(v: ProtocolError) -> WebSocketError {
        WebSocketError::ProtocolError(v)
    }
}

impl From<actix_web::Error> for WebSocketError {
    fn from(err: actix_web::Error) -> (r: WebSocketError) {
        WebSocketError::ActixError(err)
    }
}

impl vstd::std_specs::convert::FromSpecImpl<actix_web::Error> for WebSocketError {
    open spec fn obeys_from_spec() -> bool {
        true
    }

    open spec fn from_spec(v: actix_web::Error) -> WebSocketError {
        WebSocketError::ActixError(v)
    }
}

} // verus!
