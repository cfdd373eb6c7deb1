//! How a request can fail.

use vstd::prelude::*;

verus! {

/// A failure that is reported to the client.
#[derive(Clone, Debug, PartialEq)]
pub enum GatewayError {
    /// The request cannot be served as it stands: malformed, or the gateway
    /// holds no credentials for the upstream.
    BadRequest { msg: String },
    /// The upstream refused or failed the request.
    BadGateway { msg: String },
    /// The network failed.
    Transport { msg: String },
}

/// The mathematical model of a [`GatewayError`].
pub enum ErrorModel {
    BadRequest { msg: Seq<char> },
    BadGateway { msg: Seq<char> },
    Transport { msg: Seq<char> },
}

impl DeepView for GatewayError {
    type V = ErrorModel;

    open spec fn deep_view(&self) -> ErrorModel {
        match *self {
            GatewayError::BadRequest { msg } => ErrorModel::BadRequest { msg: msg@ },
            GatewayError::BadGateway { msg } => ErrorModel::BadGateway { msg: msg@ },
            GatewayError::Transport { msg } => ErrorModel::Transport { msg: msg@ },
        }
    }
}

impl GatewayError {
    /// The message of the failure.
    pub fn message(&self) -> (m: String)
        ensures
            m@ == match self.deep_view() {
                ErrorModel::BadRequest { msg } => msg,
                ErrorModel::BadGateway { msg } => msg,
                ErrorModel::Transport { msg } => msg,
            },
    {
        match self {
            GatewayError::BadRequest { msg } => msg.clone(),
            GatewayError::BadGateway { msg } => msg.clone(),
            GatewayError::Transport { msg } => msg.clone(),
        }
    }

    /// The HTTP status that reports the failure: 400, 502 or 500.
    pub fn status(&self) -> (code: u16)
        ensures
            code == match self.deep_view() {
                ErrorModel::BadRequest { .. } => 400u16,
                ErrorModel::BadGateway { .. } => 502u16,
                ErrorModel::Transport { .. } => 500u16,
            },
    {
        match self {
            GatewayError::BadRequest { .. } => 400,
            GatewayError::BadGateway { .. } => 502,
            GatewayError::Transport { .. } => 500,
        }
    }
}

} // verus!
