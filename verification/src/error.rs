use vstd::prelude::*;
use vstd::string::StringExecFns;

verus! {

/// Everything a command can be rejected for. The host's own failures arrive
/// as plain text and are carried through: an address the host refused turns
/// into `InvalidAddress`, a denomination the host could not resolve into
/// `InvalidDenom`.
#[derive(Debug, Clone)]
pub enum TokenFactoryError {
    InvalidSubdenom { subdenom: String },
    InvalidDenom { denom: String, message: String },
    ZeroAmount,
    InvalidAddress { reason: String },
}

/// The human-readable text of each error.
pub open spec fn error_text(e: TokenFactoryError) -> Seq<char> {
    match e {
        TokenFactoryError::InvalidSubdenom { subdenom } => "Invalid subdenom: "@ + subdenom@,
        TokenFactoryError::InvalidDenom { denom, message } => "Invalid denom: "@ + denom@
            + " - "@ + message@,
        TokenFactoryError::ZeroAmount => "amount was zero, must be positive"@,
        TokenFactoryError::InvalidAddress { reason } => "Invalid address: "@ + reason@,
    }
}

impl TokenFactoryError {
    /// The error as one descriptive line.
    pub fn text(&self) -> (s: String)
        ensures
            s@ == error_text(*self),
    {
        match self {
            TokenFactoryError::InvalidSubdenom { subdenom } => {
                let mut s = "Invalid subdenom: ".to_owned();
                s.append(subdenom.as_str());
                s
            },
            TokenFactoryError::InvalidDenom { denom, message } => {
                let mut s = "Invalid denom: ".to_owned();
                s.append(denom.as_str());
                s.append(" - ");
                s.append(message.as_str());
                s
            },
            TokenFactoryError::ZeroAmount => "amount was zero, must be positive".to_owned(),
            TokenFactoryError::InvalidAddress { reason } => {
                let mut s = "Invalid address: ".to_owned();
                s.append(reason.as_str());
                s
            },
        }
    }
}

} // verus!
