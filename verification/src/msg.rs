use vstd::prelude::*;

verus! {

/// Initialization carries no fields; the owner is the sender itself.
#[derive(Debug, Clone, PartialEq)]
pub struct InstantiateMsg {}

/// The five administrative commands the contract accepts.
#[derive(Debug, Clone, PartialEq)]
pub enum ExecuteMsg {
    CreateDenom { subdenom: String },
    ChangeAdmin { denom: String, new_admin_address: String },
    MintTokens {
        denom: String,
        amount: u128,
        /// Recipient of the minted tokens; the contract's own address when absent.
        mint_to_address: Option<String>,
    },
    BurnTokens {
        denom: String,
        amount: u128,
        /// Address to burn from; the contract's own balance when absent.
        burn_from_address: Option<String>,
    },
    ForceTransfer {
        denom: String,
        amount: u128,
        from_address: String,
        to_address: String,
    },
}

/// The one read query: resolve a canonical denomination.
#[derive(Debug, Clone, PartialEq)]
pub enum QueryMsg {
    GetDenom { creator_address: String, subdenom: String },
}

#[derive(Debug, Clone, PartialEq)]
pub struct GetDenomResponse {
    pub denom: String,
}

} // verus!
