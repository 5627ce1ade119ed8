pub mod action;
pub mod contract;
pub mod denom;
pub mod error;
pub mod json;
pub mod msg;
pub mod state;
pub mod strutil;

pub use crate::action::{Action, Attribute, Response};
pub use crate::contract::{
    burn_tokens, change_admin, create_denom, execute, force_transfer, get_denom, instantiate,
    mint_tokens, query, resume_address_check, resume_resolution, PendingAction, Step,
};
pub use crate::denom::{apply_resolution, split_denom, validate_denom, DenomParts};
pub use crate::error::TokenFactoryError;
pub use crate::json::{action_to_json, get_denom_response_to_json};
pub use crate::msg::{ExecuteMsg, GetDenomResponse, InstantiateMsg, QueryMsg};
pub use crate::state::State;
