use vstd::prelude::*;
use crate::action::{action_response, is_method_response, Action, Attribute, Response};
use crate::denom::{denom_structure_ok, is_denom_error, slash_parts, validate_denom};
use crate::error::TokenFactoryError;
use crate::msg::{ExecuteMsg, GetDenomResponse, InstantiateMsg, QueryMsg};
use crate::state::State;

verus! {

/// A command whose local checks have passed so far, waiting on the host:
/// the denomination still to validate and the action that will be emitted
/// once it passes.
#[derive(Debug, Clone)]
pub struct PendingAction {
    pub denom: String,
    pub action: Action,
}

/// What dispatch decided: either the finished response, or the one host
/// call it needs next, together with everything needed to go on afterwards.
#[derive(Debug, Clone)]
pub enum Step {
    Done { response: Response },
    /// Ask the host whether `address` is well-formed, then hand the verdict
    /// to `resume_address_check`.
    CheckAddress { address: String, then: PendingAction },
    /// Ask the host's resolver about this creator and subdenomination, then
    /// hand the outcome to `resume_resolution`.
    Resolve { creator_address: String, subdenom: String, then: PendingAction },
}

/// The outcome owed once only the denomination remains to check: the local
/// denomination checks either fail with their exact error, or the host's
/// resolver is asked about the creator and subdenomination segments, with
/// `action` kept for afterwards.
pub open spec fn is_resolution_request(
    denom: String,
    action: Action,
    r: Result<Step, TokenFactoryError>,
) -> bool {
    if denom_structure_ok(denom@) {
        r matches Ok(Step::Resolve { creator_address, subdenom, then }) && creator_address@
            == slash_parts(denom@)[1] && subdenom@ == slash_parts(denom@)[2] && then.denom == denom
            && then.action == action
    } else {
        r matches Err(e) && is_denom_error(denom@, e)
    }
}

pub open spec fn create_denom_spec(subdenom: String, r: Result<Step, TokenFactoryError>) -> bool {
    if subdenom@.len() == 0 {
        r matches Err(TokenFactoryError::InvalidSubdenom { subdenom: s }) && s == subdenom
    } else {
        r matches Ok(Step::Done { response }) && is_method_response(
            response,
            Action::CreateDenom { subdenom },
        )
    }
}

pub open spec fn change_admin_spec(
    denom: String,
    new_admin_address: String,
    r: Result<Step, TokenFactoryError>,
) -> bool {
    r matches Ok(Step::CheckAddress { address, then }) && address == new_admin_address
        && then.denom == denom && then.action == (Action::ChangeAdmin {
        denom,
        new_admin_address,
    })
}

pub open spec fn mint_tokens_spec(
    contract_address: String,
    denom: String,
    amount: u128,
    mint_to_address: Option<String>,
    r: Result<Step, TokenFactoryError>,
) -> bool {
    if amount == 0 {
        r matches Err(TokenFactoryError::ZeroAmount)
    } else {
        match mint_to_address {
            Some(addr) => r matches Ok(Step::CheckAddress { address, then }) && address == addr
                && then.denom == denom && then.action == (Action::MintTokens {
                denom,
                amount,
                mint_to_address: addr,
            }),
            None => is_resolution_request(
                denom,
                Action::MintTokens { denom, amount, mint_to_address: contract_address },
                r,
            ),
        }
    }
}

pub open spec fn burn_tokens_spec(
    denom: String,
    amount: u128,
    burn_from_address: Option<String>,
    r: Result<Step, TokenFactoryError>,
) -> bool {
    if amount == 0 {
        r matches Err(TokenFactoryError::ZeroAmount)
    } else {
        match burn_from_address {
            Some(addr) => r matches Ok(Step::CheckAddress { address, then }) && address == addr
                && then.denom == denom && then.action == (Action::BurnTokens {
                denom,
                amount,
                burn_from_address: Some(addr),
            }),
            None => is_resolution_request(
                denom,
                Action::BurnTokens { denom, amount, burn_from_address: None },
                r,
            ),
        }
    }
}

pub open spec fn force_transfer_spec(
    denom: String,
    amount: u128,
    from_address: String,
    to_address: String,
    r: Result<Step, TokenFactoryError>,
) -> bool {
    if amount == 0 {
        r matches Err(TokenFactoryError::ZeroAmount)
    } else {
        is_resolution_request(
            denom,
            Action::ForceTransfer { denom, amount, from_address, to_address },
            r,
        )
    }
}

pub open spec fn execute_spec(
    contract_address: String,
    msg: ExecuteMsg,
    r: Result<Step, TokenFactoryError>,
) -> bool {
    match msg {
        ExecuteMsg::CreateDenom { subdenom } => create_denom_spec(subdenom, r),
        ExecuteMsg::ChangeAdmin { denom, new_admin_address } => change_admin_spec(
            denom,
            new_admin_address,
            r,
        ),
        ExecuteMsg::MintTokens { denom, amount, mint_to_address } => mint_tokens_spec(
            contract_address,
            denom,
            amount,
            mint_to_address,
            r,
        ),
        ExecuteMsg::BurnTokens { denom, amount, burn_from_address } => burn_tokens_spec(
            denom,
            amount,
            burn_from_address,
            r,
        ),
        ExecuteMsg::ForceTransfer { denom, amount, from_address, to_address } =>
            force_transfer_spec(
            denom,
            amount,
            from_address,
            to_address,
            r,
        ),
    }
}

/// Runs the local denomination checks of a pending action and, when they
/// pass, asks for the resolver's verdict on the remaining two segments.
fn denom_step(pending: PendingAction) -> (r: Result<Step, TokenFactoryError>)
    ensures
        is_resolution_request(pending.denom, pending.action, r),
{
    match validate_denom(pending.denom.as_str()) {
        Err(e) => Err(e),
        Ok(parts) => Ok(
            Step::Resolve {
                creator_address: parts.creator_address,
                subdenom: parts.subdenom,
                then: pending,
            },
        ),
    }
}

/// A new denomination only needs a non-empty subdenomination; no host
/// check is involved.
pub fn create_denom(subdenom: String) -> (r: Result<Step, TokenFactoryError>)
    ensures
        create_denom_spec(subdenom, r),
{
    if subdenom.as_str().is_empty() {
        Err(TokenFactoryError::InvalidSubdenom { subdenom })
    } else {
        Ok(Step::Done { response: action_response(Action::CreateDenom { subdenom }) })
    }
}

/// An admin change first has the host check the new admin's address, then
/// validates the denomination.
pub fn change_admin(denom: String, new_admin_address: String) -> (r: Result<
    Step,
    TokenFactoryError,
>)
    ensures
        change_admin_spec(denom, new_admin_address, r),
{
    let address = new_admin_address.clone();
    Ok(
        Step::CheckAddress {
            address,
            then: PendingAction {
                denom: denom.clone(),
                action: Action::ChangeAdmin { denom, new_admin_address },
            },
        },
    )
}

/// A mint of zero is refused at once. A given recipient address is handed
/// to the host for a format check before the denomination is validated;
/// without one the tokens go to the contract's own address.
pub fn mint_tokens(
    contract_address: String,
    denom: String,
    amount: u128,
    mint_to_address: Option<String>,
) -> (r: Result<Step, TokenFactoryError>)
    ensures
        mint_tokens_spec(contract_address, denom, amount, mint_to_address, r),
{
    if amount == 0 {
        return Err(TokenFactoryError::ZeroAmount);
    }
    match mint_to_address {
        Some(addr) => {
            let address = addr.clone();
            Ok(
                Step::CheckAddress {
                    address,
                    then: PendingAction {
                        denom: denom.clone(),
                        action: Action::MintTokens { denom, amount, mint_to_address: addr },
                    },
                },
            )
        },
        None => denom_step(
            PendingAction {
                denom: denom.clone(),
                action: Action::MintTokens { denom, amount, mint_to_address: contract_address },
            },
        ),
    }
}

/// A burn of zero is refused at once. With a source address the host
/// checks its format first and the burn draws on that address; without one
/// the contract burns from its own balance.
pub fn burn_tokens(denom: String, amount: u128, burn_from_address: Option<String>) -> (r: Result<
    Step,
    TokenFactoryError,
>)
    ensures
        burn_tokens_spec(denom, amount, burn_from_address, r),
{
    if amount == 0 {
        return Err(TokenFactoryError::ZeroAmount);
    }
    match burn_from_address {
        Some(addr) => {
            let address = addr.clone();
            Ok(
                Step::CheckAddress {
                    address,
                    then: PendingAction {
                        denom: denom.clone(),
                        action: Action::BurnTokens {
                            denom,
                            amount,
                            burn_from_address: Some(addr),
                        },
                    },
                },
            )
        },
        None => denom_step(
            PendingAction {
                denom: denom.clone(),
                action: Action::BurnTokens { denom, amount, burn_from_address: None },
            },
        ),
    }
}

/// A forced transfer of zero is refused at once; beyond that only the
/// denomination is validated — the source and destination addresses are
/// deliberately not format-checked.
pub fn force_transfer(
    denom: String,
    amount: u128,
    from_address: String,
    to_address: String,
) -> (r: Result<Step, TokenFactoryError>)
    ensures
        force_transfer_spec(denom, amount, from_address, to_address, r),
{
    if amount == 0 {
        return Err(TokenFactoryError::ZeroAmount);
    }
    denom_step(
        PendingAction {
            denom: denom.clone(),
            action: Action::ForceTransfer { denom, amount, from_address, to_address },
        },
    )
}

/// Dispatches one command: every check that can be decided locally is
/// decided here, in the commands' own order, and the first host call
/// needed, if any, is named in the returned step.
pub fn execute(contract_address: String, msg: ExecuteMsg) -> (r: Result<Step, TokenFactoryError>)
    ensures
        execute_spec(contract_address, msg, r),
{
    match msg {
        ExecuteMsg::CreateDenom { subdenom } => create_denom(subdenom),
        ExecuteMsg::ChangeAdmin { denom, new_admin_address } => change_admin(
            denom,
            new_admin_address,
        ),
        ExecuteMsg::MintTokens { denom, amount, mint_to_address } => mint_tokens(
            contract_address,
            denom,
            amount,
            mint_to_address,
        ),
        ExecuteMsg::BurnTokens { denom, amount, burn_from_address } => burn_tokens(
            denom,
            amount,
            burn_from_address,
        ),
        ExecuteMsg::ForceTransfer { denom, amount, from_address, to_address } => force_transfer(
            denom,
            amount,
            from_address,
            to_address,
        ),
    }
}

/// Takes the host's verdict on the address it was asked to check: a
/// refusal ends the command with `InvalidAddress` carrying the host's own
/// words; approval moves on to the denomination.
pub fn resume_address_check(then: PendingAction, outcome: Result<(), String>) -> (r: Result<
    Step,
    TokenFactoryError,
>)
    ensures
        outcome is Ok ==> is_resolution_request(then.denom, then.action, r),
        outcome matches Err(reason) ==> r matches Err(e) && (e
            matches TokenFactoryError::InvalidAddress { reason: held } && held == reason),
{
    match outcome {
        Ok(_) => denom_step(then),
        Err(reason) => Err(TokenFactoryError::InvalidAddress { reason }),
    }
}

/// Takes the resolver's verdict on the denomination: success finishes the
/// command with its one action and its `("method", ...)` attribute; a
/// refusal ends it with `InvalidDenom` carrying the resolver's own words.
pub fn resume_resolution(then: PendingAction, outcome: Result<String, String>) -> (r: Result<
    Response,
    TokenFactoryError,
>)
    ensures
        outcome is Ok ==> (r matches Ok(response) && is_method_response(response, then.action)),
        outcome matches Err(reason) ==> r matches Err(e) && (e
            matches TokenFactoryError::InvalidDenom { denom, message } && denom == then.denom
            && message == reason),
{
    match outcome {
        Ok(_resolved) => Ok(action_response(then.action)),
        Err(reason) => Err(TokenFactoryError::InvalidDenom { denom: then.denom, message: reason }),
    }
}

/// Records the sender as owner and reports the initialization; nothing is
/// sent to the ledger.
pub fn instantiate(sender: String, _msg: InstantiateMsg) -> (r: (State, Response))
    ensures
        r.0.owner == sender,
        r.1.messages@.len() == 0,
        r.1.attributes@.len() == 2,
        r.1.attributes@[0].key@ == "method"@,
        r.1.attributes@[0].value@ == "instantiate"@,
        r.1.attributes@[1].key@ == "owner"@,
        r.1.attributes@[1].value == sender,
{
    let method_attr = Attribute { key: "method".to_owned(), value: "instantiate".to_owned() };
    let owner_attr = Attribute { key: "owner".to_owned(), value: sender.clone() };
    let response = Response { messages: Vec::new(), attributes: vec![method_attr, owner_attr] };
    (State { owner: sender }, response)
}

/// The one read query delegates to the host's resolver: this names the
/// creator and subdenomination to resolve.
pub fn query(msg: QueryMsg) -> (r: (String, String))
    ensures
        msg matches QueryMsg::GetDenom { creator_address, subdenom } && r.0 == creator_address
            && r.1 == subdenom,
{
    match msg {
        QueryMsg::GetDenom { creator_address, subdenom } => (creator_address, subdenom),
    }
}

/// Wraps what the resolver answered; a resolver failure is fatal to the
/// query and never reaches this point.
pub fn get_denom(denom: String) -> (r: GetDenomResponse)
    ensures
        r.denom == denom,
{
    GetDenomResponse { denom }
}

/// A zero amount is rejected outright: for a mint, burn or force transfer
/// of nothing, dispatch answers `ZeroAmount` and never asks the host to
/// check any address or denomination, whatever the other fields hold.
pub proof fn lemma_zero_amount_first(
    contract_address: String,
    msg: ExecuteMsg,
    r: Result<Step, TokenFactoryError>,
)
    requires
        execute_spec(contract_address, msg, r),
        match msg {
            ExecuteMsg::MintTokens { amount, .. } => amount == 0,
            ExecuteMsg::BurnTokens { amount, .. } => amount == 0,
            ExecuteMsg::ForceTransfer { amount, .. } => amount == 0,
            _ => false,
        },
    ensures
        r matches Err(TokenFactoryError::ZeroAmount),
{
}

/// Minting without a recipient mints to the contract's own address; a
/// given recipient is kept verbatim and is first handed to the host for
/// its format check.
pub proof fn lemma_mint_recipient(
    contract_address: String,
    denom: String,
    amount: u128,
    mint_to_address: Option<String>,
    r: Result<Step, TokenFactoryError>,
)
    requires
        mint_tokens_spec(contract_address, denom, amount, mint_to_address, r),
        amount != 0,
    ensures
        mint_to_address is None ==> (r matches Ok(Step::Resolve { then, .. }) ==> then.action
            == (Action::MintTokens { denom, amount, mint_to_address: contract_address })),
        mint_to_address matches Some(addr) ==> r matches Ok(Step::CheckAddress { address, then })
            && address == addr && then.action == (Action::MintTokens {
            denom,
            amount,
            mint_to_address: addr,
        }),
{
}

} // verus!
