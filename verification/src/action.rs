use vstd::prelude::*;
use vstd::string::StringExecFns;

verus! {

/// The one outbound descriptor an accepted command produces, to be executed
/// by the host's ledger authority. It mirrors the commands and carries only
/// validated fields. A created denomination is always announced without
/// metadata.
#[derive(Debug, Clone, PartialEq)]
pub enum Action {
    CreateDenom { subdenom: String },
    ChangeAdmin { denom: String, new_admin_address: String },
    MintTokens { denom: String, amount: u128, mint_to_address: String },
    BurnTokens {
        denom: String,
        amount: u128,
        /// Absent when the contract burns from its own balance; present only
        /// for a burn from a specific address, which needs the host's
        /// burn-from capability.
        burn_from_address: Option<String>,
    },
    ForceTransfer { denom: String, amount: u128, from_address: String, to_address: String },
}

/// The method name each action is announced under in the response's
/// attribute.
pub open spec fn method_name(a: Action) -> Seq<char> {
    match a {
        Action::CreateDenom { .. } => "create_denom"@,
        Action::ChangeAdmin { .. } => "change_admin"@,
        Action::MintTokens { .. } => "mint_tokens"@,
        Action::BurnTokens { .. } => "burn_tokens"@,
        Action::ForceTransfer { .. } => "force_transfer_tokens"@,
    }
}

/// One key/value pair a response reports to the host.
#[derive(Debug, Clone, PartialEq)]
pub struct Attribute {
    pub key: String,
    pub value: String,
}

/// What a successful call hands back to the host: the actions to execute
/// and the descriptive attributes.
#[derive(Debug, Clone, PartialEq)]
pub struct Response {
    pub messages: Vec<Action>,
    pub attributes: Vec<Attribute>,
}

/// A response that carries exactly the one action and the one
/// `("method", ...)` attribute naming it.
pub open spec fn is_method_response(r: Response, a: Action) -> bool {
    &&& r.messages@ == seq![a]
    &&& r.attributes@.len() == 1
    &&& r.attributes@[0].key@ == "method"@
    &&& r.attributes@[0].value@ == method_name(a)
}

fn method_name_string(a: &Action) -> (s: String)
    ensures
        s@ == method_name(*a),
{
    match a {
        Action::CreateDenom { .. } => "create_denom".to_owned(),
        Action::ChangeAdmin { .. } => "change_admin".to_owned(),
        Action::MintTokens { .. } => "mint_tokens".to_owned(),
        Action::BurnTokens { .. } => "burn_tokens".to_owned(),
        Action::ForceTransfer { .. } => "force_transfer_tokens".to_owned(),
    }
}

/// Wraps one accepted action in its response.
pub fn action_response(action: Action) -> (r: Response)
    ensures
        is_method_response(r, action),
{
    let value = method_name_string(&action);
    let attribute = Attribute { key: "method".to_owned(), value };
    let ghost a = action;
    let mut messages: Vec<Action> = Vec::new();
    messages.push(action);
    let mut attributes: Vec<Attribute> = Vec::new();
    attributes.push(attribute);
    proof {
        assert(messages@ =~= seq![a]);
    }
    Response { messages, attributes }
}

} // verus!
