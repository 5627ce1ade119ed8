use vstd::prelude::*;
use vstd::string::{StrSliceExecFns, StringExecFns};
use crate::action::Action;
use crate::msg::GetDenomResponse;
use crate::strutil::{dec_rep, dec_string, push_char};

verus! {

/// The lower-case hexadecimal digit for a value below sixteen.
pub open spec fn hex_digit(d: nat) -> char {
    if d == 0 {
        '0'
    } else if d == 1 {
        '1'
    } else if d == 2 {
        '2'
    } else if d == 3 {
        '3'
    } else if d == 4 {
        '4'
    } else if d == 5 {
        '5'
    } else if d == 6 {
        '6'
    } else if d == 7 {
        '7'
    } else if d == 8 {
        '8'
    } else if d == 9 {
        '9'
    } else if d == 10 {
        'a'
    } else if d == 11 {
        'b'
    } else if d == 12 {
        'c'
    } else if d == 13 {
        'd'
    } else if d == 14 {
        'e'
    } else {
        'f'
    }
}

/// How one character appears inside a JSON string: quote and backslash get
/// a backslash escape, control characters a \u00.. escape, and everything
/// else stands as it is.
pub open spec fn escaped_char(c: char) -> Seq<char> {
    if c == '"' {
        seq!['\\', '"']
    } else if c == '\\' {
        seq!['\\', '\\']
    } else if (c as int) < 32 {
        let hi = hex_digit((c as int / 16) as nat);
        let lo = hex_digit((c as int % 16) as nat);
        seq!['\\', 'u', '0', '0', hi, lo]
    } else {
        seq![c]
    }
}

/// The body of a JSON string: every character escaped in place.
pub open spec fn escaped(s: Seq<char>) -> Seq<char>
    decreases s.len(),
{
    if s.len() == 0 {
        Seq::empty()
    } else {
        escaped(s.drop_last()) + escaped_char(s.last())
    }
}

/// A complete JSON string: the escaped body between double quotes.
pub open spec fn quoted(s: Seq<char>) -> Seq<char> {
    seq!['"'] + escaped(s) + seq!['"']
}

/// The wire form of each action, as the host expects it: one object under
/// the command's own tag, amounts as decimal strings, and an optional
/// member left out entirely when it is absent.
pub open spec fn json_of_action(a: Action) -> Seq<char> {
    match a {
        Action::CreateDenom { subdenom } => "{\"create_denom\":{\"subdenom\":"@ + quoted(
            subdenom@,
        ) + "}}"@,
        Action::ChangeAdmin { denom, new_admin_address } => "{\"change_admin\":{\"denom\":"@
            + quoted(denom@) + ",\"new_admin_address\":"@ + quoted(new_admin_address@) + "}}"@,
        Action::MintTokens { denom, amount, mint_to_address } => "{\"mint_tokens\":{\"denom\":"@
            + quoted(denom@) + ",\"amount\":"@ + quoted(dec_rep(amount as nat))
            + ",\"mint_to_address\":"@ + quoted(mint_to_address@) + "}}"@,
        Action::BurnTokens { denom, amount, burn_from_address } => "{\"burn_tokens\":{\"denom\":"@
            + quoted(denom@) + ",\"amount\":"@ + quoted(dec_rep(amount as nat)) + (
        match burn_from_address {
            Some(addr) => ",\"burn_from_address\":"@ + quoted(addr@),
            None => Seq::empty(),
        }) + "}}"@,
        Action::ForceTransfer { denom, amount, from_address, to_address } =>
            "{\"force_transfer\":{\"denom\":"@ + quoted(denom@) + ",\"amount\":"@ + quoted(
            dec_rep(amount as nat),
        ) + ",\"from_address\":"@ + quoted(from_address@) + ",\"to_address\":"@ + quoted(
            to_address@,
        ) + "}}"@,
    }
}

/// The wire form of the query response.
pub open spec fn json_of_get_denom_response(r: GetDenomResponse) -> Seq<char> {
    "{\"denom\":"@ + quoted(r.denom@) + "}"@
}

fn hex_digit_char(d: u32) -> (c: char)
    requires
        d < 16,
    ensures
        c == hex_digit(d as nat),
{
    if d == 0 {
        '0'
    } else if d == 1 {
        '1'
    } else if d == 2 {
        '2'
    } else if d == 3 {
        '3'
    } else if d == 4 {
        '4'
    } else if d == 5 {
        '5'
    } else if d == 6 {
        '6'
    } else if d == 7 {
        '7'
    } else if d == 8 {
        '8'
    } else if d == 9 {
        '9'
    } else if d == 10 {
        'a'
    } else if d == 11 {
        'b'
    } else if d == 12 {
        'c'
    } else if d == 13 {
        'd'
    } else if d == 14 {
        'e'
    } else {
        'f'
    }
}

/// Appends `s` to `out` as one JSON string, quotes and escapes included.
fn append_quoted(out: &mut String, s: &str)
    ensures
        final(out)@ == old(out)@ + quoted(s@),
{
    push_char(out, '"');
    let len = s.unicode_len();
    let mut i: usize = 0;
    proof {
        assert(escaped(s@.subrange(0, 0)) =~= Seq::<char>::empty());
        assert(out@ =~= old(out)@ + seq!['"'] + escaped(s@.subrange(0, 0)));
    }
    while i < len
        invariant
            i <= len,
            len == s@.len(),
            out@ == old(out)@ + seq!['"'] + escaped(s@.subrange(0, i as int)),
        decreases len - i,
    {
        let c = s.get_char(i);
        let code: u32 = c as u32;
        if c == '"' {
            push_char(out, '\\');
            push_char(out, '"');
        } else if c == '\\' {
            push_char(out, '\\');
            push_char(out, '\\');
        } else if code < 32 {
            push_char(out, '\\');
            push_char(out, 'u');
            push_char(out, '0');
            push_char(out, '0');
            push_char(out, hex_digit_char(code / 16));
            push_char(out, hex_digit_char(code % 16));
        } else {
            push_char(out, c);
        }
        proof {
            let t = s@.subrange(0, i as int + 1);
            assert(t.drop_last() =~= s@.subrange(0, i as int));
            assert(t.last() == s@[i as int]);
            assert(out@ =~= old(out)@ + seq!['"'] + escaped(t));
        }
        i += 1;
    }
    push_char(out, '"');
    proof {
        assert(s@.subrange(0, len as int) =~= s@);
        assert(out@ =~= old(out)@ + quoted(s@));
    }
}

/// Renders one action in its wire form.
pub fn action_to_json(a: &Action) -> (s: String)
    ensures
        s@ == json_of_action(*a),
{
    let mut out = String::new();
    match a {
        Action::CreateDenom { subdenom } => {
            out.append("{\"create_denom\":{\"subdenom\":");
            append_quoted(&mut out, subdenom.as_str());
            out.append("}}");
        },
        Action::ChangeAdmin { denom, new_admin_address } => {
            out.append("{\"change_admin\":{\"denom\":");
            append_quoted(&mut out, denom.as_str());
            out.append(",\"new_admin_address\":");
            append_quoted(&mut out, new_admin_address.as_str());
            out.append("}}");
        },
        Action::MintTokens { denom, amount, mint_to_address } => {
            out.append("{\"mint_tokens\":{\"denom\":");
            append_quoted(&mut out, denom.as_str());
            out.append(",\"amount\":");
            let num = dec_string(*amount);
            append_quoted(&mut out, num.as_str());
            out.append(",\"mint_to_address\":");
            append_quoted(&mut out, mint_to_address.as_str());
            out.append("}}");
        },
        Action::BurnTokens { denom, amount, burn_from_address } => {
            out.append("{\"burn_tokens\":{\"denom\":");
            append_quoted(&mut out, denom.as_str());
            out.append(",\"amount\":");
            let num = dec_string(*amount);
            append_quoted(&mut out, num.as_str());
            match burn_from_address {
                Some(addr) => {
                    out.append(",\"burn_from_address\":");
                    append_quoted(&mut out, addr.as_str());
                },
                None => {},
            }
            out.append("}}");
        },
        Action::ForceTransfer { denom, amount, from_address, to_address } => {
            out.append("{\"force_transfer\":{\"denom\":");
            append_quoted(&mut out, denom.as_str());
            out.append(",\"amount\":");
            let num = dec_string(*amount);
            append_quoted(&mut out, num.as_str());
            out.append(",\"from_address\":");
            append_quoted(&mut out, from_address.as_str());
            out.append(",\"to_address\":");
            append_quoted(&mut out, to_address.as_str());
            out.append("}}");
        },
    }
    proof {
        assert(out@ =~= json_of_action(*a));
    }
    out
}

/// Renders the query response in its wire form.
pub fn get_denom_response_to_json(r: &GetDenomResponse) -> (s: String)
    ensures
        s@ == json_of_get_denom_response(*r),
{
    let mut out = String::new();
    out.append("{\"denom\":");
    append_quoted(&mut out, r.denom.as_str());
    out.append("}");
    proof {
        assert(out@ =~= json_of_get_denom_response(*r));
    }
    out
}

/// A burn that draws on the contract's own balance goes on the wire with
/// no `burn_from_address` member at all — the object closes right after
/// the amount — while a burn from a given address carries that address
/// verbatim under the member's name.
pub proof fn lemma_burn_from_omitted(denom: String, amount: u128, addr: String)
    ensures
        json_of_action(Action::BurnTokens { denom, amount, burn_from_address: None })
            == "{\"burn_tokens\":{\"denom\":"@ + quoted(denom@) + ",\"amount\":"@ + quoted(
            dec_rep(amount as nat),
        ) + "}}"@,
        json_of_action(Action::BurnTokens { denom, amount, burn_from_address: Some(addr) })
            == "{\"burn_tokens\":{\"denom\":"@ + quoted(denom@) + ",\"amount\":"@ + quoted(
            dec_rep(amount as nat),
        ) + ",\"burn_from_address\":"@ + quoted(addr@) + "}}"@,
{
    assert(json_of_action(Action::BurnTokens { denom, amount, burn_from_address: None })
        =~= "{\"burn_tokens\":{\"denom\":"@ + quoted(denom@) + ",\"amount\":"@ + quoted(
        dec_rep(amount as nat),
    ) + "}}"@);
    assert(json_of_action(Action::BurnTokens { denom, amount, burn_from_address: Some(addr) })
        =~= "{\"burn_tokens\":{\"denom\":"@ + quoted(denom@) + ",\"amount\":"@ + quoted(
        dec_rep(amount as nat),
    ) + ",\"burn_from_address\":"@ + quoted(addr@) + "}}"@);
}

} // verus!
