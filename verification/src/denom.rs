use vstd::prelude::*;
use vstd::string::{StrSliceExecFns, StringExecFns};
use crate::error::TokenFactoryError;
use crate::strutil::{dec_rep, dec_string, push_char};

verus! {

/// Index of the first '/' in `s`, or -1 when there is none.
pub open spec fn first_slash(s: Seq<char>) -> int
    decreases s.len(),
{
    if s.len() == 0 {
        -1
    } else if s[0] == '/' {
        0
    } else if first_slash(s.drop_first()) == -1 {
        -1
    } else {
        1 + first_slash(s.drop_first())
    }
}

pub proof fn lemma_first_slash_bounds(s: Seq<char>)
    ensures
        -1 <= first_slash(s) < s.len(),
    decreases s.len(),
{
    if s.len() == 0 {
    } else if s[0] == '/' {
    } else {
        lemma_first_slash_bounds(s.drop_first());
    }
}

pub proof fn lemma_first_slash_spec(s: Seq<char>)
    ensures
        first_slash(s) == -1 ==> forall|j: int| 0 <= j < s.len() ==> s[j] != '/',
        first_slash(s) >= 0 ==> first_slash(s) < s.len() && s[first_slash(s)] == '/' && forall|
            j: int,
        | 0 <= j < first_slash(s) ==> s[j] != '/',
    decreases s.len(),
{
    lemma_first_slash_bounds(s);
    if s.len() == 0 {
    } else if s[0] == '/' {
    } else {
        let t = s.drop_first();
        lemma_first_slash_spec(t);
        lemma_first_slash_bounds(t);
        assert(forall|j: int| 1 <= j < s.len() ==> s[j] == t[j - 1]);
    }
}

/// If the first '/' of `s` stands at `k`, then `first_slash` finds it there.
pub proof fn lemma_first_slash_at(s: Seq<char>, k: int)
    requires
        0 <= k < s.len(),
        s[k] == '/',
        forall|j: int| 0 <= j < k ==> s[j] != '/',
    ensures
        first_slash(s) == k,
    decreases k,
{
    if k == 0 {
    } else {
        let t = s.drop_first();
        assert(forall|j: int| 0 <= j < k - 1 ==> t[j] == s[j + 1]);
        assert(t[k - 1] == s[k]);
        lemma_first_slash_at(t, k - 1);
    }
}

/// The '/'-separated parts of `s`, in order. Splitting the empty string
/// gives one empty part, and a trailing separator yields a trailing empty
/// part, as `str::split` does.
pub open spec fn slash_parts(s: Seq<char>) -> Seq<Seq<char>>
    decreases s.len(),
    via slash_parts_decreases
{
    if first_slash(s) == -1 {
        seq![s]
    } else {
        seq![s.subrange(0, first_slash(s))] + slash_parts(
            s.subrange(first_slash(s) + 1, s.len() as int),
        )
    }
}

#[via_fn]
proof fn slash_parts_decreases(s: Seq<char>) {
    lemma_first_slash_bounds(s);
}

/// A string without separators is one single part.
pub proof fn lemma_no_slash_parts(s: Seq<char>)
    requires
        forall|j: int| 0 <= j < s.len() ==> s[j] != '/',
    ensures
        slash_parts(s) == seq![s],
{
    lemma_first_slash_spec(s);
    lemma_first_slash_bounds(s);
}

/// Peeling the first part off at the first separator.
pub proof fn lemma_parts_head(s: Seq<char>, k: int)
    requires
        0 <= k < s.len(),
        s[k] == '/',
        forall|j: int| 0 <= j < k ==> s[j] != '/',
    ensures
        slash_parts(s) == seq![s.subrange(0, k)] + slash_parts(s.subrange(k + 1, s.len() as int)),
{
    lemma_first_slash_at(s, k);
}

/// No part of the split contains a separator of its own.
pub proof fn lemma_parts_have_no_slash(s: Seq<char>)
    ensures
        forall|k: int, j: int|
            0 <= k < slash_parts(s).len() && 0 <= j < slash_parts(s)[k].len()
                ==> slash_parts(s)[k][j] != '/',
    decreases s.len(),
{
    lemma_first_slash_bounds(s);
    lemma_first_slash_spec(s);
    if first_slash(s) == -1 {
    } else {
        let i = first_slash(s);
        let rest = s.subrange(i + 1, s.len() as int);
        lemma_parts_have_no_slash(rest);
        assert(forall|j: int| 0 <= j < i ==> slash_parts(s)[0][j] == s[j]);
        assert(forall|k: int, j: int|
            1 <= k < slash_parts(s).len() && 0 <= j < slash_parts(s)[k].len()
                ==> slash_parts(s)[k][j] == slash_parts(rest)[k - 1][j]);
    }
}

/// Putting the separator back between the parts restores the string: the
/// split loses nothing and invents nothing.
pub open spec fn joined(parts: Seq<Seq<char>>) -> Seq<char>
    decreases parts.len(),
{
    if parts.len() == 0 {
        Seq::empty()
    } else if parts.len() == 1 {
        parts[0]
    } else {
        parts[0] + seq!['/'] + joined(parts.drop_first())
    }
}

pub proof fn lemma_join_restores(s: Seq<char>)
    ensures
        joined(slash_parts(s)) == s,
    decreases s.len(),
{
    lemma_first_slash_bounds(s);
    lemma_first_slash_spec(s);
    if first_slash(s) == -1 {
    } else {
        let i = first_slash(s);
        let rest = s.subrange(i + 1, s.len() as int);
        lemma_join_restores(rest);
        let parts = slash_parts(s);
        assert(parts.len() == 1 + slash_parts(rest).len());
        assert(parts.drop_first() =~= slash_parts(rest));
        assert(joined(parts) =~= s);
    }
}

/// The views of a sequence of owned strings.
pub open spec fn views_of(parts: Seq<String>) -> Seq<Seq<char>> {
    parts.map_values(|p: String| p@)
}

/// Splits `s` at every '/', as the denomination grammar asks.
pub fn split_denom(s: &str) -> (parts: Vec<String>)
    ensures
        views_of(parts@) == slash_parts(s@),
{
    let len = s.unicode_len();
    let mut parts: Vec<String> = Vec::new();
    let mut cur = String::new();
    let ghost mut start: int = 0;
    let mut i: usize = 0;
    proof {
        assert(s@.subrange(0, len as int) =~= s@);
        assert(views_of(parts@) =~= Seq::<Seq<char>>::empty());
        assert(views_of(parts@) + slash_parts(s@.subrange(0, len as int)) =~= slash_parts(s@));
        assert(cur@ =~= s@.subrange(0, 0));
    }
    while i < len
        invariant
            i <= len,
            len == s@.len(),
            0 <= start <= i as int,
            cur@ == s@.subrange(start, i as int),
            forall|j: int| start <= j < i as int ==> s@[j] != '/',
            slash_parts(s@) == views_of(parts@) + slash_parts(s@.subrange(start, len as int)),
        decreases len - i,
    {
        let c = s.get_char(i);
        if c == '/' {
            let ghost rest = s@.subrange(start, len as int);
            proof {
                assert(rest[i as int - start] == s@[i as int]);
                assert(forall|j: int| 0 <= j < i as int - start ==> rest[j] == s@[start + j]);
                lemma_parts_head(rest, i as int - start);
                assert(rest.subrange(0, i as int - start) =~= s@.subrange(start, i as int));
                assert(rest.subrange(i as int - start + 1, rest.len() as int) =~= s@.subrange(
                    i as int + 1,
                    len as int,
                ));
            }
            parts.push(cur);
            cur = String::new();
            proof {
                assert(views_of(parts@) =~= views_of(parts@.drop_last()).push(
                    parts@.last()@,
                ));
                start = i as int + 1;
                assert(cur@ =~= s@.subrange(start, start));
                assert(slash_parts(s@) =~= views_of(parts@) + slash_parts(
                    s@.subrange(start, len as int),
                ));
            }
        } else {
            push_char(&mut cur, c);
            proof {
                assert(cur@ =~= s@.subrange(start, i as int + 1));
            }
        }
        i += 1;
    }
    proof {
        let rest = s@.subrange(start, len as int);
        assert(forall|j: int| 0 <= j < rest.len() ==> rest[j] == s@[start + j]);
        lemma_no_slash_parts(rest);
        assert(cur@ =~= rest);
    }
    parts.push(cur);
    proof {
        assert(views_of(parts@) =~= views_of(parts@.drop_last()).push(parts@.last()@));
    }
    parts
}

/// The ASCII-lowercased code of a character; characters outside A..Z are
/// left as they are.
pub open spec fn lower_code(c: char) -> int {
    if 65 <= c as int && c as int <= 90 {
        c as int + 32
    } else {
        c as int
    }
}

/// Character-wise equality up to ASCII case, as `str::eq_ignore_ascii_case`
/// decides it.
pub open spec fn eq_ignore_ascii_case(a: Seq<char>, b: Seq<char>) -> bool {
    a.len() == b.len() && forall|i: int| 0 <= i < a.len() ==> lower_code(a[i]) == lower_code(b[i])
}

/// The prefix test cares only about a letter's case class: two prefixes
/// that agree up to ASCII case are accepted or rejected together.
pub proof fn lemma_prefix_case_insensitive(a: Seq<char>, b: Seq<char>)
    requires
        eq_ignore_ascii_case(a, b),
    ensures
        eq_ignore_ascii_case(a, "factory"@) == eq_ignore_ascii_case(b, "factory"@),
{
}

fn eq_ignore_case(a: &str, b: &str) -> (r: bool)
    ensures
        r == eq_ignore_ascii_case(a@, b@),
{
    let len = a.unicode_len();
    if len != b.unicode_len() {
        return false;
    }
    let mut i: usize = 0;
    while i < len
        invariant
            i <= len,
            len == a@.len() == b@.len(),
            forall|j: int| 0 <= j < i as int ==> lower_code(a@[j]) == lower_code(b@[j]),
        decreases len - i,
    {
        let ca: u32 = a.get_char(i) as u32;
        let cb: u32 = b.get_char(i) as u32;
        let la: u32 = if 65 <= ca && ca <= 90 {
            ca + 32
        } else {
            ca
        };
        let lb: u32 = if 65 <= cb && cb <= 90 {
            cb + 32
        } else {
            cb
        };
        if la != lb {
            assert(lower_code(a@[i as int]) != lower_code(b@[i as int]));
            return false;
        }
        i += 1;
    }
    true
}

/// The three segments of a well-formed denomination.
#[derive(Debug, Clone)]
pub struct DenomParts {
    pub prefix: String,
    pub creator_address: String,
    pub subdenom: String,
}

/// The complaint for a part count other than three.
pub open spec fn count_message(n: nat) -> Seq<char> {
    "denom must have 3 parts separated by /, had "@ + dec_rep(n)
}

/// The complaint for a first part other than "factory".
pub open spec fn prefix_message(prefix: Seq<char>) -> Seq<char> {
    "prefix must be 'factory', was "@ + prefix
}

/// A denomination passes the local checks when it has exactly three
/// '/'-separated parts and its first part is "factory" up to ASCII case.
pub open spec fn denom_structure_ok(denom: Seq<char>) -> bool {
    slash_parts(denom).len() == 3 && eq_ignore_ascii_case(slash_parts(denom)[0], "factory"@)
}

/// The exact error owed for a denomination that fails the local checks.
pub open spec fn is_denom_error(denom: Seq<char>, e: TokenFactoryError) -> bool {
    if slash_parts(denom).len() != 3 {
        e matches TokenFactoryError::InvalidDenom { denom: d, message: m } && d@ == denom && m@
            == count_message(slash_parts(denom).len())
    } else if !eq_ignore_ascii_case(slash_parts(denom)[0], "factory"@) {
        e matches TokenFactoryError::InvalidDenom { denom: d, message: m } && d@ == denom && m@
            == prefix_message(slash_parts(denom)[0])
    } else {
        false
    }
}

/// Checks everything about a denomination that can be decided locally:
/// the part count and the "factory" prefix. On success it hands back the
/// three segments, so that the caller can ask the host's resolver about
/// the creator address and subdenomination; existence and format of those
/// two segments are the resolver's to judge, not re-checked here.
pub fn validate_denom(denom: &str) -> (r: Result<DenomParts, TokenFactoryError>)
    ensures
        match r {
            Ok(p) => denom_structure_ok(denom@) && p.prefix@ == slash_parts(denom@)[0]
                && p.creator_address@ == slash_parts(denom@)[1] && p.subdenom@ == slash_parts(
                denom@,
            )[2],
            Err(e) => !denom_structure_ok(denom@) && is_denom_error(denom@, e),
        },
{
    let mut parts = split_denom(denom);
    if parts.len() != 3 {
        let mut message = "denom must have 3 parts separated by /, had ".to_owned();
        let count = dec_string(parts.len() as u128);
        message.append(count.as_str());
        return Err(TokenFactoryError::InvalidDenom { denom: denom.to_owned(), message });
    }
    let subdenom = parts.pop().unwrap();
    let creator_address = parts.pop().unwrap();
    let prefix = parts.pop().unwrap();
    proof {
        assert(prefix@ == slash_parts(denom@)[0]);
        assert(creator_address@ == slash_parts(denom@)[1]);
        assert(subdenom@ == slash_parts(denom@)[2]);
    }
    if !eq_ignore_case(prefix.as_str(), "factory") {
        let mut message = "prefix must be 'factory', was ".to_owned();
        message.append(prefix.as_str());
        return Err(TokenFactoryError::InvalidDenom { denom: denom.to_owned(), message });
    }
    Ok(DenomParts { prefix, creator_address, subdenom })
}

/// Folds the host resolver's verdict into the validation result: any
/// resolver failure is wrapped as `InvalidDenom` carrying the resolver's
/// own words; its success ends the validation successfully.
pub fn apply_resolution(denom: &str, outcome: Result<String, String>) -> (r: Result<
    (),
    TokenFactoryError,
>)
    ensures
        outcome is Ok ==> r is Ok,
        outcome matches Err(reason) ==> r matches Err(e) && (e
            matches TokenFactoryError::InvalidDenom { denom: d, message: m } && d@ == denom@ && m
            == reason),
{
    match outcome {
        Ok(_) => Ok(()),
        Err(reason) => Err(
            TokenFactoryError::InvalidDenom { denom: denom.to_owned(), message: reason },
        ),
    }
}

} // verus!
