use rand::distributions::Alphanumeric;
use rand::Rng;
use vstd::prelude::*;

use crate::types::opt_view;

verus! {

/// The characters of an invite code: ASCII letters and digits.
pub open spec fn is_alphanumeric(c: char) -> bool {
    ||| ('A' <= c && c <= 'Z')
    ||| ('a' <= c && c <= 'z')
    ||| ('0' <= c && c <= '9')
}

/// The length of an invite code.
pub const INVITE_CODE_LEN: usize = 8;

/// A well-formed invite code: eight ASCII letters and digits.
pub open spec fn is_invite_code(code: Seq<char>) -> bool {
    &&& code.len() == INVITE_CODE_LEN
    &&& forall|i: int| 0 <= i < code.len() ==> is_alphanumeric(#[trigger] code[i])
}

/// One random ASCII letter or digit, from the thread-local generator.
///
/// Calls `rand::Rng::sample` with `rand::distributions::Alphanumeric` on
/// `rand::thread_rng()`. Its source draws from the 62 bytes `A`-`Z`, `a`-`z`,
/// `0`-`9`; the contract claims only that the byte is one of them. Which
/// one comes out is left open, and so is the panic of the generator's first
/// use in a thread when the operating system cannot seed it.
#[verifier::external_body]
fn sample_alphanumeric() -> (b: u8)
    ensures
        is_alphanumeric(b as char),
{
    rand::thread_rng().sample(Alphanumeric)
}

/// Appends one character to a string (`String::push`).
#[verifier::external_body]
fn push_char(s: &mut String, c: char)
    ensures
        final(s)@ == old(s)@.push(c),
{
    s.push(c)
}

/// The characters that draws of bytes stand for.
pub open spec fn draws_as_chars(draws: Seq<u8>) -> Seq<char> {
    draws.map_values(|b: u8| b as char)
}

/// The invite code made of the drawn bytes, each taken as the character it
/// stands for, in the order drawn.
pub fn invite_code_from_draws(draws: &Vec<u8>) -> (code: String)
    requires
        draws@.len() == INVITE_CODE_LEN,
        forall|i: int| 0 <= i < draws@.len() ==> is_alphanumeric(#[trigger] draws@[i] as char),
    ensures
        code@ == draws_as_chars(draws@),
        is_invite_code(code@),
{
    let mut code = String::new();
    let mut i: usize = 0;
    while i < draws.len()
        invariant
            i <= draws@.len(),
            draws@.len() == INVITE_CODE_LEN,
            code@ == draws_as_chars(draws@.take(i as int)),
        decreases draws@.len() - i,
    {
        let b = draws[i];
        push_char(&mut code, b as char);
        proof {
            assert(draws@.take(i + 1) =~= draws@.take(i as int).push(b));
            assert(draws_as_chars(draws@.take(i + 1)) =~= draws_as_chars(draws@.take(i as int)).push(b as char));
        }
        i = i + 1;
    }
    assert(draws@.take(draws@.len() as int) =~= draws@);
    assert forall|j: int| 0 <= j < code@.len() implies is_alphanumeric(#[trigger] code@[j]) by {
        assert(code@[j] == draws@[j] as char);
    }
    code
}

/// A fresh random invite code: eight draws of a letter or digit, in order.
pub fn generate_invite_code() -> (code: String)
    ensures
        is_invite_code(code@),
{
    let mut draws: Vec<u8> = Vec::new();
    let mut i: usize = 0;
    while i < INVITE_CODE_LEN
        invariant
            i <= INVITE_CODE_LEN,
            draws@.len() == i,
            forall|j: int| 0 <= j < draws@.len() ==> is_alphanumeric(#[trigger] draws@[j] as char),
        decreases INVITE_CODE_LEN - i,
    {
        let b = sample_alphanumeric();
        draws.push(b);
        i = i + 1;
    }
    invite_code_from_draws(&draws)
}

/// The invite code of an owner: the one already stored, or a new one that
/// still has to be stored.
#[derive(Debug)]
pub enum InviteCode {
    Existing(String),
    Fresh(String),
}

/// Finds the owner's invite code, given the code stored for the owner, if
/// any: a stored code is kept; without one, a fresh random code is made.
pub fn get_invite_code(stored: Option<String>) -> (r: InviteCode)
    ensures
        match stored {
            Some(c) => r matches InviteCode::Existing(e) && e@ == c@,
            None => r matches InviteCode::Fresh(f) && is_invite_code(f@),
        },
{
    match stored {
        Some(c) => InviteCode::Existing(c),
        None => InviteCode::Fresh(generate_invite_code()),
    }
}

/// The code that can be shown, once a fresh code was offered to the
/// database (`stored_ok`: it was stored): an existing code always, a fresh
/// one only if it was stored.
pub open spec fn shown_invite_code(code: InviteCode, stored_ok: bool) -> Option<Seq<char>> {
    match code {
        InviteCode::Existing(c) => Some(c@),
        InviteCode::Fresh(c) => if stored_ok { Some(c@) } else { None },
    }
}

/// The invite code to show, or none.
pub fn invite_code_result(code: InviteCode, stored_ok: bool) -> (r: Option<String>)
    ensures
        opt_view(r) == shown_invite_code(code, stored_ok),
{
    match code {
        InviteCode::Existing(c) => Some(c),
        InviteCode::Fresh(c) => if stored_ok { Some(c) } else { None },
    }
}

/// What an invite code sent by a chat leads to.
#[derive(Debug, PartialEq, Eq, Structural)]
pub enum InviteAcceptance {
    /// The code belongs to no owner.
    Unknown,
    /// The chat becomes an emergency contact of the owner.
    Link { primary_owner_chat_id: i64, secondary_owner_chat_id: i64 },
}

/// Accepts an invite: `owner` is the chat that owns the code sent, if the
/// code is known; `chat_id` is the chat that sent it.
pub fn accept_invite(owner: Option<i64>, chat_id: i64) -> (r: InviteAcceptance)
    ensures
        match owner {
            Some(o) => r == (InviteAcceptance::Link { primary_owner_chat_id: o, secondary_owner_chat_id: chat_id }),
            None => r == InviteAcceptance::Unknown,
        },
{
    match owner {
        Some(o) => InviteAcceptance::Link { primary_owner_chat_id: o, secondary_owner_chat_id: chat_id },
        None => InviteAcceptance::Unknown,
    }
}

/// An owner's invite code does not change once stored: a fresh code that
/// was stored is the one shown, and from then on the stored code is found,
/// kept and shown whatever happens to later writes.
pub proof fn lemma_stored_invite_code_is_kept(code: String, later_stored_ok: bool)
    ensures
        shown_invite_code(InviteCode::Fresh(code), true) == Some(code@),
        shown_invite_code(InviteCode::Existing(code), later_stored_ok) == Some(code@),
{
}

} // verus!
