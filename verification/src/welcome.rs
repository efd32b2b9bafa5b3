//! What happens when a member joins or reacts: nicknames and roles.

use vstd::prelude::*;
use crate::text::same_text;

verus! {

/// The ASCII transliteration of a name, as `unidecode::unidecode` computes
/// it.
pub uninterp spec fn unidecoded(name: Seq<char>) -> Seq<char>;

/// Calls `unidecode::unidecode`, which replaces every character by its entry
/// in a fixed transliteration table. The result is a function of the name
/// alone; the contract gives it the name `unidecoded` and claims nothing
/// more.
#[verifier::external_body]
fn transliterate(name: &str) -> (r: String)
    ensures
        r@ == unidecoded(name@),
{
    unidecode::unidecode(name)
}

/// The nickname to give a member whose name transliterates to `decoded`:
/// the transliteration, unless the name is left as it is.
pub fn nickname_from(name: &str, decoded: String) -> (nickname: Option<String>)
    ensures
        decoded@ == name@ ==> nickname is None,
        decoded@ != name@ ==> nickname == Some(decoded),
{
    if same_text(decoded.as_str(), name) {
        None
    } else {
        Some(decoded)
    }
}

/// The nickname to give a new member: the ASCII transliteration of the
/// name, unless the name is ASCII enough to be left as it is.
pub fn ascii_nickname(name: &str) -> (nickname: Option<String>)
    ensures
        unidecoded(name@) == name@ ==> nickname is None,
        unidecoded(name@) != name@ ==> (nickname matches Some(n) && n@ == unidecoded(name@)),
{
    nickname_from(name, transliterate(name))
}

/// The role that goes with `role` where the reaction stands on `on`, the
/// message that carries the reactions of that role.
pub open spec fn on_message(role: Seq<char>, on: u64, message: u64) -> Option<Seq<char>> {
    if on == message {
        Some(role)
    } else {
        None
    }
}

/// The role that a reaction asks for: each role has its emoji and the one
/// message on which a reaction with that emoji counts.
pub open spec fn reaction_role_spec(emoji: Seq<char>, message: u64) -> Option<Seq<char>> {
    if emoji == "\u{1f9ea}"@ {
        on_message("Beta-Test"@, 824569176198086726, message)
    } else if emoji == "\u{2705}"@ {
        on_message("Pingable"@, 824569150168104970, message)
    } else if emoji == "\u{1f44c}"@ {
        on_message("Dagpi Notifs"@, 824569314169978900, message)
    } else if emoji == "\u{1f4f7}"@ {
        on_message("Polaroid Updates"@, 824569274823081994, message)
    } else if emoji == "\u{1f916}"@ {
        on_message("R.Daggy"@, 824569350609436672, message)
    } else if emoji == "\u{1f3a8}"@ {
        on_message("DagCord"@, 824569681343807519, message)
    } else {
        None
    }
}

/// The model of an optional static text.
pub open spec fn opt_str(text: Option<&'static str>) -> Option<Seq<char>> {
    match text {
        Some(t) => Some(t@),
        None => None,
    }
}

/// `role`, where the reaction stands on the role's message.
fn if_on_message(role: &'static str, on: u64, message: u64) -> (r: Option<&'static str>)
    ensures
        opt_str(r) == on_message(role@, on, message),
{
    if on == message {
        Some(role)
    } else {
        None
    }
}

/// The role that a reaction with `emoji` on the message `message` asks for,
/// if it asks for one.
pub fn reaction_role(emoji: &str, message: u64) -> (role: Option<&'static str>)
    ensures
        opt_str(role) == reaction_role_spec(emoji@, message),
{
    if same_text(emoji, "\u{1f9ea}") {
        if_on_message("Beta-Test", 824569176198086726, message)
    } else if same_text(emoji, "\u{2705}") {
        if_on_message("Pingable", 824569150168104970, message)
    } else if same_text(emoji, "\u{1f44c}") {
        if_on_message("Dagpi Notifs", 824569314169978900, message)
    } else if same_text(emoji, "\u{1f4f7}") {
        if_on_message("Polaroid Updates", 824569274823081994, message)
    } else if same_text(emoji, "\u{1f916}") {
        if_on_message("R.Daggy", 824569350609436672, message)
    } else if same_text(emoji, "\u{1f3a8}") {
        if_on_message("DagCord", 824569681343807519, message)
    } else {
        None
    }
}

} // verus!
