//! What an update needs to know of the program: where its releases are, and
//! what to say afterwards.
//!
//! The repository address is read with the `regex` crate. The functions
//! marked `external_body` are believed, not proved: their contracts name what
//! `regex` computes and say nothing of what that is.
use vstd::prelude::*;

verus! {

/// The shape of a repository address: it ends in `github.com/`, an owner,
/// `/` and a name, both made of word characters.
pub const REPOSITORY_PATTERN: &'static str = "github.com/(?P<owner>\\w+)/(?P<name>\\w+)$";

/// `regex::Regex`, carried as it is; see [`pattern_of`].
#[verifier::external_type_specification]
#[verifier::external_body]
pub struct ExRegex(regex::Regex);

/// `regex::Error`, carried as it is; nothing is read from it.
#[verifier::external_type_specification]
#[verifier::external_body]
pub struct ExRegexError(regex::Error);

/// Whether `regex` compiles a pattern, under its default settings.
pub uninterp spec fn is_pattern(pattern: Seq<char>) -> bool;

/// The pattern that a `Regex` was compiled from.
pub uninterp spec fn pattern_of(re: regex::Regex) -> Seq<char>;

/// What the group `name` holds in the leftmost match of a pattern in a text:
/// `None` where the pattern does not match, or the group took no part in the
/// match.
pub uninterp spec fn captured(pattern: Seq<char>, text: Seq<char>, name: Seq<char>) -> Option<Seq<char>>;

/// `Regex::new`. Whether it succeeds depends on the pattern alone; the
/// expression it gives stands for that pattern.
#[verifier::external_body]
fn compile(pattern: &str) -> (r: Result<regex::Regex, regex::Error>)
    ensures
        match r {
            Ok(re) => is_pattern(pattern@) && pattern_of(re) == pattern@,
            Err(_) => !is_pattern(pattern@),
        },
{
    regex::Regex::new(pattern)
}

/// `Regex::captures`, then `Captures::name` and `Match::as_str`: the text of
/// one named group of the leftmost match. It depends on the pattern, the
/// text and the name alone.
#[verifier::external_body]
fn capture(re: &regex::Regex, text: &str, name: &str) -> (r: Option<String>)
    ensures
        match r {
            Some(s) => captured(pattern_of(*re), text@, name@) == Some(s@),
            None => captured(pattern_of(*re), text@, name@) is None,
        },
{
    match re.captures(text) {
        Some(groups) => match groups.name(name) {
            Some(found) => Some(found.as_str().to_string()),
            None => None,
        },
        None => None,
    }
}

/// Owner and name of the repository at an address, where the address has
/// the shape of one.
pub open spec fn repository_of(address: Seq<char>) -> Option<(Seq<char>, Seq<char>)> {
    if is_pattern(REPOSITORY_PATTERN@) {
        match (
            captured(REPOSITORY_PATTERN@, address, "owner"@),
            captured(REPOSITORY_PATTERN@, address, "name"@),
        ) {
            (Some(owner), Some(name)) => Some((owner, name)),
            _ => None,
        }
    } else {
        None
    }
}

/// Reads owner and name from a repository address.
pub fn repository(address: &str) -> (r: Option<(String, String)>)
    ensures
        match r {
            Some((owner, name)) => repository_of(address@) == Some((owner@, name@)),
            None => repository_of(address@) is None,
        },
{
    match compile(REPOSITORY_PATTERN) {
        Ok(re) => match capture(&re, address, "owner") {
            Some(owner) => match capture(&re, address, "name") {
                Some(name) => Some((owner, name)),
                None => None,
            },
            None => None,
        },
        Err(_) => None,
    }
}

/// What is said after an update.
pub open spec fn update_notice(updated: bool, version: Seq<char>) -> Seq<char> {
    if updated {
        "Upgrade to version "@ + version + " successfully!"@
    } else {
        "The current version is up to date."@
    }
}

/// Says whether the program was replaced by a newer version, and by which.
pub fn update_message(updated: bool, version: &str) -> (r: String)
    ensures
        r@ == update_notice(updated, version@),
{
    if updated {
        String::from_str("Upgrade to version ").concat(version).concat(" successfully!")
    } else {
        String::from_str("The current version is up to date.")
    }
}

} // verus!
