//! The identity with which the bot appears on a server.

use crate::command;
use crate::text;
use vstd::prelude::*;
use vstd::string::*;

verus! {

/// A TeamSpeak identity; nothing is known of what it holds.
#[verifier::external_type_specification]
#[verifier::external_body]
pub struct ExIdentity(tsclientlib::Identity);

/// What `tsclientlib::Identity::new_from_str` makes of a text: an identity, or the debug
/// rendering of the error.
pub uninterp spec fn identity_of_text(text: Seq<char>) -> Result<tsclientlib::Identity, Seq<char>>;

/// `tsclientlib::Identity::new_from_str`: reads an identity in one of the formats that
/// TeamSpeak knows. The result depends on the text alone; what it is, is not stated. An error
/// is turned into its debug rendering.
#[verifier::external_body]
fn read_identity(text: &str) -> (r: Result<tsclientlib::Identity, String>)
    ensures
        command::said(r) == identity_of_text(text@),
{
    match tsclientlib::Identity::new_from_str(text) {
        Ok(identity) => Ok(identity),
        Err(error) => Err(format!("{:?}", error)),
    }
}

/// `tsclientlib::Identity::create`: a new identity with a random key, of which nothing is
/// claimed.
pub assume_specification[ tsclientlib::Identity::create ]() -> tsclientlib::Identity
;

/// What was read from an identity file, with an error that says so.
pub open spec fn from_file(read: Result<tsclientlib::Identity, Seq<char>>) -> Result<
    tsclientlib::Identity,
    Seq<char>,
> {
    match read {
        Ok(identity) => Ok(identity),
        Err(error) => Err("failed to parse identity from --identity-file: "@ + error),
    }
}

/// Adds to an error that it comes from the identity file.
pub fn explain_identity(read: Result<tsclientlib::Identity, String>) -> (r: Result<
    tsclientlib::Identity,
    String,
>)
    ensures
        command::said(r) == from_file(command::said(read)),
{
    match read {
        Ok(identity) => Ok(identity),
        Err(error) => {
            let mut reply: String = "failed to parse identity from --identity-file: ".to_string();
            reply.append(error.as_str());
            Err(reply)
        },
    }
}

/// Reads the identity in the text of an identity file. White space around it is of no account.
pub fn parse_identity(content: &str) -> (r: Result<tsclientlib::Identity, String>)
    ensures
        command::said(r) == from_file(identity_of_text(text::trimmed(content@))),
{
    explain_identity(read_identity(text::trim(content)))
}

/// The stored identity, or a new one if there is none: the bot keeps its identity across
/// restarts.
pub fn stored_or_new(stored: Option<tsclientlib::Identity>) -> (r: tsclientlib::Identity)
    ensures
        stored matches Some(identity) ==> r == identity,
{
    match stored {
        Some(identity) => identity,
        None => tsclientlib::Identity::create(),
    }
}

/// An identity that was read is handed on, and an error is named as one of the identity file. It
/// does not matter what white space stands around the identity.
pub proof fn law_identity_is_handed_on(
    identity: tsclientlib::Identity,
    error: Seq<char>,
    front: Seq<char>,
    content: Seq<char>,
    back: Seq<char>,
)
    requires
        text::blank(front),
        text::blank(back),
        content.len() > 0 ==> !text::white_space(content[0]) && !text::white_space(content.last()),
    ensures
        from_file(Ok(identity)) == Ok::<tsclientlib::Identity, Seq<char>>(identity),
        from_file(Err(error)) == Err::<tsclientlib::Identity, Seq<char>>(
            "failed to parse identity from --identity-file: "@ + error,
        ),
        from_file(identity_of_text(text::trimmed(front + content + back))) == from_file(
            identity_of_text(content),
        ),
{
    text::law_trimming_leaves_the_text(front, content, back);
}

} // verus!
