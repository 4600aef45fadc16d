//! Requests of the REST side: where they go, how they authenticate, and
//! their JSON bodies.
use vstd::prelude::*;
use crate::json::{json_quoted, quote};

verus! {

/// The endpoint that registers the application's commands.
pub open spec fn commands_url_of(application_id: Seq<char>) -> Seq<char> {
    "https://discord.com/api/v10/applications/"@ + application_id + "/commands"@
}

/// The endpoint that answers one interaction.
pub open spec fn callback_url_of(id: Seq<char>, token: Seq<char>) -> Seq<char> {
    "https://discord.com/api/v10/interactions/"@ + id + "/"@ + token + "/callback"@
}

/// The definition of the `clean` command: one required string option, `url`.
pub open spec fn command_wire() -> Seq<char> {
    "{\"name\":\"clean\",\"description\":\"Clean tracking parameters from a URL\",\"options\":[{\"name\":\"url\",\"description\":\"The URL to clean\",\"type\":3,\"required\":true}]}"@
}

/// An interaction response that posts a message with `content`.
pub open spec fn response_wire(content: Seq<char>) -> Seq<char> {
    "{\"type\":4,\"data\":{\"content\":"@ + json_quoted(content) + "}}"@
}

pub fn commands_url(application_id: &str) -> (r: String)
    ensures
        r@ == commands_url_of(application_id@),
{
    let mut r = String::from_str("https://discord.com/api/v10/applications/");
    r.append(application_id);
    r.append("/commands");
    r
}

pub fn callback_url(interaction_id: &str, interaction_token: &str) -> (r: String)
    ensures
        r@ == callback_url_of(interaction_id@, interaction_token@),
{
    let mut r = String::from_str("https://discord.com/api/v10/interactions/");
    r.append(interaction_id);
    r.append("/");
    r.append(interaction_token);
    r.append("/callback");
    r
}

/// The value of the Authorization header for a bot token.
pub fn authorization(token: &str) -> (r: String)
    ensures
        r@ == "Bot "@ + token@,
{
    let mut r = String::from_str("Bot ");
    r.append(token);
    r
}

pub fn command_definition_text() -> (r: String)
    ensures
        r@ == command_wire(),
{
    String::from_str(
        "{\"name\":\"clean\",\"description\":\"Clean tracking parameters from a URL\",\"options\":[{\"name\":\"url\",\"description\":\"The URL to clean\",\"type\":3,\"required\":true}]}",
    )
}

pub fn interaction_response_text(content: &str) -> (r: String)
    ensures
        r@ == response_wire(content@),
{
    let mut r = String::from_str("{\"type\":4,\"data\":{\"content\":");
    let q = quote(content);
    r.append(q.as_str());
    r.append("}}");
    r
}

} // verus!
