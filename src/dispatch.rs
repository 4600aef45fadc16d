//! Interaction dispatcher: routes application events, and turns a `clean`
//! command into the reply that the REST side sends back.
use vstd::prelude::*;
use crate::cleaner::Registry;
use crate::engine::{clean_url, cleaned_url_of, parse_error_text, url_parses};
use crate::frame::same_text;
use crate::json::json_str_at;
use crate::json::string_at;
use crate::text::str_eq;

verus! {

/// Where an application event goes.
pub enum Route {
    /// The session is ready.
    Ready,
    /// A user ran a command; its payload.
    Interaction(String),
    /// Any other event.
    Ignored,
}

/// Routes the event `event` with payload `data`.
pub fn route_event(event: &str, data: Option<String>) -> (r: Route)
    ensures
        event@ == "READY"@ ==> r == Route::Ready,
        event@ == "INTERACTION_CREATE"@ ==> r == (match data {
            Some(d) => Route::Interaction(d),
            None => Route::Ignored,
        }),
        event@ != "READY"@ && event@ != "INTERACTION_CREATE"@ ==> r == Route::Ignored,
{
    proof {
        reveal_strlit("READY");
        reveal_strlit("INTERACTION_CREATE");
        assert("READY"@.len() != "INTERACTION_CREATE"@.len());
    }
    if str_eq(event, "READY") {
        Route::Ready
    } else if str_eq(event, "INTERACTION_CREATE") {
        match data {
            Some(d) => Route::Interaction(d),
            None => Route::Ignored,
        }
    } else {
        Route::Ignored
    }
}

/// Failures of the handler; they are reported and do not end the session.
pub enum BotError {
    InvalidPayload(String),
    CleaningError(String),
}

/// `r` is the payload error with message `msg`.
pub open spec fn invalid_payload<T>(r: Result<T, BotError>, msg: Seq<char>) -> bool {
    match r {
        Err(BotError::InvalidPayload(m)) => m@ == msg,
        _ => false,
    }
}

/// The fields of an interaction payload that the dispatcher reads.
pub struct Interaction {
    pub id: Option<String>,
    pub token: Option<String>,
    pub command: Option<String>,
    pub url: Option<String>,
}

/// Reads the id, the token, the command name and the first option's value
/// out of the JSON text of an interaction payload.
pub fn read_interaction(data: &str) -> (r: Interaction)
    ensures
        same_text(r.id, json_str_at(data@, "/id"@)),
        same_text(r.token, json_str_at(data@, "/token"@)),
        same_text(r.command, json_str_at(data@, "/data/name"@)),
        same_text(r.url, json_str_at(data@, "/data/options/0/value"@)),
{
    Interaction {
        id: string_at(data, "/id"),
        token: string_at(data, "/token"),
        command: string_at(data, "/data/name"),
        url: string_at(data, "/data/options/0/value"),
    }
}

/// A `clean` command to answer.
pub struct CleanRequest {
    pub interaction_id: String,
    pub interaction_token: String,
    pub url: String,
}

/// What to do with an interaction: an error where a field is missing,
/// nothing for another command, else a request to clean its URL.
pub fn plan_interaction(i: Interaction) -> (r: Result<Option<CleanRequest>, BotError>)
    ensures
        i.id is None ==> invalid_payload(r, "Missing interaction ID"@),
        i.id is Some && i.token is None ==> invalid_payload(r, "Missing interaction token"@),
        i.id is Some && i.token is Some && i.command is None ==> invalid_payload(r, "Missing command name"@),
        i.id is Some && i.token is Some && i.command is Some && i.command->Some_0@ != "clean"@ ==> r
            matches Ok(None),
        i.id is Some && i.token is Some && i.command is Some && i.command->Some_0@ == "clean"@ ==> (
        match i.url {
            None => invalid_payload(r, "Missing URL parameter"@),
            Some(u) => r == Ok::<Option<CleanRequest>, BotError>(
                Some(
                    CleanRequest {
                        interaction_id: i.id->Some_0,
                        interaction_token: i.token->Some_0,
                        url: u,
                    },
                ),
            ),
        }),
{
    let Interaction { id, token, command, url } = i;
    let id = match id {
        Some(x) => x,
        None => return Err(BotError::InvalidPayload(String::from_str("Missing interaction ID"))),
    };
    let token = match token {
        Some(x) => x,
        None => return Err(BotError::InvalidPayload(String::from_str("Missing interaction token"))),
    };
    let command = match command {
        Some(x) => x,
        None => return Err(BotError::InvalidPayload(String::from_str("Missing command name"))),
    };
    if !str_eq(command.as_str(), "clean") {
        return Ok(None);
    }
    match url {
        Some(u) => Ok(Some(CleanRequest { interaction_id: id, interaction_token: token, url: u })),
        None => Err(BotError::InvalidPayload(String::from_str("Missing URL parameter"))),
    }
}

/// The reply content for a cleaned URL.
pub open spec fn cleaned_content(cleaned: Seq<char>) -> Seq<char> {
    "🧹 Cleaned URL:\n"@ + cleaned
}

/// The reply content for a URL that could not be cleaned.
pub open spec fn failed_content(message: Seq<char>) -> Seq<char> {
    "❌ Error cleaning URL: "@ + message
}

/// A message for the REST side to post in answer to an interaction.
pub struct Reply {
    pub interaction_id: String,
    pub interaction_token: String,
    pub content: String,
}

/// The outcome of one interaction: the reply to post, if any, and the
/// failure to report, if any. A cleaning failure has both.
pub struct Handled {
    pub reply: Option<Reply>,
    pub error: Option<BotError>,
}

/// The reply to `req`, given the cleaned URL or the cleaner's error message.
pub fn reply_for(req: CleanRequest, cleaned: Result<String, String>) -> (r: Handled)
    ensures
        r.reply matches Some(reply) && reply.interaction_id == req.interaction_id
            && reply.interaction_token == req.interaction_token,
        cleaned matches Ok(c) ==> r.error is None && r.reply->Some_0.content@ == cleaned_content(c@),
        cleaned matches Err(m) ==> r.reply->Some_0.content@ == failed_content(m@) && (r.error matches Some(
            BotError::CleaningError(e),
        ) && e@ == m@),
{
    let CleanRequest { interaction_id, interaction_token, url: _ } = req;
    match cleaned {
        Ok(c) => {
            let mut content = String::from_str("🧹 Cleaned URL:\n");
            content.append(c.as_str());
            Handled { reply: Some(Reply { interaction_id, interaction_token, content }), error: None }
        },
        Err(m) => {
            let mut content = String::from_str("❌ Error cleaning URL: ");
            content.append(m.as_str());
            Handled {
                reply: Some(Reply { interaction_id, interaction_token, content }),
                error: Some(BotError::CleaningError(m)),
            }
        },
    }
}

/// `e` is the payload error with message `msg`.
pub open spec fn payload_error(e: Option<BotError>, msg: Seq<char>) -> bool {
    match e {
        Some(BotError::InvalidPayload(m)) => m@ == msg,
        _ => false,
    }
}

/// Handles one interaction: for a `clean` command, cleans its URL with the
/// registry's rules and prepares the reply; reports the first missing field.
pub fn handle_interaction(i: Interaction, registry: &Registry) -> (r: Handled)
    requires
        registry.wf(),
        registry.has_default(),
    ensures
        i.id is None ==> r.reply is None && payload_error(r.error, "Missing interaction ID"@),
        i.id is Some && i.token is None ==> r.reply is None && payload_error(r.error, "Missing interaction token"@),
        i.id is Some && i.token is Some && i.command is None ==> r.reply is None && payload_error(
            r.error,
            "Missing command name"@,
        ),
        i.id is Some && i.token is Some && i.command is Some && i.command->Some_0@ != "clean"@ ==> r.reply is None
            && r.error is None,
        i.id is Some && i.token is Some && i.command is Some && i.command->Some_0@ == "clean"@ ==> (
        match i.url {
            None => r.reply is None && payload_error(r.error, "Missing URL parameter"@),
            Some(u) => {
                &&& r.reply matches Some(reply) && reply.interaction_id == i.id->Some_0
                    && reply.interaction_token == i.token->Some_0
                &&& url_parses(u@) ==> r.error is None && r.reply->Some_0.content@ == cleaned_content(
                    cleaned_url_of(u@, registry@),
                )
                &&& !url_parses(u@) ==> (r.error matches Some(BotError::CleaningError(m))
                    && r.reply->Some_0.content@ == failed_content(m@))
            },
        }),
{
    match plan_interaction(i) {
        Err(e) => Handled { reply: None, error: Some(e) },
        Ok(None) => Handled { reply: None, error: None },
        Ok(Some(req)) => {
            let cleaned = match clean_url(req.url.as_str(), registry) {
                Ok(c) => Ok(c),
                Err(e) => Err(parse_error_text(&e)),
            };
            reply_for(req, cleaned)
        },
    }
}

} // verus!
