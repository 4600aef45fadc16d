use boombot::cleaner::Registry;
use boombot::config::{registry_from_config, ConfigFile, RuleConfig};
use boombot::dispatch::{
    handle_interaction, plan_interaction, read_interaction, reply_for, route_event, BotError, CleanRequest,
    Interaction, Route,
};

fn registry() -> Registry {
    let config = ConfigFile {
        defaults: RuleConfig { keys: vec![], starts_with: Some(vec!["utm_".to_string()]) },
        domains: vec![("default".to_string(), RuleConfig { keys: vec![], starts_with: None })],
    };
    registry_from_config(&config)
}

fn payload(text: &str) -> String {
    text.to_string()
}

fn interaction(id: Option<&str>, token: Option<&str>, command: Option<&str>, url: Option<&str>) -> Interaction {
    Interaction {
        id: id.map(String::from),
        token: token.map(String::from),
        command: command.map(String::from),
        url: url.map(String::from),
    }
}

#[test]
fn interaction_event_routes_payload_unchanged() {
    let d = payload("{\"id\":\"1\",\"token\":\"t\",\"data\":{\"name\":\"clean\"}}");
    match route_event("INTERACTION_CREATE", Some(d.clone())) {
        Route::Interaction(got) => assert_eq!(got, d),
        _ => panic!("interaction not routed"),
    }
}

#[test]
fn other_events_are_ignored() {
    assert!(matches!(route_event("READY", None), Route::Ready));
    assert!(matches!(route_event("MESSAGE_CREATE", Some(payload("{}"))), Route::Ignored));
    assert!(matches!(route_event("INTERACTION_CREATE", None), Route::Ignored));
    assert!(matches!(route_event("", None), Route::Ignored));
}

#[test]
fn reads_interaction_fields() {
    let d = payload(
        "{\"id\":\"9\",\"token\":\"tk\",\"data\":{\"name\":\"clean\",\"options\":[{\"name\":\"url\",\"value\":\"https://a.com\"}]}}",
    );
    let i = read_interaction(&d);
    assert!(read_interaction("not json").id.is_none());
    assert_eq!(i.id.as_deref(), Some("9"));
    assert_eq!(i.token.as_deref(), Some("tk"));
    assert_eq!(i.command.as_deref(), Some("clean"));
    assert_eq!(i.url.as_deref(), Some("https://a.com"));
    let e = read_interaction("{\"id\":5}");
    assert!(e.id.is_none() && e.token.is_none() && e.command.is_none() && e.url.is_none());
}

fn invalid_message(r: Result<Option<CleanRequest>, BotError>) -> String {
    match r {
        Err(BotError::InvalidPayload(m)) => m,
        _ => panic!("expected an invalid payload"),
    }
}

#[test]
fn plan_reports_each_missing_field() {
    assert_eq!(invalid_message(plan_interaction(interaction(None, Some("t"), Some("clean"), Some("u")))), "Missing interaction ID");
    assert_eq!(invalid_message(plan_interaction(interaction(Some("i"), None, Some("clean"), Some("u")))), "Missing interaction token");
    assert_eq!(invalid_message(plan_interaction(interaction(Some("i"), Some("t"), None, Some("u")))), "Missing command name");
    assert_eq!(invalid_message(plan_interaction(interaction(Some("i"), Some("t"), Some("clean"), None))), "Missing URL parameter");
}

#[test]
fn plan_ignores_other_commands() {
    assert!(matches!(plan_interaction(interaction(Some("i"), Some("t"), Some("ping"), None)), Ok(None)));
}

#[test]
fn plan_accepts_clean_command() {
    match plan_interaction(interaction(Some("i"), Some("t"), Some("clean"), Some("https://x.org"))) {
        Ok(Some(req)) => {
            assert_eq!(req.interaction_id, "i");
            assert_eq!(req.interaction_token, "t");
            assert_eq!(req.url, "https://x.org");
        },
        _ => panic!("expected a request"),
    }
}

#[test]
fn reply_contents() {
    let req = CleanRequest { interaction_id: "i".into(), interaction_token: "t".into(), url: "u".into() };
    let ok = reply_for(req, Ok("https://a.com/".to_string()));
    assert_eq!(ok.reply.unwrap().content, "🧹 Cleaned URL:\nhttps://a.com/");
    assert!(ok.error.is_none());
    let req = CleanRequest { interaction_id: "i".into(), interaction_token: "t".into(), url: "u".into() };
    let bad = reply_for(req, Err("boom".to_string()));
    let reply = bad.reply.unwrap();
    assert_eq!(reply.content, "❌ Error cleaning URL: boom");
    assert_eq!(reply.interaction_id, "i");
    assert!(matches!(bad.error, Some(BotError::CleaningError(m)) if m == "boom"));
}

#[test]
fn clean_command_reply_drops_tracking_parameters() {
    let d = payload(
        "{\"id\":\"1\",\"token\":\"tok\",\"data\":{\"name\":\"clean\",\"options\":[{\"name\":\"url\",\"value\":\"https://example.com?utm_source=x&keep=1\"}]}}",
    );
    let handled = handle_interaction(read_interaction(&d), &registry());
    assert!(handled.error.is_none());
    let reply = handled.reply.unwrap();
    assert_eq!(reply.interaction_id, "1");
    assert_eq!(reply.interaction_token, "tok");
    assert!(reply.content.contains("keep=1"));
    assert!(!reply.content.contains("utm_source"));
    assert_eq!(reply.content, "🧹 Cleaned URL:\nhttps://example.com/?keep=1");
}

#[test]
fn invalid_url_still_gets_an_error_reply() {
    let i = interaction(Some("1"), Some("tok"), Some("clean"), Some("Not a url"));
    let handled = handle_interaction(i, &registry());
    let reply = handled.reply.unwrap();
    assert!(reply.content.starts_with("❌ Error cleaning URL: "));
    assert!(matches!(handled.error, Some(BotError::CleaningError(_))));
}
