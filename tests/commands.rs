use boltcard_bot::command::{match_command, Command};
use boltcard_bot::executor::{after_fetch, after_update, start, Action, UpdateRequest};
use boltcard_bot::messages::help;
use boltcard_bot::service::{classify_fetch, classify_update, CardState, FetchOutcome, FetchResponse, UpdateOutcome};
use boltcard_bot::text::{decimal_string, unquote};

const INVALID: &str = "Invalid command, send /help to see all commands.";

fn card_response(enabled: bool, tx: &str, day: &str) -> FetchResponse {
    FetchResponse {
        has_reason: false,
        enabled: Some(enabled),
        tx_limit: Some(tx.to_string()),
        day_limit: Some(day.to_string()),
        rendered: format!("{{\"day_limit_sats\":{},\"enabled\":{},\"tx_limit_sats\":{}}}", day, enabled, tx),
    }
}

fn state(enabled: bool, tx: &str, day: &str) -> FetchOutcome {
    classify_fetch(Some(card_response(enabled, tx, day)))
}

fn update_of(a: Action) -> UpdateRequest {
    match a {
        Action::Update(u) => u,
        other => panic!("expected an update, got {:?}", other),
    }
}

#[test]
fn recognizes_each_command() {
    assert_eq!(match_command("/freeze mycard"), Command::Freeze("mycard".to_string()));
    assert_eq!(match_command("/enable mycard"), Command::Enable("mycard".to_string()));
    assert_eq!(match_command("/tx_max mycard 5000"), Command::SetTxMax("mycard".to_string(), 5000));
    assert_eq!(match_command("/day_max mycard 10000"), Command::SetDayMax("mycard".to_string(), 10000));
    assert_eq!(match_command("/get mycard"), Command::Get("mycard".to_string()));
    assert_eq!(match_command("/help"), Command::Help);
}

#[test]
fn keyword_may_carry_punctuation_and_whitespace_may_vary() {
    assert_eq!(match_command("/freeze! card_1"), Command::Freeze("card_1".to_string()));
    assert_eq!(match_command("  /get\tcard  \n"), Command::Get("card".to_string()));
    assert_eq!(match_command("/help\n"), Command::Help);
}

#[test]
fn malformed_messages_are_unrecognized() {
    for text in [
        "/banana",
        "",
        "/freeze",
        "/freeze a b",
        "/freeze my-card",
        "/tx_max card",
        "/tx_max card 12a",
        "/tx_max card -5",
        "/tx_max card 18446744073709551616",
        "/help me",
        "freeze card",
    ] {
        assert_eq!(match_command(text), Command::Unrecognized(text.to_string()), "{:?}", text);
    }
    assert_eq!(match_command("/tx_max card 18446744073709551615"), Command::SetTxMax("card".to_string(), u64::MAX));
}

#[test]
fn earlier_rule_wins_when_two_match() {
    assert_eq!(match_command("/freeze/enable card"), Command::Freeze("card".to_string()));
    assert_eq!(match_command("/get/enable card"), Command::Enable("card".to_string()));
    assert_eq!(match_command("/day_max/tx_max card 7"), Command::SetTxMax("card".to_string(), 7));
}

#[test]
fn unknown_command_gets_invalid_reply() {
    let c = match_command("/banana");
    assert_eq!(c, Command::Unrecognized("/banana".to_string()));
    assert_eq!(start(&c), Action::Reply(INVALID.to_string()));
}

#[test]
fn help_lists_all_commands() {
    let expected = "BoltCard Bot Commands:\n\
/freeze <card_name> - Disables BoltCard for payments\n\
/enable <card_name> - Enables BoltCard for payments\n\
/get  <card_name> - Displays BoltCard details\n\
/tx_max <card_name> <sats> - Sets maximum satoshis amount for individual transaction\n\
/day_max <card_name> <sats> - Sets daily maximum satoshis amount\n\
/help - Help";
    assert_eq!(help(), expected);
    assert_eq!(start(&match_command("/help")), Action::Reply(expected.to_string()));
}

#[test]
fn tx_max_scenario() {
    let c = match_command("/tx_max mycard 5000");
    assert_eq!(start(&c), Action::Fetch("mycard".to_string()));
    let req = update_of(after_fetch(&c, &state(true, "1000", "10000")));
    assert_eq!(
        req,
        UpdateRequest { card: "mycard".to_string(), enabled: true, tx_max: "5000".to_string(), day_max: "10000".to_string() }
    );
    let reply = after_update(&c, classify_update(Some("OK".to_string())));
    assert_eq!(reply, "BoltCard Bot: mycard - New transaction maximum set: 5000 satoshis");
    assert!(!reply.contains('"'));
}

#[test]
fn tx_max_carries_other_fields_forward() {
    let c = Command::SetTxMax("card".to_string(), 5000);
    let req = update_of(after_fetch(&c, &state(true, "\"2500\"", "\"10000\"")));
    assert_eq!(req.tx_max, "5000");
    assert_eq!(req.day_max, "10000");
    assert!(req.enabled);
    let req = update_of(after_fetch(&c, &state(false, "1", "10000")));
    assert!(!req.enabled);
}

#[test]
fn day_max_sets_daily_limit() {
    let c = match_command("/day_max mycard 20000");
    let req = update_of(after_fetch(&c, &state(false, "1000", "10000")));
    assert_eq!(
        req,
        UpdateRequest { card: "mycard".to_string(), enabled: false, tx_max: "1000".to_string(), day_max: "20000".to_string() }
    );
    assert_eq!(after_update(&c, UpdateOutcome::Done), "BoltCard Bot: mycard - New daily maximum set: 20000 satoshis");
}

#[test]
fn unknown_card_is_unavailable() {
    let c = match_command("/get unknowncard");
    assert_eq!(start(&c), Action::Fetch("unknowncard".to_string()));
    let outcome = classify_fetch(Some(FetchResponse {
        has_reason: true,
        enabled: None,
        tx_limit: None,
        day_limit: None,
        rendered: "{\"reason\":\"not found\"}".to_string(),
    }));
    let a = after_fetch(&c, &outcome);
    assert_eq!(a, Action::Reply("BoltCard Service Bot: unknowncard unavailable".to_string()));
    let f = match_command("/freeze unknowncard");
    assert_eq!(after_fetch(&f, &outcome), Action::Reply("BoltCard Service Bot: unknowncard unavailable".to_string()));
}

#[test]
fn get_passes_answer_through_and_repeats() {
    let c = match_command("/get mycard");
    let body = card_response(true, "1000", "10000");
    let rendered = body.rendered.clone();
    let first = after_fetch(&c, &classify_fetch(Some(body.clone())));
    let second = after_fetch(&c, &classify_fetch(Some(body)));
    assert_eq!(first, Action::Reply(rendered));
    assert_eq!(first, second);
}

#[test]
fn freeze_then_enable_restores_limits() {
    let freeze = match_command("/freeze mycard");
    let r1 = update_of(after_fetch(&freeze, &state(true, "\"1000\"", "10000")));
    assert_eq!(
        r1,
        UpdateRequest { card: "mycard".to_string(), enabled: false, tx_max: "1000".to_string(), day_max: "10000".to_string() }
    );
    assert_eq!(after_update(&freeze, UpdateOutcome::Done), "BoltCard Bot: mycard - DISABLED. To enable send command: /enable mycard");
    let enable = match_command("/enable mycard");
    let r2 = update_of(after_fetch(&enable, &state(r1.enabled, &r1.tx_max, &r1.day_max)));
    assert_eq!(
        r2,
        UpdateRequest { card: "mycard".to_string(), enabled: true, tx_max: "1000".to_string(), day_max: "10000".to_string() }
    );
    assert_eq!(after_update(&enable, UpdateOutcome::Done), "BoltCard Bot: mycard - ENABLED. To disable send command: /freeze mycard");
}

#[test]
fn rejected_and_failed_changes() {
    let c = match_command("/freeze mycard");
    assert_eq!(classify_update(Some("ERROR".to_string())), UpdateOutcome::Rejected);
    assert_eq!(classify_update(Some("maybe".to_string())), UpdateOutcome::Rejected);
    assert_eq!(classify_update(None), UpdateOutcome::Failed);
    assert_eq!(after_update(&c, UpdateOutcome::Rejected), "BoltCard Bot: mycard - Command: /freeze failed to run");
    let t = match_command("/tx_max mycard 5");
    assert_eq!(after_update(&t, UpdateOutcome::Rejected), "BoltCard Bot: mycard - Command: /tx_max failed to run");
    assert_eq!(after_update(&c, UpdateOutcome::Failed), "BoltCard Service Bot: request for mycard failed, please try again later");
}

#[test]
fn failed_or_malformed_query() {
    let c = match_command("/enable mycard");
    let failed = "BoltCard Service Bot: request for mycard failed, please try again later".to_string();
    assert!(matches!(classify_fetch(None), FetchOutcome::Failed));
    assert_eq!(after_fetch(&c, &classify_fetch(None)), Action::Reply(failed.clone()));
    let mut partial = card_response(true, "1", "2");
    partial.day_limit = None;
    assert!(matches!(classify_fetch(Some(partial)), FetchOutcome::Failed));
    let mut no_enabled = card_response(true, "1", "2");
    no_enabled.enabled = None;
    let outcome = classify_fetch(Some(no_enabled));
    assert_eq!(after_fetch(&c, &outcome), Action::Reply(failed));
}

#[test]
fn classify_keeps_fields() {
    match state(true, "1000", "\"10\"") {
        FetchOutcome::State(CardState { enabled, tx_limit, day_limit, .. }) => {
            assert!(enabled);
            assert_eq!(tx_limit, "1000");
            assert_eq!(day_limit, "\"10\"");
        }
        other => panic!("expected a state, got {:?}", other),
    }
}

#[test]
fn numerals_and_quotes() {
    assert_eq!(decimal_string(0), "0");
    assert_eq!(decimal_string(9), "9");
    assert_eq!(decimal_string(10), "10");
    assert_eq!(decimal_string(1234567), "1234567");
    assert_eq!(decimal_string(u64::MAX), "18446744073709551615");
    assert_eq!(unquote("\"5000\""), "5000");
    assert_eq!(unquote("5000"), "5000");
    assert_eq!(unquote(""), "");
    assert_eq!(unquote("\"\""), "");
}
