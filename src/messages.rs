//! The texts that the bot sends back.
use vstd::prelude::*;
use crate::text::{decimal, push_decimal};

verus! {

/// The reply to a message that is no command.
pub open spec fn invalid_text() -> Seq<char> {
    "Invalid command, send /help to see all commands."@
}

/// The list of commands.
pub open spec fn help_text() -> Seq<char> {
    "BoltCard Bot Commands:\n/freeze <card_name> - Disables BoltCard for payments\n/enable <card_name> - Enables BoltCard for payments\n/get  <card_name> - Displays BoltCard details\n/tx_max <card_name> <sats> - Sets maximum satoshis amount for individual transaction\n/day_max <card_name> <sats> - Sets daily maximum satoshis amount\n/help - Help"@
}

/// The reply when the card service does not know the card.
pub open spec fn unavailable_text(card: Seq<char>) -> Seq<char> {
    "BoltCard Service Bot: "@ + card + " unavailable"@
}

/// The reply when the card service could not be asked, or answered with
/// something that is not a card's state.
pub open spec fn failure_text(card: Seq<char>) -> Seq<char> {
    "BoltCard Service Bot: request for "@ + card + " failed, please try again later"@
}

/// The reply when the card service refused a change.
pub open spec fn rejected_text(card: Seq<char>, keyword: Seq<char>) -> Seq<char> {
    "BoltCard Bot: "@ + card + " - Command: "@ + keyword + " failed to run"@
}

pub open spec fn disabled_text(card: Seq<char>) -> Seq<char> {
    "BoltCard Bot: "@ + card + " - DISABLED. To enable send command: /enable "@ + card
}

pub open spec fn enabled_text(card: Seq<char>) -> Seq<char> {
    "BoltCard Bot: "@ + card + " - ENABLED. To disable send command: /freeze "@ + card
}

pub open spec fn tx_max_text(card: Seq<char>, sats: nat) -> Seq<char> {
    "BoltCard Bot: "@ + card + " - New transaction maximum set: "@ + decimal(sats) + " satoshis"@
}

pub open spec fn day_max_text(card: Seq<char>, sats: nat) -> Seq<char> {
    "BoltCard Bot: "@ + card + " - New daily maximum set: "@ + decimal(sats) + " satoshis"@
}

/// The reply to a message that is no command.
pub fn invalid() -> (r: String)
    ensures
        r@ == invalid_text(),
{
    "Invalid command, send /help to see all commands.".to_owned()
}

/// The list of commands, one to a line.
pub fn help() -> (r: String)
    ensures
        r@ == help_text(),
{
    "BoltCard Bot Commands:\n/freeze <card_name> - Disables BoltCard for payments\n/enable <card_name> - Enables BoltCard for payments\n/get  <card_name> - Displays BoltCard details\n/tx_max <card_name> <sats> - Sets maximum satoshis amount for individual transaction\n/day_max <card_name> <sats> - Sets daily maximum satoshis amount\n/help - Help".to_owned()
}

fn around(before: &str, card: &str, after: &str) -> (r: String)
    ensures
        r@ == before@ + card@ + after@,
{
    let mut r = before.to_owned();
    r.append(card);
    r.append(after);
    r
}

pub fn unavailable(card: &str) -> (r: String)
    ensures
        r@ == unavailable_text(card@),
{
    around("BoltCard Service Bot: ", card, " unavailable")
}

pub fn failure(card: &str) -> (r: String)
    ensures
        r@ == failure_text(card@),
{
    around("BoltCard Service Bot: request for ", card, " failed, please try again later")
}

pub fn rejected(card: &str, keyword: &str) -> (r: String)
    ensures
        r@ == rejected_text(card@, keyword@),
{
    let mut r = around("BoltCard Bot: ", card, " - Command: ");
    r.append(keyword);
    r.append(" failed to run");
    r
}

pub fn disabled(card: &str) -> (r: String)
    ensures
        r@ == disabled_text(card@),
{
    around("BoltCard Bot: ", card, " - DISABLED. To enable send command: /enable ").concat(card)
}

pub fn enabled(card: &str) -> (r: String)
    ensures
        r@ == enabled_text(card@),
{
    around("BoltCard Bot: ", card, " - ENABLED. To disable send command: /freeze ").concat(card)
}

pub fn tx_max_set(card: &str, sats: u64) -> (r: String)
    ensures
        r@ == tx_max_text(card@, sats as nat),
{
    let mut r = around("BoltCard Bot: ", card, " - New transaction maximum set: ");
    push_decimal(sats, &mut r);
    r.append(" satoshis");
    r
}

pub fn day_max_set(card: &str, sats: u64) -> (r: String)
    ensures
        r@ == day_max_text(card@, sats as nat),
{
    let mut r = around("BoltCard Bot: ", card, " - New daily maximum set: ");
    push_decimal(sats, &mut r);
    r.append(" satoshis");
    r
}

} // verus!
