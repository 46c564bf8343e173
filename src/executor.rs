//! What the bot does for a command: the calls it asks of the card service,
//! one step at a time, and the reply it sends. The caller performs each call
//! and hands its outcome to the next step.
use vstd::prelude::*;
use crate::command::{Command, CommandView};
use crate::messages::{
    day_max_set, day_max_text, disabled, disabled_text, enabled, enabled_text, failure,
    failure_text, help, help_text, invalid, invalid_text, rejected, rejected_text, tx_max_set,
    tx_max_text, unavailable, unavailable_text,
};
use crate::service::{CardState, CardStateView, FetchOutcome, FetchOutcomeView, UpdateOutcome};
use crate::text::{decimal, decimal_string, unquote, unquoted};

verus! {

/// A change of a card: every field that the service keeps, also those that
/// stay as they were. The limits are decimal numerals.
#[derive(Clone, Debug, PartialEq, Eq)]
pub struct UpdateRequest {
    pub card: String,
    pub enabled: bool,
    pub tx_max: String,
    pub day_max: String,
}

pub ghost struct UpdateRequestView {
    pub card: Seq<char>,
    pub enabled: bool,
    pub tx_max: Seq<char>,
    pub day_max: Seq<char>,
}

impl View for UpdateRequest {
    type V = UpdateRequestView;

    open spec fn view(&self) -> UpdateRequestView {
        UpdateRequestView {
            card: self.card@,
            enabled: self.enabled,
            tx_max: self.tx_max@,
            day_max: self.day_max@,
        }
    }
}

/// What the bot does next.
#[derive(Clone, Debug, PartialEq, Eq)]
pub enum Action {
    /// Send this text to the sender; the command is done.
    Reply(String),
    /// Ask the card service for the state of this card.
    Fetch(String),
    /// Ask the card service to make this change.
    Update(UpdateRequest),
}

pub ghost enum ActionView {
    Reply(Seq<char>),
    Fetch(Seq<char>),
    Update(UpdateRequestView),
}

impl View for Action {
    type V = ActionView;

    open spec fn view(&self) -> ActionView {
        match self {
            Action::Reply(t) => ActionView::Reply(t@),
            Action::Fetch(c) => ActionView::Fetch(c@),
            Action::Update(u) => ActionView::Update(u@),
        }
    }
}

/// The command names a card.
pub open spec fn names_card(c: CommandView) -> bool {
    match c {
        CommandView::Help | CommandView::Unrecognized(_) => false,
        _ => true,
    }
}

/// The command changes a card.
pub open spec fn changes_card(c: CommandView) -> bool {
    names_card(c) && !(c is Get)
}

pub open spec fn card_of(c: CommandView) -> Seq<char> {
    match c {
        CommandView::Freeze(card) => card,
        CommandView::Enable(card) => card,
        CommandView::SetTxMax(card, _) => card,
        CommandView::SetDayMax(card, _) => card,
        CommandView::Get(card) => card,
        _ => Seq::empty(),
    }
}

/// The keyword by which the command is asked for.
pub open spec fn keyword_of(c: CommandView) -> Seq<char> {
    match c {
        CommandView::Freeze(_) => "/freeze"@,
        CommandView::Enable(_) => "/enable"@,
        CommandView::SetTxMax(_, _) => "/tx_max"@,
        CommandView::SetDayMax(_, _) => "/day_max"@,
        CommandView::Get(_) => "/get"@,
        _ => "/help"@,
    }
}

/// The first step of a command.
pub open spec fn start_spec(c: CommandView) -> ActionView {
    match c {
        CommandView::Help => ActionView::Reply(help_text()),
        CommandView::Unrecognized(_) => ActionView::Reply(invalid_text()),
        _ => ActionView::Fetch(card_of(c)),
    }
}

/// The change that command `c` makes of the card's state `s`: the field that
/// the command sets takes its new value and the others keep theirs.
pub open spec fn update_for(c: CommandView, s: CardStateView) -> UpdateRequestView {
    let tx = unquoted(s.tx_limit);
    let day = unquoted(s.day_limit);
    match c {
        CommandView::Freeze(card) => UpdateRequestView { card, enabled: false, tx_max: tx, day_max: day },
        CommandView::Enable(card) => UpdateRequestView { card, enabled: true, tx_max: tx, day_max: day },
        CommandView::SetTxMax(card, n) => UpdateRequestView {
            card,
            enabled: s.enabled,
            tx_max: decimal(n),
            day_max: day,
        },
        CommandView::SetDayMax(card, n) => UpdateRequestView {
            card,
            enabled: s.enabled,
            tx_max: tx,
            day_max: decimal(n),
        },
        _ => UpdateRequestView { card: card_of(c), enabled: s.enabled, tx_max: tx, day_max: day },
    }
}

/// The step after the card service answered the query for the card.
pub open spec fn after_fetch_spec(c: CommandView, o: FetchOutcomeView) -> ActionView {
    match o {
        FetchOutcomeView::Failed => ActionView::Reply(failure_text(card_of(c))),
        FetchOutcomeView::Unavailable => ActionView::Reply(unavailable_text(card_of(c))),
        FetchOutcomeView::State(s) => if c is Get {
            ActionView::Reply(s.rendered)
        } else {
            ActionView::Update(update_for(c, s))
        },
    }
}

/// The reply once the card service answered the change.
pub open spec fn after_update_spec(c: CommandView, u: UpdateOutcome) -> Seq<char> {
    match u {
        UpdateOutcome::Failed => failure_text(card_of(c)),
        UpdateOutcome::Rejected => rejected_text(card_of(c), keyword_of(c)),
        UpdateOutcome::Done => match c {
            CommandView::Freeze(card) => disabled_text(card),
            CommandView::Enable(card) => enabled_text(card),
            CommandView::SetTxMax(card, n) => tx_max_text(card, n),
            CommandView::SetDayMax(card, n) => day_max_text(card, n),
            _ => Seq::empty(),
        },
    }
}

fn keyword_str(c: &Command) -> (r: &'static str)
    ensures
        r@ == keyword_of(c@),
{
    match c {
        Command::Freeze(_) => "/freeze",
        Command::Enable(_) => "/enable",
        Command::SetTxMax(_, _) => "/tx_max",
        Command::SetDayMax(_, _) => "/day_max",
        Command::Get(_) => "/get",
        _ => "/help",
    }
}

fn card_str(c: &Command) -> (r: &str)
    requires
        names_card(c@),
    ensures
        r@ == card_of(c@),
{
    match c {
        Command::Freeze(card) => card.as_str(),
        Command::Enable(card) => card.as_str(),
        Command::SetTxMax(card, _) => card.as_str(),
        Command::SetDayMax(card, _) => card.as_str(),
        Command::Get(card) => card.as_str(),
        _ => "",
    }
}

/// The first step of a command: the list of commands for help, the fixed
/// reply for a message that is no command, and otherwise a query for the
/// card's state.
pub fn start(c: &Command) -> (r: Action)
    ensures
        r@ == start_spec(c@),
{
    match c {
        Command::Help => Action::Reply(help()),
        Command::Unrecognized(_) => Action::Reply(invalid()),
        _ => Action::Fetch(card_str(c).to_owned()),
    }
}

fn update_request(c: &Command, s: &CardState) -> (r: UpdateRequest)
    requires
        changes_card(c@),
    ensures
        r@ == update_for(c@, s@),
{
    let card = card_str(c).to_owned();
    match c {
        Command::Freeze(_) => UpdateRequest {
            card,
            enabled: false,
            tx_max: unquote(s.tx_limit.as_str()),
            day_max: unquote(s.day_limit.as_str()),
        },
        Command::Enable(_) => UpdateRequest {
            card,
            enabled: true,
            tx_max: unquote(s.tx_limit.as_str()),
            day_max: unquote(s.day_limit.as_str()),
        },
        Command::SetTxMax(_, n) => UpdateRequest {
            card,
            enabled: s.enabled,
            tx_max: decimal_string(*n),
            day_max: unquote(s.day_limit.as_str()),
        },
        Command::SetDayMax(_, n) => UpdateRequest {
            card,
            enabled: s.enabled,
            tx_max: unquote(s.tx_limit.as_str()),
            day_max: decimal_string(*n),
        },
        _ => UpdateRequest {
            card,
            enabled: s.enabled,
            tx_max: unquote(s.tx_limit.as_str()),
            day_max: unquote(s.day_limit.as_str()),
        },
    }
}

/// The step after the query for the card: a reply where the card is unknown
/// or the query failed; for `Get`, the service's answer as it came; otherwise
/// the change, which keeps every field but the one the command sets.
pub fn after_fetch(c: &Command, o: &FetchOutcome) -> (r: Action)
    requires
        names_card(c@),
    ensures
        r@ == after_fetch_spec(c@, o@),
{
    match o {
        FetchOutcome::Failed => Action::Reply(failure(card_str(c))),
        FetchOutcome::Unavailable => Action::Reply(unavailable(card_str(c))),
        FetchOutcome::State(s) => {
            if let Command::Get(_) = c {
                Action::Reply(s.rendered.clone())
            } else {
                Action::Update(update_request(c, s))
            }
        },
    }
}

/// The reply once the change was answered: a confirmation on success, which
/// for a change of the enabled state names the command that undoes it.
pub fn after_update(c: &Command, u: UpdateOutcome) -> (r: String)
    requires
        changes_card(c@),
    ensures
        r@ == after_update_spec(c@, u),
{
    match u {
        UpdateOutcome::Failed => failure(card_str(c)),
        UpdateOutcome::Rejected => rejected(card_str(c), keyword_str(c)),
        UpdateOutcome::Done => match c {
            Command::Freeze(card) => disabled(card.as_str()),
            Command::Enable(card) => enabled(card.as_str()),
            Command::SetTxMax(card, n) => tx_max_set(card.as_str(), *n),
            Command::SetDayMax(card, n) => day_max_set(card.as_str(), *n),
            _ => String::new(),
        },
    }
}

} // verus!
