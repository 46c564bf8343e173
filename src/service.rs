//! What the card service answers, and what the bot makes of it.
use vstd::prelude::*;

verus! {

/// The parts of the card service's answer to a query for a card. Each limit
/// is the JSON text of its value, as the service wrote it.
#[derive(Clone, Debug)]
pub struct FetchResponse {
    /// The answer carries a "reason" member: the card is unknown.
    pub has_reason: bool,
    pub enabled: Option<bool>,
    pub tx_limit: Option<String>,
    pub day_limit: Option<String>,
    /// The whole answer as JSON text.
    pub rendered: String,
}

/// A card's state at the card service.
#[derive(Clone, Debug)]
pub struct CardState {
    pub enabled: bool,
    /// The JSON text of the largest amount of one transaction.
    pub tx_limit: String,
    /// The JSON text of the largest amount of a day.
    pub day_limit: String,
    /// The service's answer as JSON text.
    pub rendered: String,
}

pub ghost struct CardStateView {
    pub enabled: bool,
    pub tx_limit: Seq<char>,
    pub day_limit: Seq<char>,
    pub rendered: Seq<char>,
}

impl View for CardState {
    type V = CardStateView;

    open spec fn view(&self) -> CardStateView {
        CardStateView {
            enabled: self.enabled,
            tx_limit: self.tx_limit@,
            day_limit: self.day_limit@,
            rendered: self.rendered@,
        }
    }
}

/// The outcome of a query for a card.
#[derive(Clone, Debug)]
pub enum FetchOutcome {
    State(CardState),
    /// The service does not know the card.
    Unavailable,
    /// The service could not be asked, or its answer is not a card's state.
    Failed,
}

pub ghost enum FetchOutcomeView {
    State(CardStateView),
    Unavailable,
    Failed,
}

impl View for FetchOutcome {
    type V = FetchOutcomeView;

    open spec fn view(&self) -> FetchOutcomeView {
        match self {
            FetchOutcome::State(s) => FetchOutcomeView::State(s@),
            FetchOutcome::Unavailable => FetchOutcomeView::Unavailable,
            FetchOutcome::Failed => FetchOutcomeView::Failed,
        }
    }
}

/// The outcome of a request to change a card.
#[derive(Clone, Copy, Debug, PartialEq, Eq)]
pub enum UpdateOutcome {
    /// The service answered with the status "OK".
    Done,
    /// The service answered with any other status.
    Rejected,
    /// The service could not be asked, or its answer carries no status.
    Failed,
}

/// The outcome of a query, from the service's answer (`None` where no answer
/// came). An answer with a "reason" names an unknown card; any other answer
/// must hold all three fields of a card's state.
pub fn classify_fetch(response: Option<FetchResponse>) -> (r: FetchOutcome)
    ensures
        match response {
            None => r@ == FetchOutcomeView::Failed,
            Some(b) => if b.has_reason {
                r@ == FetchOutcomeView::Unavailable
            } else if b.enabled is Some && b.tx_limit is Some && b.day_limit is Some {
                r@ == FetchOutcomeView::State(
                    CardStateView {
                        enabled: b.enabled->0,
                        tx_limit: b.tx_limit->0@,
                        day_limit: b.day_limit->0@,
                        rendered: b.rendered@,
                    },
                )
            } else {
                r@ == FetchOutcomeView::Failed
            },
        },
{
    match response {
        None => FetchOutcome::Failed,
        Some(b) => {
            if b.has_reason {
                return FetchOutcome::Unavailable;
            }
            match (b.enabled, b.tx_limit, b.day_limit) {
                (Some(enabled), Some(tx_limit), Some(day_limit)) => FetchOutcome::State(
                    CardState { enabled, tx_limit, day_limit, rendered: b.rendered },
                ),
                _ => FetchOutcome::Failed,
            }
        },
    }
}

/// The outcome of a change, from the status in the service's answer (`None`
/// where no answer came). Only "OK" is success.
pub fn classify_update(status: Option<String>) -> (r: UpdateOutcome)
    ensures
        match status {
            None => r == UpdateOutcome::Failed,
            Some(s) => if s@ == "OK"@ {
                r == UpdateOutcome::Done
            } else {
                r == UpdateOutcome::Rejected
            },
        },
{
    match status {
        None => UpdateOutcome::Failed,
        Some(s) => {
            if s == "OK".to_owned() {
                UpdateOutcome::Done
            } else {
                UpdateOutcome::Rejected
            }
        },
    }
}

} // verus!
