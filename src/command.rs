//! The command grammar: which command a message asks for.
use vstd::prelude::*;
use crate::text::{
    chars_of, contains, contains_chars, digits_value, is_digits, is_word, is_word_chars,
    parse_decimal, slice_chars, word_spans, words,
};

verus! {

/// A command of the bot, as read from one message.
#[derive(Clone, Debug, PartialEq, Eq)]
pub enum Command {
    /// Disable the named card for payments.
    Freeze(String),
    /// Enable the named card for payments.
    Enable(String),
    /// Set the largest amount of one transaction of the named card, in satoshis.
    SetTxMax(String, u64),
    /// Set the largest amount that the named card pays in a day, in satoshis.
    SetDayMax(String, u64),
    /// Show the named card's state.
    Get(String),
    /// Show the list of commands.
    Help,
    /// A message that is no command; it holds the message.
    Unrecognized(String),
}

/// The mathematical value of a [`Command`].
pub ghost enum CommandView {
    Freeze(Seq<char>),
    Enable(Seq<char>),
    SetTxMax(Seq<char>, nat),
    SetDayMax(Seq<char>, nat),
    Get(Seq<char>),
    Help,
    Unrecognized(Seq<char>),
}

impl View for Command {
    type V = CommandView;

    open spec fn view(&self) -> CommandView {
        match self {
            Command::Freeze(c) => CommandView::Freeze(c@),
            Command::Enable(c) => CommandView::Enable(c@),
            Command::SetTxMax(c, n) => CommandView::SetTxMax(c@, *n as nat),
            Command::SetDayMax(c, n) => CommandView::SetDayMax(c@, *n as nat),
            Command::Get(c) => CommandView::Get(c@),
            Command::Help => CommandView::Help,
            Command::Unrecognized(t) => CommandView::Unrecognized(t@),
        }
    }
}

/// The number of rules of the grammar.
pub const RULE_COUNT: u64 = 6;

/// The keyword of each rule, in the order in which the rules are tried:
/// freeze, enable, tx_max, day_max, get, help.
pub open spec fn keyword(k: nat) -> Seq<char> {
    if k == 0 {
        "/freeze"@
    } else if k == 1 {
        "/enable"@
    } else if k == 2 {
        "/tx_max"@
    } else if k == 3 {
        "/day_max"@
    } else if k == 4 {
        "/get"@
    } else {
        "/help"@
    }
}

/// How many arguments follow the keyword of rule `k`.
pub open spec fn arity(k: nat) -> nat {
    if k <= 1 || k == 4 {
        1
    } else if k <= 3 {
        2
    } else {
        0
    }
}

/// Rule `k` accepts `text`: the first word holds the rule's keyword, the right
/// number of words follow, the first of them a card name and the second, where
/// the rule takes one, a number that fits in a `u64`.
pub open spec fn rule_matches(k: nat, text: Seq<char>) -> bool {
    let w = words(text);
    &&& k < RULE_COUNT
    &&& w.len() == 1 + arity(k)
    &&& contains(w[0], keyword(k))
    &&& arity(k) >= 1 ==> is_word(w[1])
    &&& arity(k) == 2 ==> is_digits(w[2]) && digits_value(w[2]) <= u64::MAX
}

/// The command that rule `k` makes of `text`.
pub open spec fn rule_command(k: nat, text: Seq<char>) -> CommandView {
    let w = words(text);
    if k == 0 {
        CommandView::Freeze(w[1])
    } else if k == 1 {
        CommandView::Enable(w[1])
    } else if k == 2 {
        CommandView::SetTxMax(w[1], digits_value(w[2]))
    } else if k == 3 {
        CommandView::SetDayMax(w[1], digits_value(w[2]))
    } else if k == 4 {
        CommandView::Get(w[1])
    } else {
        CommandView::Help
    }
}

/// The command of the first rule from `k` on that accepts `text`.
pub open spec fn first_match_from(k: nat, text: Seq<char>) -> CommandView
    decreases RULE_COUNT - k,
{
    if k >= RULE_COUNT {
        CommandView::Unrecognized(text)
    } else if rule_matches(k, text) {
        rule_command(k, text)
    } else {
        first_match_from(k + 1, text)
    }
}

/// The command that `text` asks for.
pub open spec fn parse(text: Seq<char>) -> CommandView {
    first_match_from(0, text)
}

/// The position of a command's rule in the order of the rules; past the last
/// rule for an unrecognized message.
pub open spec fn rule_index(c: CommandView) -> nat {
    match c {
        CommandView::Freeze(_) => 0,
        CommandView::Enable(_) => 1,
        CommandView::SetTxMax(_, _) => 2,
        CommandView::SetDayMax(_, _) => 3,
        CommandView::Get(_) => 4,
        CommandView::Help => 5,
        CommandView::Unrecognized(_) => 6,
    }
}

fn keyword_chars(k: u64) -> (r: Vec<char>)
    requires
        k < RULE_COUNT,
    ensures
        r@ == keyword(k as nat),
{
    if k == 0 {
        chars_of("/freeze")
    } else if k == 1 {
        chars_of("/enable")
    } else if k == 2 {
        chars_of("/tx_max")
    } else if k == 3 {
        chars_of("/day_max")
    } else if k == 4 {
        chars_of("/get")
    } else {
        chars_of("/help")
    }
}

fn arity_of(k: u64) -> (r: usize)
    ensures
        r == arity(k as nat),
{
    if k <= 1 || k == 4 {
        1
    } else if k <= 3 {
        2
    } else {
        0
    }
}

fn word_at(cs: &Vec<char>, spans: &Vec<(usize, usize)>, j: usize) -> (r: Vec<char>)
    requires
        j < spans@.len(),
        spans@.len() == words(cs@).len(),
        forall|i: int|
            0 <= i < spans@.len() ==> {
                &&& (#[trigger] spans@[i]).0 <= spans@[i].1 <= cs@.len()
                &&& cs@.subrange(spans@[i].0 as int, spans@[i].1 as int) == words(cs@)[i]
            },
    ensures
        r@ == words(cs@)[j as int],
{
    let (lo, hi) = spans[j];
    slice_chars(cs, lo, hi)
}

} // verus!

verus! {

/// The spans of the words of `cs`, as `word_spans` gives them.
pub open spec fn spans_of_words(cs: Seq<char>, spans: Seq<(usize, usize)>) -> bool {
    &&& spans.len() == words(cs).len()
    &&& forall|i: int|
        0 <= i < spans.len() ==> {
            &&& (#[trigger] spans[i]).0 <= spans[i].1 <= cs.len()
            &&& cs.subrange(spans[i].0 as int, spans[i].1 as int) == words(cs)[i]
        }
}

fn rule_holds(k: u64, cs: &Vec<char>, spans: &Vec<(usize, usize)>) -> (r: bool)
    requires
        k < RULE_COUNT,
        spans_of_words(cs@, spans@),
    ensures
        r == rule_matches(k as nat, cs@),
{
    let n = arity_of(k);
    if spans.len() != 1 + n {
        return false;
    }
    let head = word_at(cs, spans, 0);
    let kw = keyword_chars(k);
    if !contains_chars(&head, &kw) {
        return false;
    }
    if n >= 1 {
        let card = word_at(cs, spans, 1);
        if !is_word_chars(&card) {
            return false;
        }
    }
    if n == 2 {
        let amount = word_at(cs, spans, 2);
        if parse_decimal(&amount).is_none() {
            return false;
        }
    }
    true
}

fn card_at(text: &str, spans: &Vec<(usize, usize)>, j: usize) -> (r: String)
    requires
        j < spans@.len(),
        spans_of_words(text@, spans@),
    ensures
        r@ == words(text@)[j as int],
{
    let (lo, hi) = spans[j];
    text.substring_char(lo, hi).to_owned()
}

fn amount_at(cs: &Vec<char>, spans: &Vec<(usize, usize)>, j: usize) -> (r: u64)
    requires
        j < spans@.len(),
        spans_of_words(cs@, spans@),
        is_digits(words(cs@)[j as int]),
        digits_value(words(cs@)[j as int]) <= u64::MAX,
    ensures
        r == digits_value(words(cs@)[j as int]),
{
    let amount = word_at(cs, spans, j);
    match parse_decimal(&amount) {
        Some(v) => v,
        None => 0,
    }
}

fn build_command(k: u64, text: &str, cs: &Vec<char>, spans: &Vec<(usize, usize)>) -> (r: Command)
    requires
        cs@ == text@,
        spans_of_words(cs@, spans@),
        rule_matches(k as nat, text@),
    ensures
        r@ == rule_command(k as nat, text@),
{
    if k == 5 {
        return Command::Help;
    }
    let card = card_at(text, spans, 1);
    if k == 0 {
        Command::Freeze(card)
    } else if k == 1 {
        Command::Enable(card)
    } else if k == 2 {
        Command::SetTxMax(card, amount_at(cs, spans, 2))
    } else if k == 3 {
        Command::SetDayMax(card, amount_at(cs, spans, 2))
    } else {
        Command::Get(card)
    }
}

/// Reads the command that `text` asks for. The rules are tried in a fixed
/// order and the first that accepts the message decides; a message that no
/// rule accepts is unrecognized.
pub fn match_command(text: &str) -> (r: Command)
    ensures
        r@ == parse(text@),
{
    let cs = chars_of(text);
    let spans = word_spans(&cs);
    let mut k: u64 = 0;
    while k < RULE_COUNT
        invariant
            k <= RULE_COUNT,
            cs@ == text@,
            spans_of_words(cs@, spans@),
            first_match_from(0, text@) == first_match_from(k as nat, text@),
        decreases RULE_COUNT - k,
    {
        if rule_holds(k, &cs, &spans) {
            return build_command(k, text, &cs, &spans);
        }
        k = k + 1;
    }
    Command::Unrecognized(text.to_owned())
}

} // verus!
