//! Properties that relate the grammar and the steps of a command.
use vstd::prelude::*;
use crate::command::{parse, rule_command, rule_index, rule_matches, first_match_from, keyword, CommandView, RULE_COUNT};
use crate::executor::{after_fetch_spec, start_spec, update_for, ActionView, UpdateRequestView};
use crate::messages::invalid_text;
use crate::service::{CardStateView, FetchOutcomeView};
use crate::text::{
    contains, decimal, digit_char, digit_value, digits_value, is_digits, is_space, is_word,
    unquoted, words,
};

verus! {

proof fn lemma_words_push_space(s: Seq<char>, c: char)
    requires
        is_space(c),
    ensures
        words(s.push(c)) == words(s),
{
    assert(s.push(c).drop_last() =~= s);
}

/// Appending a run of non-space characters after a space (or to nothing)
/// adds one word.
proof fn lemma_words_append_word(s: Seq<char>, t: Seq<char>)
    requires
        t.len() > 0,
        forall|i: int| 0 <= i < t.len() ==> !is_space(#[trigger] t[i]),
        s.len() == 0 || is_space(s.last()),
    ensures
        words(s + t) == words(s).push(t),
    decreases t.len(),
{
    let u = t.drop_last();
    assert((s + t).drop_last() =~= s + u);
    assert((s + t).last() == t.last());
    if u.len() == 0 {
        assert(s + u =~= s);
        assert(seq![t.last()] =~= t);
    } else {
        lemma_words_append_word(s, u);
        assert((s + u).last() == u.last());
        assert(u.push(t.last()) =~= t);
    }
}

proof fn lemma_single_word(t: Seq<char>)
    requires
        t.len() > 0,
        forall|i: int| 0 <= i < t.len() ==> !is_space(#[trigger] t[i]),
    ensures
        words(t) == seq![t],
{
    lemma_words_append_word(Seq::empty(), t);
    assert(Seq::<char>::empty() + t =~= t);
    assert(Seq::<Seq<char>>::empty().push(t) =~= seq![t]);
}

proof fn lemma_word_has_no_space(t: Seq<char>)
    requires
        is_word(t),
    ensures
        forall|i: int| 0 <= i < t.len() ==> !is_space(#[trigger] t[i]),
{
    assert forall|i: int| 0 <= i < t.len() implies !is_space(#[trigger] t[i]) by {
        assert(crate::text::is_word_char(t[i]));
    }
}

proof fn lemma_decimal_digits(n: nat)
    ensures
        is_digits(decimal(n)),
        digits_value(decimal(n)) == n,
        forall|i: int| 0 <= i < decimal(n).len() ==> !is_space(#[trigger] decimal(n)[i]),
    decreases n,
{
    let d = n % 10;
    assert(digit_value(digit_char(d)) == d && crate::text::is_digit(digit_char(d)));
    if n >= 10 {
        let m = n / 10;
        lemma_decimal_digits(m);
        assert(decimal(n) == decimal(m).push(digit_char(d)));
        assert(decimal(n).drop_last() =~= decimal(m));
        assert(decimal(n).last() == digit_char(d));
        vstd::arithmetic::div_mod::lemma_fundamental_div_mod(n as int, 10);
        assert(digits_value(decimal(n)) == digits_value(decimal(m)) * 10 + digit_value(digit_char(d)));
        assert(m * 10 + d == n) by (nonlinear_arith)
            requires
                n == 10 * (n / 10) + n % 10,
                m == n / 10,
                d == n % 10,
        ;
        assert forall|i: int| 0 <= i < decimal(n).len() implies crate::text::is_digit(#[trigger] decimal(n)[i]) && !is_space(decimal(n)[i]) by {
            if i < decimal(m).len() {
                assert(decimal(n)[i] == decimal(m)[i]);
            }
        }
    } else {
        vstd::arithmetic::div_mod::lemma_small_mod(n, 10);
        assert(decimal(n).drop_last() =~= Seq::<char>::empty());
        assert(digits_value(decimal(n)) == digits_value(Seq::<char>::empty()) * 10 + digit_value(digit_char(d)));
    }
}

/// Two words separated by one space.
proof fn lemma_two_words(a: Seq<char>, b: Seq<char>)
    requires
        a.len() > 0,
        b.len() > 0,
        forall|i: int| 0 <= i < a.len() ==> !is_space(#[trigger] a[i]),
        forall|i: int| 0 <= i < b.len() ==> !is_space(#[trigger] b[i]),
    ensures
        words(a + seq![' '] + b) == seq![a, b],
{
    lemma_single_word(a);
    lemma_words_push_space(a, ' ');
    assert(a + seq![' '] =~= a.push(' '));
    lemma_words_append_word(a + seq![' '], b);
    assert(seq![a].push(b) =~= seq![a, b]);
}

proof fn lemma_three_words(a: Seq<char>, b: Seq<char>, c: Seq<char>)
    requires
        a.len() > 0,
        b.len() > 0,
        c.len() > 0,
        forall|i: int| 0 <= i < a.len() ==> !is_space(#[trigger] a[i]),
        forall|i: int| 0 <= i < b.len() ==> !is_space(#[trigger] b[i]),
        forall|i: int| 0 <= i < c.len() ==> !is_space(#[trigger] c[i]),
    ensures
        words(a + seq![' '] + b + seq![' '] + c) == seq![a, b, c],
{
    lemma_two_words(a, b);
    let ab = a + seq![' '] + b;
    lemma_words_push_space(ab, ' ');
    assert(ab + seq![' '] =~= ab.push(' '));
    lemma_words_append_word(ab + seq![' '], c);
    assert(seq![a, b].push(c) =~= seq![a, b, c]);
}

proof fn lemma_contains_self(t: Seq<char>)
    ensures
        contains(t, t),
{
    assert(t.subrange(0, 0 + t.len() as int) =~= t);
}

proof fn lemma_keyword_facts()
    ensures
        forall|k: nat|
            k < RULE_COUNT ==> #[trigger] keyword(k).len() > 0 && forall|i: int|
                0 <= i < keyword(k).len() ==> !is_space(#[trigger] keyword(k)[i]),
        !contains(keyword(1), keyword(0)),
        !contains(keyword(3), keyword(2)),
        !contains(keyword(4), keyword(0)),
        !contains(keyword(4), keyword(1)),
{
    reveal_strlit("/freeze");
    reveal_strlit("/enable");
    reveal_strlit("/tx_max");
    reveal_strlit("/day_max");
    reveal_strlit("/get");
    reveal_strlit("/help");
    assert(keyword(1).subrange(0, 7)[1] != keyword(0)[1]);
    assert forall|i: int| 0 <= i && i + keyword(2).len() <= keyword(3).len() implies #[trigger] keyword(
        3,
    ).subrange(i, i + keyword(2).len()) != keyword(2) by {
        if i == 0 {
            assert(keyword(3).subrange(i, i + keyword(2).len())[1] != keyword(2)[1]);
        } else {
            assert(keyword(3).subrange(i, i + keyword(2).len())[0] != keyword(2)[0]);
        }
    }
}

proof fn lemma_recognize_one_arg(k: nat, card: Seq<char>)
    requires
        k == 0 || k == 1 || k == 4,
        is_word(card),
    ensures
        parse(keyword(k) + seq![' '] + card) == rule_command(k, keyword(k) + seq![' '] + card),
        words(keyword(k) + seq![' '] + card)[1] == card,
{
    lemma_keyword_facts();
    lemma_word_has_no_space(card);
    lemma_contains_self(keyword(k));
    let t = keyword(k) + seq![' '] + card;
    lemma_two_words(keyword(k), card);
    assert(words(t)[1] == card);
    assert(rule_matches(k, t));
    if k == 1 {
        assert(!rule_matches(0, t));
    }
    if k == 4 {
        assert(!rule_matches(0, t));
        assert(!rule_matches(1, t));
        assert(!rule_matches(2, t));
        assert(!rule_matches(3, t));
    }
    lemma_first_rule_decides(t, k);
}

proof fn lemma_recognize_amount(k: nat, card: Seq<char>, n: u64)
    requires
        k == 2 || k == 3,
        is_word(card),
    ensures
        parse(keyword(k) + seq![' '] + card + seq![' '] + decimal(n as nat)) == rule_command(
            k,
            keyword(k) + seq![' '] + card + seq![' '] + decimal(n as nat),
        ),
        words(keyword(k) + seq![' '] + card + seq![' '] + decimal(n as nat))[1] == card,
        words(keyword(k) + seq![' '] + card + seq![' '] + decimal(n as nat))[2] == decimal(n as nat),
        digits_value(decimal(n as nat)) == n,
{
    lemma_keyword_facts();
    lemma_word_has_no_space(card);
    lemma_decimal_digits(n as nat);
    lemma_contains_self(keyword(k));
    let num = decimal(n as nat);
    let t = keyword(k) + seq![' '] + card + seq![' '] + num;
    lemma_three_words(keyword(k), card, num);
    assert(words(t)[1] == card && words(t)[2] == num);
    assert(rule_matches(k, t));
    assert(!rule_matches(0, t));
    assert(!rule_matches(1, t));
    if k == 3 {
        assert(!rule_matches(2, t));
    }
    lemma_first_rule_decides(t, k);
}

proof fn lemma_recognize_help()
    ensures
        parse(keyword(5)) == CommandView::Help,
{
    lemma_keyword_facts();
    lemma_contains_self(keyword(5));
    lemma_single_word(keyword(5));
    let h = keyword(5);
    assert(rule_matches(5, h));
    assert(!rule_matches(0, h) && !rule_matches(1, h) && !rule_matches(2, h));
    assert(!rule_matches(3, h) && !rule_matches(4, h));
    lemma_first_rule_decides(h, 5);
}

/// Every recognized form of a command is read as that command: a keyword
/// followed by a card name (a word), and for the limits by the decimal
/// numeral of the amount, each separated by one space; and the keyword
/// alone for help.
pub proof fn lemma_commands_recognized(card: Seq<char>, n: u64)
    requires
        is_word(card),
    ensures
        parse("/freeze"@ + seq![' '] + card) == CommandView::Freeze(card),
        parse("/enable"@ + seq![' '] + card) == CommandView::Enable(card),
        parse("/tx_max"@ + seq![' '] + card + seq![' '] + decimal(n as nat))
            == CommandView::SetTxMax(card, n as nat),
        parse("/day_max"@ + seq![' '] + card + seq![' '] + decimal(n as nat))
            == CommandView::SetDayMax(card, n as nat),
        parse("/get"@ + seq![' '] + card) == CommandView::Get(card),
        parse("/help"@) == CommandView::Help,
{
    lemma_recognize_one_arg(0, card);
    lemma_recognize_one_arg(1, card);
    lemma_recognize_one_arg(4, card);
    lemma_recognize_amount(2, card, n);
    lemma_recognize_amount(3, card, n);
    lemma_recognize_help();
}

/// A message that no rule accepts is unrecognized, and its reply is the
/// fixed text for a message that is no command.
pub proof fn lemma_unmatched_is_invalid(text: Seq<char>)
    requires
        forall|k: nat| k < RULE_COUNT ==> !#[trigger] rule_matches(k, text),
    ensures
        parse(text) == CommandView::Unrecognized(text),
        start_spec(parse(text)) == ActionView::Reply(invalid_text()),
{
    reveal_with_fuel(first_match_from, 7);
    assert(!rule_matches(0, text) && !rule_matches(1, text) && !rule_matches(2, text));
    assert(!rule_matches(3, text) && !rule_matches(4, text) && !rule_matches(5, text));
}

proof fn lemma_first_match_bound(text: Seq<char>, m: nat, i: nat)
    requires
        m <= i,
        rule_matches(i, text),
    ensures
        rule_index(first_match_from(m, text)) <= i,
        first_match_from(m, text) == rule_command(rule_index(first_match_from(m, text)), text),
        rule_matches(rule_index(first_match_from(m, text)), text),
    decreases i - m,
{
    if !rule_matches(m, text) {
        lemma_first_match_bound(text, m + 1, i);
    }
}

proof fn lemma_first_match_exact(text: Seq<char>, m: nat, k: nat)
    requires
        m <= k,
        rule_matches(k, text),
        forall|j: nat| m <= j < k ==> !#[trigger] rule_matches(j, text),
    ensures
        first_match_from(m, text) == rule_command(k, text),
    decreases k - m,
{
    if m < k {
        lemma_first_match_exact(text, m + 1, k);
    }
}

/// The first rule, in the fixed order, that accepts a message decides the
/// command.
pub proof fn lemma_first_rule_decides(text: Seq<char>, k: nat)
    requires
        rule_matches(k, text),
        forall|j: nat| j < k ==> !#[trigger] rule_matches(j, text),
    ensures
        parse(text) == rule_command(k, text),
        rule_index(parse(text)) == k,
{
    lemma_first_match_exact(text, 0, k);
}

/// Where two rules accept a message, the later one does not decide it: the
/// command comes from a rule no later than the earlier one.
pub proof fn lemma_earlier_rule_wins(text: Seq<char>, i: nat, j: nat)
    requires
        i < j,
        rule_matches(i, text),
        rule_matches(j, text),
    ensures
        rule_index(parse(text)) <= i,
        parse(text) != rule_command(j, text),
{
    lemma_first_match_bound(text, 0, i);
}

/// A query for a card asks the service once and never changes the card, and
/// its reply depends on the service's answer alone: asked twice of a card
/// whose state did not change, it gives the same reply.
pub proof fn lemma_get_repeatable(card: Seq<char>, first: FetchOutcomeView, second: FetchOutcomeView)
    requires
        first == second,
    ensures
        start_spec(CommandView::Get(card)) == ActionView::Fetch(card),
        after_fetch_spec(CommandView::Get(card), first) is Reply,
        after_fetch_spec(CommandView::Get(card), first) == after_fetch_spec(
            CommandView::Get(card),
            second,
        ),
{
}

/// The service holds the state that the change `req` sets: `o` is the
/// answer of a query after the change.
pub open spec fn holds_after(req: UpdateRequestView, o: FetchOutcomeView) -> bool {
    &&& o matches FetchOutcomeView::State(s)
    &&& s.enabled == req.enabled
    &&& unquoted(s.tx_limit) == req.tx_max
    &&& unquoted(s.day_limit) == req.day_max
}

/// Freezing a card and then enabling it gives a change that enables the card
/// with the limits that it had before it was frozen.
pub proof fn lemma_freeze_then_enable(card: Seq<char>, before: CardStateView, after: FetchOutcomeView)
    requires
        holds_after(update_for(CommandView::Freeze(card), before), after),
    ensures
        after_fetch_spec(CommandView::Freeze(card), FetchOutcomeView::State(before))
            == ActionView::Update(update_for(CommandView::Freeze(card), before)),
        !update_for(CommandView::Freeze(card), before).enabled,
        after_fetch_spec(CommandView::Enable(card), after) == ActionView::Update(
            UpdateRequestView {
                card,
                enabled: true,
                tx_max: unquoted(before.tx_limit),
                day_max: unquoted(before.day_limit),
            },
        ),
{
}

/// Setting one limit carries the other limit and the enabled state forward
/// as the service had them.
pub proof fn lemma_set_limit_carries_forward(card: Seq<char>, n: nat, s: CardStateView)
    ensures
        after_fetch_spec(CommandView::SetTxMax(card, n), FetchOutcomeView::State(s))
            == ActionView::Update(
            UpdateRequestView {
                card,
                enabled: s.enabled,
                tx_max: decimal(n),
                day_max: unquoted(s.day_limit),
            },
        ),
        after_fetch_spec(CommandView::SetDayMax(card, n), FetchOutcomeView::State(s))
            == ActionView::Update(
            UpdateRequestView {
                card,
                enabled: s.enabled,
                tx_max: unquoted(s.tx_limit),
                day_max: decimal(n),
            },
        ),
{
}

} // verus!
