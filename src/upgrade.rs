use vstd::prelude::*;
use vstd::string::StrSliceExecFns;
use crate::proof_lookup::ResourceState;

verus! {

/// One token balance: its amount in base units and its display text.
#[derive(Clone, Debug)]
pub struct TokenBalance {
    pub amount: u64,
    pub ui_amount_string: String,
}

/// The wallet's balances of both token generations.
#[derive(Clone, Debug)]
pub struct Balances {
    pub v1: TokenBalance,
    pub v2: TokenBalance,
}

/// The steps of the upgrade flow.
#[derive(Clone, Copy, Debug, PartialEq, Eq)]
pub enum UpgradeStep {
    Edit,
    Confirm,
}

/// What the amount form shows and allows.
#[derive(Clone, Debug)]
pub struct UpgradeEditView {
    /// The largest amount that can be upgraded: the v1 balance.
    pub max_amount: u64,
    pub max_amount_str: String,
    pub balance_v2_str: String,
    /// The warning under the amount field, if any.
    pub amount_error_text: Option<String>,
    /// Whether the review button is disabled.
    pub is_disabled: bool,
}

pub open spec fn too_large_text() -> Seq<char> {
    "Amount too large"@
}

pub open spec fn zero_text() -> Seq<char> {
    "0"@
}

/// The v1 balance, or zero while balances are unknown.
pub open spec fn max_amount_of(balances: ResourceState<Balances>) -> u64 {
    match balances {
        ResourceState::Ready(b) => b.v1.amount,
        _ => 0,
    }
}

/// Whether the review button is disabled: the field is empty, its text is not
/// a number, or the amount exceeds the v1 balance.
pub open spec fn submit_disabled(input: Seq<char>, is_number: bool, amount: u64, max_amount: u64) -> bool {
    input.len() == 0 || !is_number || amount > max_amount
}

/// The field's text after an edit that produced `s`: kept when it is empty or
/// a number, otherwise with its last character dropped.
pub open spec fn filtered_input(s: Seq<char>, is_number: bool) -> Seq<char> {
    if s.len() == 0 || is_number {
        s
    } else {
        s.drop_last()
    }
}

/// The amount form of the upgrade flow. `amount_input` is the field's text,
/// `input_is_number` whether that text reads as a number, and `parsed_amount`
/// the amount it stands for in base units.
#[allow(non_snake_case)]
pub fn UpgradeEdit(
    amount_input: &str,
    input_is_number: bool,
    parsed_amount: u64,
    balances: &ResourceState<Balances>,
) -> (r: UpgradeEditView)
    ensures
        r.max_amount == max_amount_of(*balances),
        r.max_amount_str@ == match *balances {
            ResourceState::Ready(b) => b.v1.ui_amount_string@,
            _ => zero_text(),
        },
        r.balance_v2_str@ == match *balances {
            ResourceState::Ready(b) => b.v2.ui_amount_string@,
            _ => zero_text(),
        },
        parsed_amount > r.max_amount ==> (r.amount_error_text matches Some(t) && t@ == too_large_text()),
        parsed_amount <= r.max_amount ==> r.amount_error_text is None,
        r.is_disabled == submit_disabled(amount_input@, input_is_number, parsed_amount, r.max_amount),
        parsed_amount > r.max_amount ==> r.is_disabled,
        amount_input@.len() == 0 ==> r.is_disabled,
{
    let (max_amount, max_amount_str, balance_v2_str) = match balances {
        ResourceState::Ready(b) => (b.v1.amount, b.v1.ui_amount_string.clone(), b.v2.ui_amount_string.clone()),
        _ => (0u64, String::from_str("0"), String::from_str("0")),
    };
    let amount_error_text = if parsed_amount > max_amount {
        Some(String::from_str("Amount too large"))
    } else {
        None
    };
    let is_disabled = amount_input.is_empty() || !input_is_number || amount_error_text.is_some();
    UpgradeEditView { max_amount, max_amount_str, balance_v2_str, amount_error_text, is_disabled }
}

/// The field's text after an edit: `s` is the edited text and `is_number`
/// whether it reads as a number.
pub fn filter_amount_input(s: &str, is_number: bool) -> (r: String)
    ensures
        r@ == filtered_input(s@, is_number),
{
    if s.is_empty() || is_number {
        s.to_owned()
    } else {
        let n = s.unicode_len();
        s.substring_char(0, n - 1).to_owned()
    }
}

/// The text that the "Max" button puts in the amount field.
pub fn on_max(view: &UpgradeEditView) -> (r: String)
    ensures
        r@ == view.max_amount_str@,
{
    view.max_amount_str.clone()
}

/// The step after the review button is pressed: a disabled button does nothing.
pub fn on_review(current: UpgradeStep, is_disabled: bool) -> (r: UpgradeStep)
    ensures
        r == (if is_disabled { current } else { UpgradeStep::Confirm }),
{
    if is_disabled {
        current
    } else {
        UpgradeStep::Confirm
    }
}

/// An edit that makes the field's text non-numeric is undone: the field keeps
/// the text it had before the keystroke.
pub proof fn lemma_rejected_keystroke_keeps_previous(previous: Seq<char>, key: char)
    ensures
        filtered_input(previous.push(key), false) == previous,
{
    assert(previous.push(key).drop_last() =~= previous);
}

/// The field's text after typing `keys` one by one from `field`, where each
/// edit leaves a text that is not a number.
pub open spec fn after_rejected_keys(field: Seq<char>, keys: Seq<char>) -> Seq<char>
    decreases keys.len(),
{
    if keys.len() == 0 {
        field
    } else {
        after_rejected_keys(filtered_input(field.push(keys[0]), false), keys.skip(1))
    }
}

/// However many keystrokes are typed, when each one makes the text
/// non-numeric the field ends with the text it had before them.
pub proof fn lemma_rejected_keystrokes_keep_previous(previous: Seq<char>, keys: Seq<char>)
    ensures
        after_rejected_keys(previous, keys) == previous,
    decreases keys.len(),
{
    if keys.len() > 0 {
        lemma_rejected_keystroke_keeps_previous(previous, keys[0]);
        lemma_rejected_keystrokes_keep_previous(previous, keys.skip(1));
    }
}

} // verus!
