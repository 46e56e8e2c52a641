//! Texts of amounts, fees and periods.
use crate::address::Address;
use crate::governance::rewards::RewardClaimStep;
use crate::governance::staking::RewardView;
use crate::text::{concat2, concat3, decimal, decimal_u128, decimal_u64};
use crate::u256::U256;
use vstd::prelude::*;
use vstd::string::*;

verus! {

broadcast use crate::u256::u256_in_range;

/// Gas in thousands, rounded to the nearest; the sum with five hundred is capped at what 64 bits
/// hold.
pub open spec fn gas_thousands(gas: u64) -> nat {
    if gas + 500 > u64::MAX {
        u64::MAX as nat / 1_000
    } else {
        ((gas + 500) / 1_000) as nat
    }
}

/// Gas in the compact form of the fee lines.
pub open spec fn compact_gas_text(gas: u64) -> Seq<char> {
    decimal(gas_thousands(gas)) + "k"@
}

/// Gas in the compact form of the fee lines.
pub fn compact_gas(gas: u64) -> (text: String)
    ensures
        text@ == compact_gas_text(gas),
{
    concat2(&decimal_u64(gas.saturating_add(500) / 1_000), "k")
}

/// A fee per gas in gwei, to one decimal.
pub open spec fn gwei_text(fee_per_gas: u128) -> Seq<char> {
    decimal(fee_per_gas as nat / 1_000_000_000) + "."@ + decimal(
        fee_per_gas as nat % 1_000_000_000 / 100_000_000,
    ) + " gwei"@
}

/// A fee per gas in gwei, to one decimal.
pub fn gwei_label(fee_per_gas: u128) -> (text: String)
    ensures
        text@ == gwei_text(fee_per_gas),
{
    let whole: u128 = fee_per_gas / 1_000_000_000;
    let tenths: u128 = fee_per_gas % 1_000_000_000 / 100_000_000;
    let mut text = concat3(&decimal_u128(whole), ".", &decimal_u128(tenths));
    text.append(" gwei");
    text
}

/// The gas of the first steps, joined by plus signs.
pub open spec fn joined_gas(steps: Seq<RewardClaimStep>) -> Seq<char>
    decreases steps.len(),
{
    if steps.len() == 0 {
        ""@
    } else if steps.len() == 1 {
        compact_gas_text(steps[0].estimated_gas)
    } else {
        joined_gas(steps.drop_last()) + " + "@ + compact_gas_text(steps.last().estimated_gas)
    }
}

/// The gas line of a selected claim: the single call, or the split and its gas for each step.
pub open spec fn gas_summary(steps: Seq<RewardClaimStep>, fee_per_gas: u128) -> Seq<char> {
    if steps.len() == 1 {
        compact_gas_text(steps[0].estimated_gas) + " gas · "@ + gwei_text(fee_per_gas)
    } else {
        decimal(steps.len()) + " transactions · "@ + joined_gas(steps) + " gas"@
    }
}

/// The gas line of a selected claim.
pub fn reward_selection_gas_summary(steps: &Vec<RewardClaimStep>, fee_per_gas: u128) -> (text:
    String)
    ensures
        text@ == gas_summary(steps@, fee_per_gas),
{
    if steps.len() == 1 {
        return concat3(&compact_gas(steps[0].estimated_gas), " gas · ", &gwei_label(fee_per_gas));
    }
    let mut joined = "".to_owned();
    let mut i: usize = 0;
    while i < steps.len()
        invariant
            i <= steps@.len(),
            joined@ == joined_gas(steps@.take(i as int)),
        decreases steps@.len() - i,
    {
        proof {
            assert(steps@.take(i + 1).drop_last() =~= steps@.take(i as int));
            assert(steps@.take(i + 1).last() == steps@[i as int]);
        }
        let gas = compact_gas(steps[i].estimated_gas);
        if i == 0 {
            joined = gas;
        } else {
            joined.append(" + ");
            joined.append(&gas);
        }
        i += 1;
    }
    assert(steps@.take(i as int) =~= steps@);
    let mut text = concat2(&decimal_u128(steps.len() as u128), " transactions · ");
    text.append(&joined);
    text.append(" gas");
    text
}

/// What a claim brings less its fee: the distance between the two, and whether the fee was the
/// larger.
pub fn reward_net(reward_usd: U256, fee_usd: U256) -> (net: (U256, bool))
    ensures
        net.1 ==> reward_usd@ + net.0@ == fee_usd@,
        !net.1 ==> fee_usd@ + net.0@ == reward_usd@,
        net.1 ==> net.0@ > 0,
        net.1 == (fee_usd@ > reward_usd@),
        net.0@ == if fee_usd@ > reward_usd@ {
            (fee_usd@ - reward_usd@) as nat
        } else {
            (reward_usd@ - fee_usd@) as nat
        },
{
    if reward_usd.less_than(fee_usd) {
        (fee_usd.saturating_sub(reward_usd), true)
    } else {
        (reward_usd.saturating_sub(fee_usd), false)
    }
}

/// The text of what a claim brings less its fee, where `distance` is the text of the distance
/// between the two.
pub fn reward_net_label(reward_usd: U256, fee_usd: U256, distance: &str) -> (label: (String, bool))
    ensures
        label.1 == (fee_usd@ > reward_usd@),
        label.0@ == if fee_usd@ > reward_usd@ {
            "-"@ + distance@
        } else {
            distance@
        },
{
    if reward_usd.less_than(fee_usd) {
        (concat2("-", distance), true)
    } else {
        (distance.to_owned(), false)
    }
}

/// The text of a period in seconds: whole days in days, otherwise `compact` where 64 bits hold it,
/// or the number of seconds.
pub open spec fn period_text(seconds: nat, compact: Seq<char>) -> Seq<char> {
    if seconds != 0 && seconds % 86_400 == 0 {
        let days = seconds / 86_400;
        decimal(days) + " day"@ + (if days == 1 {
            ""@
        } else {
            "s"@
        })
    } else if seconds <= u64::MAX {
        compact
    } else {
        decimal(seconds) + " seconds"@
    }
}

/// The text of the unlock period, where `compact` is the compact text of that many seconds.
pub fn unlock_period_label(seconds: U256, compact: &str) -> (label: String)
    ensures
        label@ == period_text(seconds@, compact@),
{
    let day = U256::from_u64(86_400);
    if let Some(days) = seconds.checked_div(day) {
        if let Some(whole) = days.checked_mul(day) {
            if !seconds.is_zero() && !whole.less_than(seconds) {
                proof {
                    assert(seconds@ % 86_400 == 0);
                }
                let plural = if !days.less_than(U256::from_u64(2)) || days.is_zero() {
                    "s"
                } else {
                    ""
                };
                return concat3(&days.to_decimal(), " day", plural);
            }
            assert(seconds@ != 0 ==> seconds@ % 86_400 != 0);
        }
    }
    match seconds.to_u64() {
        Some(_) => compact.to_owned(),
        None => concat2(&seconds.to_decimal(), " seconds"),
    }
}

/// A choice between two texts, the second where there is no first.
fn first_text(first: Option<&str>, second: &str) -> (text: String)
    ensures
        text@ == match first {
            Some(found) => found@,
            None => second@,
        },
{
    match first {
        Some(found) => found.to_owned(),
        None => second.to_owned(),
    }
}

/// The texts of a token amount: in the compact form of the governance token, and in full.
pub struct AmountTexts {
    pub compact: String,
    pub full: String,
}

/// The text of a staked amount. The governance token has the compact form, with the symbol of its
/// entry in the registry, or that of its deployment, or else its shortened address.
pub fn format_staking_amount(
    token: Address,
    governance_token: Option<Address>,
    texts: &AmountTexts,
    registry_symbol: Option<&str>,
    deployment_symbol: Option<&str>,
    short_address: &str,
) -> (text: String)
    ensures
        text@ == if governance_token == Some(token) {
            texts.compact@ + " "@ + (match (registry_symbol, deployment_symbol) {
                (Some(symbol), _) => symbol@,
                (None, Some(symbol)) => symbol@,
                (None, None) => short_address@,
            })
        } else {
            texts.full@
        },
{
    let governance = match governance_token {
        Some(found) => found == token,
        None => false,
    };
    if governance {
        let fallback = first_text(deployment_symbol, short_address);
        let symbol = first_text(registry_symbol, &fallback);
        concat3(&texts.compact, " ", &symbol)
    } else {
        texts.full.clone()
    }
}

/// The text of a reward: in the compact form where it is in the governance token, otherwise by the
/// token's decimals, or as a plain number where those are not known.
pub fn format_reward_amount(
    token: Address,
    governance_token: Option<Address>,
    amount: U256,
    compact: &str,
    by_decimals: Option<&str>,
) -> (text: String)
    ensures
        text@ == if governance_token == Some(token) {
            compact@
        } else {
            match by_decimals {
                Some(text) => text@,
                None => decimal(amount@),
            }
        },
{
    let governance = match governance_token {
        Some(found) => found == token,
        None => false,
    };
    if governance {
        return compact.to_owned();
    }
    match by_decimals {
        Some(text) => text.to_owned(),
        None => amount.to_decimal(),
    }
}

/// A row of an account's rewards.
#[derive(Debug, PartialEq, Eq)]
pub struct RewardRow {
    pub symbol: String,
    pub amount: String,
    pub detail: String,
    pub usd: Option<String>,
}

/// The row of a reward: `amount` is the text of a positive reward's amount, and `zero` that of
/// nothing.
pub fn render_reward_row(
    symbol: &str,
    registry_symbol: Option<&str>,
    reward: Option<&RewardView>,
    amount: &str,
    zero: &str,
    usd: Option<String>,
) -> (row: RewardRow)
    ensures
        row.symbol@ == match registry_symbol {
            Some(found) => found@,
            None => symbol@,
        },
        row.usd == usd,
        (row.amount@, row.detail@) == match crate::governance::rewards::reward_behind(reward) {
            None => ("Loading..."@, "Calculation pending"@),
            Some(RewardView::Zero) => (zero@, "No completed unclaimed intervals"@),
            Some(RewardView::Positive { .. }) => (amount@, ""@),
            Some(RewardView::Unavailable(error)) => ("Unavailable"@, error@),
        },
{
    let (shown, detail) = match reward {
        None => ("Loading...".to_owned(), "Calculation pending".to_owned()),
        Some(RewardView::Zero) => (
            zero.to_owned(),
            "No completed unclaimed intervals".to_owned(),
        ),
        Some(RewardView::Positive { .. }) => (amount.to_owned(), "".to_owned()),
        Some(RewardView::Unavailable(error)) => ("Unavailable".to_owned(), error.clone()),
    };
    RewardRow { symbol: first_text(registry_symbol, symbol), amount: shown, detail, usd }
}

/// Gas is shown in the thousands that it is nearest to; half a thousand counts up.
pub proof fn gas_is_rounded_to_the_nearest_thousand(gas: u64)
    requires
        gas + 500 <= u64::MAX,
    ensures
        gas - 500 < 1_000 * gas_thousands(gas) <= gas + 500,
{
}

/// More gas is never shown as less, and gas below half a thousand is shown as none.
pub proof fn more_gas_is_not_shown_as_less(a: u64, b: u64)
    requires
        a <= b,
    ensures
        gas_thousands(a) <= gas_thousands(b),
        b < 500 ==> gas_thousands(b) == 0,
        compact_gas_text(a) == decimal(gas_thousands(a)) + "k"@,
{
}

/// A fee is shown in whole gwei and one tenth, cut off below.
pub proof fn fees_are_shown_in_tenths_of_gwei(whole: u64, tenths: nat, rest: nat)
    requires
        tenths < 10,
        rest < 100_000_000,
    ensures
        ({
            let fee = whole as nat * 1_000_000_000 + tenths * 100_000_000 + rest;
            gwei_text(fee as u128) == decimal(whole as nat) + "."@ + decimal(tenths) + " gwei"@
        }),
{
    let fee: nat = whole as nat * 1_000_000_000 + tenths * 100_000_000 + rest;
    assert(fee <= u128::MAX) by (nonlinear_arith)
        requires
            fee == whole as nat * 1_000_000_000 + tenths * 100_000_000 + rest,
            tenths < 10,
            rest < 100_000_000,
            whole <= u64::MAX,
    ;
    assert(fee / 1_000_000_000 == whole as nat && fee % 1_000_000_000 == tenths * 100_000_000 + rest)
        by (nonlinear_arith)
        requires
            fee == whole as nat * 1_000_000_000 + tenths * 100_000_000 + rest,
            tenths < 10,
            rest < 100_000_000,
    ;
    assert((tenths * 100_000_000 + rest) / 100_000_000 == tenths) by (nonlinear_arith)
        requires
            rest < 100_000_000,
    ;
}

/// The gas of a claim of one step is shown with its fee; of several, step by step in their order.
pub proof fn gas_is_shown_step_by_step(
    steps: Seq<RewardClaimStep>,
    step: RewardClaimStep,
    fee_per_gas: u128,
)
    ensures
        joined_gas(seq![step]) == compact_gas_text(step.estimated_gas),
        steps.len() > 0 ==> joined_gas(steps.push(step)) == joined_gas(steps) + " + "@
            + compact_gas_text(step.estimated_gas),
        gas_summary(seq![step], fee_per_gas) == compact_gas_text(step.estimated_gas) + " gas · "@
            + gwei_text(fee_per_gas),
        steps.len() > 0 ==> gas_summary(steps.push(step), fee_per_gas) == decimal(steps.len() + 1)
            + " transactions · "@ + joined_gas(steps.push(step)) + " gas"@,
{
    assert(steps.push(step).drop_last() =~= steps);
}

/// A period of whole days is shown in days, of which one is a day; any other is shown as it was
/// written, or in seconds where it is too long to be.
pub proof fn periods_are_shown_in_days(days: nat, seconds: nat, compact: Seq<char>)
    ensures
        days == 1 ==> period_text(86_400 * days, compact) == decimal(1) + " day"@ + ""@,
        days > 1 ==> period_text(86_400 * days, compact) == decimal(days) + " day"@ + "s"@,
        period_text(0, compact) == compact,
        seconds % 86_400 != 0 && seconds <= u64::MAX ==> period_text(seconds, compact) == compact,
        seconds % 86_400 != 0 && seconds > u64::MAX ==> period_text(seconds, compact) == decimal(
            seconds,
        ) + " seconds"@,
{
    assert((86_400 * days) % 86_400 == 0 && (86_400 * days) / 86_400 == days) by (nonlinear_arith);
}

} // verus!
