//! The fixed rate table of the currency converter.
//!
//! Rates are given in hundredths of a unit per US dollar, so that the table is
//! exact: USD 1.00, EUR 0.85, JPY 110.00, GBP 0.75.
use vstd::prelude::*;
use vstd::arithmetic::div_mod::lemma_div_multiples_vanish;
use crate::text::same_text;

verus! {

/// The number of currencies in the table.
pub const CURRENCY_COUNT: usize = 4;

/// The rate, in hundredths per US dollar, of the currency at `index`.
pub open spec fn rate_at(index: nat) -> nat {
    if index == 0 {
        100
    } else if index == 1 {
        85
    } else if index == 2 {
        11000
    } else {
        75
    }
}

/// The place of a currency code in the table, if it is there.
pub open spec fn index_of_code(code: Seq<char>) -> Option<nat> {
    if code == "USD"@ {
        Some(0)
    } else if code == "EUR"@ {
        Some(1)
    } else if code == "JPY"@ {
        Some(2)
    } else if code == "GBP"@ {
        Some(3)
    } else {
        None
    }
}

/// The rate used for a currency code: its own, or the neutral rate of 1.00
/// for a code that the table does not hold.
pub open spec fn rate_of_code(code: Seq<char>) -> nat {
    match index_of_code(code) {
        Some(i) => rate_at(i),
        None => 100,
    }
}

/// The table index that a numeric currency code selects: codes below the
/// table are taken as its first entry, codes above it as its last.
pub open spec fn clamped_index(code: int) -> nat {
    if code <= 0 {
        0
    } else if code >= 3 {
        3
    } else {
        code as nat
    }
}

/// The rate, in hundredths per US dollar, of the currency at `index`.
pub fn rate_hundredths(index: usize) -> (r: u64)
    requires
        index < CURRENCY_COUNT,
    ensures
        r == rate_at(index as nat),
{
    if index == 0 {
        100
    } else if index == 1 {
        85
    } else if index == 2 {
        11000
    } else {
        75
    }
}

/// Finds a currency code (`USD`, `EUR`, `JPY`, `GBP`) in the table.
pub fn currency_index(code: &str) -> (r: Option<usize>)
    ensures
        r matches Some(i) ==> index_of_code(code@) == Some(i as nat) && i < CURRENCY_COUNT,
        r is None ==> index_of_code(code@) is None,
{
    if same_text(code, "USD") {
        Some(0)
    } else if same_text(code, "EUR") {
        Some(1)
    } else if same_text(code, "JPY") {
        Some(2)
    } else if same_text(code, "GBP") {
        Some(3)
    } else {
        None
    }
}

/// The rate used for a currency code, in hundredths per US dollar.
pub fn code_rate(code: &str) -> (r: u64)
    ensures
        r == rate_of_code(code@),
{
    match currency_index(code) {
        Some(i) => rate_hundredths(i),
        None => 100,
    }
}

/// The rates, in hundredths per US dollar, of the two currencies of a
/// conversion: an amount converts as `amount / from * to`.
pub fn conversion_rates(from: &str, to: &str) -> (r: (u64, u64))
    ensures
        r.0 == rate_of_code(from@),
        r.1 == rate_of_code(to@),
{
    (code_rate(from), code_rate(to))
}

/// The table index for a numeric currency code (0 USD, 1 EUR, 2 JPY, 3 GBP),
/// out-of-range codes clamped to the nearest end.
pub fn code_index(code: i32) -> (r: usize)
    ensures
        r == clamped_index(code as int),
        r < CURRENCY_COUNT,
{
    if code <= 0 {
        0
    } else if code >= 3 {
        3
    } else {
        code as usize
    }
}

/// Converting an amount between a currency and itself, in exact arithmetic
/// (`amount * to / from`), gives back the amount.
pub proof fn lemma_convert_same_currency(amount: int, code: Seq<char>)
    ensures
        (amount * rate_of_code(code)) / (rate_of_code(code) as int) == amount,
{
    let r = rate_of_code(code) as int;
    assert(r > 0);
    assert(amount * r == r * amount) by (nonlinear_arith);
    lemma_div_multiples_vanish(amount, r);
}

} // verus!
