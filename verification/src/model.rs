//! Value objects of the bank account domain: identifiers, money amounts and
//! the currencies they are denominated in.

use vstd::prelude::*;

verus! {

/// An ISO-4217 currency code. The domain is currency-aware: amounts in
/// different currencies may not be combined without an explicit exchange.
#[derive(Debug, Clone, Copy, PartialEq, Eq, Structural, Hash)]
pub enum Currency {
    Usd,
    Eur,
    Gbp,
    Jpy,
}

/// A signed amount of a single currency, held in minor units (cents):
/// `Money { cents: 1000, currency: Currency::Usd }` is $10.00.
#[derive(Debug, Clone, Copy, PartialEq, Eq, Structural, Hash)]
pub struct Money {
    pub cents: i64,
    pub currency: Currency,
}

impl Money {
    /// Builds an amount from minor units.
    pub fn new(cents: i64, currency: Currency) -> (r: Money)
        ensures
            r == (Money { cents, currency }),
    {
        Money { cents, currency }
    }

    /// Sum of two amounts; `None` when the currencies differ or the sum
    /// does not fit in the minor-unit representation.
    pub fn checked_add(self, rhs: Money) -> (r: Option<Money>)
        ensures
            r == spec_checked_add(self, rhs),
    {
        if self.currency == rhs.currency {
            match self.cents.checked_add(rhs.cents) {
                Some(cents) => Some(Money { cents, currency: self.currency }),
                None => None,
            }
        } else {
            None
        }
    }

    /// Difference of two amounts; `None` when the currencies differ or the
    /// difference does not fit in the minor-unit representation.
    pub fn checked_sub(self, rhs: Money) -> (r: Option<Money>)
        ensures
            r == spec_checked_sub(self, rhs),
    {
        if self.currency == rhs.currency {
            match self.cents.checked_sub(rhs.cents) {
                Some(cents) => Some(Money { cents, currency: self.currency }),
                None => None,
            }
        } else {
            None
        }
    }

    /// The same amount with its sign flipped.
    pub fn negate(self) -> (r: Money)
        requires
            self.cents != i64::MIN,
        ensures
            r == (Money { cents: -self.cents as i64, currency: self.currency }),
    {
        Money { cents: -self.cents, currency: self.currency }
    }
}

/// What `Money::checked_add` returns.
pub open spec fn spec_checked_add(a: Money, b: Money) -> Option<Money> {
    if a.currency == b.currency && i64::MIN <= a.cents + b.cents <= i64::MAX {
        Some(Money { cents: (a.cents + b.cents) as i64, currency: a.currency })
    } else {
        None
    }
}

/// What `Money::checked_sub` returns.
pub open spec fn spec_checked_sub(a: Money, b: Money) -> Option<Money> {
    if a.currency == b.currency && i64::MIN <= a.cents - b.cents <= i64::MAX {
        Some(Money { cents: (a.cents - b.cents) as i64, currency: a.currency })
    } else {
        None
    }
}

impl Default for Money {
    /// Zero dollars: the balance a freshly opened account starts with.
    fn default() -> (r: Money)
        ensures
            r == (Money { cents: 0, currency: Currency::Usd }),
    {
        Money { cents: 0, currency: Currency::Usd }
    }
}

/// Greatest scale a table rate may carry: `10^18` still fits a `u64`.
pub const MAX_RATE_SCALE: u32 = 18;

/// One row of the exchange-rate table: multiplying a source-currency amount
/// by `mantissa / 10^scale` yields the target-currency amount.
#[derive(Debug, Clone, Copy, PartialEq, Eq, Structural)]
pub struct ExchangeRate {
    pub from: Currency,
    pub to: Currency,
    pub mantissa: i64,
    pub scale: u32,
}

/// A rate row the conversion accepts: a positive factor with a bounded
/// scale.
pub open spec fn rate_wf(rate: ExchangeRate) -> bool {
    rate.mantissa > 0 && rate.scale <= MAX_RATE_SCALE
}

/// The exchange-rate table, loaded once at process start from a static
/// resource and held as plain values.
#[derive(Debug)]
pub struct ExchangeRateTable {
    pub rates: Vec<ExchangeRate>,
}

/// The first table row for the given currency pair.
pub open spec fn spec_rate_for(rates: Seq<ExchangeRate>, from: Currency, to: Currency) -> Option<
    ExchangeRate,
>
    decreases rates.len(),
{
    if rates.len() == 0 {
        None
    } else if rates[0].from == from && rates[0].to == to {
        Some(rates[0])
    } else {
        spec_rate_for(rates.skip(1), from, to)
    }
}

impl ExchangeRateTable {
    /// Looks up the conversion factor for a currency pair.
    pub fn rate_for(&self, from: Currency, to: Currency) -> (r: Option<ExchangeRate>)
        ensures
            r == spec_rate_for(self.rates@, from, to),
    {
        let mut i: usize = 0;
        proof {
            assert(self.rates@.skip(0) =~= self.rates@);
        }
        while i < self.rates.len()
            invariant
                i <= self.rates@.len(),
                spec_rate_for(self.rates@, from, to) == spec_rate_for(
                    self.rates@.skip(i as int),
                    from,
                    to,
                ),
            decreases self.rates@.len() - i,
        {
            let rate = self.rates[i];
            if rate.from == from && rate.to == to {
                proof {
                    assert(self.rates@.skip(i as int)[0] == rate);
                }
                return Some(rate);
            }
            proof {
                assert(self.rates@.skip(i as int).skip(1) =~= self.rates@.skip(i + 1));
            }
            i = i + 1;
        }
        None
    }
}

/// `10^n`.
pub open spec fn spec_pow10(n: nat) -> nat
    decreases n,
{
    if n == 0 {
        1
    } else {
        10 * spec_pow10((n - 1) as nat)
    }
}

proof fn lemma_pow10_positive(n: nat)
    ensures
        spec_pow10(n) >= 1,
    decreases n,
{
    if n > 0 {
        lemma_pow10_positive((n - 1) as nat);
    }
}

fn pow10(n: u32) -> (r: u64)
    requires
        n <= MAX_RATE_SCALE,
    ensures
        r == spec_pow10(n as nat),
        r >= 1,
{
    proof {
        reveal_with_fuel(spec_pow10, 20);
    }
    if n == 0 {
        1
    } else if n == 1 {
        10
    } else if n == 2 {
        100
    } else if n == 3 {
        1_000
    } else if n == 4 {
        10_000
    } else if n == 5 {
        100_000
    } else if n == 6 {
        1_000_000
    } else if n == 7 {
        10_000_000
    } else if n == 8 {
        100_000_000
    } else if n == 9 {
        1_000_000_000
    } else if n == 10 {
        10_000_000_000
    } else if n == 11 {
        100_000_000_000
    } else if n == 12 {
        1_000_000_000_000
    } else if n == 13 {
        10_000_000_000_000
    } else if n == 14 {
        100_000_000_000_000
    } else if n == 15 {
        1_000_000_000_000_000
    } else if n == 16 {
        10_000_000_000_000_000
    } else if n == 17 {
        100_000_000_000_000_000
    } else {
        1_000_000_000_000_000_000
    }
}

/// `p / q` rounded to the nearest integer, ties to the even neighbour.
pub open spec fn spec_div_round_half_even(p: nat, q: nat) -> nat
    recommends
        q > 0,
{
    let quotient = p / q;
    let remainder = p % q;
    if 2 * remainder < q {
        quotient
    } else if 2 * remainder > q {
        quotient + 1
    } else if quotient % 2 == 0 {
        quotient
    } else {
        quotient + 1
    }
}

/// The minor units a well-formed rate row turns `cents` into: the magnitude
/// is scaled by `mantissa / 10^scale` and rounded to the nearest cent, ties
/// to even; the sign is kept.
pub open spec fn spec_apply_rate(cents: int, rate: ExchangeRate) -> int
    recommends
        rate_wf(rate),
{
    let magnitude = (if cents >= 0 {
        cents
    } else {
        -cents
    }) as nat;
    let scaled = spec_div_round_half_even(
        magnitude * rate.mantissa as nat,
        spec_pow10(rate.scale as nat),
    );
    if cents >= 0 {
        scaled as int
    } else {
        -(scaled as int)
    }
}

/// What converting an amount into a display currency yields: the identity
/// for an amount already denominated in it; otherwise the table's factor
/// applied to the amount, or `None` when the table has no well-formed row
/// for the pair or the result does not fit the minor-unit representation.
pub open spec fn spec_convert_amount(
    currency: Currency,
    amount: Money,
    rates: Seq<ExchangeRate>,
) -> Option<Money> {
    if amount.currency == currency {
        Some(amount)
    } else {
        match spec_rate_for(rates, amount.currency, currency) {
            None => None,
            Some(rate) => {
                if !rate_wf(rate) {
                    None
                } else {
                    let cents = spec_apply_rate(amount.cents as int, rate);
                    if -i64::MAX <= cents <= i64::MAX {
                        Some(Money { cents: cents as i64, currency })
                    } else {
                        None
                    }
                }
            },
        }
    }
}

/// Converts an amount into the given display currency: the identity when
/// the amount is already denominated in it, otherwise the table's factor is
/// applied and the result rounded to the nearest cent, ties to even. `None`
/// when the table holds no well-formed row for the pair or the result does
/// not fit the minor-unit representation.
pub fn convert_amount(currency: Currency, amount: Money, rates: &ExchangeRateTable) -> (r: Option<
    Money,
>)
    ensures
        r == spec_convert_amount(currency, amount, rates.rates@),
{
    if currency == amount.currency {
        return Some(amount);
    }
    let rate = match rates.rate_for(amount.currency, currency) {
        Some(rate) => rate,
        None => {
            return None;
        },
    };
    if !(rate.mantissa > 0 && rate.scale <= MAX_RATE_SCALE) {
        return None;
    }
    proof {
        lemma_pow10_positive(rate.scale as nat);
    }
    let divisor = pow10(rate.scale) as u128;
    let magnitude: u128 = if amount.cents >= 0 {
        amount.cents as u128
    } else {
        (-(amount.cents as i128)) as u128
    };
    proof {
        vstd::arithmetic::mul::lemma_mul_upper_bound(
            magnitude as int,
            0x1_0000_0000_0000_0000,
            rate.mantissa as int,
            0x8000_0000_0000_0000,
        );
    }
    let product = magnitude * (rate.mantissa as u128);
    let quotient = product / divisor;
    let remainder = product % divisor;
    let rounded = if 2 * remainder < divisor {
        quotient
    } else if 2 * remainder > divisor {
        quotient + 1
    } else if quotient % 2 == 0 {
        quotient
    } else {
        quotient + 1
    };
    if rounded > i64::MAX as u128 {
        return None;
    }
    let cents = if amount.cents >= 0 {
        rounded as i64
    } else {
        -(rounded as i64)
    };
    Some(Money { cents, currency })
}

/// The opaque 64-bit identifier of one account, bijective with the
/// aggregate's durable identity.
#[derive(Debug, Clone, Copy, PartialEq, Eq, Structural, Hash)]
pub struct AccountId(pub i64);

impl AccountId {
    pub fn new(id: i64) -> (r: AccountId)
        ensures
            r == AccountId(id),
    {
        AccountId(id)
    }

    pub fn as_num(&self) -> (r: i64)
        ensures
            r == self.0,
    {
        self.0
    }
}

/// A free-text postal address.
#[derive(Debug, Eq, Hash)]
pub struct MailingAddress(pub String);

impl Clone for MailingAddress {
    fn clone(&self) -> (res: MailingAddress)
        ensures
            res == *self,
    {
        MailingAddress(self.0.clone())
    }
}

impl MailingAddress {
    pub fn new(id: String) -> (r: MailingAddress)
        ensures
            r.0 == id,
    {
        MailingAddress(id)
    }

    pub fn as_str(&self) -> (r: &str)
        ensures
            r@ == self.0@,
    {
        self.0.as_str()
    }
}

impl PartialEq for MailingAddress {
    fn eq(&self, other: &MailingAddress) -> (r: bool) {
        self.0 == other.0
    }
}

impl vstd::std_specs::cmp::PartialEqSpecImpl for MailingAddress {
    open spec fn obeys_eq_spec() -> bool {
        true
    }

    open spec fn eq_spec(&self, other: &MailingAddress) -> bool {
        self.0@ == other.0@
    }
}

/// An RFC-shaped email address string.
#[derive(Debug, Eq, Hash)]
pub struct EmailAddress(pub String);

impl Clone for EmailAddress {
    fn clone(&self) -> (res: EmailAddress)
        ensures
            res == *self,
    {
        EmailAddress(self.0.clone())
    }
}

impl EmailAddress {
    pub fn new(id: String) -> (r: EmailAddress)
        ensures
            r.0 == id,
    {
        EmailAddress(id)
    }

    pub fn as_str(&self) -> (r: &str)
        ensures
            r@ == self.0@,
    {
        self.0.as_str()
    }
}

impl PartialEq for EmailAddress {
    fn eq(&self, other: &EmailAddress) -> (r: bool) {
        self.0 == other.0
    }
}

impl vstd::std_specs::cmp::PartialEqSpecImpl for EmailAddress {
    open spec fn obeys_eq_spec() -> bool {
        true
    }

    open spec fn eq_spec(&self, other: &EmailAddress) -> bool {
        self.0@ == other.0@
    }
}

/// The opaque identifier of a withdrawal terminal.
#[derive(Debug, Eq, Hash)]
pub struct AtmId(pub String);

impl Clone for AtmId {
    fn clone(&self) -> (res: AtmId)
        ensures
            res == *self,
    {
        AtmId(self.0.clone())
    }
}

impl AtmId {
    pub fn new(id: String) -> (r: AtmId)
        ensures
            r.0 == id,
    {
        AtmId(id)
    }

    pub fn as_str(&self) -> (r: &str)
        ensures
            r@ == self.0@,
    {
        self.0.as_str()
    }
}

impl PartialEq for AtmId {
    fn eq(&self, other: &AtmId) -> (r: bool) {
        self.0 == other.0
    }
}

impl vstd::std_specs::cmp::PartialEqSpecImpl for AtmId {
    open spec fn obeys_eq_spec() -> bool {
        true
    }

    open spec fn eq_spec(&self, other: &AtmId) -> bool {
        self.0@ == other.0@
    }
}

/// An unsigned 32-bit check identifier.
#[derive(Debug, Clone, Copy, PartialEq, Eq, Structural, Hash)]
pub struct CheckNumber(pub u32);

impl CheckNumber {
    pub fn new(check_nr: u32) -> (r: CheckNumber)
        ensures
            r == CheckNumber(check_nr),
    {
        CheckNumber(check_nr)
    }

    pub fn as_u32(&self) -> (r: u32)
        ensures
            r == self.0,
    {
        self.0
    }
}

} // verus!
