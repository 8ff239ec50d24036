use vstd::prelude::*;

verus! {

use crate::coin::CoinDTO;

/// Errors of the market-price machinery.
#[derive(Debug, Clone, Copy, PartialEq, Eq, Structural)]
pub enum PriceFeedsError {
    /// No price can be served for the pair under the current configuration.
    NoPrice,
    /// A currency outside the known group was named.
    UnknownCurrency,
    /// Two prices that do not chain were asked to be combined.
    UnsupportedDenomPairs,
    /// A combination of prices leaves the representable range.
    InvalidPrice,
}

/// An exchange rate as a pair of totals: `amount` of the base currency is
/// worth `amount_quote` of the quote currency.
#[derive(Debug, Clone, Copy, PartialEq, Eq, Structural)]
pub struct Price {
    pub amount: u128,
    pub amount_quote: u128,
}

/// The first half of spelling a price: `total_of(a).is(b)`.
#[derive(Debug, Clone, Copy, PartialEq, Eq, Structural)]
pub struct TotalOf {
    pub amount: u128,
}

/// Starts spelling a price from its base total.
pub fn total_of(amount: u128) -> (r: TotalOf)
    ensures
        r.amount == amount,
{
    TotalOf { amount }
}

impl TotalOf {
    /// Finishes the price: this much of the base is that much of the quote.
    pub fn is(self, amount_quote: u128) -> (r: Price)
        ensures
            r == (Price { amount: self.amount, amount_quote }),
    {
        Price { amount: self.amount, amount_quote }
    }
}

impl Price {
    /// The composition of two rates: with `self` taking a base into a middle
    /// currency and `other` the middle into a quote, the product takes the
    /// base into the quote.
    pub fn multiply(self, other: Price) -> (r: Price)
        requires
            self.amount * other.amount <= u128::MAX,
            self.amount_quote * other.amount_quote <= u128::MAX,
        ensures
            r == (Price {
                amount: (self.amount * other.amount) as u128,
                amount_quote: (self.amount_quote * other.amount_quote) as u128,
            }),
    {
        Price {
            amount: self.amount * other.amount,
            amount_quote: self.amount_quote * other.amount_quote,
        }
    }
}

/// A price between named currencies, for the wire and for storage keys.
#[derive(Debug, Clone, PartialEq, Eq)]
pub struct PriceDTO {
    pub base: CoinDTO,
    pub quote: CoinDTO,
}

/// How two named prices combine: they chain only when the first's quote is
/// the second's base, and the amounts must stay representable.
pub open spec fn spec_multiply_dto(a: PriceDTO, b: PriceDTO) -> Result<PriceDTO, PriceFeedsError> {
    if a.quote.symbol@ != b.base.symbol@ {
        Err(PriceFeedsError::UnsupportedDenomPairs)
    } else if a.base.amount * b.base.amount > u128::MAX || a.quote.amount * b.quote.amount
        > u128::MAX {
        Err(PriceFeedsError::InvalidPrice)
    } else {
        Ok(
            PriceDTO {
                base: CoinDTO { amount: (a.base.amount * b.base.amount) as u128, symbol: a.base.symbol },
                quote: CoinDTO {
                    amount: (a.quote.amount * b.quote.amount) as u128,
                    symbol: b.quote.symbol,
                },
            },
        )
    }
}

/// The product of a chain of prices, combined left to right; an empty chain
/// has no price.
pub open spec fn spec_fold_prices(acc: PriceDTO, rest: Seq<PriceDTO>) -> Result<
    PriceDTO,
    PriceFeedsError,
>
    decreases rest.len(),
{
    if rest.len() == 0 {
        Ok(acc)
    } else {
        match spec_multiply_dto(acc, rest[0]) {
            Ok(p) => spec_fold_prices(p, rest.drop_first()),
            Err(e) => Err(e),
        }
    }
}

/// The price a whole resolution path yields.
pub open spec fn spec_calculate_price(path: Seq<PriceDTO>) -> Result<PriceDTO, PriceFeedsError> {
    if path.len() == 0 {
        Err(PriceFeedsError::NoPrice)
    } else {
        spec_fold_prices(path[0], path.drop_first())
    }
}

impl PriceDTO {
    /// A field-by-field copy of this price.
    pub fn duplicate(&self) -> (r: PriceDTO)
        ensures
            r == *self,
    {
        PriceDTO {
            base: CoinDTO { amount: self.base.amount, symbol: self.base.symbol.clone() },
            quote: CoinDTO { amount: self.quote.amount, symbol: self.quote.symbol.clone() },
        }
    }

    /// Combines this price with the next leg of a resolution path.
    pub fn multiply(&self, other: &PriceDTO) -> (r: Result<PriceDTO, PriceFeedsError>)
        ensures
            r == spec_multiply_dto(*self, *other),
    {
        if !(self.quote.symbol == other.base.symbol) {
            return Err(PriceFeedsError::UnsupportedDenomPairs);
        }
        let base_amount = match self.base.amount.checked_mul(other.base.amount) {
            Some(v) => v,
            None => { return Err(PriceFeedsError::InvalidPrice) },
        };
        let quote_amount = match self.quote.amount.checked_mul(other.quote.amount) {
            Some(v) => v,
            None => { return Err(PriceFeedsError::InvalidPrice) },
        };
        Ok(
            PriceDTO {
                base: CoinDTO { amount: base_amount, symbol: self.base.symbol.clone() },
                quote: CoinDTO { amount: quote_amount, symbol: other.quote.symbol.clone() },
            },
        )
    }
}

/// The price along a resolution path: each leg quotes the one before, and
/// the product quotes the path's first base in its last quote currency.
pub fn calculate_price(resolution_path: Vec<PriceDTO>) -> (r: Result<PriceDTO, PriceFeedsError>)
    ensures
        r == spec_calculate_price(resolution_path@),
{
    if resolution_path.len() == 0 {
        return Err(PriceFeedsError::NoPrice);
    }
    let ghost full: Seq<PriceDTO> = resolution_path@;
    let mut acc = resolution_path[0].duplicate();
    let mut i: usize = 1;
    while i < resolution_path.len()
        invariant
            1 <= i <= resolution_path.len(),
            resolution_path@ == full,
            spec_fold_prices(acc, full.skip(i as int)) == spec_calculate_price(resolution_path@),
        decreases resolution_path.len() - i,
    {
        match acc.multiply(&resolution_path[i]) {
            Ok(p) => {
                proof {
                    assert(full.skip(i as int).drop_first() =~= full.skip(i + 1));
                }
                acc = p;
            },
            Err(e) => {
                proof {
                    let rest = full.skip(i as int);
                    assert(rest[0] == full[i as int]);
                    assert(spec_multiply_dto(acc, rest[0]) == Err::<PriceDTO, PriceFeedsError>(e));
                    assert(spec_fold_prices(acc, rest) == Err::<PriceDTO, PriceFeedsError>(e));
                }
                return Err(e);
            },
        }
        i = i + 1;
    }
    proof {
        assert(full.skip(resolution_path@.len() as int) =~= Seq::<PriceDTO>::empty());
    }
    Ok(acc)
}

/// Carries the second factor of a price product while the first is being
/// resolved.
#[derive(Debug, Clone, PartialEq, Eq)]
pub struct Multiplicand {
    pub p2: PriceDTO,
}

impl Multiplicand {
    pub fn new(p2: PriceDTO) -> (r: Multiplicand)
        ensures
            r.p2 == p2,
    {
        Multiplicand { p2 }
    }

    /// Applies the carried factor to the resolved first price.
    pub fn exec(self, p1: PriceDTO) -> (r: Result<PriceDTO, PriceFeedsError>)
        ensures
            r == spec_multiply_dto(p1, self.p2),
    {
        p1.multiply(&self.p2)
    }
}

/// Carries the first factor of a price product while the second is being
/// resolved.
#[derive(Debug, Clone, PartialEq, Eq)]
pub struct Multiplier {
    pub p1: PriceDTO,
}

impl Multiplier {
    pub fn new(p1: PriceDTO) -> (r: Multiplier)
        ensures
            r.p1 == p1,
    {
        Multiplier { p1 }
    }

    /// Applies the carried factor to the resolved second price.
    pub fn exec(self, p2: PriceDTO) -> (r: Result<PriceDTO, PriceFeedsError>)
        ensures
            r == spec_multiply_dto(self.p1, p2),
    {
        self.p1.multiply(&p2)
    }
}

} // verus!
