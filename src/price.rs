use vstd::prelude::*;

verus! {

/// The currencies a price may be quoted in.
#[derive(Debug, Clone, Copy, PartialEq, Eq, Structural)]
pub enum Currency {
    JPY,
    USD,
}

/// Why a price could not be created.
#[derive(Debug, Clone, Copy, PartialEq, Eq, Structural)]
pub enum PriceError {
    /// The currency is not the one currently supported (JPY).
    UnsupportedCurrency,
    /// The amount lies outside `[min, max]`.
    InvalidAmount { min: u32, max: u32 },
}

/// A price in yen, between `Price::MIN` and `Price::MAX` inclusive.
#[derive(Debug, Clone, Copy, PartialEq, Eq, Structural)]
pub struct Price {
    amount: u32,
    currency: Currency,
}

/// The outcome that creating a price from `amount` and `currency` must have:
/// the currency is checked first, then the amount range.
pub open spec fn price_outcome(amount: u32, currency: Currency, r: Result<Price, PriceError>) -> bool {
    if currency != Currency::JPY {
        r == Err::<Price, PriceError>(PriceError::UnsupportedCurrency)
    } else if amount < Price::MIN || amount > Price::MAX {
        r == Err::<Price, PriceError>(PriceError::InvalidAmount { min: Price::MIN, max: Price::MAX })
    } else {
        &&& r is Ok
        &&& r->Ok_0.spec_amount() == amount
        &&& r->Ok_0.spec_currency() == currency
    }
}

/// Creating a price is deterministic: two creations from the same amount
/// and currency have the same outcome.
pub proof fn lemma_price_creation_deterministic(
    amount: u32,
    currency: Currency,
    r1: Result<Price, PriceError>,
    r2: Result<Price, PriceError>,
)
    requires
        price_outcome(amount, currency, r1),
        price_outcome(amount, currency, r2),
    ensures
        r1 == r2,
{
}

impl Price {
    pub const MAX: u32 = 1_000_000;
    pub const MIN: u32 = 1;

    #[verifier::type_invariant]
    spec fn inv(&self) -> bool {
        &&& self.currency == Currency::JPY
        &&& Self::MIN <= self.amount <= Self::MAX
    }

    pub closed spec fn spec_amount(&self) -> u32 {
        self.amount
    }

    pub closed spec fn spec_currency(&self) -> Currency {
        self.currency
    }

    /// Creates a price, rejecting any currency but JPY and any amount
    /// outside `[MIN, MAX]`.
    pub fn new(amount: u32, currency: Currency) -> (r: Result<Self, PriceError>)
        ensures
            price_outcome(amount, currency, r),
            currency != Currency::JPY ==> r == Err::<Self, PriceError>(
                PriceError::UnsupportedCurrency,
            ),
    {
        if currency != Currency::JPY {
            return Err(PriceError::UnsupportedCurrency);
        }
        if amount < Self::MIN || amount > Self::MAX {
            return Err(PriceError::InvalidAmount { min: Self::MIN, max: Self::MAX });
        }
        Ok(Self { amount, currency })
    }

    #[verifier::when_used_as_spec(spec_amount)]
    pub fn amount(&self) -> (r: u32)
        ensures
            r == self.spec_amount(),
            Self::MIN <= r <= Self::MAX,
    {
        proof {
            use_type_invariant(self);
        }
        self.amount
    }

    #[verifier::when_used_as_spec(spec_currency)]
    pub fn currency(&self) -> (r: Currency)
        ensures
            r == self.spec_currency(),
            r == Currency::JPY,
    {
        proof {
            use_type_invariant(self);
        }
        self.currency
    }
}

} // verus!
