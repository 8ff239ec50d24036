use vstd::prelude::*;

verus! {

use crate::error::ContractError;

/// A currency-tagged quantity for incoming and outgoing messages: the amount
/// together with the symbol naming its currency.
#[derive(Debug, Clone, PartialEq, Eq)]
pub struct CoinDTO {
    pub amount: u128,
    pub symbol: String,
}

impl CoinDTO {
    pub fn new(amount: u128, symbol: String) -> (r: CoinDTO)
        ensures
            r.amount == amount,
            r.symbol@ == symbol@,
    {
        CoinDTO { amount, symbol }
    }

    pub fn amount(&self) -> (r: u128)
        ensures
            r == self.amount,
    {
        self.amount
    }

    /// The plain amount, when the coin is in the expected currency.
    pub fn expect_symbol(&self, symbol: &String) -> (r: Result<u128, ContractError>)
        ensures
            self.symbol@ == symbol@ ==> (r matches Ok(a) && a == self.amount),
            self.symbol@ != symbol@ ==> (r matches Err(e)
                && (e matches ContractError::UnknownCurrency { symbol: s } && s@ == self.symbol@)),
    {
        if self.symbol == *symbol {
            Ok(self.amount)
        } else {
            Err(ContractError::UnknownCurrency { symbol: self.symbol.clone() })
        }
    }
}

/// A coin of the given amount in the given currency.
pub fn funds(amount: u128, symbol: String) -> (r: CoinDTO)
    ensures
        r.amount == amount,
        r.symbol@ == symbol@,
{
    CoinDTO { amount, symbol }
}

/// The closed group of currencies accepted in payments.
pub struct PaymentGroup {}

/// The members of the payment group.
#[derive(Debug, Clone, Copy, PartialEq, Eq, Structural)]
pub enum PaymentCurrency {
    Usdc,
    Osmo,
    Atom,
    Nls,
}

impl PaymentGroup {
    /// The member whose symbol is `symbol`, or `UnknownCurrency`.
    pub fn resolve(symbol: &String) -> (r: Result<PaymentCurrency, ContractError>)
        ensures
            symbol@ == "USDC"@ ==> r == Ok::<_, ContractError>(PaymentCurrency::Usdc),
            symbol@ == "OSMO"@ ==> r == Ok::<_, ContractError>(PaymentCurrency::Osmo),
            symbol@ == "ATOM"@ ==> r == Ok::<_, ContractError>(PaymentCurrency::Atom),
            symbol@ == "NLS"@ ==> r == Ok::<_, ContractError>(PaymentCurrency::Nls),
            symbol@ != "USDC"@ && symbol@ != "OSMO"@ && symbol@ != "ATOM"@ && symbol@ != "NLS"@
                ==> (r matches Err(e)
                    && (e matches ContractError::UnknownCurrency { symbol: s } && s@ == symbol@)),
    {
        proof {
            reveal_strlit("USDC");
            reveal_strlit("OSMO");
            reveal_strlit("ATOM");
            reveal_strlit("NLS");
            assert(("USDC"@)[0] == 'U' && ("OSMO"@)[0] == 'O' && ("ATOM"@)[0] == 'A'
                && ("NLS"@)[0] == 'N');
            assert("USDC"@ != "OSMO"@ && "USDC"@ != "ATOM"@ && "USDC"@ != "NLS"@
                && "OSMO"@ != "ATOM"@ && "OSMO"@ != "NLS"@ && "ATOM"@ != "NLS"@);
        }
        if *symbol == String::from_str("USDC") {
            Ok(PaymentCurrency::Usdc)
        } else if *symbol == String::from_str("OSMO") {
            Ok(PaymentCurrency::Osmo)
        } else if *symbol == String::from_str("ATOM") {
            Ok(PaymentCurrency::Atom)
        } else if *symbol == String::from_str("NLS") {
            Ok(PaymentCurrency::Nls)
        } else {
            Err(ContractError::UnknownCurrency { symbol: symbol.clone() })
        }
    }
}

} // verus!
