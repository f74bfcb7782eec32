use vstd::prelude::*;
use crate::text::{push_char, str_eq, owned};

verus! {

/// Why imported data could not be used.
#[derive(Clone, Debug)]
pub enum DataImportError {
    /// The currency code is not one this library knows.
    CurrencyNotFoundError(String),
}

/// The supported currency codes.
#[derive(Clone, Copy, Debug, PartialEq, Eq, Hash, Structural)]
pub enum CurrencyCode {
    USD,
    EUR,
}

impl CurrencyCode {
    /// Reads an upper-case code.
    pub fn from_string(currency: &str) -> (r: Result<CurrencyCode, DataImportError>)
        ensures
            currency@ == "USD"@ ==> r == Ok::<CurrencyCode, DataImportError>(CurrencyCode::USD),
            currency@ == "EUR"@ ==> r == Ok::<CurrencyCode, DataImportError>(CurrencyCode::EUR),
            currency@ != "USD"@ && currency@ != "EUR"@ ==> (r matches Err(DataImportError::CurrencyNotFoundError(s)) && s@ == currency@),
    {
        proof {
            reveal_strlit("USD");
            reveal_strlit("EUR");
            assert("USD"@[0] != "EUR"@[0]);
        }
        if str_eq(currency, "USD") {
            Ok(CurrencyCode::USD)
        } else if str_eq(currency, "EUR") {
            Ok(CurrencyCode::EUR)
        } else {
            Err(DataImportError::CurrencyNotFoundError(owned(currency)))
        }
    }
}

/// A currency and how many minor units make one major unit.
#[derive(Clone, Copy, Debug, PartialEq, Eq, Hash, Structural)]
pub struct Currency {
    currency_code: CurrencyCode,
    major_to_minor_ratio: i64,
}

impl Currency {
    pub closed spec fn code(&self) -> CurrencyCode {
        self.currency_code
    }

    pub closed spec fn ratio(&self) -> int {
        self.major_to_minor_ratio as int
    }

    #[verifier::type_invariant]
    spec fn ratio_is_hundred(&self) -> bool {
        self.major_to_minor_ratio == 100
    }

    pub fn new(currency_code: CurrencyCode) -> (r: Currency)
        ensures
            r.code() == currency_code,
            r.ratio() == 100,
    {
        let major_to_minor_ratio: i64 = match currency_code {
            CurrencyCode::USD => 100,
            CurrencyCode::EUR => 100,
        };
        Currency { currency_code, major_to_minor_ratio }
    }

    pub fn from_string(currency: &str) -> (r: Result<Currency, DataImportError>)
        ensures
            currency@ == "USD"@ ==> (r matches Ok(c) && c.code() == CurrencyCode::USD),
            currency@ == "EUR"@ ==> (r matches Ok(c) && c.code() == CurrencyCode::EUR),
            currency@ != "USD"@ && currency@ != "EUR"@ ==> (r matches Err(DataImportError::CurrencyNotFoundError(s)) && s@ == currency@),
    {
        match CurrencyCode::from_string(currency) {
            Ok(code) => Ok(Currency::new(code)),
            Err(e) => Err(e),
        }
    }

    pub fn get_ratio(&self) -> (r: i64)
        ensures
            r == self.ratio(),
            r == 100,
    {
        proof {
            use_type_invariant(self);
        }
        self.major_to_minor_ratio
    }
}

/// A price held in the minor unit of its currency (cents).
#[derive(Clone, Copy, Debug, PartialEq, Eq, Hash, Structural)]
pub struct Price {
    price_in_minor: i64,
    currency: Currency,
}

pub open spec fn digit_char(d: nat) -> char {
    ((d + 48) as u8) as char
}

/// Decimal digits of a natural number, most significant first.
pub open spec fn decimal(n: nat) -> Seq<char>
    decreases n,
{
    if n < 10 {
        seq![digit_char(n)]
    } else {
        decimal(n / 10).push(digit_char(n % 10))
    }
}

/// A minor-unit amount written in major units with two decimals.
pub open spec fn major_unit_text(minor: int) -> Seq<char> {
    let a = if minor < 0 { -minor } else { minor };
    let sign = if minor < 0 { seq!['-'] } else { Seq::<char>::empty() };
    sign + decimal((a / 100) as nat) + seq!['.', digit_char(((a % 100) / 10) as nat), digit_char((a % 10) as nat)]
}

fn push_decimal(s: &mut String, n: u64)
    ensures
        final(s)@ == old(s)@ + decimal(n as nat),
    decreases n,
{
    if n >= 10 {
        push_decimal(s, n / 10);
    }
    push_char(s, ((n % 10) as u8 + 48) as char);
    assert(old(s)@ + decimal(n as nat) == if n >= 10 { old(s)@ + decimal((n / 10) as nat) + seq![digit_char((n % 10) as nat)] } else { old(s)@ + seq![digit_char(n as nat)] });
}

impl Price {
    pub closed spec fn minor(&self) -> int {
        self.price_in_minor as int
    }

    pub closed spec fn currency(&self) -> Currency {
        self.currency
    }

    pub fn new(price_in_minor: i64, currency: Currency) -> (r: Price)
        ensures
            r.minor() == price_in_minor,
            r.currency() == currency,
    {
        Price { price_in_minor, currency }
    }

    /// A price from a minor-unit amount and a currency code (`USD` or `EUR`).
    pub fn from_currency_string(price_in_minor: i64, currency_str: &str) -> (r: Result<Price, DataImportError>)
        ensures
            (currency_str@ == "USD"@ || currency_str@ == "EUR"@) <==> r is Ok,
            r matches Ok(p) ==> p.minor() == price_in_minor
                && (currency_str@ == "USD"@ ==> p.currency().code() == CurrencyCode::USD)
                && (currency_str@ == "EUR"@ ==> p.currency().code() == CurrencyCode::EUR),
            r matches Err(DataImportError::CurrencyNotFoundError(s)) ==> s@ == currency_str@,
    {
        match Currency::from_string(currency_str) {
            Ok(currency) => Ok(Price::new(price_in_minor, currency)),
            Err(e) => Err(e),
        }
    }

    pub fn get_in_minor_unit(&self) -> (r: i64)
        ensures
            r == self.minor(),
    {
        self.price_in_minor
    }

    /// The price in major units with two decimals, as shown on a page.
    pub fn get_in_major_unit_str(&self) -> (r: String)
        ensures
            r@ == major_unit_text(self.minor()),
    {
        let ratio = self.currency.get_ratio();
        let m = self.price_in_minor as i128;
        let a: u64 = if m < 0 { (-m) as u64 } else { m as u64 };
        let mut r = String::new();
        if m < 0 {
            push_char(&mut r, '-');
        }
        let major = a / (ratio as u64);
        let frac = a % (ratio as u64);
        push_decimal(&mut r, major);
        push_char(&mut r, '.');
        push_char(&mut r, ((frac / 10) as u8 + 48) as char);
        push_char(&mut r, ((frac % 10) as u8 + 48) as char);
        proof {
            let ai: int = if self.minor() < 0 { -self.minor() } else { self.minor() };
            assert(a as int == ai);
            assert((a % 100) % 10 == a % 10) by (nonlinear_arith);
        }
        r
    }
}

} // verus!
