//! Currencies: their codes and names, parsing a code case-insensitively,
//! and the rules on exchange rates that do not involve the rate itself.

use vstd::prelude::*;
use crate::api_error::ApiError;
use crate::text::{concat, decimal, i64_text, signed_decimal, str_eq, to_uppercase, u64_text, uppercase_of};

verus! {

#[derive(Debug, Clone, Copy, PartialEq, Eq, Structural)]
pub enum Currency {
    USD,
    EUR,
    GBP,
    JPY,
}

pub open spec fn currency_code(c: Currency) -> Seq<char> {
    match c {
        Currency::USD => "USD"@,
        Currency::EUR => "EUR"@,
        Currency::GBP => "GBP"@,
        Currency::JPY => "JPY"@,
    }
}

pub open spec fn currency_name(c: Currency) -> Seq<char> {
    match c {
        Currency::USD => "US Dollar"@,
        Currency::EUR => "Euro"@,
        Currency::GBP => "British Pound"@,
        Currency::JPY => "Japanese Yen"@,
    }
}

/// The currency an upper-case code names exactly.
pub open spec fn currency_of_code(code: Seq<char>) -> Option<Currency> {
    if code == "USD"@ {
        Some(Currency::USD)
    } else if code == "EUR"@ {
        Some(Currency::EUR)
    } else if code == "GBP"@ {
        Some(Currency::GBP)
    } else if code == "JPY"@ {
        Some(Currency::JPY)
    } else {
        None
    }
}

/// A currency code that names no supported currency.
#[derive(Debug, Clone)]
pub struct InvalidCurrency {
    pub input: String,
}

impl InvalidCurrency {
    /// `Invalid currency: ` followed by the rejected text.
    pub fn message(&self) -> (r: String)
        ensures
            r@ == "Invalid currency: "@ + self.input@,
    {
        concat("Invalid currency: ", self.input.as_str())
    }
}

impl Currency {
    pub fn as_str(&self) -> (r: &'static str)
        ensures
            r@ == currency_code(*self),
    {
        match self {
            Currency::USD => "USD",
            Currency::EUR => "EUR",
            Currency::GBP => "GBP",
            Currency::JPY => "JPY",
        }
    }

    /// The code as text, as `Display` writes it.
    pub fn to_string(&self) -> (r: String)
        ensures
            r@ == currency_code(*self),
    {
        self.as_str().to_owned()
    }

    /// The currency's name for display.
    pub fn display_name(&self) -> (r: &'static str)
        ensures
            r@ == currency_name(*self),
    {
        match self {
            Currency::USD => "US Dollar",
            Currency::EUR => "Euro",
            Currency::GBP => "British Pound",
            Currency::JPY => "Japanese Yen",
        }
    }

    /// The currency an upper-case code names exactly.
    pub fn from_code(code: &str) -> (r: Option<Currency>)
        ensures
            r == currency_of_code(code@),
    {
        if str_eq(code, "USD") {
            Some(Currency::USD)
        } else if str_eq(code, "EUR") {
            Some(Currency::EUR)
        } else if str_eq(code, "GBP") {
            Some(Currency::GBP)
        } else if str_eq(code, "JPY") {
            Some(Currency::JPY)
        } else {
            None
        }
    }

    /// The currency a code names in any letter case: the code is mapped to
    /// upper case first.
    pub fn parse(s: &str) -> (r: Result<Currency, InvalidCurrency>)
        ensures
            match currency_of_code(uppercase_of(s@)) {
                Some(c) => r == Ok::<Currency, InvalidCurrency>(c),
                None => r matches Err(e) && e.input@ == s@,
            },
    {
        let upper = to_uppercase(s);
        match Currency::from_code(upper.as_str()) {
            Some(c) => Ok(c),
            None => Err(InvalidCurrency { input: s.to_owned() }),
        }
    }
}

impl std::str::FromStr for Currency {
    type Err = InvalidCurrency;

    fn from_str(s: &str) -> (r: Result<Currency, InvalidCurrency>)
        ensures
            match currency_of_code(uppercase_of(s@)) {
                Some(c) => r == Ok::<Currency, InvalidCurrency>(c),
                None => r matches Err(e) && e.input@ == s@,
            },
    {
        Currency::parse(s)
    }
}

/// The supported currencies, in the order they are listed.
pub fn get_supported_currencies() -> (r: Vec<Currency>)
    ensures
        r@ == seq![Currency::USD, Currency::EUR, Currency::GBP, Currency::JPY],
{
    let mut r: Vec<Currency> = Vec::new();
    r.push(Currency::USD);
    r.push(Currency::EUR);
    r.push(Currency::GBP);
    r.push(Currency::JPY);
    assert(r@ =~= seq![Currency::USD, Currency::EUR, Currency::GBP, Currency::JPY]);
    r
}

/// A currency's code and name.
#[derive(Debug, Clone)]
pub struct CurrencyInfo {
    pub code: String,
    pub name: String,
}

#[derive(Debug, Clone)]
pub struct CurrenciesResponse {
    pub currencies: Vec<CurrencyInfo>,
}

/// The list of supported currencies with their codes and names.
pub fn supported_currency_list() -> (r: CurrenciesResponse)
    ensures
        r.currencies@.map_values(|i: CurrencyInfo| (i.code@, i.name@)) == seq![
            (currency_code(Currency::USD), currency_name(Currency::USD)),
            (currency_code(Currency::EUR), currency_name(Currency::EUR)),
            (currency_code(Currency::GBP), currency_name(Currency::GBP)),
            (currency_code(Currency::JPY), currency_name(Currency::JPY)),
        ],
{
    let all = get_supported_currencies();
    let mut infos: Vec<CurrencyInfo> = Vec::new();
    let mut i: usize = 0;
    while i < all.len()
        invariant
            all@ == seq![Currency::USD, Currency::EUR, Currency::GBP, Currency::JPY],
            i <= all@.len(),
            infos@.len() == i,
            forall|k: int| 0 <= k < i ==> (#[trigger] infos@[k]).code@ == currency_code(all@[k]) && infos@[k].name@
                == currency_name(all@[k]),
        decreases all@.len() - i,
    {
        let c = all[i];
        infos.push(CurrencyInfo { code: c.as_str().to_owned(), name: c.display_name().to_owned() });
        i = i + 1;
    }
    assert(infos@.map_values(|x: CurrencyInfo| (x.code@, x.name@)) =~= seq![
        (currency_code(Currency::USD), currency_name(Currency::USD)),
        (currency_code(Currency::EUR), currency_name(Currency::EUR)),
        (currency_code(Currency::GBP), currency_name(Currency::GBP)),
        (currency_code(Currency::JPY), currency_name(Currency::JPY)),
    ]);
    CurrenciesResponse { currencies: infos }
}

/// Whether `code` is one of the supported codes, exactly as written.
pub fn is_supported_code(code: &str) -> (r: bool)
    ensures
        r == (currency_of_code(code@) is Some),
{
    Currency::from_code(code).is_some()
}

/// The query of a conversion request.
#[derive(Debug, Clone)]
pub struct ConvertQuery {
    pub amount: i64,
    pub from: String,
    pub to: String,
}

#[derive(Debug, Clone)]
pub struct ConversionRequest {
    pub from_currency: String,
    pub to_currency: String,
    pub amount: i64,
}

/// The cache key of the rate from `from` to `to`.
pub fn exchange_rate_cache_key(from: &str, to: &str) -> (r: String)
    ensures
        r@ == "exchange_rate:"@ + from@ + ":"@ + to@,
{
    concat(concat(concat("exchange_rate:", from).as_str(), ":").as_str(), to)
}

/// Whether a rate `age_secs` old exceeds the allowed age.
pub fn rate_is_stale(age_secs: i64, max_rate_age_seconds: u64) -> (r: bool)
    ensures
        r == (age_secs > max_rate_age_seconds as i64),
{
    age_secs > max_rate_age_seconds as i64
}

/// Where a rate was read from.
#[derive(Debug, Clone, Copy, PartialEq, Eq, Structural)]
pub enum RateSource {
    Cache,
    Database,
}

/// The message refusing a stale rate.
pub open spec fn stale_rate_message(from: Seq<char>, to: Seq<char>, age: i64, limit: u64, source: RateSource) -> Seq<
    char,
> {
    "Exchange rate for "@ + from + "/"@ + to + (if source == RateSource::Cache {
        " is stale (last updated "@
    } else {
        " is stale in database (last updated "@
    }) + signed_decimal(age as int) + " seconds ago, limit is "@ + decimal(limit as nat) + " seconds)"@
}

/// Refuses a rate from `from` to `to` that is older than allowed.
pub fn check_rate_age(from: Currency, to: Currency, age_secs: i64, max_rate_age_seconds: u64, source: RateSource) -> (r:
    Result<(), ApiError>)
    ensures
        age_secs > max_rate_age_seconds as i64 ==> (r matches Err(e) && (e matches ApiError::BadRequest(m) && m@
            == stale_rate_message(currency_code(from), currency_code(to), age_secs, max_rate_age_seconds, source))),
        age_secs <= max_rate_age_seconds as i64 ==> r is Ok,
{
    if !rate_is_stale(age_secs, max_rate_age_seconds) {
        return Ok(());
    }
    let head = concat(concat(concat("Exchange rate for ", from.as_str()).as_str(), "/").as_str(), to.as_str());
    let middle = match source {
        RateSource::Cache => concat(head.as_str(), " is stale (last updated "),
        RateSource::Database => concat(head.as_str(), " is stale in database (last updated "),
    };
    let with_age = concat(concat(middle.as_str(), i64_text(age_secs).as_str()).as_str(), " seconds ago, limit is ");
    let m = concat(concat(with_age.as_str(), u64_text(max_rate_age_seconds).as_str()).as_str(), " seconds)");
    Err(ApiError::BadRequest(m))
}

/// The error when no rate from `from` to `to` is stored.
pub fn rate_not_found(from: Currency, to: Currency) -> (e: ApiError)
    ensures
        e matches ApiError::NotFound(m) && m@ == "Exchange rate not found for "@ + currency_code(from) + "/"@
            + currency_code(to),
{
    ApiError::NotFound(concat(concat(concat("Exchange rate not found for ", from.as_str()).as_str(), "/").as_str(), to.as_str()))
}

/// Each currency's code names it again, exactly and in any letter case
/// that maps back to the code.
pub proof fn law_currency_code_round_trip(c: Currency, text: Seq<char>)
    requires
        uppercase_of(text) == currency_code(c),
    ensures
        currency_of_code(currency_code(c)) == Some(c),
        currency_of_code(uppercase_of(text)) == Some(c),
{
    reveal_strlit("USD");
    reveal_strlit("EUR");
    reveal_strlit("GBP");
    reveal_strlit("JPY");
    assert("USD"@ != "EUR"@ && "USD"@ != "GBP"@ && "USD"@ != "JPY"@) by {
        assert("USD"@[0] != "EUR"@[0] && "USD"@[0] != "GBP"@[0] && "USD"@[0] != "JPY"@[0]);
    }
    assert("EUR"@ != "GBP"@ && "EUR"@ != "JPY"@ && "GBP"@ != "JPY"@) by {
        assert("EUR"@[0] != "GBP"@[0] && "EUR"@[0] != "JPY"@[0] && "GBP"@[0] != "JPY"@[0]);
    }
}

} // verus!
