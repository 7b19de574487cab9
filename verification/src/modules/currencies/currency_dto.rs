//! Currencies and exchange rates as clients see them, and the requests that
//! change them.

use vstd::prelude::*;
use vstd::string::StringExecFns;
use crate::modules::currencies::currency_model::{Currency, CurrencyView, FxRate, FxRateView};
use crate::shared::cache_aside::Response;
use crate::shared::db::row::{MappingError, MappingErrorView, lemma_bytes_deep_view};
use crate::shared::decimal::{Decimal, DecimalView};
use crate::shared::ids::{Uuid, hyphenated};
use crate::shared::temporal::NaiveDate;
use crate::shared::utils::{bu, read_stored_id, stored_id};

verus! {

/// A currency as clients see it.
#[derive(Debug, Clone, PartialEq, Eq)]
pub struct CurrencyResponse {
    pub currency_code: String,
    pub currency_name: String,
    pub currency_minor_unit: u8,
}

/// What a [`CurrencyResponse`] stands for.
pub struct CurrencyResponseView {
    pub currency_code: Seq<char>,
    pub currency_name: Seq<char>,
    pub currency_minor_unit: u8,
}

impl DeepView for CurrencyResponse {
    type V = CurrencyResponseView;

    open spec fn deep_view(&self) -> CurrencyResponseView {
        CurrencyResponseView {
            currency_code: self.currency_code@,
            currency_name: self.currency_name@,
            currency_minor_unit: self.currency_minor_unit,
        }
    }
}

impl View for CurrencyResponse {
    type V = CurrencyResponseView;

    open spec fn view(&self) -> CurrencyResponseView {
        self.deep_view()
    }
}

/// The cache key of the currency `code`.
pub open spec fn currency_key(code: Seq<char>) -> Seq<char> {
    "currency:"@ + code
}

/// The cache key of the list of all currencies.
pub open spec fn currency_list_key() -> Seq<char> {
    "currency:list"@
}

impl CurrencyResponse {
    /// What [`CurrencyResponse::from`] gives.
    pub open spec fn of(currency: CurrencyView) -> CurrencyResponseView {
        CurrencyResponseView {
            currency_code: currency.code,
            currency_name: currency.name,
            currency_minor_unit: currency.minor_unit,
        }
    }

    /// The response that shows `currency`.
    pub fn from(currency: Currency) -> (response: CurrencyResponse)
        ensures
            response@ == Self::of(currency@),
    {
        CurrencyResponse {
            currency_code: currency.code,
            currency_name: currency.name,
            currency_minor_unit: currency.minor_unit,
        }
    }

    /// The response that shows `currency`, which is left as it is.
    pub fn from_ref(currency: &Currency) -> (response: CurrencyResponse)
        ensures
            response@ == Self::of(currency@),
    {
        CurrencyResponse {
            currency_code: currency.code.clone(),
            currency_name: currency.name.clone(),
            currency_minor_unit: currency.minor_unit,
        }
    }
}

impl Response for CurrencyResponse {
    type Entity = Currency;

    open spec fn of_entity(entity: CurrencyView) -> Result<CurrencyResponseView, MappingErrorView> {
        Ok(Self::of(entity))
    }

    open spec fn key_of(response: CurrencyResponseView) -> Seq<char> {
        currency_key(response.currency_code)
    }

    open spec fn list_keys_of(response: CurrencyResponseView) -> Seq<Seq<char>> {
        seq![currency_list_key()]
    }

    fn from_entity(entity: &Currency) -> (r: Result<Self, MappingError>) {
        Ok(CurrencyResponse::from_ref(entity))
    }

    fn duplicate(&self) -> (r: Self) {
        CurrencyResponse {
            currency_code: self.currency_code.clone(),
            currency_name: self.currency_name.clone(),
            currency_minor_unit: self.currency_minor_unit,
        }
    }

    fn cache_key(&self) -> (key: String) {
        let mut key = String::from_str("currency:");
        key.append(self.currency_code.as_str());
        key
    }

    fn list_cache_keys(&self) -> (keys: Vec<String>) {
        let mut keys: Vec<String> = Vec::new();
        keys.push(String::from_str("currency:list"));
        assert(keys.deep_view() =~= seq![currency_list_key()]);
        keys
    }
}

/// The body of a request to create a currency.
#[derive(Debug, Clone, PartialEq, Eq)]
pub struct CurrencyCreateRequest {
    pub currency_code: String,
    pub currency_name: String,
    pub currency_minor_unit: u8,
}

/// The body of a request to rename a currency.
#[derive(Debug, Clone, PartialEq, Eq)]
pub struct CurrencyUpdateNameRequest {
    pub currency_code: String,
    pub currency_name: String,
}

/// An exchange rate as clients see it.
#[derive(Debug, Clone, PartialEq, Eq)]
pub struct FxRateResponse {
    pub fx_rate_id: Uuid,
    pub fx_rate_base_code: String,
    pub fx_rate_quote_code: String,
    pub fx_rate_rate: Decimal,
    pub fx_rate_as_of_date: NaiveDate,
    pub fx_rate_source: String,
}

/// What a [`FxRateResponse`] stands for.
pub struct FxRateResponseView {
    pub fx_rate_id: Seq<u8>,
    pub fx_rate_base_code: Seq<char>,
    pub fx_rate_quote_code: Seq<char>,
    pub fx_rate_rate: DecimalView,
    pub fx_rate_as_of_date: NaiveDate,
    pub fx_rate_source: Seq<char>,
}

impl DeepView for FxRateResponse {
    type V = FxRateResponseView;

    open spec fn deep_view(&self) -> FxRateResponseView {
        FxRateResponseView {
            fx_rate_id: self.fx_rate_id@,
            fx_rate_base_code: self.fx_rate_base_code@,
            fx_rate_quote_code: self.fx_rate_quote_code@,
            fx_rate_rate: self.fx_rate_rate@,
            fx_rate_as_of_date: self.fx_rate_as_of_date,
            fx_rate_source: self.fx_rate_source@,
        }
    }
}

impl View for FxRateResponse {
    type V = FxRateResponseView;

    open spec fn view(&self) -> FxRateResponseView {
        self.deep_view()
    }
}

/// The cache key of the exchange rate `id`.
pub open spec fn fx_rate_key(id: Seq<u8>) -> Seq<char> {
    "fx_rate:"@ + hyphenated(id)
}

/// The cache key of the list of all exchange rates.
pub open spec fn fx_rate_list_key() -> Seq<char> {
    "fx_rate:list"@
}

impl FxRateResponse {
    /// The response that shows an exchange rate whose identity is `id`.
    pub open spec fn of(fx_rate: FxRateView, id: Seq<u8>) -> FxRateResponseView {
        FxRateResponseView {
            fx_rate_id: id,
            fx_rate_base_code: fx_rate.base_code,
            fx_rate_quote_code: fx_rate.quote_code,
            fx_rate_rate: fx_rate.rate,
            fx_rate_as_of_date: fx_rate.as_of_date,
            fx_rate_source: fx_rate.source,
        }
    }

    /// The response that shows `fx_rate`, which the store has given an
    /// identity.
    pub fn from(fx_rate: FxRate) -> (response: FxRateResponse)
        requires
            stored_id(fx_rate@.id) is Ok,
        ensures
            response@ == Self::of(fx_rate@, fx_rate@.id->Some_0),
    {
        broadcast use lemma_bytes_deep_view;

        let id = match &fx_rate.id {
            Some(bytes) => bu(bytes.as_slice()),
            None => unreached(),
        };
        FxRateResponse {
            fx_rate_id: id,
            fx_rate_base_code: fx_rate.base_code,
            fx_rate_quote_code: fx_rate.quote_code,
            fx_rate_rate: fx_rate.rate,
            fx_rate_as_of_date: fx_rate.as_of_date,
            fx_rate_source: fx_rate.source,
        }
    }
}

impl FxRateResponse {
    /// The response that shows `fx_rate`, which is left as it is.
    pub fn from_ref(fx_rate: &FxRate) -> (response: FxRateResponse)
        requires
            stored_id(fx_rate@.id) is Ok,
        ensures
            response@ == Self::of(fx_rate@, fx_rate@.id->Some_0),
    {
        broadcast use lemma_bytes_deep_view;

        let id = match &fx_rate.id {
            Some(bytes) => bu(bytes.as_slice()),
            None => unreached(),
        };
        FxRateResponse {
            fx_rate_id: id,
            fx_rate_base_code: fx_rate.base_code.clone(),
            fx_rate_quote_code: fx_rate.quote_code.clone(),
            fx_rate_rate: fx_rate.rate,
            fx_rate_as_of_date: fx_rate.as_of_date,
            fx_rate_source: fx_rate.source.clone(),
        }
    }
}

impl Response for FxRateResponse {
    type Entity = FxRate;

    open spec fn of_entity(entity: FxRateView) -> Result<FxRateResponseView, MappingErrorView> {
        match stored_id(entity.id) {
            Ok(id) => Ok(Self::of(entity, id)),
            Err(e) => Err(e),
        }
    }

    open spec fn key_of(response: FxRateResponseView) -> Seq<char> {
        fx_rate_key(response.fx_rate_id)
    }

    open spec fn list_keys_of(response: FxRateResponseView) -> Seq<Seq<char>> {
        seq![fx_rate_list_key()]
    }

    fn from_entity(entity: &FxRate) -> (r: Result<Self, MappingError>) {
        match read_stored_id(&entity.id) {
            Ok(_) => Ok(FxRateResponse::from_ref(entity)),
            Err(e) => Err(e),
        }
    }

    fn duplicate(&self) -> (r: Self) {
        FxRateResponse {
            fx_rate_id: self.fx_rate_id,
            fx_rate_base_code: self.fx_rate_base_code.clone(),
            fx_rate_quote_code: self.fx_rate_quote_code.clone(),
            fx_rate_rate: self.fx_rate_rate,
            fx_rate_as_of_date: self.fx_rate_as_of_date,
            fx_rate_source: self.fx_rate_source.clone(),
        }
    }

    fn cache_key(&self) -> (key: String) {
        let mut key = String::from_str("fx_rate:");
        key.append(self.fx_rate_id.to_string().as_str());
        key
    }

    fn list_cache_keys(&self) -> (keys: Vec<String>) {
        let mut keys: Vec<String> = Vec::new();
        keys.push(String::from_str("fx_rate:list"));
        assert(keys.deep_view() =~= seq![fx_rate_list_key()]);
        keys
    }
}

/// The body of a request to create an exchange rate.
#[derive(Debug, Clone, PartialEq, Eq)]
pub struct FxRateCreateRequest {
    pub fx_rate_base_code: String,
    pub fx_rate_quote_code: String,
    pub fx_rate_rate: Decimal,
    pub fx_rate_as_of_date: NaiveDate,
    pub fx_rate_source: String,
}

/// The body of a request to change the rate of an exchange rate.
#[derive(Debug, Clone, PartialEq, Eq)]
pub struct FxRateUpdateRateRequest {
    pub fx_rate_rate: Decimal,
}

/// The key of an exchange rate is never the key of the list of exchange
/// rates: an identity is longer than the word `list`.
pub proof fn lemma_fx_rate_key_is_no_list_key(id: Seq<u8>)
    requires
        id.len() == 16,
    ensures
        fx_rate_key(id) != fx_rate_list_key(),
{
    reveal_strlit("fx_rate:");
    reveal_strlit("fx_rate:list");
    crate::shared::ids::lemma_hyphenated_len(id);
    assert(fx_rate_key(id).len() == 44);
    assert(fx_rate_list_key().len() == 12);
}

/// The key of a currency is the key of the list of currencies only for a
/// currency whose code is the word `list`.
pub proof fn lemma_currency_key_is_no_list_key(code: Seq<char>)
    requires
        code != "list"@,
    ensures
        currency_key(code) != currency_list_key(),
{
    reveal_strlit("currency:");
    reveal_strlit("currency:list");
    reveal_strlit("list");
    if currency_key(code) == currency_list_key() {
        assert("currency:"@.len() == 9);
        assert("currency:list"@.len() == 13);
        assert(currency_key(code).len() == 9 + code.len());
        assert(code.len() == 4);
        assert forall|i: int| 0 <= i < 4 implies code[i] == "list"@[i] by {
            assert(currency_key(code)[9 + i] == code[i]);
            assert("currency:list"@[9 + i] == "list"@[i]);
        }
        assert(code =~= "list"@);
    }
}

} // verus!
