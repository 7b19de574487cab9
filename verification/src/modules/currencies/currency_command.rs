//! What a caller asks of the currency service, with the identity it acts
//! under.

use vstd::prelude::*;
use crate::modules::currencies::currency_dto::{
    CurrencyCreateRequest,
    CurrencyUpdateNameRequest,
    FxRateCreateRequest,
    FxRateUpdateRateRequest,
};
use crate::shared::auth::jwt::AuthUser;
use crate::shared::decimal::Decimal;
use crate::shared::ids::Uuid;
use crate::shared::response::PaginationRequest;
use crate::shared::temporal::NaiveDate;

verus! {

/// Read one currency.
#[derive(Debug, Clone, PartialEq, Eq)]
pub struct CurrencyGetCommand {
    pub currency_code: String,
    pub auth_user: AuthUser,
}

impl CurrencyGetCommand {
    /// The command to read the currency `currency_code`.
    pub fn new(currency_code: String, auth_user: AuthUser) -> (command: Self)
        ensures
            command.currency_code == currency_code,
            command.auth_user == auth_user,
    {
        Self { currency_code, auth_user }
    }
}

/// Create a currency.
#[derive(Debug, Clone, PartialEq, Eq)]
pub struct CurrencyCreateCommand {
    pub currency_code: String,
    pub currency_name: String,
    pub currency_minor_unit: u8,
    pub auth_user: AuthUser,
}

impl CurrencyCreateCommand {
    /// The command that carries out `request`.
    pub fn new(request: CurrencyCreateRequest, auth_user: AuthUser) -> (command: Self)
        ensures
            command.currency_code == request.currency_code,
            command.currency_name == request.currency_name,
            command.currency_minor_unit == request.currency_minor_unit,
            command.auth_user == auth_user,
    {
        Self {
            currency_code: request.currency_code,
            currency_name: request.currency_name,
            currency_minor_unit: request.currency_minor_unit,
            auth_user,
        }
    }
}

/// Rename a currency.
#[derive(Debug, Clone, PartialEq, Eq)]
pub struct CurrencyUpdateNameCommand {
    pub currency_code: String,
    pub currency_name: String,
    pub auth_user: AuthUser,
}

impl CurrencyUpdateNameCommand {
    /// The command that carries out `request`.
    pub fn new(request: CurrencyUpdateNameRequest, auth_user: AuthUser) -> (command: Self)
        ensures
            command.currency_code == request.currency_code,
            command.currency_name == request.currency_name,
            command.auth_user == auth_user,
    {
        Self {
            currency_code: request.currency_code,
            currency_name: request.currency_name,
            auth_user,
        }
    }
}

/// Delete a currency.
#[derive(Debug, Clone, PartialEq, Eq)]
pub struct CurrencyDeleteCommand {
    pub currency_code: String,
    pub auth_user: AuthUser,
}

impl CurrencyDeleteCommand {
    /// The command to delete the currency `currency_code`.
    pub fn new(currency_code: String, auth_user: AuthUser) -> (command: Self)
        ensures
            command.currency_code == currency_code,
            command.auth_user == auth_user,
    {
        Self { currency_code, auth_user }
    }
}

/// List the currencies.
#[derive(Debug, Clone, PartialEq, Eq)]
pub struct CurrencyListCommand {
    pub pagination: Option<PaginationRequest>,
    pub auth_user: AuthUser,
}

impl CurrencyListCommand {
    /// The command to list currencies as `pagination` says.
    pub fn new(pagination: PaginationRequest, auth_user: AuthUser) -> (command: Self)
        ensures
            command.pagination == Some(pagination),
            command.auth_user == auth_user,
    {
        Self { pagination: Some(pagination), auth_user }
    }
}

/// Read one exchange rate.
#[derive(Debug, Clone, PartialEq, Eq)]
pub struct FxRateGetCommand {
    pub fx_rate_id: Uuid,
    pub auth_user: AuthUser,
}

impl FxRateGetCommand {
    /// The command to read the exchange rate `fx_rate_id`.
    pub fn new(fx_rate_id: Uuid, auth_user: AuthUser) -> (command: Self)
        ensures
            command.fx_rate_id == fx_rate_id,
            command.auth_user == auth_user,
    {
        Self { fx_rate_id, auth_user }
    }
}

/// List the exchange rates of one base currency.
#[derive(Debug, Clone, PartialEq, Eq)]
pub struct FxRateByBaseCodeCommand {
    pub fx_rate_base_code: String,
    pub pagination: Option<PaginationRequest>,
    pub auth_user: AuthUser,
}

impl FxRateByBaseCodeCommand {
    /// The command to list the exchange rates whose base currency is
    /// `fx_rate_base_code`.
    pub fn new(fx_rate_base_code: String,
        pagination: Option<PaginationRequest>,
        auth_user: AuthUser,
    ) -> (command: Self)
        ensures
            command.fx_rate_base_code == fx_rate_base_code,
            command.pagination == pagination,
            command.auth_user == auth_user,
    {
        Self { fx_rate_base_code, pagination, auth_user }
    }
}

/// Create an exchange rate.
#[derive(Debug, Clone, PartialEq, Eq)]
pub struct FxRateCreateCommand {
    pub fx_rate_base_code: String,
    pub fx_rate_quote_code: String,
    pub fx_rate_rate: Decimal,
    pub fx_rate_as_of_date: NaiveDate,
    pub fx_rate_source: String,
    pub auth_user: AuthUser,
}

impl FxRateCreateCommand {
    /// The command that carries out `request`.
    pub fn new(request: FxRateCreateRequest, auth_user: AuthUser) -> (command: Self)
        ensures
            command.fx_rate_base_code == request.fx_rate_base_code,
            command.fx_rate_quote_code == request.fx_rate_quote_code,
            command.fx_rate_rate == request.fx_rate_rate,
            command.fx_rate_as_of_date == request.fx_rate_as_of_date,
            command.fx_rate_source == request.fx_rate_source,
            command.auth_user == auth_user,
    {
        Self {
            fx_rate_base_code: request.fx_rate_base_code,
            fx_rate_quote_code: request.fx_rate_quote_code,
            fx_rate_rate: request.fx_rate_rate,
            fx_rate_as_of_date: request.fx_rate_as_of_date,
            fx_rate_source: request.fx_rate_source,
            auth_user,
        }
    }
}

/// Change the rate of an exchange rate.
#[derive(Debug, Clone, PartialEq, Eq)]
pub struct FxRateUpdateRateCommand {
    pub fx_rate_id: Uuid,
    pub fx_rate_rate: Decimal,
    pub auth_user: AuthUser,
}

impl FxRateUpdateRateCommand {
    /// The command that carries out `request` on the exchange rate
    /// `fx_rate_id`.
    pub fn new(
        fx_rate_id: Uuid,
        request: FxRateUpdateRateRequest,
        auth_user: AuthUser,
    ) -> (command: Self)
        ensures
            command.fx_rate_id == fx_rate_id,
            command.fx_rate_rate == request.fx_rate_rate,
            command.auth_user == auth_user,
    {
        Self { fx_rate_id, fx_rate_rate: request.fx_rate_rate, auth_user }
    }
}

/// Delete an exchange rate.
#[derive(Debug, Clone, PartialEq, Eq)]
pub struct FxRateDeleteCommand {
    pub fx_rate_id: Uuid,
    pub auth_user: AuthUser,
}

impl FxRateDeleteCommand {
    /// The command to delete the exchange rate `fx_rate_id`.
    pub fn new(fx_rate_id: Uuid, auth_user: AuthUser) -> (command: Self)
        ensures
            command.fx_rate_id == fx_rate_id,
            command.auth_user == auth_user,
    {
        Self { fx_rate_id, auth_user }
    }
}

/// List the exchange rates.
#[derive(Debug, Clone, PartialEq, Eq)]
pub struct FxRateListCommand {
    pub pagination: Option<PaginationRequest>,
    pub auth_user: AuthUser,
}

impl FxRateListCommand {
    /// The command to list exchange rates as `pagination` says.
    pub fn new(pagination: Option<PaginationRequest>, auth_user: AuthUser) -> (command: Self)
        ensures
            command.pagination == pagination,
            command.auth_user == auth_user,
    {
        Self { pagination, auth_user }
    }
}

} // verus!
