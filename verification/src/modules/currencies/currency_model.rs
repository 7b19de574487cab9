//! Currencies and exchange rates as the store holds them.

use vstd::prelude::*;
use crate::modules::currencies::currency_command::{CurrencyCreateCommand, FxRateCreateCommand};
use crate::shared::db::mysql::FromSqlRow;
use crate::shared::db::row::{
    ColumnIndexMap,
    ColumnView,
    MappingError,
    MappingErrorView,
    Row,
    date_of,
    decimal_of,
    Earliest,
    error_of,
    lemma_bytes_deep_view,
    opt_bytes_of,
    opt_datetime_of,
    text_of,
    u8_of,
};
use crate::shared::decimal::{Decimal, DecimalView};
use crate::shared::temporal::{DateTimeUtc, NaiveDate};

verus! {

/// A currency, keyed by its code.
#[derive(Debug, Clone, PartialEq, Eq)]
pub struct Currency {
    /// The currency's code: its natural key.
    pub code: String,
    pub name: String,
    /// The number of decimal places of the smallest unit.
    pub minor_unit: u8,
}

/// What a [`Currency`] stands for.
pub struct CurrencyView {
    pub code: Seq<char>,
    pub name: Seq<char>,
    pub minor_unit: u8,
}

impl DeepView for Currency {
    type V = CurrencyView;

    open spec fn deep_view(&self) -> CurrencyView {
        CurrencyView {
            code: self.code@,
            name: self.name@,
            minor_unit: self.minor_unit,
        }
    }
}

impl View for Currency {
    type V = CurrencyView;

    open spec fn view(&self) -> CurrencyView {
        self.deep_view()
    }
}

impl FromSqlRow for Currency {
    open spec fn row_model(row: Seq<ColumnView>, index: Map<Seq<char>, usize>) -> Result<
        CurrencyView,
        MappingErrorView,
    > {
        let code = text_of(row, index, "code"@);
        let name = text_of(row, index, "name"@);
        let minor_unit = u8_of(row, index, "minor_unit"@);
        match error_of(code)
            .or_later(error_of(name))
            .or_later(error_of(minor_unit)) {
            Some(e) => Err(e),
            None => Ok(
                CurrencyView {
                    code: code->Ok_0,
                    name: name->Ok_0,
                    minor_unit: minor_unit->Ok_0,
                },
            ),
        }
    }

    fn map_row_to_entity(row: &Row, index_map: &ColumnIndexMap) -> (r: Result<
        Self,
        MappingError,
    >) {
        broadcast use lemma_bytes_deep_view;

        let code = row.get_text(index_map, "code")?;
        let name = row.get_text(index_map, "name")?;
        let minor_unit = row.get_u8(index_map, "minor_unit")?;
        Ok(Currency { code, name, minor_unit })
    }
}

impl Currency {
    /// The currency a create command asks for.
    pub fn from(command: CurrencyCreateCommand) -> (currency: Currency)
        ensures
            currency@ == (CurrencyView {
                code: command.currency_code@,
                name: command.currency_name@,
                minor_unit: command.currency_minor_unit,
            }),
    {
        Currency {
            code: command.currency_code,
            name: command.currency_name,
            minor_unit: command.currency_minor_unit,
        }
    }
}

/// An exchange rate between two currencies on one day.
#[derive(Debug, Clone, PartialEq, Eq)]
pub struct FxRate {
    /// The sixteen bytes of the identity; none before the store has assigned one.
    pub id: Option<Vec<u8>>,
    pub base_code: String,
    pub quote_code: String,
    /// How many units of the quote currency one unit of the base currency buys.
    pub rate: Decimal,
    pub as_of_date: NaiveDate,
    pub source: String,
    pub created_at: Option<DateTimeUtc>,
}

/// What a [`FxRate`] stands for.
pub struct FxRateView {
    pub id: Option<Seq<u8>>,
    pub base_code: Seq<char>,
    pub quote_code: Seq<char>,
    pub rate: DecimalView,
    pub as_of_date: NaiveDate,
    pub source: Seq<char>,
    pub created_at: Option<DateTimeUtc>,
}

impl DeepView for FxRate {
    type V = FxRateView;

    open spec fn deep_view(&self) -> FxRateView {
        FxRateView {
            id: self.id.deep_view(),
            base_code: self.base_code@,
            quote_code: self.quote_code@,
            rate: self.rate@,
            as_of_date: self.as_of_date,
            source: self.source@,
            created_at: self.created_at,
        }
    }
}

impl View for FxRate {
    type V = FxRateView;

    open spec fn view(&self) -> FxRateView {
        self.deep_view()
    }
}

impl FromSqlRow for FxRate {
    open spec fn row_model(row: Seq<ColumnView>, index: Map<Seq<char>, usize>) -> Result<
        FxRateView,
        MappingErrorView,
    > {
        let id = opt_bytes_of(row, index, "id"@);
        let base_code = text_of(row, index, "base_code"@);
        let quote_code = text_of(row, index, "quote_code"@);
        let rate = decimal_of(row, index, "rate"@);
        let as_of_date = date_of(row, index, "as_of_date"@);
        let source = text_of(row, index, "source"@);
        let created_at = opt_datetime_of(row, index, "created_at"@);
        match error_of(id)
            .or_later(error_of(base_code))
            .or_later(error_of(quote_code))
            .or_later(error_of(rate))
            .or_later(error_of(as_of_date))
            .or_later(error_of(source))
            .or_later(error_of(created_at)) {
            Some(e) => Err(e),
            None => Ok(
                FxRateView {
                    id: id->Ok_0,
                    base_code: base_code->Ok_0,
                    quote_code: quote_code->Ok_0,
                    rate: rate->Ok_0,
                    as_of_date: as_of_date->Ok_0,
                    source: source->Ok_0,
                    created_at: created_at->Ok_0,
                },
            ),
        }
    }

    fn map_row_to_entity(row: &Row, index_map: &ColumnIndexMap) -> (r: Result<
        Self,
        MappingError,
    >) {
        broadcast use lemma_bytes_deep_view;

        let id = row.get_opt_bytes(index_map, "id")?;
        let base_code = row.get_text(index_map, "base_code")?;
        let quote_code = row.get_text(index_map, "quote_code")?;
        let rate = row.get_decimal(index_map, "rate")?;
        let as_of_date = row.get_date(index_map, "as_of_date")?;
        let source = row.get_text(index_map, "source")?;
        let created_at = row.get_opt_datetime(index_map, "created_at")?;
        Ok(
            FxRate {
                id,
                base_code,
                quote_code,
                rate,
                as_of_date,
                source,
                created_at,
            },
        )
    }
}

impl FxRate {
    /// The exchange rate a create command asks for: without identity and
    /// creation time, which the store assigns.
    pub fn from(command: FxRateCreateCommand) -> (fx_rate: FxRate)
        ensures
            fx_rate@ == (FxRateView {
                id: None,
                base_code: command.fx_rate_base_code@,
                quote_code: command.fx_rate_quote_code@,
                rate: command.fx_rate_rate@,
                as_of_date: command.fx_rate_as_of_date,
                source: command.fx_rate_source@,
                created_at: None,
            }),
    {
        FxRate {
            id: None,
            base_code: command.fx_rate_base_code,
            quote_code: command.fx_rate_quote_code,
            rate: command.fx_rate_rate,
            as_of_date: command.fx_rate_as_of_date,
            source: command.fx_rate_source,
            created_at: None,
        }
    }
}

} // verus!
