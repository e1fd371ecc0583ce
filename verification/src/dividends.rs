//! The dividends endpoint, `/v3/reference/dividends`.

use crate::common::{is_wire_word, limit_text, Order, MAX_LIMIT};
use crate::params::{put, Parameters};
use crate::rest_client::RequestType;
use crate::text::{decimal, lemma_decimal_thousand, u32_to_string};
use vstd::prelude::*;

verus! {

/// The resource path of the dividends.
pub const DIVIDENDS_PATH: &'static str = "/v3/reference/dividends";

/// The kinds of dividend.
#[derive(Debug)]
pub enum DividendType {
    CD,
    SC,
    LT,
    ST,
}

impl DividendType {
    /// The query constant of the dividend type.
    pub open spec fn wire(self) -> Seq<char> {
        match self {
            DividendType::CD => "cd"@,
            DividendType::SC => "sc"@,
            DividendType::LT => "lt"@,
            DividendType::ST => "st"@,
        }
    }

    /// Renders the dividend type as its query constant.
    pub fn to_string(&self) -> (s: String)
        ensures
            s@ == self.wire(),
    {
        match self {
            DividendType::CD => "cd".to_owned(),
            DividendType::SC => "sc".to_owned(),
            DividendType::LT => "lt".to_owned(),
            DividendType::ST => "st".to_owned(),
        }
    }

    /// Every dividend type renders as a lower-case word.
    pub proof fn lemma_wire_is_word(self)
        ensures
            is_wire_word(self.wire()),
            self.wire().len() > 0,
    {
        reveal_strlit("cd");
        reveal_strlit("sc");
        reveal_strlit("lt");
        reveal_strlit("st");
    }
}

/// The fields by which the dividends can be ordered.
#[allow(non_camel_case_types)]
#[derive(Debug)]
pub enum DividendSort {
    Ex_Dividend_Date,
    Pay_Date,
    Declaration_Date,
    Record_Date,
    Cash_Amount,
    Ticker,
}

impl DividendSort {
    /// The query constant of the sort field.
    pub open spec fn wire(self) -> Seq<char> {
        match self {
            DividendSort::Ex_Dividend_Date => "ex_dividend_date"@,
            DividendSort::Pay_Date => "pay_date"@,
            DividendSort::Declaration_Date => "declaration_date"@,
            DividendSort::Record_Date => "record_date"@,
            DividendSort::Cash_Amount => "cash_amount"@,
            DividendSort::Ticker => "ticker"@,
        }
    }

    /// Renders the sort field as its query constant.
    pub fn to_string(&self) -> (s: String)
        ensures
            s@ == self.wire(),
    {
        match self {
            DividendSort::Ex_Dividend_Date => "ex_dividend_date".to_owned(),
            DividendSort::Pay_Date => "pay_date".to_owned(),
            DividendSort::Declaration_Date => "declaration_date".to_owned(),
            DividendSort::Record_Date => "record_date".to_owned(),
            DividendSort::Cash_Amount => "cash_amount".to_owned(),
            DividendSort::Ticker => "ticker".to_owned(),
        }
    }

    /// Every sort field renders as a lower-case word.
    pub proof fn lemma_wire_is_word(self)
        ensures
            is_wire_word(self.wire()),
            self.wire().len() > 0,
    {
        reveal_strlit("ex_dividend_date");
        reveal_strlit("pay_date");
        reveal_strlit("declaration_date");
        reveal_strlit("record_date");
        reveal_strlit("cash_amount");
        reveal_strlit("ticker");
    }
}

/// How often a dividend is paid.
#[allow(non_camel_case_types)]
#[derive(Debug, Clone, Copy)]
pub enum DividendFrequency {
    one_time,
    annually,
    bi_annually,
    quarterly,
    monthly,
}

impl DividendFrequency {
    /// The number of payments in a year, the code by which the API knows
    /// the frequency; 0 stands for a single payment.
    pub open spec fn code(self) -> nat {
        match self {
            DividendFrequency::one_time => 0,
            DividendFrequency::annually => 1,
            DividendFrequency::bi_annually => 2,
            DividendFrequency::quarterly => 4,
            DividendFrequency::monthly => 12,
        }
    }

    /// The query constant of the frequency: the numeral of its code.
    pub open spec fn wire(self) -> Seq<char> {
        decimal(self.code())
    }

    /// The number of payments in a year; 0 for a single payment.
    pub fn payments_per_year(&self) -> (n: u32)
        ensures
            n == self.code(),
    {
        match self {
            DividendFrequency::one_time => 0,
            DividendFrequency::annually => 1,
            DividendFrequency::bi_annually => 2,
            DividendFrequency::quarterly => 4,
            DividendFrequency::monthly => 12,
        }
    }

    /// Renders the frequency as the numeral of its code.
    pub fn to_string(&self) -> (s: String)
        ensures
            s@ == self.wire(),
    {
        u32_to_string(self.payments_per_year())
    }

    /// The query constant of each frequency, written out.
    pub proof fn lemma_wire(self)
        ensures
            self.wire() == match self {
                DividendFrequency::one_time => "0"@,
                DividendFrequency::annually => "1"@,
                DividendFrequency::bi_annually => "2"@,
                DividendFrequency::quarterly => "4"@,
                DividendFrequency::monthly => "12"@,
            },
    {
        reveal_strlit("0");
        reveal_strlit("1");
        reveal_strlit("2");
        reveal_strlit("4");
        reveal_strlit("12");
        reveal_with_fuel(decimal, 2);
        assert(decimal(0) =~= "0"@);
        assert(decimal(1) =~= "1"@);
        assert(decimal(2) =~= "2"@);
        assert(decimal(4) =~= "4"@);
        assert(decimal(12) =~= "12"@);
    }
}

/// A query of the dividends.
#[derive(Debug)]
pub struct DividendRequest {
    /// The query parameters.
    pub parameters: Parameters,
}

impl DividendRequest {
    /// A query without any parameter.
    pub fn new() -> (r: DividendRequest)
        ensures
            r.parameters@ == Map::<Seq<char>, Seq<char>>::empty(),
            r.parameters.pairs() == Seq::<(Seq<char>, Seq<char>)>::empty(),
    {
        DividendRequest { parameters: Parameters::new() }
    }

    /// Writes `value` under `key`.
    fn with(self, key: &str, value: String) -> (r: DividendRequest)
        ensures
            r.parameters@ == self.parameters@.insert(key@, value@),
            r.parameters.pairs() == put(self.parameters.pairs(), key@, value@),
    {
        let mut r = self;
        r.parameters.insert(key.to_owned(), value);
        r
    }

    /// Asks for the dividends of one ticker symbol.
    pub fn ticker(self, ticker: &str) -> (r: DividendRequest)
        ensures
            r.parameters@ == self.parameters@.insert("ticker"@, ticker@),
            r.parameters.pairs() == put(self.parameters.pairs(), "ticker"@, ticker@),
    {
        self.with("ticker", ticker.to_owned())
    }

    /// Asks for the dividends of the symbols that sort after `ticker`.
    pub fn ticker_gt(self, ticker: &str) -> (r: DividendRequest)
        ensures
            r.parameters@ == self.parameters@.insert("ticker.gt"@, ticker@),
            r.parameters.pairs() == put(self.parameters.pairs(), "ticker.gt"@, ticker@),
    {
        self.with("ticker.gt", ticker.to_owned())
    }

    /// Asks for the dividends of `ticker` and the symbols that sort after it.
    pub fn ticker_gte(self, ticker: &str) -> (r: DividendRequest)
        ensures
            r.parameters@ == self.parameters@.insert("ticker.gte"@, ticker@),
            r.parameters.pairs() == put(self.parameters.pairs(), "ticker.gte"@, ticker@),
    {
        self.with("ticker.gte", ticker.to_owned())
    }

    /// Asks for the dividends of the symbols that sort before `ticker`.
    pub fn ticker_lt(self, ticker: &str) -> (r: DividendRequest)
        ensures
            r.parameters@ == self.parameters@.insert("ticker.lt"@, ticker@),
            r.parameters.pairs() == put(self.parameters.pairs(), "ticker.lt"@, ticker@),
    {
        self.with("ticker.lt", ticker.to_owned())
    }

    /// Asks for the dividends of `ticker` and the symbols that sort before it.
    pub fn ticker_lte(self, ticker: &str) -> (r: DividendRequest)
        ensures
            r.parameters@ == self.parameters@.insert("ticker.lte"@, ticker@),
            r.parameters.pairs() == put(self.parameters.pairs(), "ticker.lte"@, ticker@),
    {
        self.with("ticker.lte", ticker.to_owned())
    }

    /// Asks for the dividends whose ex-dividend date is this date.
    pub fn ex_dividend_date(self, ex_dividend_date: &str) -> (r: DividendRequest)
        ensures
            r.parameters@ == self.parameters@.insert("ex_dividend_date"@, ex_dividend_date@),
            r.parameters.pairs() == put(
                self.parameters.pairs(),
                "ex_dividend_date"@,
                ex_dividend_date@,
            ),
    {
        self.with("ex_dividend_date", ex_dividend_date.to_owned())
    }

    /// Asks for the dividends whose ex-dividend date is after this date.
    pub fn ex_dividend_date_gt(self, ex_dividend_date: &str) -> (r: DividendRequest)
        ensures
            r.parameters@ == self.parameters@.insert("ex_dividend_date.gt"@, ex_dividend_date@),
            r.parameters.pairs() == put(
                self.parameters.pairs(),
                "ex_dividend_date.gt"@,
                ex_dividend_date@,
            ),
    {
        self.with("ex_dividend_date.gt", ex_dividend_date.to_owned())
    }

    /// Asks for the dividends whose ex-dividend date is this date or after it.
    pub fn ex_dividend_date_gte(self, ex_dividend_date: &str) -> (r: DividendRequest)
        ensures
            r.parameters@ == self.parameters@.insert("ex_dividend_date.gte"@, ex_dividend_date@),
            r.parameters.pairs() == put(
                self.parameters.pairs(),
                "ex_dividend_date.gte"@,
                ex_dividend_date@,
            ),
    {
        self.with("ex_dividend_date.gte", ex_dividend_date.to_owned())
    }

    /// Asks for the dividends whose ex-dividend date is before this date.
    pub fn ex_dividend_date_lt(self, ex_dividend_date: &str) -> (r: DividendRequest)
        ensures
            r.parameters@ == self.parameters@.insert("ex_dividend_date.lt"@, ex_dividend_date@),
            r.parameters.pairs() == put(
                self.parameters.pairs(),
                "ex_dividend_date.lt"@,
                ex_dividend_date@,
            ),
    {
        self.with("ex_dividend_date.lt", ex_dividend_date.to_owned())
    }

    /// Asks for the dividends whose ex-dividend date is this date or before it.
    pub fn ex_dividend_date_lte(self, ex_dividend_date: &str) -> (r: DividendRequest)
        ensures
            r.parameters@ == self.parameters@.insert("ex_dividend_date.lte"@, ex_dividend_date@),
            r.parameters.pairs() == put(
                self.parameters.pairs(),
                "ex_dividend_date.lte"@,
                ex_dividend_date@,
            ),
    {
        self.with("ex_dividend_date.lte", ex_dividend_date.to_owned())
    }

    /// Asks for the dividends whose record date is this date.
    pub fn record_date(self, record_date: &str) -> (r: DividendRequest)
        ensures
            r.parameters@ == self.parameters@.insert("record_date"@, record_date@),
            r.parameters.pairs() == put(self.parameters.pairs(), "record_date"@, record_date@),
    {
        self.with("record_date", record_date.to_owned())
    }

    /// Asks for the dividends whose record date is after this date.
    pub fn record_date_gt(self, record_date: &str) -> (r: DividendRequest)
        ensures
            r.parameters@ == self.parameters@.insert("record_date.gt"@, record_date@),
            r.parameters.pairs() == put(self.parameters.pairs(), "record_date.gt"@, record_date@),
    {
        self.with("record_date.gt", record_date.to_owned())
    }

    /// Asks for the dividends whose record date is this date or after it.
    pub fn record_date_gte(self, record_date: &str) -> (r: DividendRequest)
        ensures
            r.parameters@ == self.parameters@.insert("record_date.gte"@, record_date@),
            r.parameters.pairs() == put(self.parameters.pairs(), "record_date.gte"@, record_date@),
    {
        self.with("record_date.gte", record_date.to_owned())
    }

    /// Asks for the dividends whose record date is before this date.
    pub fn record_date_lt(self, record_date: &str) -> (r: DividendRequest)
        ensures
            r.parameters@ == self.parameters@.insert("record_date.lt"@, record_date@),
            r.parameters.pairs() == put(self.parameters.pairs(), "record_date.lt"@, record_date@),
    {
        self.with("record_date.lt", record_date.to_owned())
    }

    /// Asks for the dividends whose record date is this date or before it.
    pub fn record_date_lte(self, record_date: &str) -> (r: DividendRequest)
        ensures
            r.parameters@ == self.parameters@.insert("record_date.lte"@, record_date@),
            r.parameters.pairs() == put(self.parameters.pairs(), "record_date.lte"@, record_date@),
    {
        self.with("record_date.lte", record_date.to_owned())
    }

    /// Asks for the dividends whose declaration date is this date.
    pub fn declaration_date(self, declaration_date: &str) -> (r: DividendRequest)
        ensures
            r.parameters@ == self.parameters@.insert("declaration_date"@, declaration_date@),
            r.parameters.pairs() == put(
                self.parameters.pairs(),
                "declaration_date"@,
                declaration_date@,
            ),
    {
        self.with("declaration_date", declaration_date.to_owned())
    }

    /// Asks for the dividends whose declaration date is after this date.
    pub fn declaration_date_gt(self, declaration_date: &str) -> (r: DividendRequest)
        ensures
            r.parameters@ == self.parameters@.insert("declaration_date.gt"@, declaration_date@),
            r.parameters.pairs() == put(
                self.parameters.pairs(),
                "declaration_date.gt"@,
                declaration_date@,
            ),
    {
        self.with("declaration_date.gt", declaration_date.to_owned())
    }

    /// Asks for the dividends whose declaration date is this date or after it.
    pub fn declaration_date_gte(self, declaration_date: &str) -> (r: DividendRequest)
        ensures
            r.parameters@ == self.parameters@.insert("declaration_date.gte"@, declaration_date@),
            r.parameters.pairs() == put(
                self.parameters.pairs(),
                "declaration_date.gte"@,
                declaration_date@,
            ),
    {
        self.with("declaration_date.gte", declaration_date.to_owned())
    }

    /// Asks for the dividends whose declaration date is before this date.
    pub fn declaration_date_lt(self, declaration_date: &str) -> (r: DividendRequest)
        ensures
            r.parameters@ == self.parameters@.insert("declaration_date.lt"@, declaration_date@),
            r.parameters.pairs() == put(
                self.parameters.pairs(),
                "declaration_date.lt"@,
                declaration_date@,
            ),
    {
        self.with("declaration_date.lt", declaration_date.to_owned())
    }

    /// Asks for the dividends whose declaration date is this date or before it.
    pub fn declaration_date_lte(self, declaration_date: &str) -> (r: DividendRequest)
        ensures
            r.parameters@ == self.parameters@.insert("declaration_date.lte"@, declaration_date@),
            r.parameters.pairs() == put(
                self.parameters.pairs(),
                "declaration_date.lte"@,
                declaration_date@,
            ),
    {
        self.with("declaration_date.lte", declaration_date.to_owned())
    }

    /// Asks for the dividends whose pay date is this date.
    pub fn pay_date(self, pay_date: &str) -> (r: DividendRequest)
        ensures
            r.parameters@ == self.parameters@.insert("pay_date"@, pay_date@),
            r.parameters.pairs() == put(self.parameters.pairs(), "pay_date"@, pay_date@),
    {
        self.with("pay_date", pay_date.to_owned())
    }

    /// Asks for the dividends whose pay date is after this date.
    pub fn pay_date_gt(self, pay_date: &str) -> (r: DividendRequest)
        ensures
            r.parameters@ == self.parameters@.insert("pay_date.gt"@, pay_date@),
            r.parameters.pairs() == put(self.parameters.pairs(), "pay_date.gt"@, pay_date@),
    {
        self.with("pay_date.gt", pay_date.to_owned())
    }

    /// Asks for the dividends whose pay date is this date or after it.
    pub fn pay_date_gte(self, pay_date: &str) -> (r: DividendRequest)
        ensures
            r.parameters@ == self.parameters@.insert("pay_date.gte"@, pay_date@),
            r.parameters.pairs() == put(self.parameters.pairs(), "pay_date.gte"@, pay_date@),
    {
        self.with("pay_date.gte", pay_date.to_owned())
    }

    /// Asks for the dividends whose pay date is before this date.
    pub fn pay_date_lt(self, pay_date: &str) -> (r: DividendRequest)
        ensures
            r.parameters@ == self.parameters@.insert("pay_date.lt"@, pay_date@),
            r.parameters.pairs() == put(self.parameters.pairs(), "pay_date.lt"@, pay_date@),
    {
        self.with("pay_date.lt", pay_date.to_owned())
    }

    /// Asks for the dividends whose pay date is this date or before it.
    pub fn pay_date_lte(self, pay_date: &str) -> (r: DividendRequest)
        ensures
            r.parameters@ == self.parameters@.insert("pay_date.lte"@, pay_date@),
            r.parameters.pairs() == put(self.parameters.pairs(), "pay_date.lte"@, pay_date@),
    {
        self.with("pay_date.lte", pay_date.to_owned())
    }

    /// Asks for the dividends of this cash amount.
    pub fn cash_amount(self, cash_amount: &str) -> (r: DividendRequest)
        ensures
            r.parameters@ == self.parameters@.insert("cash_amount"@, cash_amount@),
            r.parameters.pairs() == put(self.parameters.pairs(), "cash_amount"@, cash_amount@),
    {
        self.with("cash_amount", cash_amount.to_owned())
    }

    /// Asks for the dividends of more than this cash amount.
    pub fn cash_amount_gt(self, cash_amount: &str) -> (r: DividendRequest)
        ensures
            r.parameters@ == self.parameters@.insert("cash_amount.gt"@, cash_amount@),
            r.parameters.pairs() == put(self.parameters.pairs(), "cash_amount.gt"@, cash_amount@),
    {
        self.with("cash_amount.gt", cash_amount.to_owned())
    }

    /// Asks for the dividends of this cash amount or more.
    pub fn cash_amount_gte(self, cash_amount: &str) -> (r: DividendRequest)
        ensures
            r.parameters@ == self.parameters@.insert("cash_amount.gte"@, cash_amount@),
            r.parameters.pairs() == put(self.parameters.pairs(), "cash_amount.gte"@, cash_amount@),
    {
        self.with("cash_amount.gte", cash_amount.to_owned())
    }

    /// Asks for the dividends of less than this cash amount.
    pub fn cash_amount_lt(self, cash_amount: &str) -> (r: DividendRequest)
        ensures
            r.parameters@ == self.parameters@.insert("cash_amount.lt"@, cash_amount@),
            r.parameters.pairs() == put(self.parameters.pairs(), "cash_amount.lt"@, cash_amount@),
    {
        self.with("cash_amount.lt", cash_amount.to_owned())
    }

    /// Asks for the dividends of this cash amount or less.
    pub fn cash_amount_lte(self, cash_amount: &str) -> (r: DividendRequest)
        ensures
            r.parameters@ == self.parameters@.insert("cash_amount.lte"@, cash_amount@),
            r.parameters.pairs() == put(self.parameters.pairs(), "cash_amount.lte"@, cash_amount@),
    {
        self.with("cash_amount.lte", cash_amount.to_owned())
    }

    /// Asks for the dividends paid this often.
    pub fn frequency(self, frequency: DividendFrequency) -> (r: DividendRequest)
        ensures
            r.parameters@ == self.parameters@.insert("frequency"@, frequency.wire()),
            r.parameters.pairs() == put(self.parameters.pairs(), "frequency"@, frequency.wire()),
    {
        self.with("frequency", frequency.to_string())
    }

    /// Asks for the dividends of one kind.
    pub fn dividend_type(self, dividend_type: DividendType) -> (r: DividendRequest)
        ensures
            r.parameters@ == self.parameters@.insert("dividend_type"@, dividend_type.wire()),
            r.parameters.pairs() == put(
                self.parameters.pairs(),
                "dividend_type"@,
                dividend_type.wire(),
            ),
    {
        self.with("dividend_type", dividend_type.to_string())
    }

    /// Orders the results by the sort field in the direction `order`.
    pub fn order(self, order: Order) -> (r: DividendRequest)
        ensures
            r.parameters@ == self.parameters@.insert("order"@, order.wire()),
            r.parameters.pairs() == put(self.parameters.pairs(), "order"@, order.wire()),
    {
        self.with("order", order.to_string())
    }

    /// Asks for at most `limit` results. The API serves at most 1000 at a
    /// time: a larger `limit` is sent as 1000.
    pub fn limit(self, limit: u32) -> (r: DividendRequest)
        ensures
            r.parameters@ == self.parameters@.insert("limit"@, limit_text(limit)),
            r.parameters.pairs() == put(self.parameters.pairs(), "limit"@, limit_text(limit)),
            limit > 1000 ==> r.parameters@["limit"@] == "1000"@,
            limit <= 1000 ==> r.parameters@["limit"@] == decimal(limit as nat),
    {
        proof {
            lemma_decimal_thousand();
        }
        let limit = if limit > MAX_LIMIT {
            MAX_LIMIT
        } else {
            limit
        };
        self.with("limit", u32_to_string(limit))
    }

    /// Names the field by which the results are ordered.
    pub fn sort(self, sort: DividendSort) -> (r: DividendRequest)
        ensures
            r.parameters@ == self.parameters@.insert("sort"@, sort.wire()),
            r.parameters.pairs() == put(self.parameters.pairs(), "sort"@, sort.wire()),
    {
        self.with("sort", sort.to_string())
    }

}

impl RequestType for DividendRequest {
    open spec fn url(&self) -> Seq<char> {
        DIVIDENDS_PATH@
    }

    open spec fn query(&self) -> Seq<(Seq<char>, Seq<char>)> {
        self.parameters.pairs()
    }

    open spec fn ready(&self) -> bool {
        true
    }

    fn is_ready(&self) -> (b: bool) {
        true
    }

    fn get_url(&self) -> (url: String) {
        DIVIDENDS_PATH.to_owned()
    }

    fn get_query(&self) -> (query: Vec<(&String, &String)>) {
        self.parameters.to_vec()
    }
}

} // verus!
