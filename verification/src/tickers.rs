//! The ticker listing endpoint, `/v3/reference/tickers`.

use crate::common::{is_wire_word, limit_text, Market, Order, MAX_LIMIT};
use crate::date::{date_text, Date};
use crate::fields::{
    bool_or_false, flag_or_false, i32_or_zero, items_or_none, list_or_empty, number_or_zero,
    string_or_empty, text_or_empty,
};
use crate::params::{put, Parameters};
use crate::rest_client::RequestType;
use crate::text::{bool_text, bool_to_string, decimal, lemma_decimal_thousand, u32_to_string};
use vstd::prelude::*;

verus! {

/// The resource path of the ticker listing.
pub const TICKERS_PATH: &'static str = "/v3/reference/tickers";

/// One page of the ticker listing.
#[derive(Debug)]
pub struct TickersResponse {
    /// How many tickers this page holds.
    pub count: i32,
    /// Where the next page is, if there is one.
    pub next_url: String,
    /// The identifier the server gave the request.
    pub request_id: String,
    /// The tickers that match the query.
    pub results: Vec<TickersResult>,
    /// The status the server reports for the request.
    pub status: String,
}

/// The fields of a page of the listing as its decoded JSON object shows them; `None`
/// stands for a field that is missing or `null`.
#[derive(Debug, Default)]
pub struct TickersResponseFields {
    pub count: Option<i32>,
    pub next_url: Option<String>,
    pub request_id: Option<String>,
    pub results: Option<Vec<TickersResultFields>>,
    pub status: Option<String>,
}

impl TickersResponse {
    /// True when the record is what `fields` reads as: every field that
    /// is there with its value, every other field at its zero value.
    pub open spec fn is_read_from(self, fields: TickersResponseFields) -> bool {
        &&& self.count == number_or_zero(fields.count)
        &&& self.next_url@ == text_or_empty(fields.next_url)
        &&& self.request_id@ == text_or_empty(fields.request_id)
        &&& TickersResult::all_read_from(self.results@, items_or_none(fields.results))
        &&& self.status@ == text_or_empty(fields.status)
    }

    /// Reads a page of the listing from the fields of its JSON object.
    pub fn from_fields(fields: TickersResponseFields) -> (r: TickersResponse)
        ensures
            r.is_read_from(fields),
    {
        let results = TickersResult::all_from_fields(list_or_empty(fields.results));
        TickersResponse {
            count: i32_or_zero(fields.count),
            next_url: string_or_empty(fields.next_url),
            request_id: string_or_empty(fields.request_id),
            results,
            status: string_or_empty(fields.status),
        }
    }
}

/// One ticker of the listing.
#[derive(Debug)]
pub struct TickersResult {
    /// False when the asset has been delisted.
    pub active: bool,
    /// The CIK number of the issuer.
    pub cik: String,
    /// The composite OpenFIGI number.
    pub composite_figi: String,
    /// The currency the asset trades in.
    pub currency_name: String,
    /// When the asset last traded.
    pub delisted_utc: String,
    /// Up to when the record is accurate.
    pub last_updated_utc: String,
    /// The locale of the asset, `us` or `global`.
    pub locale: String,
    /// The market the asset trades on.
    pub market: String,
    /// The name of the asset.
    pub name: String,
    /// The ISO code of the primary listing exchange.
    pub primary_exchange: String,
    /// The share class OpenFIGI number.
    pub share_class_figi: String,
    /// The symbol the asset trades under.
    pub ticker: String,
    /// The kind of asset, sent as `type`.
    pub asset_type: String,
}

/// The fields of a ticker as its decoded JSON object shows them; `None`
/// stands for a field that is missing or `null`.
#[derive(Debug, Default)]
pub struct TickersResultFields {
    pub active: Option<bool>,
    pub cik: Option<String>,
    pub composite_figi: Option<String>,
    pub currency_name: Option<String>,
    pub delisted_utc: Option<String>,
    pub last_updated_utc: Option<String>,
    pub locale: Option<String>,
    pub market: Option<String>,
    pub name: Option<String>,
    pub primary_exchange: Option<String>,
    pub share_class_figi: Option<String>,
    pub ticker: Option<String>,
    pub asset_type: Option<String>,
}

impl TickersResult {
    /// True when the record is what `fields` reads as: every field that
    /// is there with its value, every other field at its zero value.
    pub open spec fn is_read_from(self, fields: TickersResultFields) -> bool {
        &&& self.active == flag_or_false(fields.active)
        &&& self.cik@ == text_or_empty(fields.cik)
        &&& self.composite_figi@ == text_or_empty(fields.composite_figi)
        &&& self.currency_name@ == text_or_empty(fields.currency_name)
        &&& self.delisted_utc@ == text_or_empty(fields.delisted_utc)
        &&& self.last_updated_utc@ == text_or_empty(fields.last_updated_utc)
        &&& self.locale@ == text_or_empty(fields.locale)
        &&& self.market@ == text_or_empty(fields.market)
        &&& self.name@ == text_or_empty(fields.name)
        &&& self.primary_exchange@ == text_or_empty(fields.primary_exchange)
        &&& self.share_class_figi@ == text_or_empty(fields.share_class_figi)
        &&& self.ticker@ == text_or_empty(fields.ticker)
        &&& self.asset_type@ == text_or_empty(fields.asset_type)
    }

    /// True when `records` are what `fields` read as, one by one.
    pub open spec fn all_read_from(
        records: Seq<TickersResult>,
        fields: Seq<TickersResultFields>,
    ) -> bool {
        &&& records.len() == fields.len()
        &&& forall|i: int|
            0 <= i < records.len() ==> (#[trigger] records[i]).is_read_from(fields[i])
    }

    /// Reads a ticker from the fields of its JSON object.
    pub fn from_fields(fields: TickersResultFields) -> (r: TickersResult)
        ensures
            r.is_read_from(fields),
    {
        TickersResult {
            active: bool_or_false(fields.active),
            cik: string_or_empty(fields.cik),
            composite_figi: string_or_empty(fields.composite_figi),
            currency_name: string_or_empty(fields.currency_name),
            delisted_utc: string_or_empty(fields.delisted_utc),
            last_updated_utc: string_or_empty(fields.last_updated_utc),
            locale: string_or_empty(fields.locale),
            market: string_or_empty(fields.market),
            name: string_or_empty(fields.name),
            primary_exchange: string_or_empty(fields.primary_exchange),
            share_class_figi: string_or_empty(fields.share_class_figi),
            ticker: string_or_empty(fields.ticker),
            asset_type: string_or_empty(fields.asset_type),
        }
    }

    /// Reads a list of records, each from the fields of its JSON object.
    pub fn all_from_fields(fields: Vec<TickersResultFields>) -> (r: Vec<TickersResult>)
        ensures
            TickersResult::all_read_from(r@, fields@),
    {
        let mut records: Vec<TickersResult> = Vec::new();
        for item in it: fields.into_iter()
            invariant
                it.seq() == fields@,
                TickersResult::all_read_from(records@, fields@.take(it.index())),
        {
            records.push(TickersResult::from_fields(item));
        }
        records
    }
}

/// A query of the ticker listing.
#[derive(Debug)]
pub struct TickersRequest {
    /// The resource path.
    pub path: &'static str,
    /// The query parameters.
    pub parameters: Parameters,
}

impl Default for TickersRequest {
    /// A query without any parameter.
    fn default() -> (r: TickersRequest)
        ensures
            r.path@ == TICKERS_PATH@,
            r.parameters@ == Map::<Seq<char>, Seq<char>>::empty(),
            r.parameters.pairs() == Seq::<(Seq<char>, Seq<char>)>::empty(),
    {
        TickersRequest { path: TICKERS_PATH, parameters: Parameters::new() }
    }
}

impl TickersRequest {
    /// A query for the actively traded tickers: `active` is `true` and no
    /// other parameter is set.
    pub fn new() -> (r: TickersRequest)
        ensures
            r.path@ == TICKERS_PATH@,
            r.parameters@ == Map::<Seq<char>, Seq<char>>::empty().insert("active"@, "true"@),
            r.parameters.pairs() == seq![("active"@, "true"@)],
    {
        let mut request = TickersRequest::default();
        request.parameters.insert("active".to_owned(), "true".to_owned());
        assert(request.parameters.pairs() =~= seq![("active"@, "true"@)]);
        request
    }

    /// Writes `value` under `key`.
    fn with(self, key: &str, value: String) -> (r: TickersRequest)
        ensures
            r.path == self.path,
            r.parameters@ == self.parameters@.insert(key@, value@),
            r.parameters.pairs() == put(self.parameters.pairs(), key@, value@),
    {
        let mut r = self;
        r.parameters.insert(key.to_owned(), value);
        r
    }

    /// Asks for one ticker symbol.
    pub fn ticker(self, ticker: &str) -> (r: TickersRequest)
        ensures
            r.path == self.path,
            r.parameters@ == self.parameters@.insert("ticker"@, ticker@),
            r.parameters.pairs() == put(self.parameters.pairs(), "ticker"@, ticker@),
    {
        self.with("ticker", ticker.to_owned())
    }

    /// Asks for the symbols that sort after `ticker`.
    pub fn ticker_gt(self, ticker: &str) -> (r: TickersRequest)
        ensures
            r.path == self.path,
            r.parameters@ == self.parameters@.insert("ticker.gt"@, ticker@),
            r.parameters.pairs() == put(self.parameters.pairs(), "ticker.gt"@, ticker@),
    {
        self.with("ticker.gt", ticker.to_owned())
    }

    /// Asks for `ticker` and the symbols that sort after it.
    pub fn ticker_gte(self, ticker: &str) -> (r: TickersRequest)
        ensures
            r.path == self.path,
            r.parameters@ == self.parameters@.insert("ticker.gte"@, ticker@),
            r.parameters.pairs() == put(self.parameters.pairs(), "ticker.gte"@, ticker@),
    {
        self.with("ticker.gte", ticker.to_owned())
    }

    /// Asks for the symbols that sort before `ticker`.
    pub fn ticker_lt(self, ticker: &str) -> (r: TickersRequest)
        ensures
            r.path == self.path,
            r.parameters@ == self.parameters@.insert("ticker.lt"@, ticker@),
            r.parameters.pairs() == put(self.parameters.pairs(), "ticker.lt"@, ticker@),
    {
        self.with("ticker.lt", ticker.to_owned())
    }

    /// Asks for `ticker` and the symbols that sort before it.
    pub fn ticker_lte(self, ticker: &str) -> (r: TickersRequest)
        ensures
            r.path == self.path,
            r.parameters@ == self.parameters@.insert("ticker.lte"@, ticker@),
            r.parameters.pairs() == put(self.parameters.pairs(), "ticker.lte"@, ticker@),
    {
        self.with("ticker.lte", ticker.to_owned())
    }

    /// Asks for the assets of one market.
    pub fn market(self, market: Market) -> (r: TickersRequest)
        ensures
            r.path == self.path,
            r.parameters@ == self.parameters@.insert("market"@, market.wire()),
            r.parameters.pairs() == put(self.parameters.pairs(), "market"@, market.wire()),
    {
        self.with("market", market.to_string())
    }

    /// Asks for the assets whose primary exchange has this ISO code.
    pub fn exchange(self, exchange: &str) -> (r: TickersRequest)
        ensures
            r.path == self.path,
            r.parameters@ == self.parameters@.insert("exchange"@, exchange@),
            r.parameters.pairs() == put(self.parameters.pairs(), "exchange"@, exchange@),
    {
        self.with("exchange", exchange.to_owned())
    }

    /// Asks for the asset with this CUSIP code.
    pub fn cusip(self, cusip: &str) -> (r: TickersRequest)
        ensures
            r.path == self.path,
            r.parameters@ == self.parameters@.insert("cusip"@, cusip@),
            r.parameters.pairs() == put(self.parameters.pairs(), "cusip"@, cusip@),
    {
        self.with("cusip", cusip.to_owned())
    }

    /// Asks for the assets of the issuer with this CIK.
    pub fn cik(self, cik: &str) -> (r: TickersRequest)
        ensures
            r.path == self.path,
            r.parameters@ == self.parameters@.insert("cik"@, cik@),
            r.parameters.pairs() == put(self.parameters.pairs(), "cik"@, cik@),
    {
        self.with("cik", cik.to_owned())
    }

    /// Asks for the tickers that were available on `date`.
    pub fn date(self, date: Date) -> (r: TickersRequest)
        ensures
            r.path == self.path,
            r.parameters@ == self.parameters@.insert(
                "date"@,
                date_text(date@.year, date@.month, date@.day),
            ),
            r.parameters.pairs() == put(
                self.parameters.pairs(),
                "date"@,
                date_text(date@.year, date@.month, date@.day),
            ),
    {
        self.with("date", date.to_string())
    }

    /// Asks for the assets whose symbol or name holds these terms.
    pub fn search(self, search: &str) -> (r: TickersRequest)
        ensures
            r.path == self.path,
            r.parameters@ == self.parameters@.insert("search"@, search@),
            r.parameters.pairs() == put(self.parameters.pairs(), "search"@, search@),
    {
        self.with("search", search.to_owned())
    }

    /// Asks for the tickers that are, or are not, actively traded.
    pub fn active(self, active: bool) -> (r: TickersRequest)
        ensures
            r.path == self.path,
            r.parameters@ == self.parameters@.insert("active"@, bool_text(active)),
            r.parameters.pairs() == put(self.parameters.pairs(), "active"@, bool_text(active)),
    {
        self.with("active", bool_to_string(active))
    }

    /// Orders the results by the sort field in the direction `order`.
    pub fn order(self, order: Order) -> (r: TickersRequest)
        ensures
            r.path == self.path,
            r.parameters@ == self.parameters@.insert("order"@, order.wire()),
            r.parameters.pairs() == put(self.parameters.pairs(), "order"@, order.wire()),
    {
        self.with("order", order.to_string())
    }

    /// Asks for at most `limit` results. The API serves at most 1000 at a
    /// time: a larger `limit` is sent as 1000.
    pub fn limit(self, limit: u32) -> (r: TickersRequest)
        ensures
            r.path == self.path,
            r.parameters@ == self.parameters@.insert("limit"@, limit_text(limit)),
            r.parameters.pairs() == put(self.parameters.pairs(), "limit"@, limit_text(limit)),
            limit > 1000 ==> r.parameters@["limit"@] == "1000"@,
            limit <= 1000 ==> r.parameters@["limit"@] == decimal(limit as nat),
    {
        proof {
            lemma_decimal_thousand();
        }
        let limit = if limit > MAX_LIMIT {
            MAX_LIMIT
        } else {
            limit
        };
        self.with("limit", u32_to_string(limit))
    }

    /// Names the field by which the results are ordered.
    pub fn sort(self, sort: TickersSort) -> (r: TickersRequest)
        ensures
            r.path == self.path,
            r.parameters@ == self.parameters@.insert("sort"@, sort.wire()),
            r.parameters.pairs() == put(self.parameters.pairs(), "sort"@, sort.wire()),
    {
        self.with("sort", sort.to_string())
    }

}

impl RequestType for TickersRequest {
    open spec fn url(&self) -> Seq<char> {
        self.path@
    }

    open spec fn query(&self) -> Seq<(Seq<char>, Seq<char>)> {
        self.parameters.pairs()
    }

    open spec fn ready(&self) -> bool {
        true
    }

    fn is_ready(&self) -> (b: bool) {
        true
    }

    fn get_url(&self) -> (url: String) {
        self.path.to_owned()
    }

    fn get_query(&self) -> (query: Vec<(&String, &String)>) {
        self.parameters.to_vec()
    }
}

/// The fields by which the ticker listing can be ordered.
#[allow(non_camel_case_types)]
#[derive(Debug)]
pub enum TickersSort {
    Ticker,
    Name,
    Market,
    Locale,
    Primary_Exchange,
    Type,
    Currency_Symbol,
    Currency_Name,
    Base_Currency_Symbol,
    Base_Currency_Name,
    Cik,
    Composite_Figi,
    Share_Class_Fig,
    Last_Updated_Utc,
    Deslisted_Utc,
}

impl TickersSort {
    /// The query constant of the sort field.
    pub open spec fn wire(self) -> Seq<char> {
        match self {
            TickersSort::Ticker => "ticker"@,
            TickersSort::Name => "name"@,
            TickersSort::Market => "market"@,
            TickersSort::Locale => "locale"@,
            TickersSort::Primary_Exchange => "primary_exchange"@,
            TickersSort::Type => "type"@,
            TickersSort::Currency_Symbol => "currency_symbol"@,
            TickersSort::Currency_Name => "currency_name"@,
            TickersSort::Base_Currency_Symbol => "base_currency_symbol"@,
            TickersSort::Base_Currency_Name => "base_currency_name"@,
            TickersSort::Cik => "cik"@,
            TickersSort::Composite_Figi => "composite_figi"@,
            TickersSort::Share_Class_Fig => "share_class_fig"@,
            TickersSort::Last_Updated_Utc => "last_updated_utc"@,
            TickersSort::Deslisted_Utc => "deslisted_utc"@,
        }
    }

    /// Renders the sort field as its query constant.
    pub fn to_string(&self) -> (s: String)
        ensures
            s@ == self.wire(),
    {
        match self {
            TickersSort::Ticker => "ticker".to_owned(),
            TickersSort::Name => "name".to_owned(),
            TickersSort::Market => "market".to_owned(),
            TickersSort::Locale => "locale".to_owned(),
            TickersSort::Primary_Exchange => "primary_exchange".to_owned(),
            TickersSort::Type => "type".to_owned(),
            TickersSort::Currency_Symbol => "currency_symbol".to_owned(),
            TickersSort::Currency_Name => "currency_name".to_owned(),
            TickersSort::Base_Currency_Symbol => "base_currency_symbol".to_owned(),
            TickersSort::Base_Currency_Name => "base_currency_name".to_owned(),
            TickersSort::Cik => "cik".to_owned(),
            TickersSort::Composite_Figi => "composite_figi".to_owned(),
            TickersSort::Share_Class_Fig => "share_class_fig".to_owned(),
            TickersSort::Last_Updated_Utc => "last_updated_utc".to_owned(),
            TickersSort::Deslisted_Utc => "deslisted_utc".to_owned(),
        }
    }

    /// Every sort field renders as a lower-case word.
    pub proof fn lemma_wire_is_word(self)
        ensures
            is_wire_word(self.wire()),
            self.wire().len() > 0,
    {
        reveal_strlit("ticker");
        reveal_strlit("name");
        reveal_strlit("market");
        reveal_strlit("locale");
        reveal_strlit("primary_exchange");
        reveal_strlit("type");
        reveal_strlit("currency_symbol");
        reveal_strlit("currency_name");
        reveal_strlit("base_currency_symbol");
        reveal_strlit("base_currency_name");
        reveal_strlit("cik");
        reveal_strlit("composite_figi");
        reveal_strlit("share_class_fig");
        reveal_strlit("last_updated_utc");
        reveal_strlit("deslisted_utc");
    }
}

} // verus!
