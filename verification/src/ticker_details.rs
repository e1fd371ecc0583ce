//! The ticker details endpoint, `/v3/reference/tickers/{ticker}`.

use crate::date::{date_text, Date};
use crate::fields::{string_or_empty, text_or_empty};
use crate::params::{put, Parameters};
use crate::rest_client::RequestType;
use vstd::prelude::*;

verus! {

/// The resource path of the ticker details, with the place of the symbol
/// marked.
pub const TICKER_DETAILS_PATH: &'static str = "/v3/reference/tickers/{ticker}";

/// What stands before the symbol in the resource path.
pub const TICKER_DETAILS_PREFIX: &'static str = "/v3/reference/tickers/";

/// A query for the details of one ticker.
///
/// The symbol is part of the resource path, so a request without a symbol
/// names no resource: it is not ready, and nothing is sent for it.
#[derive(Debug)]
pub struct TickerDetailsRequest {
    /// The resource path, with the place of the symbol marked.
    pub path: &'static str,
    /// The query parameters.
    pub parameters: Parameters,
    /// The ticker symbol; empty until it is set.
    pub ticker: String,
}

impl TickerDetailsRequest {
    /// A query without a symbol and without parameters.
    pub fn new() -> (r: TickerDetailsRequest)
        ensures
            r.path@ == TICKER_DETAILS_PATH@,
            r.ticker@ == Seq::<char>::empty(),
            r.parameters@ == Map::<Seq<char>, Seq<char>>::empty(),
            r.parameters.pairs() == Seq::<(Seq<char>, Seq<char>)>::empty(),
            !r.ready(),
    {
        TickerDetailsRequest {
            path: TICKER_DETAILS_PATH,
            parameters: Parameters::new(),
            ticker: String::new(),
        }
    }

    /// Names the ticker whose details are asked for.
    pub fn ticker(self, ticker: &str) -> (r: TickerDetailsRequest)
        ensures
            r.path == self.path,
            r.parameters == self.parameters,
            r.ticker@ == ticker@,
            r.ready() <==> ticker@.len() > 0,
    {
        let mut r = self;
        r.ticker = ticker.to_owned();
        r
    }

    /// Asks for the details as they were on `date`.
    pub fn date(self, date: Date) -> (r: TickerDetailsRequest)
        ensures
            r.path == self.path,
            r.ticker == self.ticker,
            r.parameters@ == self.parameters@.insert(
                "date"@,
                date_text(date@.year, date@.month, date@.day),
            ),
            r.parameters.pairs() == put(
                self.parameters.pairs(),
                "date"@,
                date_text(date@.year, date@.month, date@.day),
            ),
    {
        let mut r = self;
        r.parameters.insert("date".to_owned(), date.to_string());
        r
    }
}

impl RequestType for TickerDetailsRequest {
    open spec fn url(&self) -> Seq<char> {
        TICKER_DETAILS_PREFIX@ + self.ticker@
    }

    open spec fn query(&self) -> Seq<(Seq<char>, Seq<char>)> {
        self.parameters.pairs()
    }

    open spec fn ready(&self) -> bool {
        self.ticker@.len() > 0
    }

    fn is_ready(&self) -> (b: bool) {
        !self.ticker.as_str().is_empty()
    }

    fn get_url(&self) -> (url: String) {
        let mut url = TICKER_DETAILS_PREFIX.to_owned();
        url.append(self.ticker.as_str());
        url
    }

    fn get_query(&self) -> (query: Vec<(&String, &String)>) {
        self.parameters.to_vec()
    }
}

/// The address of a company's headquarters.
#[derive(Debug)]
pub struct Address {
    /// The first line of the address.
    pub address1: String,
    /// The city.
    pub city: String,
    /// The state.
    pub state: String,
    /// The postal code.
    pub postal_code: String,
}

/// The fields of an address as its decoded JSON object shows them; `None`
/// stands for a field that is missing or `null`.
#[derive(Debug, Default)]
pub struct AddressFields {
    pub address1: Option<String>,
    pub city: Option<String>,
    pub state: Option<String>,
    pub postal_code: Option<String>,
}

impl Address {
    /// True when the record is what `fields` reads as: every field that
    /// is there with its value, every other field at its zero value.
    pub open spec fn is_read_from(self, fields: AddressFields) -> bool {
        &&& self.address1@ == text_or_empty(fields.address1)
        &&& self.city@ == text_or_empty(fields.city)
        &&& self.state@ == text_or_empty(fields.state)
        &&& self.postal_code@ == text_or_empty(fields.postal_code)
    }

    /// Reads an address from the fields of its JSON object.
    pub fn from_fields(fields: AddressFields) -> (r: Address)
        ensures
            r.is_read_from(fields),
    {
        Address {
            address1: string_or_empty(fields.address1),
            city: string_or_empty(fields.city),
            state: string_or_empty(fields.state),
            postal_code: string_or_empty(fields.postal_code),
        }
    }
}

/// Where a company's branding assets are.
#[derive(Debug)]
pub struct Branding {
    /// The URL of the icon.
    pub icon_url: String,
    /// The URL of the logo.
    pub logo_url: String,
}

/// The fields of a branding as its decoded JSON object shows them; `None`
/// stands for a field that is missing or `null`.
#[derive(Debug, Default)]
pub struct BrandingFields {
    pub icon_url: Option<String>,
    pub logo_url: Option<String>,
}

impl Branding {
    /// True when the record is what `fields` reads as: every field that
    /// is there with its value, every other field at its zero value.
    pub open spec fn is_read_from(self, fields: BrandingFields) -> bool {
        &&& self.icon_url@ == text_or_empty(fields.icon_url)
        &&& self.logo_url@ == text_or_empty(fields.logo_url)
    }

    /// Reads a branding from the fields of its JSON object.
    pub fn from_fields(fields: BrandingFields) -> (r: Branding)
        ensures
            r.is_read_from(fields),
    {
        Branding {
            icon_url: string_or_empty(fields.icon_url),
            logo_url: string_or_empty(fields.logo_url),
        }
    }
}

} // verus!
