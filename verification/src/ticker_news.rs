//! The ticker news endpoint, `/v2/reference/news`.

use crate::common::{is_wire_word, limit_text, Order, MAX_LIMIT};
use crate::fields::{
    i32_or_zero, items_or_none, list_or_empty, number_or_zero, string_or_empty, text_or_empty,
};
use crate::params::{put, Parameters};
use crate::rest_client::RequestType;
use crate::text::{decimal, lemma_decimal_thousand, u32_to_string};
use vstd::prelude::*;

verus! {

/// The resource path of the ticker news.
pub const TICKER_NEWS_PATH: &'static str = "/v2/reference/news";

/// One page of news articles.
#[derive(Debug)]
pub struct TickerNewsResponse {
    /// The status the server reports for the request.
    pub status: String,
    /// The identifier the server gave the request.
    pub request_id: String,
    /// How many articles this page holds.
    pub count: i32,
    /// Where the previous page is, if there is one.
    pub previous_url: String,
    /// Where the next page is, if there is one.
    pub next_url: String,
    /// The articles that match the query.
    pub results: Vec<TickerNewsResults>,
}

/// The fields of a page of news as its decoded JSON object shows them; `None`
/// stands for a field that is missing or `null`.
#[derive(Debug, Default)]
pub struct TickerNewsResponseFields {
    pub status: Option<String>,
    pub request_id: Option<String>,
    pub count: Option<i32>,
    pub previous_url: Option<String>,
    pub next_url: Option<String>,
    pub results: Option<Vec<TickerNewsResultsFields>>,
}

impl TickerNewsResponse {
    /// True when the record is what `fields` reads as: every field that
    /// is there with its value, every other field at its zero value.
    pub open spec fn is_read_from(self, fields: TickerNewsResponseFields) -> bool {
        &&& self.status@ == text_or_empty(fields.status)
        &&& self.request_id@ == text_or_empty(fields.request_id)
        &&& self.count == number_or_zero(fields.count)
        &&& self.previous_url@ == text_or_empty(fields.previous_url)
        &&& self.next_url@ == text_or_empty(fields.next_url)
        &&& TickerNewsResults::all_read_from(self.results@, items_or_none(fields.results))
    }

    /// Reads a page of news from the fields of its JSON object.
    pub fn from_fields(fields: TickerNewsResponseFields) -> (r: TickerNewsResponse)
        ensures
            r.is_read_from(fields),
    {
        let results = TickerNewsResults::all_from_fields(list_or_empty(fields.results));
        TickerNewsResponse {
            status: string_or_empty(fields.status),
            request_id: string_or_empty(fields.request_id),
            count: i32_or_zero(fields.count),
            previous_url: string_or_empty(fields.previous_url),
            next_url: string_or_empty(fields.next_url),
            results,
        }
    }
}

/// One news article.
#[derive(Debug)]
pub struct TickerNewsResults {
    /// The URL of the mobile version of the article.
    pub amp_url: String,
    /// The URL of the article.
    pub article_url: String,
    /// Who wrote the article.
    pub author: String,
    /// A summary of the article.
    pub description: String,
    /// The identifier of the article.
    pub id: String,
    /// The URL of the article's image.
    pub image_url: String,
    /// The keywords of the article.
    pub keywords: Vec<String>,
    /// When the article was published.
    pub published_utc: String,
    /// Who published the article, if the API says.
    pub publisher: Option<Publisher>,
    /// The ticker symbols the article is about.
    pub tickers: Vec<String>,
    /// The title of the article.
    pub title: String,
}

/// The fields of an article as its decoded JSON object shows them; `None`
/// stands for a field that is missing or `null`.
#[derive(Debug, Default)]
pub struct TickerNewsResultsFields {
    pub amp_url: Option<String>,
    pub article_url: Option<String>,
    pub author: Option<String>,
    pub description: Option<String>,
    pub id: Option<String>,
    pub image_url: Option<String>,
    pub keywords: Option<Vec<String>>,
    pub published_utc: Option<String>,
    pub publisher: Option<PublisherFields>,
    pub tickers: Option<Vec<String>>,
    pub title: Option<String>,
}

impl TickerNewsResults {
    /// True when the record is what `fields` reads as: every field that
    /// is there with its value, every other field at its zero value.
    pub open spec fn is_read_from(self, fields: TickerNewsResultsFields) -> bool {
        &&& self.amp_url@ == text_or_empty(fields.amp_url)
        &&& self.article_url@ == text_or_empty(fields.article_url)
        &&& self.author@ == text_or_empty(fields.author)
        &&& self.description@ == text_or_empty(fields.description)
        &&& self.id@ == text_or_empty(fields.id)
        &&& self.image_url@ == text_or_empty(fields.image_url)
        &&& self.keywords@ == items_or_none(fields.keywords)
        &&& self.published_utc@ == text_or_empty(fields.published_utc)
        &&& match fields.publisher {
            Some(inner) => self.publisher matches Some(record) && record.is_read_from(inner),
            None => self.publisher is None,
        }
        &&& self.tickers@ == items_or_none(fields.tickers)
        &&& self.title@ == text_or_empty(fields.title)
    }

    /// True when `records` are what `fields` read as, one by one.
    pub open spec fn all_read_from(
        records: Seq<TickerNewsResults>,
        fields: Seq<TickerNewsResultsFields>,
    ) -> bool {
        &&& records.len() == fields.len()
        &&& forall|i: int|
            0 <= i < records.len() ==> (#[trigger] records[i]).is_read_from(fields[i])
    }

    /// Reads an article from the fields of its JSON object.
    pub fn from_fields(fields: TickerNewsResultsFields) -> (r: TickerNewsResults)
        ensures
            r.is_read_from(fields),
    {
        let publisher = match fields.publisher {
            Some(inner) => Some(Publisher::from_fields(inner)),
            None => None,
        };
        TickerNewsResults {
            amp_url: string_or_empty(fields.amp_url),
            article_url: string_or_empty(fields.article_url),
            author: string_or_empty(fields.author),
            description: string_or_empty(fields.description),
            id: string_or_empty(fields.id),
            image_url: string_or_empty(fields.image_url),
            keywords: list_or_empty(fields.keywords),
            published_utc: string_or_empty(fields.published_utc),
            publisher,
            tickers: list_or_empty(fields.tickers),
            title: string_or_empty(fields.title),
        }
    }

    /// Reads a list of records, each from the fields of its JSON object.
    pub fn all_from_fields(fields: Vec<TickerNewsResultsFields>) -> (r: Vec<TickerNewsResults>)
        ensures
            TickerNewsResults::all_read_from(r@, fields@),
    {
        let mut records: Vec<TickerNewsResults> = Vec::new();
        for item in it: fields.into_iter()
            invariant
                it.seq() == fields@,
                TickerNewsResults::all_read_from(records@, fields@.take(it.index())),
        {
            records.push(TickerNewsResults::from_fields(item));
        }
        records
    }
}

/// The publisher of a news article.
#[derive(Debug)]
pub struct Publisher {
    /// The URL of the publisher's favicon.
    pub favicon_url: String,
    /// The URL of the publisher's homepage.
    pub homepage_url: String,
    /// The URL of the publisher's logo.
    pub logo_url: String,
    /// The name of the publisher.
    pub name: String,
}

/// The fields of a publisher as its decoded JSON object shows them; `None`
/// stands for a field that is missing or `null`.
#[derive(Debug, Default)]
pub struct PublisherFields {
    pub favicon_url: Option<String>,
    pub homepage_url: Option<String>,
    pub logo_url: Option<String>,
    pub name: Option<String>,
}

impl Publisher {
    /// True when the record is what `fields` reads as: every field that
    /// is there with its value, every other field at its zero value.
    pub open spec fn is_read_from(self, fields: PublisherFields) -> bool {
        &&& self.favicon_url@ == text_or_empty(fields.favicon_url)
        &&& self.homepage_url@ == text_or_empty(fields.homepage_url)
        &&& self.logo_url@ == text_or_empty(fields.logo_url)
        &&& self.name@ == text_or_empty(fields.name)
    }

    /// Reads a publisher from the fields of its JSON object.
    pub fn from_fields(fields: PublisherFields) -> (r: Publisher)
        ensures
            r.is_read_from(fields),
    {
        Publisher {
            favicon_url: string_or_empty(fields.favicon_url),
            homepage_url: string_or_empty(fields.homepage_url),
            logo_url: string_or_empty(fields.logo_url),
            name: string_or_empty(fields.name),
        }
    }
}

/// A query of the ticker news.
#[derive(Debug)]
pub struct TickerNewsRequest {
    /// The query parameters.
    pub parameters: Parameters,
}

impl TickerNewsRequest {
    /// A query without any parameter.
    pub fn new() -> (r: TickerNewsRequest)
        ensures
            r.parameters@ == Map::<Seq<char>, Seq<char>>::empty(),
            r.parameters.pairs() == Seq::<(Seq<char>, Seq<char>)>::empty(),
    {
        TickerNewsRequest { parameters: Parameters::new() }
    }

    /// Writes `value` under `key`.
    fn with(self, key: &str, value: String) -> (r: TickerNewsRequest)
        ensures
            r.parameters@ == self.parameters@.insert(key@, value@),
            r.parameters.pairs() == put(self.parameters.pairs(), key@, value@),
    {
        let mut r = self;
        r.parameters.insert(key.to_owned(), value);
        r
    }

    /// Asks for the news about one ticker symbol.
    pub fn ticker(self, ticker: &str) -> (r: TickerNewsRequest)
        ensures
            r.parameters@ == self.parameters@.insert("ticker"@, ticker@),
            r.parameters.pairs() == put(self.parameters.pairs(), "ticker"@, ticker@),
    {
        self.with("ticker", ticker.to_owned())
    }

    /// Asks for the news about the symbols that sort after `ticker`.
    pub fn ticker_gt(self, ticker: &str) -> (r: TickerNewsRequest)
        ensures
            r.parameters@ == self.parameters@.insert("ticker.gt"@, ticker@),
            r.parameters.pairs() == put(self.parameters.pairs(), "ticker.gt"@, ticker@),
    {
        self.with("ticker.gt", ticker.to_owned())
    }

    /// Asks for the news about `ticker` and the symbols that sort after it.
    pub fn ticker_gte(self, ticker: &str) -> (r: TickerNewsRequest)
        ensures
            r.parameters@ == self.parameters@.insert("ticker.gte"@, ticker@),
            r.parameters.pairs() == put(self.parameters.pairs(), "ticker.gte"@, ticker@),
    {
        self.with("ticker.gte", ticker.to_owned())
    }

    /// Asks for the news about the symbols that sort before `ticker`.
    pub fn ticker_lt(self, ticker: &str) -> (r: TickerNewsRequest)
        ensures
            r.parameters@ == self.parameters@.insert("ticker.lt"@, ticker@),
            r.parameters.pairs() == put(self.parameters.pairs(), "ticker.lt"@, ticker@),
    {
        self.with("ticker.lt", ticker.to_owned())
    }

    /// Asks for the news about `ticker` and the symbols that sort before it.
    pub fn ticker_lte(self, ticker: &str) -> (r: TickerNewsRequest)
        ensures
            r.parameters@ == self.parameters@.insert("ticker.lte"@, ticker@),
            r.parameters.pairs() == put(self.parameters.pairs(), "ticker.lte"@, ticker@),
    {
        self.with("ticker.lte", ticker.to_owned())
    }

    /// Asks for the articles published at this date or time.
    pub fn published_utc(self, published_utc: &str) -> (r: TickerNewsRequest)
        ensures
            r.parameters@ == self.parameters@.insert("published_utc"@, published_utc@),
            r.parameters.pairs() == put(self.parameters.pairs(), "published_utc"@, published_utc@),
    {
        self.with("published_utc", published_utc.to_owned())
    }

    /// Asks for the articles published after this date or time.
    pub fn published_utc_gt(self, published_utc: &str) -> (r: TickerNewsRequest)
        ensures
            r.parameters@ == self.parameters@.insert("published_utc.gt"@, published_utc@),
            r.parameters.pairs() == put(
                self.parameters.pairs(),
                "published_utc.gt"@,
                published_utc@,
            ),
    {
        self.with("published_utc.gt", published_utc.to_owned())
    }

    /// Asks for the articles published at or after this date or time.
    pub fn published_utc_gte(self, published_utc: &str) -> (r: TickerNewsRequest)
        ensures
            r.parameters@ == self.parameters@.insert("published_utc.gte"@, published_utc@),
            r.parameters.pairs() == put(
                self.parameters.pairs(),
                "published_utc.gte"@,
                published_utc@,
            ),
    {
        self.with("published_utc.gte", published_utc.to_owned())
    }

    /// Asks for the articles published before this date or time.
    pub fn published_utc_lt(self, published_utc: &str) -> (r: TickerNewsRequest)
        ensures
            r.parameters@ == self.parameters@.insert("published_utc.lt"@, published_utc@),
            r.parameters.pairs() == put(
                self.parameters.pairs(),
                "published_utc.lt"@,
                published_utc@,
            ),
    {
        self.with("published_utc.lt", published_utc.to_owned())
    }

    /// Asks for the articles published at or before this date or time.
    pub fn published_utc_lte(self, published_utc: &str) -> (r: TickerNewsRequest)
        ensures
            r.parameters@ == self.parameters@.insert("published_utc.lte"@, published_utc@),
            r.parameters.pairs() == put(
                self.parameters.pairs(),
                "published_utc.lte"@,
                published_utc@,
            ),
    {
        self.with("published_utc.lte", published_utc.to_owned())
    }

    /// Orders the results by the sort field in the direction `order`.
    pub fn order(self, order: Order) -> (r: TickerNewsRequest)
        ensures
            r.parameters@ == self.parameters@.insert("order"@, order.wire()),
            r.parameters.pairs() == put(self.parameters.pairs(), "order"@, order.wire()),
    {
        self.with("order", order.to_string())
    }

    /// Asks for at most `limit` results. The API serves at most 1000 at a
    /// time: a larger `limit` is sent as 1000.
    pub fn limit(self, limit: u32) -> (r: TickerNewsRequest)
        ensures
            r.parameters@ == self.parameters@.insert("limit"@, limit_text(limit)),
            r.parameters.pairs() == put(self.parameters.pairs(), "limit"@, limit_text(limit)),
            limit > 1000 ==> r.parameters@["limit"@] == "1000"@,
            limit <= 1000 ==> r.parameters@["limit"@] == decimal(limit as nat),
    {
        proof {
            lemma_decimal_thousand();
        }
        let limit = if limit > MAX_LIMIT {
            MAX_LIMIT
        } else {
            limit
        };
        self.with("limit", u32_to_string(limit))
    }

    /// Names the field by which the results are ordered.
    pub fn sort(self, sort: TickerNewsSort) -> (r: TickerNewsRequest)
        ensures
            r.parameters@ == self.parameters@.insert("sort"@, sort.wire()),
            r.parameters.pairs() == put(self.parameters.pairs(), "sort"@, sort.wire()),
    {
        self.with("sort", sort.to_string())
    }

}

impl RequestType for TickerNewsRequest {
    open spec fn url(&self) -> Seq<char> {
        TICKER_NEWS_PATH@
    }

    open spec fn query(&self) -> Seq<(Seq<char>, Seq<char>)> {
        self.parameters.pairs()
    }

    open spec fn ready(&self) -> bool {
        true
    }

    fn is_ready(&self) -> (b: bool) {
        true
    }

    fn get_url(&self) -> (url: String) {
        TICKER_NEWS_PATH.to_owned()
    }

    fn get_query(&self) -> (query: Vec<(&String, &String)>) {
        self.parameters.to_vec()
    }
}

/// The fields by which the news can be ordered.
#[allow(non_camel_case_types)]
#[derive(Debug)]
pub enum TickerNewsSort {
    Published_Utc,
}

impl TickerNewsSort {
    /// The query constant of the sort field.
    pub open spec fn wire(self) -> Seq<char> {
        match self {
            TickerNewsSort::Published_Utc => "published_utc"@,
        }
    }

    /// Renders the sort field as its query constant.
    pub fn to_string(&self) -> (s: String)
        ensures
            s@ == self.wire(),
    {
        match self {
            TickerNewsSort::Published_Utc => "published_utc".to_owned(),
        }
    }

    /// Every sort field renders as a lower-case word.
    pub proof fn lemma_wire_is_word(self)
        ensures
            is_wire_word(self.wire()),
            self.wire().len() > 0,
    {
        reveal_strlit("published_utc");
    }
}

} // verus!
