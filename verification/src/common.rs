//! Query constants shared by the endpoints.

use crate::text::decimal;
use vstd::prelude::*;

verus! {

/// The largest number of results that the API serves at a time.
pub const MAX_LIMIT: u32 = 1000;

/// The wire text of a `limit` parameter: the numeral of `limit`, or of
/// `MAX_LIMIT` if `limit` is larger.
pub open spec fn limit_text(limit: u32) -> Seq<char> {
    if limit > MAX_LIMIT {
        decimal(MAX_LIMIT as nat)
    } else {
        decimal(limit as nat)
    }
}

/// True when `text` is made of lower-case ASCII letters and underscores
/// only, the alphabet of the API's query constants.
pub open spec fn is_wire_word(text: Seq<char>) -> bool {
    forall|i: int| 0 <= i < text.len() ==> ('a' <= #[trigger] text[i] <= 'z' || text[i] == '_')
}

/// Where an asset is listed.
#[derive(Debug)]
pub enum Locale {
    US,
    Global,
}

impl Locale {
    /// The query constant of the locale.
    pub open spec fn wire(self) -> Seq<char> {
        match self {
            Locale::US => "us"@,
            Locale::Global => "global"@,
        }
    }

    /// Renders the locale as its query constant.
    pub fn to_string(&self) -> (s: String)
        ensures
            s@ == self.wire(),
    {
        match self {
            Locale::US => "us".to_owned(),
            Locale::Global => "global".to_owned(),
        }
    }

    /// Every locale renders as a lower-case word.
    pub proof fn lemma_wire_is_word(self)
        ensures
            is_wire_word(self.wire()),
            self.wire().len() > 0,
    {
        reveal_strlit("us");
        reveal_strlit("global");
    }
}

/// The direction in which results are ordered.
#[derive(Debug)]
pub enum Order {
    Asc,
    Desc,
}

impl Order {
    /// The query constant of the direction.
    pub open spec fn wire(self) -> Seq<char> {
        match self {
            Order::Asc => "asc"@,
            Order::Desc => "desc"@,
        }
    }

    /// Renders the direction as its query constant.
    pub fn to_string(&self) -> (s: String)
        ensures
            s@ == self.wire(),
    {
        match self {
            Order::Asc => "asc".to_owned(),
            Order::Desc => "desc".to_owned(),
        }
    }

    /// Every direction renders as a lower-case word.
    pub proof fn lemma_wire_is_word(self)
        ensures
            is_wire_word(self.wire()),
            self.wire().len() > 0,
    {
        reveal_strlit("asc");
        reveal_strlit("desc");
    }
}

/// The market an asset trades on.
#[derive(Debug)]
pub enum Market {
    Stocks,
    Crypto,
    FX,
    OTC,
    Indices,
}

impl Market {
    /// The query constant of the market.
    pub open spec fn wire(self) -> Seq<char> {
        match self {
            Market::Stocks => "stocks"@,
            Market::Crypto => "crypto"@,
            Market::FX => "fx"@,
            Market::OTC => "otc"@,
            Market::Indices => "indices"@,
        }
    }

    /// Renders the market as its query constant.
    pub fn to_string(&self) -> (s: String)
        ensures
            s@ == self.wire(),
    {
        match self {
            Market::Stocks => "stocks".to_owned(),
            Market::Crypto => "crypto".to_owned(),
            Market::FX => "fx".to_owned(),
            Market::OTC => "otc".to_owned(),
            Market::Indices => "indices".to_owned(),
        }
    }

    /// Every market renders as a lower-case word.
    pub proof fn lemma_wire_is_word(self)
        ensures
            is_wire_word(self.wire()),
            self.wire().len() > 0,
    {
        reveal_strlit("stocks");
        reveal_strlit("crypto");
        reveal_strlit("fx");
        reveal_strlit("otc");
        reveal_strlit("indices");
    }
}

} // verus!
