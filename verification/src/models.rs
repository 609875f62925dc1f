//! The data model: a fully-populated market snapshot for one asset, the
//! raw (partially absent) fields that the upstream quote payload may carry,
//! the synthetic article record, and the error taxonomy.
//!
//! Money amounts are carried as whole numbers of hundredths of a dollar and
//! percentages as whole numbers of hundredths of a percent, so that the
//! two-decimal renderings and the threshold comparisons of the synthesis
//! rules are exact integer computations.  Timestamps are naive instants,
//! carried as whole seconds since the epoch.

use vstd::prelude::*;

verus! {

/// Ghost image of a `CryptoInfo`: strings as character sequences,
/// fixed-point quantities as unbounded integers.
#[verifier::ext_equal]
pub struct SpecCryptoInfo {
    pub name: Seq<char>,
    pub symbol: Seq<char>,
    pub slug: Seq<char>,
    pub price: int,
    pub market_cap: int,
    pub volume_24h: int,
    pub percent_change_24h: int,
    pub percent_change_7d: int,
    pub last_updated: Seq<char>,
}

/// A fully-populated market snapshot for one asset.  Every field always
/// holds a value: absent upstream fields are filled with the defaults
/// (`0` for numbers, `"Unknown"`/`"unknown"` for strings) when the
/// snapshot is built from a raw payload.
///
/// `price`, `market_cap` and `volume_24h` are in hundredths of a dollar;
/// `percent_change_24h` and `percent_change_7d` are in hundredths of a
/// percent.
#[derive(Clone, Debug)]
pub struct CryptoInfo {
    pub name: String,
    pub symbol: String,
    pub slug: String,
    pub price: i64,
    pub market_cap: i64,
    pub volume_24h: i64,
    pub percent_change_24h: i64,
    pub percent_change_7d: i64,
    pub last_updated: String,
}

impl View for CryptoInfo {
    type V = SpecCryptoInfo;

    open spec fn view(&self) -> SpecCryptoInfo {
        SpecCryptoInfo {
            name: self.name@,
            symbol: self.symbol@,
            slug: self.slug@,
            price: self.price as int,
            market_cap: self.market_cap as int,
            volume_24h: self.volume_24h as int,
            percent_change_24h: self.percent_change_24h as int,
            percent_change_7d: self.percent_change_7d as int,
            last_updated: self.last_updated@,
        }
    }
}

/// Ghost image of a `NewsArticle`.
#[verifier::ext_equal]
pub struct SpecNewsArticle {
    pub title: Seq<char>,
    pub url: Seq<char>,
    pub source: Seq<char>,
    pub published_at: int,
    pub description: Option<Seq<char>>,
}

/// One synthetic news article.  `published_at` is a naive timestamp in
/// whole seconds since the epoch.  An absent `description` is a valid
/// state of its own, distinct from an empty string.
#[derive(Clone, Debug)]
pub struct NewsArticle {
    pub title: String,
    pub url: String,
    pub source: String,
    pub published_at: i64,
    pub description: Option<String>,
}

impl View for NewsArticle {
    type V = SpecNewsArticle;

    open spec fn view(&self) -> SpecNewsArticle {
        SpecNewsArticle {
            title: self.title@,
            url: self.url@,
            source: self.source@,
            published_at: self.published_at as int,
            description: match self.description {
                Option::Some(d) => Option::Some(d@),
                Option::None => Option::None,
            },
        }
    }
}

/// Ghost image of a `RawUsdQuote`.
#[verifier::ext_equal]
pub struct SpecRawUsdQuote {
    pub price: Option<int>,
    pub market_cap: Option<int>,
    pub volume_24h: Option<int>,
    pub percent_change_24h: Option<int>,
    pub percent_change_7d: Option<int>,
    pub last_updated: Option<Seq<char>>,
}

/// The `quote.USD` sub-object of the upstream payload, with every field
/// optional: the upstream may omit any of them independently.
#[derive(Clone, Debug)]
pub struct RawUsdQuote {
    pub price: Option<i64>,
    pub market_cap: Option<i64>,
    pub volume_24h: Option<i64>,
    pub percent_change_24h: Option<i64>,
    pub percent_change_7d: Option<i64>,
    pub last_updated: Option<String>,
}

impl View for RawUsdQuote {
    type V = SpecRawUsdQuote;

    open spec fn view(&self) -> SpecRawUsdQuote {
        SpecRawUsdQuote {
            price: match self.price {
                Option::Some(v) => Option::Some(v as int),
                Option::None => Option::None,
            },
            market_cap: match self.market_cap {
                Option::Some(v) => Option::Some(v as int),
                Option::None => Option::None,
            },
            volume_24h: match self.volume_24h {
                Option::Some(v) => Option::Some(v as int),
                Option::None => Option::None,
            },
            percent_change_24h: match self.percent_change_24h {
                Option::Some(v) => Option::Some(v as int),
                Option::None => Option::None,
            },
            percent_change_7d: match self.percent_change_7d {
                Option::Some(v) => Option::Some(v as int),
                Option::None => Option::None,
            },
            last_updated: match self.last_updated {
                Option::Some(s) => Option::Some(s@),
                Option::None => Option::None,
            },
        }
    }
}

/// Ghost image of a `RawCoinData`.
#[verifier::ext_equal]
pub struct SpecRawCoinData {
    pub name: Option<Seq<char>>,
    pub symbol: Option<Seq<char>>,
    pub slug: Option<Seq<char>>,
    pub quote: Option<SpecRawUsdQuote>,
}

/// The `data.<symbol>` sub-object of the upstream payload: the asset's
/// identifying strings and its USD quote, all optional.
#[derive(Clone, Debug)]
pub struct RawCoinData {
    pub name: Option<String>,
    pub symbol: Option<String>,
    pub slug: Option<String>,
    pub quote: Option<RawUsdQuote>,
}

impl View for RawCoinData {
    type V = SpecRawCoinData;

    open spec fn view(&self) -> SpecRawCoinData {
        SpecRawCoinData {
            name: match self.name {
                Option::Some(s) => Option::Some(s@),
                Option::None => Option::None,
            },
            symbol: match self.symbol {
                Option::Some(s) => Option::Some(s@),
                Option::None => Option::None,
            },
            slug: match self.slug {
                Option::Some(s) => Option::Some(s@),
                Option::None => Option::None,
            },
            quote: match self.quote {
                Option::Some(q) => Option::Some(q@),
                Option::None => Option::None,
            },
        }
    }
}

/// Ghost image of a `RawPayload`.
#[verifier::ext_equal]
pub struct SpecRawPayload {
    pub error_message: Option<Seq<char>>,
    pub coin: Option<SpecRawCoinData>,
}

/// What a well-formed upstream quote response carries, once decoded:
/// `error_message` is present exactly when the body's
/// `status.error_message` field is present and non-null (the provider's
/// own "no data" convention), and `coin` is present exactly when
/// `data.<symbol>` is present.
#[derive(Clone, Debug)]
pub struct RawPayload {
    pub error_message: Option<String>,
    pub coin: Option<RawCoinData>,
}

impl View for RawPayload {
    type V = SpecRawPayload;

    open spec fn view(&self) -> SpecRawPayload {
        SpecRawPayload {
            error_message: match self.error_message {
                Option::Some(s) => Option::Some(s@),
                Option::None => Option::None,
            },
            coin: match self.coin {
                Option::Some(c) => Option::Some(c@),
                Option::None => Option::None,
            },
        }
    }
}

/// Ghost image of a `RawArticle`.
#[verifier::ext_equal]
pub struct SpecRawArticle {
    pub title: Option<Seq<char>>,
    pub url: Option<Seq<char>>,
    pub source: Option<Seq<char>>,
    pub published_at: Option<int>,
    pub description: Option<Seq<char>>,
}

/// One article object of the legacy news payload, every field optional;
/// `published_at` is already decoded to seconds since the epoch, or
/// absent when the payload carried no parseable timestamp.
#[derive(Clone, Debug)]
pub struct RawArticle {
    pub title: Option<String>,
    pub url: Option<String>,
    pub source: Option<String>,
    pub published_at: Option<i64>,
    pub description: Option<String>,
}

impl View for RawArticle {
    type V = SpecRawArticle;

    open spec fn view(&self) -> SpecRawArticle {
        SpecRawArticle {
            title: match self.title {
                Option::Some(s) => Option::Some(s@),
                Option::None => Option::None,
            },
            url: match self.url {
                Option::Some(s) => Option::Some(s@),
                Option::None => Option::None,
            },
            source: match self.source {
                Option::Some(s) => Option::Some(s@),
                Option::None => Option::None,
            },
            published_at: match self.published_at {
                Option::Some(t) => Option::Some(t as int),
                Option::None => Option::None,
            },
            description: match self.description {
                Option::Some(s) => Option::Some(s@),
                Option::None => Option::None,
            },
        }
    }
}

/// The failure taxonomy of the market-data client.  A symbol for which
/// the provider has no data is not an error: it is the `None` outcome of
/// a successful fetch.
#[derive(Clone, Debug)]
pub enum AppError {
    /// The upstream answered with HTTP 429.
    RateLimitExceeded,
    /// The upstream answered with any other non-2xx status; the payload
    /// is the raw response body, kept for diagnostics.
    UpstreamError(String),
    /// The request never produced an HTTP response (DNS, TLS, timeout,
    /// connection failure); the payload describes the cause.
    TransportError(String),
}

} // verus!
