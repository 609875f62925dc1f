//! The market-data client's decision logic: classifying the HTTP status
//! of the upstream response, and turning a decoded (possibly partial)
//! payload into a fully-populated `CryptoInfo`, filling every absent
//! field with its default independently.
//!
//! The network call itself lives outside the library; it hands in the
//! status code, and the decoded payload, as plain values.

use vstd::prelude::*;

use crate::models::{
    AppError, CryptoInfo, NewsArticle, RawArticle, RawPayload, RawUsdQuote, SpecCryptoInfo,
    SpecNewsArticle, SpecRawArticle, SpecRawCoinData, SpecRawPayload, SpecRawUsdQuote,
};
use crate::synthesis::spec_synthesize;

verus! {

/// The string an optional field yields: its value, or the default.
pub open spec fn spec_or_seq(o: Option<Seq<char>>, d: Seq<char>) -> Seq<char> {
    match o {
        Option::Some(s) => s,
        Option::None => d,
    }
}

/// The number an optional field yields: its value, or zero.
pub open spec fn spec_or_zero(o: Option<int>) -> int {
    match o {
        Option::Some(v) => v,
        Option::None => 0,
    }
}

/// The quote the coin data yields: its own, or one with every field
/// absent.
pub open spec fn spec_quote_of(c: SpecRawCoinData) -> SpecRawUsdQuote {
    match c.quote {
        Option::Some(q) => q,
        Option::None => SpecRawUsdQuote {
            price: Option::None,
            market_cap: Option::None,
            volume_24h: Option::None,
            percent_change_24h: Option::None,
            percent_change_7d: Option::None,
            last_updated: Option::None,
        },
    }
}

/// The fully-populated snapshot built from the coin data for a requested
/// symbol: every absent field is filled with its default, independently
/// of the others.
pub open spec fn spec_info_from_coin(c: SpecRawCoinData, requested: Seq<char>) -> SpecCryptoInfo {
    SpecCryptoInfo {
        name: spec_or_seq(c.name, "Unknown"@),
        symbol: spec_or_seq(c.symbol, requested),
        slug: spec_or_seq(c.slug, "unknown"@),
        price: spec_or_zero(spec_quote_of(c).price),
        market_cap: spec_or_zero(spec_quote_of(c).market_cap),
        volume_24h: spec_or_zero(spec_quote_of(c).volume_24h),
        percent_change_24h: spec_or_zero(spec_quote_of(c).percent_change_24h),
        percent_change_7d: spec_or_zero(spec_quote_of(c).percent_change_7d),
        last_updated: spec_or_seq(spec_quote_of(c).last_updated, "Unknown"@),
    }
}

/// What a 2xx response yields: nothing when the provider signalled an
/// error of its own or has no entry for the symbol, else the
/// fully-populated snapshot.
pub open spec fn spec_interpret(p: SpecRawPayload, requested: Seq<char>) -> Option<
    SpecCryptoInfo,
> {
    if p.error_message is Some {
        Option::None
    } else {
        match p.coin {
            Option::Some(c) => Option::Some(spec_info_from_coin(c, requested)),
            Option::None => Option::None,
        }
    }
}

/// How the upstream HTTP status is classified: 2xx is success, 429 is
/// the rate limit, and every other status is an upstream error carrying
/// the raw response body.
pub open spec fn spec_classify_status(status: int, body: String) -> Result<(), AppError> {
    if 200 <= status <= 299 {
        Result::Ok(())
    } else if status == 429 {
        Result::Err(AppError::RateLimitExceeded)
    } else {
        Result::Err(AppError::UpstreamError(body))
    }
}

/// Classifies the HTTP status of the upstream response; `body` is the
/// raw response text, kept only when the status makes it an error.
pub fn classify_status(status: u16, body: String) -> (r: Result<(), AppError>)
    ensures
        r == spec_classify_status(status as int, body),
{
    if status == 429 {
        Result::Err(AppError::RateLimitExceeded)
    } else if 200 <= status && status <= 299 {
        Result::Ok(())
    } else {
        Result::Err(AppError::UpstreamError(body))
    }
}

/// Turns a decoded 2xx payload into a fully-populated snapshot, or
/// `None` when the provider signalled "no data" (an error message of its
/// own, or no entry for the symbol).  Every absent field of a present
/// entry is filled with its default: `"Unknown"` for the name and the
/// last-updated text, the requested symbol for the symbol, `"unknown"`
/// for the slug, and `0` for every number.
pub fn interpret_payload(payload: RawPayload, requested_symbol: &str) -> (r: Option<CryptoInfo>)
    ensures
        r is Some <==> spec_interpret(payload@, requested_symbol@) is Some,
        r matches Option::Some(info) ==> Option::Some(info@) == spec_interpret(
            payload@,
            requested_symbol@,
        ),
{
    if payload.error_message.is_some() {
        return Option::None;
    }
    match payload.coin {
        Option::None => Option::None,
        Option::Some(coin) => {
            let quote = match coin.quote {
                Option::Some(q) => q,
                Option::None => RawUsdQuote {
                    price: Option::None,
                    market_cap: Option::None,
                    volume_24h: Option::None,
                    percent_change_24h: Option::None,
                    percent_change_7d: Option::None,
                    last_updated: Option::None,
                },
            };
            let info = CryptoInfo {
                name: match coin.name {
                    Option::Some(s) => s,
                    Option::None => String::from_str("Unknown"),
                },
                symbol: match coin.symbol {
                    Option::Some(s) => s,
                    Option::None => String::from_str(requested_symbol),
                },
                slug: match coin.slug {
                    Option::Some(s) => s,
                    Option::None => String::from_str("unknown"),
                },
                price: match quote.price {
                    Option::Some(v) => v,
                    Option::None => 0,
                },
                market_cap: match quote.market_cap {
                    Option::Some(v) => v,
                    Option::None => 0,
                },
                volume_24h: match quote.volume_24h {
                    Option::Some(v) => v,
                    Option::None => 0,
                },
                percent_change_24h: match quote.percent_change_24h {
                    Option::Some(v) => v,
                    Option::None => 0,
                },
                percent_change_7d: match quote.percent_change_7d {
                    Option::Some(v) => v,
                    Option::None => 0,
                },
                last_updated: match quote.last_updated {
                    Option::Some(s) => s,
                    Option::None => String::from_str("Unknown"),
                },
            };
            proof {
                assert(info@ =~= spec_info_from_coin(payload@.coin->Some_0, requested_symbol@));
            }
            Option::Some(info)
        },
    }
}

/// The article the legacy news payload's raw fields yield: absent text
/// defaults to the empty string (the source to `"Unknown"`), an absent
/// timestamp to the fallback instant, and the description passes
/// through as it is — absent stays absent.
pub open spec fn spec_article_from_raw(r: SpecRawArticle, fallback: int) -> SpecNewsArticle {
    SpecNewsArticle {
        title: spec_or_seq(r.title, Seq::empty()),
        url: spec_or_seq(r.url, Seq::empty()),
        source: spec_or_seq(r.source, "Unknown"@),
        published_at: match r.published_at {
            Option::Some(t) => t,
            Option::None => fallback,
        },
        description: r.description,
    }
}

/// Builds one article of the legacy news list from its raw fields,
/// filling each absent field with its default independently;
/// `fallback_published_at` stands in for an absent timestamp.
pub fn article_from_raw(raw: RawArticle, fallback_published_at: i64) -> (a: NewsArticle)
    ensures
        a@ == spec_article_from_raw(raw@, fallback_published_at as int),
{
    let a = NewsArticle {
        title: match raw.title {
            Option::Some(s) => s,
            Option::None => String::new(),
        },
        url: match raw.url {
            Option::Some(s) => s,
            Option::None => String::new(),
        },
        source: match raw.source {
            Option::Some(s) => s,
            Option::None => String::from_str("Unknown"),
        },
        published_at: match raw.published_at {
            Option::Some(t) => t,
            Option::None => fallback_published_at,
        },
        description: raw.description,
    };
    proof {
        assert(a@ =~= spec_article_from_raw(raw@, fallback_published_at as int));
    }
    a
}

/// A payload whose entry for the symbol is missing a numeric field still
/// yields a snapshot — with that field zero — and synthesis on it still
/// yields exactly three articles.  Stated here for the 24-hour volume.
pub proof fn lemma_default_fill_volume(p: SpecRawPayload, requested: Seq<char>, now: int)
    requires
        p.error_message is None,
        p.coin is Some,
        match p.coin->Some_0.quote {
            Option::Some(q) => q.volume_24h is None,
            Option::None => true,
        },
    ensures
        spec_interpret(p, requested) is Some,
        spec_interpret(p, requested)->Some_0.volume_24h == 0,
        spec_synthesize(spec_interpret(p, requested)->Some_0, now).len() == 3,
{
}

} // verus!
