//! The news synthesis engine: a pure function from a market snapshot and
//! an instant to exactly three narrative articles, in a fixed order, with
//! backdated timestamps.  The spec functions here state, character for
//! character, the text of every title and description.

use vstd::prelude::*;

use crate::models::{CryptoInfo, NewsArticle, SpecCryptoInfo, SpecNewsArticle};
use crate::render::{
    format_fixed2, format_scaled2, format_ratio2, spec_abs_int, spec_fixed2,
    spec_ratio_hundredths, spec_trunc_div,
};

verus! {

/// The 24-hour percent change is positive: the market is framed as
/// bullish and the title speaks of an increase.
pub open spec fn spec_is_bullish(i: SpecCryptoInfo) -> bool {
    i.percent_change_24h > 0
}

/// Trading activity counts as "high" when the 24-hour volume exceeds a
/// twentieth of the market cap (`volume > market_cap * 0.05`, exactly).
pub open spec fn spec_high_activity(i: SpecCryptoInfo) -> bool {
    20 * i.volume_24h > i.market_cap
}

/// The 7-day percent change is positive: the weekly article speaks of
/// growth and of a continuing upward trend.
pub open spec fn spec_weekly_growth(i: SpecCryptoInfo) -> bool {
    i.percent_change_7d > 0
}

/// Volatility counts as "increased" when the 24-hour change differs from
/// the daily average of the 7-day change by more than one percentage
/// point (`|change_24h - change_7d / 7| > 1`, exactly, scaled by 7).
pub open spec fn spec_increased_volatility(i: SpecCryptoInfo) -> bool {
    spec_abs_int(7 * i.percent_change_24h - i.percent_change_7d) > 700
}

/// Volume counts as "significant" when the 24-hour volume exceeds a
/// tenth of the market cap (`volume > market_cap * 0.1`, exactly).
pub open spec fn spec_significant_volume(i: SpecCryptoInfo) -> bool {
    10 * i.volume_24h > i.market_cap
}

/// Continued growth is predicted when the 24-hour change exceeds the
/// daily average of the 7-day change.
pub open spec fn spec_growth_predicted(i: SpecCryptoInfo) -> bool {
    7 * i.percent_change_24h > i.percent_change_7d
}

/// Liquidity counts as "high" when the volume-to-market-cap ratio
/// exceeds a tenth; a market cap of zero falls back to the "moderate"
/// wording, as the ratio itself falls back to zero.
pub open spec fn spec_high_liquidity(i: SpecCryptoInfo) -> bool {
    i.market_cap > 0 && 10 * i.volume_24h > i.market_cap
}

/// The canonical provider page for the asset, built from its slug.
pub open spec fn spec_article_url(i: SpecCryptoInfo) -> Seq<char> {
    "https://coinmarketcap.com/currencies/"@ + i.slug + "/"@
}

/// The 24-hour trend sentence: direction from the sign of the 24-hour
/// change, magnitude as an absolute value, and the current price.
pub open spec fn spec_price_trend(i: SpecCryptoInfo) -> Seq<char> {
    if spec_is_bullish(i) {
        i.name + " increased by "@ + spec_fixed2(i.percent_change_24h)
            + "% in the last 24 hours, reaching $"@ + spec_fixed2(i.price)
    } else {
        i.name + " decreased by "@ + spec_fixed2(spec_abs_int(i.percent_change_24h))
            + "% in the last 24 hours, falling to $"@ + spec_fixed2(i.price)
    }
}

/// Title of the 24-hour trend article.
pub open spec fn spec_trend_title(i: SpecCryptoInfo) -> Seq<char> {
    "Market Analysis: "@ + spec_price_trend(i)
}

/// Description of the 24-hour trend article: market framing from the
/// sign of the 24-hour change, the volume in millions of dollars, the
/// activity classification, and the market cap in billions of dollars.
pub open spec fn spec_trend_description(i: SpecCryptoInfo) -> Seq<char> {
    "In the last 24 hours, "@ + i.name + " has shown significant price movement in a "@ + (
    if spec_is_bullish(i) {
        "bullish"@
    } else {
        "bearish"@
    }) + " market. Analysts note that the current trading volume is $"@ + spec_fixed2(
        spec_trunc_div(i.volume_24h, 1000000),
    ) + " million, indicating "@ + (
    if spec_high_activity(i) {
        "high"@
    } else {
        "moderate"@
    }) + " trader activity. The market capitalization stands at $"@ + spec_fixed2(
        spec_trunc_div(i.market_cap, 1000000000),
    ) + " billion."@
}

/// Title of the 7-day trend article: growth or decline from the sign of
/// the 7-day change, magnitude as an absolute value.
pub open spec fn spec_weekly_title(i: SpecCryptoInfo) -> Seq<char> {
    if spec_weekly_growth(i) {
        i.name + " shows growth of "@ + spec_fixed2(i.percent_change_7d) + "% over the week"@
    } else {
        i.name + " shows decline of "@ + spec_fixed2(spec_abs_int(i.percent_change_7d))
            + "% over the week"@
    }
}

/// Description of the 7-day trend article: trend direction, volatility
/// and volume classifications, and the prediction.
pub open spec fn spec_weekly_description(i: SpecCryptoInfo) -> Seq<char> {
    "The weekly review indicates that "@ + i.name + " "@ + (
    if spec_weekly_growth(i) {
        "continues its upward"@
    } else {
        "is in a downward"@
    }) + " trend. Traders report "@ + (
    if spec_increased_volatility(i) {
        "increased"@
    } else {
        "stable"@
    }) + " volatility and "@ + (
    if spec_significant_volume(i) {
        "significant"@
    } else {
        "average"@
    }) + " trading volumes. Technical indicators suggest possible "@ + (
    if spec_growth_predicted(i) {
        "continued growth"@
    } else {
        "reduction in selling pressure"@
    }) + " in the coming days."@
}

/// Title of the market-position article: a fixed template naming the
/// asset.
pub open spec fn spec_position_title(i: SpecCryptoInfo) -> Seq<char> {
    i.name + " holds an important position in cryptocurrency rankings"@
}

/// Description of the market-position article: the market cap in
/// billions of dollars, the volume-to-market-cap ratio as a percentage
/// (zero when the market cap is zero), and the liquidity classification.
pub open spec fn spec_position_description(i: SpecCryptoInfo) -> Seq<char> {
    "With a current market capitalization of $"@ + spec_fixed2(
        spec_trunc_div(i.market_cap, 1000000000),
    ) + " billion, "@ + i.name
        + " remains a significant asset in the cryptocurrency market. Analysts note that the ratio of trading volume to market capitalization is "@
        + spec_fixed2(spec_ratio_hundredths(i.volume_24h, i.market_cap)) + "%, indicating "@ + (
    if spec_high_liquidity(i) {
        "high"@
    } else {
        "moderate"@
    }) + " liquidity of the asset."@
}

/// The 24-hour trend article, published at `now`.
pub open spec fn spec_trend_article(i: SpecCryptoInfo, now: int) -> SpecNewsArticle {
    SpecNewsArticle {
        title: spec_trend_title(i),
        url: spec_article_url(i),
        source: "CoinMarketCap Analysis"@,
        published_at: now,
        description: Option::Some(spec_trend_description(i)),
    }
}

/// The 7-day trend article, backdated 12 hours.
pub open spec fn spec_weekly_article(i: SpecCryptoInfo, now: int) -> SpecNewsArticle {
    SpecNewsArticle {
        title: spec_weekly_title(i),
        url: spec_article_url(i),
        source: "Weekly Market Report"@,
        published_at: now - 43200,
        description: Option::Some(spec_weekly_description(i)),
    }
}

/// The market-position article, backdated 24 hours.
pub open spec fn spec_position_article(i: SpecCryptoInfo, now: int) -> SpecNewsArticle {
    SpecNewsArticle {
        title: spec_position_title(i),
        url: spec_article_url(i),
        source: "Market Position Update"@,
        published_at: now - 86400,
        description: Option::Some(spec_position_description(i)),
    }
}

/// The complete synthesis: exactly these three articles, in this order.
pub open spec fn spec_synthesize(i: SpecCryptoInfo, now: int) -> Seq<SpecNewsArticle> {
    seq![spec_trend_article(i, now), spec_weekly_article(i, now), spec_position_article(i, now)]
}

/// The ghost images of a sequence of articles.
pub open spec fn articles_view(s: Seq<NewsArticle>) -> Seq<SpecNewsArticle> {
    s.map_values(|a: NewsArticle| a@)
}

/// Synthesis always yields exactly three articles whose `published_at`
/// instants strictly decrease: the first is at `now`, the second 12
/// hours earlier, the third 24 hours earlier.
pub proof fn lemma_synthesize_count_and_order(i: SpecCryptoInfo, now: int)
    ensures
        spec_synthesize(i, now).len() == 3,
        spec_synthesize(i, now)[0].published_at == now,
        spec_synthesize(i, now)[1].published_at == now - 43200,
        spec_synthesize(i, now)[2].published_at == now - 86400,
        spec_synthesize(i, now)[0].published_at > spec_synthesize(i, now)[1].published_at,
        spec_synthesize(i, now)[1].published_at > spec_synthesize(i, now)[2].published_at,
{
}

/// A market cap of zero never faults the ratio computation: the
/// market-position description is rendered with the fallback ratio `0`
/// and the "moderate" liquidity wording.
pub proof fn lemma_zero_market_cap_ratio(i: SpecCryptoInfo)
    requires
        i.market_cap == 0,
    ensures
        spec_ratio_hundredths(i.volume_24h, i.market_cap) == 0,
        !spec_high_liquidity(i),
{
}

fn build_url(info: &CryptoInfo) -> (r: String)
    ensures
        r@ == spec_article_url(info@),
{
    let mut u = String::from_str("https://coinmarketcap.com/currencies/");
    u.append(info.slug.as_str());
    u.append("/");
    proof {
        assert(u@ =~= spec_article_url(info@));
    }
    u
}

/// Renders a value in hundredths directly (no rescaling).
fn format_hundredths(v: i64) -> (r: String)
    ensures
        r@ == spec_fixed2(v as int),
{
    let r = format_scaled2(v, 1);
    proof {
        assert(spec_trunc_div(v as int, 1) == v as int);
    }
    r
}

/// Renders the absolute value of a value in hundredths.
fn format_abs_hundredths(v: i64) -> (r: String)
    ensures
        r@ == spec_fixed2(spec_abs_int(v as int)),
{
    let mag: u128 = if v < 0 {
        (-(v as i128)) as u128
    } else {
        v as u128
    };
    format_fixed2(false, mag)
}

fn build_trend_title(info: &CryptoInfo) -> (r: String)
    ensures
        r@ == spec_trend_title(info@),
{
    let mut t = String::from_str("Market Analysis: ");
    t.append(info.name.as_str());
    if info.percent_change_24h > 0 {
        t.append(" increased by ");
        let pc = format_hundredths(info.percent_change_24h);
        t.append(pc.as_str());
        t.append("% in the last 24 hours, reaching $");
    } else {
        t.append(" decreased by ");
        let pc = format_abs_hundredths(info.percent_change_24h);
        t.append(pc.as_str());
        t.append("% in the last 24 hours, falling to $");
    }
    let price = format_hundredths(info.price);
    t.append(price.as_str());
    proof {
        assert(t@ =~= spec_trend_title(info@));
    }
    t
}

fn build_trend_description(info: &CryptoInfo) -> (r: String)
    ensures
        r@ == spec_trend_description(info@),
{
    let mut d = String::from_str("In the last 24 hours, ");
    d.append(info.name.as_str());
    d.append(" has shown significant price movement in a ");
    if info.percent_change_24h > 0 {
        d.append("bullish");
    } else {
        d.append("bearish");
    }
    d.append(" market. Analysts note that the current trading volume is $");
    let vol = format_scaled2(info.volume_24h, 1000000);
    d.append(vol.as_str());
    d.append(" million, indicating ");
    if 20 * (info.volume_24h as i128) > (info.market_cap as i128) {
        d.append("high");
    } else {
        d.append("moderate");
    }
    d.append(" trader activity. The market capitalization stands at $");
    let cap = format_scaled2(info.market_cap, 1000000000);
    d.append(cap.as_str());
    d.append(" billion.");
    proof {
        assert(d@ =~= spec_trend_description(info@));
    }
    d
}

fn build_weekly_title(info: &CryptoInfo) -> (r: String)
    ensures
        r@ == spec_weekly_title(info@),
{
    let mut t = info.name.clone();
    if info.percent_change_7d > 0 {
        t.append(" shows growth of ");
        let pc = format_hundredths(info.percent_change_7d);
        t.append(pc.as_str());
    } else {
        t.append(" shows decline of ");
        let pc = format_abs_hundredths(info.percent_change_7d);
        t.append(pc.as_str());
    }
    t.append("% over the week");
    proof {
        assert(t@ =~= spec_weekly_title(info@));
    }
    t
}

fn build_weekly_description(info: &CryptoInfo) -> (r: String)
    ensures
        r@ == spec_weekly_description(info@),
{
    let mut d = String::from_str("The weekly review indicates that ");
    d.append(info.name.as_str());
    d.append(" ");
    if info.percent_change_7d > 0 {
        d.append("continues its upward");
    } else {
        d.append("is in a downward");
    }
    d.append(" trend. Traders report ");
    let diff: i128 = 7 * (info.percent_change_24h as i128) - (info.percent_change_7d as i128);
    if diff > 700 || diff < -700 {
        d.append("increased");
    } else {
        d.append("stable");
    }
    d.append(" volatility and ");
    if 10 * (info.volume_24h as i128) > (info.market_cap as i128) {
        d.append("significant");
    } else {
        d.append("average");
    }
    d.append(" trading volumes. Technical indicators suggest possible ");
    if 7 * (info.percent_change_24h as i128) > (info.percent_change_7d as i128) {
        d.append("continued growth");
    } else {
        d.append("reduction in selling pressure");
    }
    d.append(" in the coming days.");
    proof {
        assert((diff > 700 || diff < -700) == spec_increased_volatility(info@));
        assert(d@ =~= spec_weekly_description(info@));
    }
    d
}

fn build_position_title(info: &CryptoInfo) -> (r: String)
    ensures
        r@ == spec_position_title(info@),
{
    let mut t = info.name.clone();
    t.append(" holds an important position in cryptocurrency rankings");
    proof {
        assert(t@ =~= spec_position_title(info@));
    }
    t
}

fn build_position_description(info: &CryptoInfo) -> (r: String)
    ensures
        r@ == spec_position_description(info@),
{
    let mut d = String::from_str("With a current market capitalization of $");
    let cap = format_scaled2(info.market_cap, 1000000000);
    d.append(cap.as_str());
    d.append(" billion, ");
    d.append(info.name.as_str());
    d.append(
        " remains a significant asset in the cryptocurrency market. Analysts note that the ratio of trading volume to market capitalization is ",
    );
    let ratio = format_ratio2(info.volume_24h, info.market_cap);
    d.append(ratio.as_str());
    d.append("%, indicating ");
    if info.market_cap > 0 && 10 * (info.volume_24h as i128) > (info.market_cap as i128) {
        d.append("high");
    } else {
        d.append("moderate");
    }
    d.append(" liquidity of the asset.");
    proof {
        assert(d@ =~= spec_position_description(info@));
    }
    d
}

/// Synthesizes the three articles for a snapshot, at the instant `now`
/// (seconds since the epoch).  The result is exactly
/// `spec_synthesize(info@, now)`: three articles, in fixed order, with
/// `published_at` offsets of 0, -12 hours and -24 hours.
pub fn synthesize(info: &CryptoInfo, now: i64) -> (articles: Vec<NewsArticle>)
    requires
        now >= i64::MIN + 86400,
    ensures
        articles@.len() == 3,
        articles_view(articles@) == spec_synthesize(info@, now as int),
{
    let mut articles: Vec<NewsArticle> = Vec::new();
    articles.push(
        NewsArticle {
            title: build_trend_title(info),
            url: build_url(info),
            source: String::from_str("CoinMarketCap Analysis"),
            published_at: now,
            description: Option::Some(build_trend_description(info)),
        },
    );
    articles.push(
        NewsArticle {
            title: build_weekly_title(info),
            url: build_url(info),
            source: String::from_str("Weekly Market Report"),
            published_at: now - 43200,
            description: Option::Some(build_weekly_description(info)),
        },
    );
    articles.push(
        NewsArticle {
            title: build_position_title(info),
            url: build_url(info),
            source: String::from_str("Market Position Update"),
            published_at: now - 86400,
            description: Option::Some(build_position_description(info)),
        },
    );
    proof {
        assert(articles_view(articles@) =~= spec_synthesize(info@, now as int));
    }
    articles
}

/// The earliest instant at which synthesis can backdate a full day
/// without leaving the range of a timestamp.
pub const MIN_SYNTHESIS_INSTANT: i64 = i64::MIN + 86400;

/// Relies on chrono's `Local::now`, read as a naive local instant and
/// converted to whole seconds since the epoch.  Nothing is assumed of
/// the value: the clock may answer anything.
#[verifier::external_body]
fn current_timestamp() -> i64 {
    chrono::Local::now().naive_local().and_utc().timestamp()
}

/// Synthesizes the three articles for a snapshot at the current
/// wall-clock instant.  Whatever the clock answers, the result is the
/// synthesis at the instant recorded in the first article's
/// `published_at`.
pub fn generate_news_articles(info: &CryptoInfo) -> (articles: Vec<NewsArticle>)
    ensures
        articles@.len() == 3,
        articles_view(articles@) == spec_synthesize(info@, articles@[0].published_at as int),
{
    let now = current_timestamp();
    let base = if now >= MIN_SYNTHESIS_INSTANT {
        now
    } else {
        MIN_SYNTHESIS_INSTANT
    };
    let articles = synthesize(info, base);
    proof {
        assert(articles_view(articles@)[0].published_at == base as int);
        assert(articles@[0].published_at == base);
    }
    articles
}

} // verus!
