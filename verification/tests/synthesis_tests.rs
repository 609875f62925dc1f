use crypto_news::models::CryptoInfo;
use crypto_news::render::{format_fixed2, format_ratio2, format_scaled2, format_u128};
use crypto_news::synthesis::{generate_news_articles, synthesize};

fn sample_info() -> CryptoInfo {
    CryptoInfo {
        name: String::from("Bitcoin"),
        symbol: String::from("BTC"),
        slug: String::from("bitcoin"),
        // $50000.00
        price: 5_000_000,
        // $1e12
        market_cap: 100_000_000_000_000,
        // $5e10
        volume_24h: 5_000_000_000_000,
        // +2.50%
        percent_change_24h: 250,
        // -3.00%
        percent_change_7d: -300,
        last_updated: String::from("2024-01-01T00:00:00.000Z"),
    }
}

#[test]
fn three_articles_in_fixed_order() {
    let info = sample_info();
    let now: i64 = 1_700_000_000;
    let articles = synthesize(&info, now);
    assert_eq!(articles.len(), 3);
    assert_eq!(articles[0].source, "CoinMarketCap Analysis");
    assert_eq!(articles[1].source, "Weekly Market Report");
    assert_eq!(articles[2].source, "Market Position Update");
    assert_eq!(articles[0].published_at, now);
    assert_eq!(articles[1].published_at, now - 12 * 3600);
    assert_eq!(articles[2].published_at, now - 24 * 3600);
    assert!(articles[0].published_at > articles[1].published_at);
    assert!(articles[1].published_at > articles[2].published_at);
    for a in &articles {
        assert_eq!(a.url, "https://coinmarketcap.com/currencies/bitcoin/");
        assert!(a.description.is_some());
    }
}

#[test]
fn positive_change_titles_increased() {
    let mut info = sample_info();
    // +5.50%
    info.percent_change_24h = 550;
    let articles = synthesize(&info, 0);
    assert_eq!(
        articles[0].title,
        "Market Analysis: Bitcoin increased by 5.50% in the last 24 hours, reaching $50000.00"
    );
}

#[test]
fn negative_change_titles_decreased_with_absolute_value() {
    let mut info = sample_info();
    // -5.50%
    info.percent_change_24h = -550;
    let articles = synthesize(&info, 0);
    assert_eq!(
        articles[0].title,
        "Market Analysis: Bitcoin decreased by 5.50% in the last 24 hours, falling to $50000.00"
    );
}

#[test]
fn zero_change_titles_decreased() {
    let mut info = sample_info();
    info.percent_change_24h = 0;
    let articles = synthesize(&info, 0);
    assert!(articles[0].title.contains("decreased by 0.00%"));
    let description = articles[0].description.clone().unwrap();
    assert!(description.contains("bearish"));
}

#[test]
fn end_to_end_titles_and_descriptions() {
    let info = sample_info();
    let articles = synthesize(&info, 1_700_000_000);
    assert!(articles[0].title.contains("increased by 2.50%"));
    assert!(articles[0].title.contains("$50000.00"));
    assert_eq!(
        articles[0].description.clone().unwrap(),
        "In the last 24 hours, Bitcoin has shown significant price movement in a bullish market. \
         Analysts note that the current trading volume is $50000.00 million, indicating moderate \
         trader activity. The market capitalization stands at $1000.00 billion."
    );
    assert!(articles[1].title.contains("decline of 3.00%"));
    assert_eq!(
        articles[1].title,
        "Bitcoin shows decline of 3.00% over the week"
    );
    assert_eq!(
        articles[1].description.clone().unwrap(),
        "The weekly review indicates that Bitcoin is in a downward trend. Traders report \
         increased volatility and average trading volumes. Technical indicators suggest \
         possible continued growth in the coming days."
    );
    assert_eq!(
        articles[2].title,
        "Bitcoin holds an important position in cryptocurrency rankings"
    );
    assert_eq!(
        articles[2].description.clone().unwrap(),
        "With a current market capitalization of $1000.00 billion, Bitcoin remains a significant \
         asset in the cryptocurrency market. Analysts note that the ratio of trading volume to \
         market capitalization is 5.00%, indicating moderate liquidity of the asset."
    );
}

#[test]
fn zero_market_cap_ratio_falls_back_to_zero() {
    let mut info = sample_info();
    info.market_cap = 0;
    let articles = synthesize(&info, 0);
    let description = articles[2].description.clone().unwrap();
    assert!(description.contains("market capitalization is 0.00%"));
    assert!(description.contains("moderate liquidity"));
}

#[test]
fn high_activity_and_liquidity_wording() {
    let mut info = sample_info();
    // volume above a tenth of the market cap: high everything
    info.volume_24h = 20_000_000_000_000;
    let articles = synthesize(&info, 0);
    let trend = articles[0].description.clone().unwrap();
    assert!(trend.contains("indicating high trader activity"));
    let weekly = articles[1].description.clone().unwrap();
    assert!(weekly.contains("significant trading volumes"));
    let position = articles[2].description.clone().unwrap();
    assert!(position.contains("high liquidity"));
}

#[test]
fn generate_news_articles_uses_clock_offsets() {
    let info = sample_info();
    let articles = generate_news_articles(&info);
    assert_eq!(articles.len(), 3);
    assert_eq!(articles[1].published_at, articles[0].published_at - 12 * 3600);
    assert_eq!(articles[2].published_at, articles[0].published_at - 24 * 3600);
    assert!(articles[0].published_at > 1_500_000_000);
}

#[test]
fn decimal_rendering_exact_values() {
    assert_eq!(format_u128(0), "0");
    assert_eq!(format_u128(7), "7");
    assert_eq!(format_u128(1203), "1203");
    assert_eq!(format_fixed2(false, 0), "0.00");
    assert_eq!(format_fixed2(false, 5), "0.05");
    assert_eq!(format_fixed2(false, 550), "5.50");
    assert_eq!(format_fixed2(true, 550), "-5.50");
    assert_eq!(format_fixed2(true, 0), "0.00");
    assert_eq!(format_fixed2(false, 123456), "1234.56");
}

#[test]
fn scaled_rendering_exact_values() {
    // $5e10 in hundredths, as millions of dollars
    assert_eq!(format_scaled2(5_000_000_000_000, 1_000_000), "50000.00");
    // $1e12 in hundredths, as billions of dollars
    assert_eq!(format_scaled2(100_000_000_000_000, 1_000_000_000), "1000.00");
    // truncation toward zero, both signs
    assert_eq!(format_scaled2(199, 100), "0.01");
    assert_eq!(format_scaled2(-199, 100), "-0.01");
    assert_eq!(format_scaled2(-99, 100), "0.00");
}

#[test]
fn ratio_rendering_exact_values() {
    assert_eq!(format_ratio2(5_000_000_000_000, 100_000_000_000_000), "5.00");
    assert_eq!(format_ratio2(1, 0), "0.00");
    assert_eq!(format_ratio2(0, 0), "0.00");
    assert_eq!(format_ratio2(333, 1000), "33.30");
}
