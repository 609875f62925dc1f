use crypto_news::client::{article_from_raw, classify_status, interpret_payload};
use crypto_news::facade::{facade_status, fetch_failed_message, not_found_message};
use crypto_news::models::{AppError, CryptoInfo, RawArticle, RawCoinData, RawPayload, RawUsdQuote};
use crypto_news::synthesis::synthesize;

fn full_quote() -> RawUsdQuote {
    RawUsdQuote {
        price: Some(5_000_000),
        market_cap: Some(100_000_000_000_000),
        volume_24h: Some(5_000_000_000_000),
        percent_change_24h: Some(250),
        percent_change_7d: Some(-300),
        last_updated: Some(String::from("2024-01-01T00:00:00.000Z")),
    }
}

fn full_payload() -> RawPayload {
    RawPayload {
        error_message: None,
        coin: Some(RawCoinData {
            name: Some(String::from("Bitcoin")),
            symbol: Some(String::from("BTC")),
            slug: Some(String::from("bitcoin")),
            quote: Some(full_quote()),
        }),
    }
}

#[test]
fn full_payload_yields_full_snapshot() {
    let info = interpret_payload(full_payload(), "BTC").unwrap();
    assert_eq!(info.name, "Bitcoin");
    assert_eq!(info.symbol, "BTC");
    assert_eq!(info.slug, "bitcoin");
    assert_eq!(info.price, 5_000_000);
    assert_eq!(info.market_cap, 100_000_000_000_000);
    assert_eq!(info.volume_24h, 5_000_000_000_000);
    assert_eq!(info.percent_change_24h, 250);
    assert_eq!(info.percent_change_7d, -300);
    assert_eq!(info.last_updated, "2024-01-01T00:00:00.000Z");
}

#[test]
fn missing_volume_defaults_to_zero_and_synthesis_still_works() {
    let mut payload = full_payload();
    payload.coin.as_mut().unwrap().quote.as_mut().unwrap().volume_24h = None;
    let info = interpret_payload(payload, "BTC").unwrap();
    assert_eq!(info.volume_24h, 0);
    assert_eq!(info.price, 5_000_000);
    let articles = synthesize(&info, 0);
    assert_eq!(articles.len(), 3);
    let trend = articles[0].description.clone().unwrap();
    assert!(trend.contains("trading volume is $0.00 million"));
}

#[test]
fn missing_quote_defaults_every_number_to_zero() {
    let payload = RawPayload {
        error_message: None,
        coin: Some(RawCoinData {
            name: None,
            symbol: None,
            slug: None,
            quote: None,
        }),
    };
    let info = interpret_payload(payload, "BTC").unwrap();
    assert_eq!(info.name, "Unknown");
    assert_eq!(info.symbol, "BTC");
    assert_eq!(info.slug, "unknown");
    assert_eq!(info.price, 0);
    assert_eq!(info.market_cap, 0);
    assert_eq!(info.volume_24h, 0);
    assert_eq!(info.percent_change_24h, 0);
    assert_eq!(info.percent_change_7d, 0);
    assert_eq!(info.last_updated, "Unknown");
}

#[test]
fn provider_error_message_yields_no_data() {
    let mut payload = full_payload();
    payload.error_message = Some(String::from("API key invalid"));
    assert!(interpret_payload(payload, "BTC").is_none());
}

#[test]
fn missing_entry_yields_no_data_and_404() {
    let payload = RawPayload {
        error_message: None,
        coin: None,
    };
    let outcome: Result<Option<CryptoInfo>, AppError> =
        Ok(interpret_payload(payload, "BTC"));
    assert!(matches!(outcome, Ok(None)));
    assert_eq!(facade_status(&outcome), 404);
    let message = not_found_message("BTC");
    assert_eq!(message, "No data found for cryptocurrency with symbol: BTC");
    assert!(message.contains("BTC"));
}

#[test]
fn status_429_surfaces_as_rate_limit_and_maps_to_429() {
    let classified = classify_status(429, String::from("slow down"));
    assert!(matches!(classified, Err(AppError::RateLimitExceeded)));
    let outcome: Result<Option<CryptoInfo>, AppError> = Err(AppError::RateLimitExceeded);
    assert_eq!(facade_status(&outcome), 429);
}

#[test]
fn status_2xx_classifies_as_success() {
    assert!(classify_status(200, String::new()).is_ok());
    assert!(classify_status(299, String::new()).is_ok());
    assert!(classify_status(201, String::new()).is_ok());
}

#[test]
fn other_statuses_classify_as_upstream_error_with_body() {
    match classify_status(500, String::from("boom")) {
        Err(AppError::UpstreamError(body)) => assert_eq!(body, "boom"),
        other => panic!("unexpected classification: {:?}", other),
    }
    assert!(matches!(
        classify_status(300, String::new()),
        Err(AppError::UpstreamError(_))
    ));
    assert!(matches!(
        classify_status(199, String::new()),
        Err(AppError::UpstreamError(_))
    ));
}

#[test]
fn error_statuses_and_messages() {
    let transport = AppError::TransportError(String::from("connection reset"));
    assert_eq!(transport.http_status(), 502);
    assert_eq!(transport.log_message(), "API request failed: connection reset");
    assert_eq!(transport.response_message(), "API service error");

    let limit = AppError::RateLimitExceeded;
    assert_eq!(limit.http_status(), 429);
    assert_eq!(limit.log_message(), "CoinMarketCap API limit reached");
    assert_eq!(limit.response_message(), "API limit reached");

    let upstream = AppError::UpstreamError(String::from("bad gateway"));
    assert_eq!(upstream.http_status(), 400);
    assert_eq!(upstream.log_message(), "API error: bad gateway");
    assert_eq!(upstream.response_message(), "API error: bad gateway");
}

#[test]
fn facade_statuses_for_each_outcome() {
    let info = interpret_payload(full_payload(), "BTC").unwrap();
    let ok: Result<Option<CryptoInfo>, AppError> = Ok(Some(info));
    assert_eq!(facade_status(&ok), 200);
    let transport: Result<Option<CryptoInfo>, AppError> =
        Err(AppError::TransportError(String::from("dns")));
    assert_eq!(facade_status(&transport), 502);
    let upstream: Result<Option<CryptoInfo>, AppError> =
        Err(AppError::UpstreamError(String::from("oops")));
    assert_eq!(facade_status(&upstream), 400);
}

#[test]
fn legacy_article_fields_default_independently() {
    let raw = RawArticle {
        title: None,
        url: None,
        source: None,
        published_at: None,
        description: None,
    };
    let article = article_from_raw(raw, 1_700_000_000);
    assert_eq!(article.title, "");
    assert_eq!(article.url, "");
    assert_eq!(article.source, "Unknown");
    assert_eq!(article.published_at, 1_700_000_000);
    assert!(article.description.is_none());

    let raw = RawArticle {
        title: Some(String::from("Headline")),
        url: Some(String::from("https://example.com/a")),
        source: Some(String::from("Desk")),
        published_at: Some(42),
        description: Some(String::from("")),
    };
    let article = article_from_raw(raw, 1_700_000_000);
    assert_eq!(article.title, "Headline");
    assert_eq!(article.url, "https://example.com/a");
    assert_eq!(article.source, "Desk");
    assert_eq!(article.published_at, 42);
    // an empty description is present, not absent
    assert_eq!(article.description.as_deref(), Some(""));
}

#[test]
fn generic_failure_message_is_fixed() {
    assert_eq!(
        fetch_failed_message(),
        "Failed to fetch cryptocurrency data. Please try again."
    );
}
