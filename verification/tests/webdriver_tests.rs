use infra_utils::net::webdriver::{
    chrome_arguments, chrome_prefs, contents_found, creation_retry_delay_secs, datetime_parts, datetime_parts_by_pattern,
    datetime_pattern, datetime_of_scraped, excluded_switch, DateTimeParts, DatetimeError, DatetimePatternError,
    next_page_step, pool_retry_delay_secs, ByLocator, DateParts, NextPageStep, SelectorType, WebDriverConfig,
};
use infra_utils::json::JsonValue;
use infra_utils::text::{i64_to_decimal, join_strings, u64_to_decimal};

#[test]
fn config_defaults_and_pool() {
    let c = WebDriverConfig::default();
    assert_eq!(c.pool_max_size, 3);
    assert_eq!(c.page_load_timeout_sec, Some(30000));
    let p = c.pool_config();
    assert_eq!(p.max_size, 3);
    assert_eq!(p.wait, Some(120000));
    assert_eq!(p.create, Some(60000));
    assert_eq!(p.recycle, Some(30000));
    assert!(p.fifo);
    assert_eq!(c.server_url(), "http://localhost:9515");
    let mut c2 = WebDriverConfig::default();
    c2.page_load_timeout_sec = None;
    assert_eq!(c2.session_timeouts(), (5000, 30000));
}

#[test]
fn selector_types_by_number() {
    assert_eq!(SelectorType::new(0), None);
    assert_eq!(SelectorType::new(1), Some(SelectorType::ById));
    assert_eq!(SelectorType::new(3), Some(SelectorType::ByCSS));
    assert_eq!(SelectorType::new(7), Some(SelectorType::ByLinkText));
    assert_eq!(SelectorType::new(8), None);
    assert_eq!(SelectorType::new(-1), None);
    assert!(matches!(SelectorType::ByCSS.to_by("h1.title"), ByLocator::Css(s) if s == "h1.title"));
    assert!(matches!(SelectorType::ByXPath.to_by("//a"), ByLocator::XPath(s) if s == "//a"));
}

#[test]
fn chrome_arguments_end_with_agent_and_language() {
    let args = chrome_arguments(&Some("bot/1.0".to_string()));
    assert_eq!(args[0], "start-maximized");
    assert_eq!(args[args.len() - 2], "--user-agent=bot/1.0");
    assert_eq!(args[args.len() - 1], "--lang=ja-JP");
    let args = chrome_arguments(&None);
    assert!(args[args.len() - 2].starts_with("--user-agent=Mozilla/5.0"));
    assert_eq!(excluded_switch(), "enable-automation");
    match chrome_prefs() {
        JsonValue::Object(m) => assert_eq!(m.len(), 14),
        _ => panic!("prefs must be an object"),
    }
}

#[test]
fn retry_delays() {
    assert_eq!(creation_retry_delay_secs(1), Some(1));
    assert_eq!(creation_retry_delay_secs(2), Some(2));
    assert_eq!(creation_retry_delay_secs(3), None);
    assert_eq!(pool_retry_delay_secs(1, 3), Some(2));
    assert_eq!(pool_retry_delay_secs(3, 3), None);
}

#[test]
fn page_following_stops() {
    assert_eq!(next_page_step(true, 1), NextPageStep::StopEmpty);
    assert_eq!(next_page_step(false, 50), NextPageStep::KeepAndFollow);
    assert_eq!(next_page_step(false, 51), NextPageStep::KeepAndStop);
    assert!(!contents_found(&vec![]));
    assert!(contents_found(&vec!["x".to_string()]));
}

#[test]
fn datetime_parts_from_groups() {
    let caps = vec![
        Some("20230123185156".to_string()),
        Some("2023".to_string()),
        Some("01".to_string()),
        Some("23".to_string()),
        Some("18".to_string()),
        Some("51".to_string()),
        Some("56".to_string()),
    ];
    assert_eq!(
        datetime_parts(&caps, 1999),
        Ok(DateParts { year: 2023, month: 1, day: 23, hour: 18, minute: 51, second: 56 })
    );
    let caps = vec![Some("x".to_string()), None, Some("5".to_string())];
    assert_eq!(
        datetime_parts(&caps, 2024),
        Ok(DateParts { year: 2024, month: 5, day: 0, hour: 0, minute: 0, second: 0 })
    );
    let caps = vec![Some("x".to_string()), Some("20x3".to_string())];
    assert!(datetime_parts(&caps, 2024).is_err());
    let caps = vec![Some("x".to_string()), Some("2023".to_string()), Some("-1".to_string())];
    assert_eq!(datetime_parts(&caps, 2024).unwrap_err().group, 2);
}

#[test]
fn decimal_text() {
    assert_eq!(u64_to_decimal(0), "0");
    assert_eq!(u64_to_decimal(1234567890), "1234567890");
    assert_eq!(i64_to_decimal(-42), "-42");
    assert_eq!(i64_to_decimal(i64::MIN), "-9223372036854775808");
    assert_eq!(join_strings(&vec!["a".to_string(), "b".to_string()], " -> "), "a -> b");
    assert_eq!(join_strings(&vec![], ","), "");
}

#[test]
fn datetime_by_pattern() {
    let pattern = r"(\d{4})(\d{2})(\d{2})(\d{2})(\d{2})(\d{2})";
    assert_eq!(
        datetime_parts_by_pattern(pattern, "posted 20230123185156", 1999).unwrap(),
        Some(DateParts { year: 2023, month: 1, day: 23, hour: 18, minute: 51, second: 56 })
    );
    assert_eq!(
        datetime_parts_by_pattern(r"(\d+)?/(\d+)/(\d+)", "/3/4", 2020).unwrap(),
        Some(DateParts { year: 2020, month: 3, day: 4, hour: 0, minute: 0, second: 0 })
    );
    assert_eq!(datetime_parts_by_pattern(pattern, "no digits here", 2020).unwrap(), None);
    assert!(matches!(datetime_parts_by_pattern("(", "2023", 2020), Err(DatetimePatternError::Pattern(_))));
    match datetime_parts_by_pattern(r"(\w+)-(\d+)", "abc-7", 2020) {
        Err(DatetimePatternError::Group(e)) => assert_eq!(e.group, 1),
        other => panic!("unexpected: {:?}", other),
    }
}

#[test]
fn datetime_pattern_needs_text() {
    assert_eq!(datetime_pattern(&None), None);
    assert_eq!(datetime_pattern(&Some(String::new())), None);
    let p = Some("(\\d+)".to_string());
    assert_eq!(datetime_pattern(&p), p.as_ref());
}

#[test]
fn scraped_datetime_without_pattern() {
    assert_eq!(
        datetime_of_scraped("2023-01-23T18:51:56+09:00", &None, 1999).unwrap(),
        Some(DateTimeParts {
            year: 2023,
            month: 1,
            day: 23,
            hour: 18,
            minute: 51,
            second: 56,
            nanosecond: 0,
            offset_seconds: 9 * 3600,
        })
    );
    let empty_pattern = Some(String::new());
    assert_eq!(
        datetime_of_scraped("2020-02-29T00:00:00.5Z", &empty_pattern, 1999).unwrap().map(|d| (d.day, d.nanosecond)),
        Some((29, 500_000_000))
    );
    assert!(matches!(datetime_of_scraped("yesterday", &None, 1999), Err(DatetimeError::Unreadable(_))));
}

#[test]
fn scraped_datetime_with_pattern() {
    let pattern = Some(r"(\d{4})(\d{2})(\d{2})(\d{2})(\d{2})(\d{2})".to_string());
    match datetime_of_scraped("20230123185156", &pattern, 1999).unwrap() {
        Some(d) => {
            assert_eq!((d.year, d.month, d.day, d.hour, d.minute, d.second, d.nanosecond), (2023, 1, 23, 18, 51, 56, 0))
        }
        None => panic!("a valid local time was expected"),
    }
    assert_eq!(datetime_of_scraped("no date", &pattern, 1999).unwrap(), None);
    assert!(matches!(datetime_of_scraped("x", &Some("(".to_string()), 1999), Err(DatetimeError::Pattern(_))));
    let month_pattern = Some(r"(\d+)?/(\d+)/(\d+)".to_string());
    assert!(matches!(datetime_of_scraped("/13/40", &month_pattern, 2020), Ok(None)));
}
