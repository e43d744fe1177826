use emojied::leaderboard::Row;
use emojied::url::UriParts;
use emojied::url::{
    fetched_url, normalize_scheme, stats_entry, stats_from_rows, stored_identifier, CreateUrl, DbLink, Error,
};

#[test]
fn parses_without_path() {
    let data = CreateUrl {
        url: "https://news.ycombinator.com".to_string(),
        identifier: "🍊🌐".to_string(),
    };

    assert_eq!(
        DbLink::new(data).unwrap(),
        DbLink {
            identifier: "🍊🌐".to_string(),
            scheme: "https".to_string(),
            host: "news.ycombinator.com".to_string(),
            path: "".to_string()
        }
    )
}

#[test]
fn normalizes_scheme() {
    let uri = "hTTPs://sekun.dev".to_string();

    assert_eq!(
        normalize_scheme(uri).unwrap(),
        "https://sekun.dev".to_string()
    );
}

#[test]
fn ignores_subsequent_scheme_matches() {
    let uri = "hTTPs://sekun.dev/hTtps://foobar.com".to_string();

    assert_eq!(
        normalize_scheme(uri).unwrap(),
        "https://sekun.dev/hTtps://foobar.com"
    )
}

#[test]
fn split_protocol_from_url() {
    let url = "https://sekun.dev";
    let split_url: Vec<&str> = url.split("://").collect();

    assert_eq!(split_url[0], "https");
    assert_eq!(split_url[1], "sekun.dev");
}

fn form(url: &str, identifier: &str) -> CreateUrl {
    CreateUrl { url: url.to_string(), identifier: identifier.to_string() }
}

#[test]
fn normalizes_whole_url_without_separator() {
    assert_eq!(normalize_scheme("HeLLo/World".to_string()).unwrap(), "hello/world");
}

#[test]
fn keeps_path_case() {
    let link = DbLink::new(form("HTTP://example.com/Some/Path?Q=1", "🍆")).unwrap();
    assert_eq!(link.scheme, "http");
    assert_eq!(link.host, "example.com");
    assert_eq!(link.path, "/Some/Path?Q=1");
    assert_eq!(link.identifier, "🍆");
}

#[test]
fn link_reassembles_to_normalized_url() {
    let url = "hTTps://sekun.dev/a/b";
    let link = DbLink::new(form(url, "🍆")).unwrap();
    let joined = format!("{}://{}{}", link.scheme, link.host, link.path);
    assert_eq!(joined, normalize_scheme(url.to_string()).unwrap());
}

#[test]
fn trims_identifier() {
    let link = DbLink::new(form("https://sekun.dev", "  🍆\n")).unwrap();
    assert_eq!(link.identifier, "🍆");
}

#[test]
fn generates_identifier_when_empty() {
    let link = DbLink::new(form("https://sekun.dev", "   ")).unwrap();
    let chars: Vec<char> = link.identifier.chars().collect();
    assert_eq!(chars.len(), 6);
    assert!(chars.iter().all(|c| ('\u{1f600}'..='\u{1f64f}').contains(c)));
}

#[test]
fn rejects_invalid_identifier() {
    assert!(matches!(
        DbLink::new(form("https://sekun.dev", "abc")),
        Err(Error::InvalidIdentifier)
    ));
}

#[test]
fn identifier_checked_before_url() {
    assert!(matches!(
        DbLink::new(form("not a url", "abc")),
        Err(Error::InvalidIdentifier)
    ));
}

#[test]
fn rejects_unsupported_scheme() {
    assert!(matches!(
        DbLink::new(form("ftp://sekun.dev", "🍆")),
        Err(Error::UnsupportedScheme)
    ));
}

#[test]
fn rejects_missing_scheme() {
    assert!(matches!(
        DbLink::new(form("/some/path", "🍆")),
        Err(Error::MissingScheme)
    ));
}

#[test]
fn rejects_invalid_format() {
    assert!(matches!(
        DbLink::new(form("https://exa mple.com", "🍆")),
        Err(Error::InvalidURLFormat)
    ));
}

#[test]
fn rejects_uppercase_host_as_missing_path() {
    assert!(matches!(
        DbLink::new(form("https://SEKUN.dev", "🍆")),
        Err(Error::MissingPath)
    ));
}

#[test]
fn with_identifier_keeps_identifier() {
    let link = DbLink::with_identifier("xyz".to_string(), "https://a.b/c".to_string()).unwrap();
    assert_eq!(link.identifier, "xyz");
    assert_eq!(link.path, "/c");
}

#[test]
fn store_outcomes() {
    assert_eq!(stored_identifier(Ok(Some("🍆".to_string()))).unwrap(), "🍆");
    assert!(matches!(stored_identifier(Ok(None)), Err(Error::EmptyColumn)));
    assert!(matches!(stored_identifier(Err(())), Err(Error::DuplicateIdentifier)));
}

#[test]
fn lookup_outcomes() {
    let e = stats_entry(Some("🍆".to_string()), Some(3), Some("https://a.b".to_string())).unwrap();
    assert_eq!(e.identifier, "🍆");
    assert_eq!(e.clicks, 3);
    assert_eq!(e.url, "https://a.b");
    assert!(matches!(stats_entry(None, Some(3), None), Err(Error::DbCommunicationFailed)));
    assert_eq!(fetched_url(Some("x".to_string())).unwrap(), "x");
    assert!(matches!(fetched_url(None), Err(Error::DbCommunicationFailed)));
}

#[test]
fn db_error_converts() {
    let e: Error = emojied::db::Error::InvalidCACert.into();
    assert!(matches!(e, Error::DbConnectionFailed(emojied::db::Error::InvalidCACert)));
}

#[test]
fn normalizing_twice_changes_nothing() {
    for url in ["hTTPs://sekun.dev/A://B", "HELLO", "Ftp://X", "a:/b://C", "ÀΣB://Ẋ", "İSTANBUL", "ΟΔΟΣ://Σ"] {
        let once = normalize_scheme(url.to_string()).unwrap();
        assert_eq!(normalize_scheme(once.clone()).unwrap(), once);
    }
}

#[test]
fn stored_host_is_lowercase() {
    let link = DbLink::new(form("hTTps://sekun.dev/Path", "🍆")).unwrap();
    assert!(!link.host.chars().any(|c| c.is_ascii_uppercase()));
    assert_eq!(link.path, "/Path");
}

#[test]
fn stats_rows() {
    assert!(matches!(stats_from_rows(vec![]), Err(Error::EmptyColumn)));
    let e = stats_from_rows(vec![Row {
        identifier: Some("🍆".to_string()),
        clicks: Some(5),
        url: Some("https://a.b".to_string()),
    }])
    .unwrap();
    assert_eq!(e.clicks, 5);
    assert!(matches!(
        stats_from_rows(vec![Row { identifier: None, clicks: Some(5), url: None }]),
        Err(Error::DbCommunicationFailed)
    ));
}

#[test]
fn link_from_reported_parts() {
    let parts = UriParts { scheme: Some("HTTPS".to_string()), host: Some("a.b".to_string()) };
    let link = DbLink::link_from_parts("🍆".to_string(), "https://a.b/x".to_string(), Some(parts)).unwrap();
    assert_eq!(link.scheme, "https");
    assert_eq!(link.path, "/x");
    assert!(matches!(
        DbLink::link_from_parts("🍆".to_string(), "x".to_string(), None),
        Err(Error::InvalidURLFormat)
    ));
    let parts = UriParts { scheme: Some("https".to_string()), host: None };
    assert!(matches!(
        DbLink::link_from_parts("🍆".to_string(), "https:///x".to_string(), Some(parts)),
        Err(Error::MissingHost)
    ));
}
