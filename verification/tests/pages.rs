use emojied::leaderboard::{entries_from_rows, Entry, Error as BoardError, Row};
use emojied::pages::{
    asset_reply, fetch_url_finish, leaderboard, fetch_url_start, form_action, inserted,
    rank_label, root, rpc_inserted, short_path, short_url_label, stats_path, url_stats, Asset,
    FetchStep, Page, RpcBody,
};
use emojied::text::decimal_string;
use emojied::url::Error;

#[test]
fn root_page() {
    let r = root(true);
    assert_eq!(r.status, 200);
    assert!(matches!(r.page, Page::Root(ref d) if d.custom_url && d.identifier.is_none()));
}

#[test]
fn insert_replies() {
    let r = inserted(false, Ok("🍆".to_string()));
    assert_eq!(r.status, 201);
    assert!(matches!(r.page, Page::Root(ref d) if !d.custom_url && d.identifier.as_deref() == Some("🍆")));
    let r = inserted(true, Err(Error::DuplicateIdentifier));
    assert_eq!(r.status, 400);
    assert!(matches!(r.page, Page::Root(ref d) if d.custom_url && d.identifier.is_none()));
    let (status, body) = rpc_inserted(Ok("🍆".to_string()));
    assert_eq!(status, 201);
    assert!(matches!(body, RpcBody::Identifier(ref i) if i == "🍆"));
    let (status, body) = rpc_inserted(Err(Error::MissingHost));
    assert_eq!(status, 400);
    assert!(matches!(body, RpcBody::Message(Error::MissingHost)));
}

#[test]
fn stats_replies() {
    let entry = Entry { identifier: "🍆".to_string(), url: "https://a.b".to_string(), clicks: 2 };
    let r = url_stats(Ok(entry));
    assert_eq!(r.status, 200);
    assert!(matches!(r.page, Page::Stats(ref e) if e.clicks == 2));
    let r = url_stats(Err(Error::DbCommunicationFailed));
    assert_eq!(r.status, 404);
    assert!(matches!(r.page, Page::NotFound));
}

#[test]
fn fetch_replies() {
    match fetch_url_start("abc".to_string()) {
        FetchStep::Respond(r) => {
            assert_eq!(r.status, 400);
            assert!(matches!(r.page, Page::NotFound));
        }
        FetchStep::Lookup(_) => panic!("looked up an invalid identifier"),
    }
    assert!(matches!(fetch_url_start("🍆".to_string()), FetchStep::Lookup(ref i) if i == "🍆"));
    let r = fetch_url_finish(Ok("https://sekun.dev".to_string()));
    assert_eq!(r.status, 307);
    assert_eq!(r.location.as_deref(), Some("https://sekun.dev"));
    assert!(matches!(r.page, Page::Empty));
    let r = fetch_url_finish(Err(Error::DbCommunicationFailed));
    assert_eq!(r.status, 404);
    assert!(r.location.is_none());
}

#[test]
fn asset_replies() {
    assert_eq!(Asset::Script.path(), "public/app.js");
    assert_eq!(Asset::Purify.path(), "public/purify.min.js");
    assert_eq!(Asset::Stylesheet.path(), "public/app.css");
    let r = asset_reply(Asset::Stylesheet, Some("body{}".to_string()));
    assert_eq!(r.status, 200);
    assert_eq!(r.content_type, Some("text/css; charset=utf-8"));
    assert_eq!(r.body, "body{}");
    let r = asset_reply(Asset::Script, None);
    assert_eq!(r.status, 404);
    assert_eq!(r.content_type, None);
    assert_eq!(r.body, "Not found");
}

#[test]
fn page_texts() {
    assert_eq!(form_action(true), "/?custom_url=t");
    assert_eq!(form_action(false), "/");
    assert_eq!(short_path("🍆"), "/🍆");
    assert_eq!(stats_path("🍆"), "/stats/🍆");
    assert_eq!(short_url_label("🍆"), "emojied.net/🍆");
    assert_eq!(rank_label(0), "🥇");
    assert_eq!(rank_label(1), "🥈");
    assert_eq!(rank_label(2), "🥉");
    assert_eq!(rank_label(3), "4");
    assert_eq!(rank_label(19), "20");
    for n in [0u64, 7, 10, 99, 100, 12345, u64::MAX] {
        assert_eq!(decimal_string(n), n.to_string());
    }
}

#[test]
fn leaderboard_rows() {
    let rows = vec![
        Row { identifier: Some("a".to_string()), clicks: Some(3), url: Some("u1".to_string()) },
        Row { identifier: Some("b".to_string()), clicks: Some(1), url: Some("u2".to_string()) },
    ];
    let entries = entries_from_rows(rows).unwrap();
    assert_eq!(entries.len(), 2);
    assert_eq!(entries[0].identifier, "a");
    assert_eq!(entries[1].url, "u2");
    let rows = vec![
        Row { identifier: Some("a".to_string()), clicks: Some(3), url: Some("u1".to_string()) },
        Row { identifier: Some("b".to_string()), clicks: None, url: Some("u2".to_string()) },
    ];
    assert!(matches!(entries_from_rows(rows), Err(BoardError::EmptyColumn)));
    assert!(entries_from_rows(vec![]).unwrap().is_empty());
}

#[test]
fn leaderboard_replies() {
    let entries = vec![Entry { identifier: "a".to_string(), url: "u".to_string(), clicks: 9 }];
    let r = leaderboard(Ok(entries));
    assert_eq!(r.status, 200);
    assert!(matches!(r.page, Page::Leaderboard(ref es) if es.len() == 1 && es[0].clicks == 9));
    let r = leaderboard(Err(BoardError::DbCommunicationFailed));
    assert_eq!(r.status, 404);
    assert!(matches!(r.page, Page::NotFound));
}
