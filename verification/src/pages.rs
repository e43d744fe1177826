//! What the service answers: the status, redirect target and page of each
//! reply, and the pieces of text that the pages are built from.
use vstd::prelude::*;

use crate::emoji;
use crate::leaderboard;
use crate::text::{concat, decimal, decimal_string};
use crate::url;

verus! {

/// What the root page shows: whether the identifier field is offered, and
/// the identifier just made, if any.
pub struct RootData {
    pub custom_url: bool,
    pub identifier: Option<String>,
}

/// A page of the service.
pub enum Page {
    /// The root page with its form.
    Root(RootData),
    /// The statistics of one link.
    Stats(leaderboard::Entry),
    /// The most clicked links, most clicked first.
    Leaderboard(Vec<leaderboard::Entry>),
    /// The page for what cannot be found.
    NotFound,
    /// No content.
    Empty,
}

/// A reply: HTTP status, redirect target and page.
pub struct Reply {
    pub status: u16,
    pub location: Option<String>,
    pub page: Page,
}

/// The root page, with the identifier field when `custom_url` is asked for.
pub fn root(custom_url: bool) -> (res: Reply)
    ensures
        res.status == 200,
        res.location is None,
        res.page matches Page::Root(data) && data.custom_url == custom_url && data.identifier is None,
{
    Reply { status: 200, location: None, page: Page::Root(RootData { custom_url, identifier: None }) }
}

/// The reply to a submitted form: `201 Created` with the root page showing
/// the new identifier, or `400 Bad Request` with the bare root page.
pub fn inserted(custom_url: bool, result: Result<String, url::Error>) -> (res: Reply)
    ensures
        res.location is None,
        match result {
            Ok(id) => res.status == 201 && (res.page matches Page::Root(data) && data.custom_url
                == custom_url && data.identifier == Some(id)),
            Err(_) => res.status == 400 && (res.page matches Page::Root(data) && data.custom_url
                == custom_url && data.identifier is None),
        },
{
    match result {
        Ok(i) => Reply {
            status: 201,
            location: None,
            page: Page::Root(RootData { custom_url, identifier: Some(i) }),
        },
        Err(_) => Reply {
            status: 400,
            location: None,
            page: Page::Root(RootData { custom_url, identifier: None }),
        },
    }
}

/// The body of a reply to a programmatic submission.
pub enum RpcBody {
    /// The identifier that was stored.
    Identifier(String),
    /// Why nothing was stored.
    Message(url::Error),
}

/// The reply to a programmatic submission: `201 Created` with the
/// identifier, or `400 Bad Request` with the error.
pub fn rpc_inserted(result: Result<String, url::Error>) -> (res: (u16, RpcBody))
    ensures
        match result {
            Ok(id) => res.0 == 201 && res.1 == RpcBody::Identifier(id),
            Err(e) => res.0 == 400 && res.1 == RpcBody::Message(e),
        },
{
    match result {
        Ok(identifier) => (201, RpcBody::Identifier(identifier)),
        Err(e) => (400, RpcBody::Message(e)),
    }
}

/// The reply to a statistics request: `200 OK` with the statistics, or
/// `404 Not Found`.
pub fn url_stats(result: Result<leaderboard::Entry, url::Error>) -> (res: Reply)
    ensures
        res.location is None,
        match result {
            Ok(entry) => res.status == 200 && res.page == Page::Stats(entry),
            Err(_) => res.status == 404 && res.page is NotFound,
        },
{
    match result {
        Ok(entry) => Reply { status: 200, location: None, page: Page::Stats(entry) },
        Err(_) => Reply { status: 404, location: None, page: Page::NotFound },
    }
}

/// The reply to a leaderboard request: `200 OK` with the entries in the
/// order the look-up reported them, or `404 Not Found` when they could not
/// be read.
pub fn leaderboard(result: Result<Vec<leaderboard::Entry>, leaderboard::Error>) -> (res: Reply)
    ensures
        res.location is None,
        match result {
            Ok(entries) => res.status == 200 && res.page == Page::Leaderboard(entries),
            Err(_) => res.status == 404 && res.page is NotFound,
        },
{
    match result {
        Ok(entries) => Reply { status: 200, location: None, page: Page::Leaderboard(entries) },
        Err(_) => Reply { status: 404, location: None, page: Page::NotFound },
    }
}

/// What following a short link does first: answer at once, or look the
/// identifier up.
pub enum FetchStep {
    Respond(Reply),
    Lookup(String),
}

/// Following a short link: an identifier that is not made of emoji is
/// answered `400 Bad Request` without a look-up; any other is looked up.
pub fn fetch_url_start(identifier: String) -> (res: FetchStep)
    ensures
        emoji::spec_is_valid(identifier@) ==> res == FetchStep::Lookup(identifier),
        !emoji::spec_is_valid(identifier@) ==> (res matches FetchStep::Respond(reply) && reply.status
            == 400 && reply.location is None && reply.page is NotFound),
{
    if emoji::is_valid(identifier.as_str()) {
        FetchStep::Lookup(identifier)
    } else {
        FetchStep::Respond(Reply { status: 400, location: None, page: Page::NotFound })
    }
}

/// Following a short link, once looked up: `307 Temporary Redirect` to the
/// stored URL (temporary, so that browsers do not cache it), or `404 Not
/// Found`.
pub fn fetch_url_finish(found: Result<String, url::Error>) -> (res: Reply)
    ensures
        match found {
            Ok(u) => res.status == 307 && res.location == Some(u) && res.page is Empty,
            Err(_) => res.status == 404 && res.location is None && res.page is NotFound,
        },
{
    match found {
        Ok(u) => Reply { status: 307, location: Some(u), page: Page::Empty },
        Err(_) => Reply { status: 404, location: None, page: Page::NotFound },
    }
}

/// A static file that the pages load.
#[derive(Clone, Copy, Debug, PartialEq, Eq, Structural)]
pub enum Asset {
    Script,
    Purify,
    Stylesheet,
}

impl Asset {
    /// Where the file is read from.
    pub fn path(&self) -> (res: &'static str)
        ensures
            res@ == match *self {
                Asset::Script => "public/app.js"@,
                Asset::Purify => "public/purify.min.js"@,
                Asset::Stylesheet => "public/app.css"@,
            },
    {
        match self {
            Asset::Script => "public/app.js",
            Asset::Purify => "public/purify.min.js",
            Asset::Stylesheet => "public/app.css",
        }
    }

    /// The content type the file is served with.
    pub fn content_type(&self) -> (res: &'static str)
        ensures
            res@ == match *self {
                Asset::Script => "application/javascript; charset=utf-8"@,
                Asset::Purify => "application/javascript; charset=utf-8"@,
                Asset::Stylesheet => "text/css; charset=utf-8"@,
            },
    {
        match self {
            Asset::Script => "application/javascript; charset=utf-8",
            Asset::Purify => "application/javascript; charset=utf-8",
            Asset::Stylesheet => "text/css; charset=utf-8",
        }
    }
}

/// The reply that serves a static file.
pub struct AssetReply {
    pub status: u16,
    pub content_type: Option<&'static str>,
    pub body: String,
}

/// Serving a static file: `200 OK` with its content type and contents when
/// it could be read, `404 Not Found` with "Not found" otherwise.
pub fn asset_reply(asset: Asset, content: Option<String>) -> (res: AssetReply)
    ensures
        match content {
            Some(c) => res.status == 200 && res.body == c && (res.content_type matches Some(t) && t@
                == match asset {
                Asset::Stylesheet => "text/css; charset=utf-8"@,
                _ => "application/javascript; charset=utf-8"@,
            }),
            None => res.status == 404 && res.content_type is None && res.body@ == "Not found"@,
        },
{
    match content {
        Some(c) => AssetReply { status: 200, content_type: Some(asset.content_type()), body: c },
        None => AssetReply { status: 404, content_type: None, body: String::from_str("Not found") },
    }
}

/// Where the root form posts to: back to the page with the identifier field
/// when it is shown.
pub fn form_action(custom_url: bool) -> (res: &'static str)
    ensures
        res@ == if custom_url {
            "/?custom_url=t"@
        } else {
            "/"@
        },
{
    if custom_url {
        "/?custom_url=t"
    } else {
        "/"
    }
}

/// The path of a short link.
pub fn short_path(identifier: &str) -> (res: String)
    ensures
        res@ == "/"@ + identifier@,
{
    concat("/", identifier)
}

/// The path of a short link's statistics.
pub fn stats_path(identifier: &str) -> (res: String)
    ensures
        res@ == "/stats/"@ + identifier@,
{
    concat("/stats/", identifier)
}

/// A short link as it is shown.
pub fn short_url_label(identifier: &str) -> (res: String)
    ensures
        res@ == "emojied.net/"@ + identifier@,
{
    concat("emojied.net/", identifier)
}

/// The rank shown on the leaderboard for a zero-based position: medals for
/// the first three, the one-based number after that.
pub fn rank_label(rank: usize) -> (res: String)
    requires
        rank < usize::MAX,
    ensures
        res@ == if rank == 0 {
            "🥇"@
        } else if rank == 1 {
            "🥈"@
        } else if rank == 2 {
            "🥉"@
        } else {
            decimal((rank + 1) as nat)
        },
{
    if rank == 0 {
        String::from_str("🥇")
    } else if rank == 1 {
        String::from_str("🥈")
    } else if rank == 2 {
        String::from_str("🥉")
    } else {
        decimal_string((rank + 1) as u64)
    }
}

} // verus!
