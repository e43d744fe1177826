//! Turning a submitted URL and identifier into the link that is stored, and
//! the outcomes of the stores and look-ups made for it.
use vstd::prelude::*;

use crate::db;
use crate::emoji;
use crate::leaderboard;
use crate::text::{
    all_ascii, ascii_lower, free_of, ascii_lower_char, concat, find, first_occurrence, is_ascii_upper,
    lemma_first_occurrence, no_ascii_upper, occurs_at, occurs_before, slice_string,
    spec_strip_prefix, spec_trim, strip_prefix, to_chars, unicode_lowercase,
};

verus! {

/// A submitted URL and the identifier wished for it (empty for a made-up one).
pub struct CreateUrl {
    pub url: String,
    pub identifier: String,
}

/// The link that is stored: an identifier and the URL cut into scheme, host
/// and the rest.
#[derive(Debug, PartialEq, Eq)]
pub struct DbLink {
    pub identifier: String,
    pub scheme: String,
    pub host: String,
    pub path: String,
}

/// The characters of each field of a `DbLink`.
pub struct LinkView {
    pub identifier: Seq<char>,
    pub scheme: Seq<char>,
    pub host: Seq<char>,
    pub path: Seq<char>,
}

impl View for DbLink {
    type V = LinkView;

    open spec fn view(&self) -> LinkView {
        LinkView {
            identifier: self.identifier@,
            scheme: self.scheme@,
            host: self.host@,
            path: self.path@,
        }
    }
}

/// Why a URL could not be shortened, stored or found.
#[derive(Debug)]
pub enum Error {
    DbConnectionFailed(db::Error),
    DbCommunicationFailed,
    FailedToPrepareQuery,
    EmptyColumn,
    DuplicateIdentifier,
    InvalidURLFormat,
    MissingScheme,
    UnsupportedScheme,
    MissingHost,
    MissingPath,
    InvalidIdentifier,
}

impl From<db::Error> for Error {
    fn from(e: db::Error) -> (res: Self)
        ensures
            res == Error::DbConnectionFailed(e),
    {
        Error::DbConnectionFailed(e)
    }
}

impl vstd::std_specs::convert::FromSpecImpl<db::Error> for Error {
    open spec fn obeys_from_spec() -> bool {
        true
    }

    open spec fn from_spec(e: db::Error) -> Self {
        Error::DbConnectionFailed(e)
    }
}

/// `url` with the part before the first `://` lowercased (all of it when
/// there is no `://`).
pub open spec fn spec_normalize_scheme(url: Seq<char>) -> Seq<char> {
    match first_occurrence(url, "://"@) {
        Some(k) => unicode_lowercase(url.subrange(0, k)) + url.subrange(k, url.len() as int),
        None => unicode_lowercase(url),
    }
}

/// `spec_normalize_scheme` for an ASCII URL: the lowercasing is the ASCII one.
pub open spec fn ascii_normalize_scheme(url: Seq<char>) -> Seq<char> {
    match first_occurrence(url, "://"@) {
        Some(k) => ascii_lower(url.subrange(0, k)) + url.subrange(k, url.len() as int),
        None => ascii_lower(url),
    }
}

/// Normalizes the scheme part of a URI: lowercases what stands before the
/// first `://` and keeps the rest as it is.
pub fn normalize_scheme(url: String) -> (res: Result<String, Error>)
    ensures
        res matches Ok(u) && u@ == spec_normalize_scheme(url@),
        res matches Ok(u) && spec_normalize_scheme(u@) == u@,
        all_ascii(url@) ==> (res matches Ok(u) && u@ == ascii_normalize_scheme(url@)),
{
    proof {
        lemma_first_occurrence(url@, "://"@);
    }
    match find(url.as_str(), "://") {
        Some(k) => {
            let cs = to_chars(url.as_str());
            let scheme = slice_string(&cs, 0, k);
            assert(all_ascii(url@) ==> all_ascii(scheme@));
            let rest = slice_string(&cs, k, cs.len());
            let lowered = scheme.as_str().to_lowercase();
            let normalized = concat(lowered.as_str(), rest.as_str());
            proof {
                lemma_normalized_head_is_fixed(url@, k as int, lowered@);
            }
            Ok(normalized)
        },
        None => {
            let lowered = url.as_str().to_lowercase();
            proof {
                lemma_normalized_whole_is_fixed(url@, lowered@);
            }
            Ok(lowered)
        },
    }
}

/// Whether `hyper::Uri` accepts the text as a URI.
pub uninterp spec fn uri_parses(s: Seq<char>) -> bool;

/// The scheme that `hyper::Uri::scheme_str` reports for the parsed text.
pub uninterp spec fn uri_scheme(s: Seq<char>) -> Option<Seq<char>>;

/// The host that `hyper::Uri::host` reports for the parsed text.
pub uninterp spec fn uri_host(s: Seq<char>) -> Option<Seq<char>>;

/// The characters of an optional string.
pub open spec fn opt_view(o: Option<String>) -> Option<Seq<char>> {
    match o {
        Some(s) => Some(s@),
        None => None,
    }
}

/// The scheme and host of a parsed URI.
pub struct UriParts {
    pub scheme: Option<String>,
    pub host: Option<String>,
}

/// Trusted: parses the text with `<hyper::Uri as FromStr>::from_str` and
/// reads `scheme_str` and `host` of the result. All three are functions of
/// the text alone (the `http` crate's parser is deterministic); what they
/// return is named, not restated. The host is a piece of the text: the
/// parser keeps the authority as a slice of the input, and `host` slices it
/// further (`http` source, `uri/mod.rs` `parse_full`, `uri/authority.rs`
/// `host`).
#[verifier::external_body]
fn parse_uri(s: &str) -> (res: Option<UriParts>)
    ensures
        res is Some <==> uri_parses(s@),
        res matches Some(p) ==> opt_view(p.scheme) == uri_scheme(s@) && opt_view(p.host)
            == uri_host(s@),
        res matches Some(p) ==> (p.host matches Some(h) ==> exists|i: int|
            0 <= i && i + h@.len() <= s@.len() && #[trigger] s@.subrange(i, i + h@.len()) == h@),
{
    match s.parse::<hyper::Uri>() {
        Ok(uri) => Some(
            UriParts { scheme: uri.scheme_str().map(String::from), host: uri.host().map(String::from) },
        ),
        Err(_) => None,
    }
}

/// What parsing a URI gave: nothing when it was refused, else its scheme
/// and host.
pub open spec fn parts_view(p: Option<UriParts>) -> Option<(Option<Seq<char>>, Option<Seq<char>>)> {
    match p {
        Some(parts) => Some((opt_view(parts.scheme), opt_view(parts.host))),
        None => None,
    }
}

/// The scheme, host and path into which a normalized URL is cut, given what
/// parsing its lowercase gave, or why it cannot be: the URL must parse, its
/// scheme, lowercased, must be `http` or `https`, it must have a host, and
/// the path is what follows `scheme://host` in the normalized URL.
pub open spec fn spec_link_from_uri(
    url: Seq<char>,
    parsed: Option<(Option<Seq<char>>, Option<Seq<char>>)>,
) -> Result<(Seq<char>, Seq<char>, Seq<char>), Error> {
    match parsed {
        None => Err(Error::InvalidURLFormat),
        Some((scheme_reported, host_reported)) => match scheme_reported {
            None => Err(Error::MissingScheme),
            Some(raw) => {
                let scheme = unicode_lowercase(raw);
                if scheme != "http"@ && scheme != "https"@ {
                    Err(Error::UnsupportedScheme)
                } else {
                    match host_reported {
                        None => Err(Error::MissingHost),
                        Some(host) => match spec_strip_prefix(url, scheme + "://"@ + host) {
                            None => Err(Error::MissingPath),
                            Some(path) => Ok((scheme, host, path)),
                        },
                    }
                }
            },
        },
    }
}

/// The scheme, host and path into which a submitted URL is cut, or why it
/// cannot be: the scheme is normalized, the lowercased URL is parsed, and
/// the outcome is cut as `spec_link_from_uri` says.
pub open spec fn spec_link_parts(url: Seq<char>) -> Result<(Seq<char>, Seq<char>, Seq<char>), Error> {
    let url = spec_normalize_scheme(url);
    let lowered = unicode_lowercase(url);
    spec_link_from_uri(
        url,
        if uri_parses(lowered) {
            Some((uri_scheme(lowered), uri_host(lowered)))
        } else {
            None
        },
    )
}

/// Whether `res` is the link that `identifier` and `url` make.
pub open spec fn is_link_for(res: Result<DbLink, Error>, identifier: Seq<char>, url: Seq<char>) -> bool {
    match spec_link_parts(url) {
        Ok((scheme, host, path)) => res matches Ok(link) && link@ == LinkView {
            identifier,
            scheme,
            host,
            path,
        },
        Err(e) => res == Err::<DbLink, Error>(e),
    }
}

impl DbLink {
    /// The link that an identifier, already settled, and a submitted URL make.
    pub fn with_identifier(identifier: String, url: String) -> (res: Result<DbLink, Error>)
        ensures
            is_link_for(res, identifier@, url@),
            res matches Ok(link) ==> no_ascii_upper(link.host@),
    {
        let url = match normalize_scheme(url) {
            Ok(u) => u,
            Err(e) => return Err(e),
        };
        let lowered = url.as_str().to_lowercase();
        let parts = parse_uri(lowered.as_str());
        proof {
            if parts is Some && parts->Some_0.host is Some {
                let host = parts->Some_0.host->Some_0@;
                let i = choose|i: int|
                    0 <= i && i + host.len() <= lowered@.len() && #[trigger] lowered@.subrange(
                        i,
                        i + host.len(),
                    ) == host;
                assert forall|j: int| 0 <= j < host.len() implies !is_ascii_upper(#[trigger] host[j]) by {
                    assert(host[j] == lowered@[i + j]);
                }
            }
        }
        DbLink::link_from_parts(identifier, url, parts)
    }

    /// The link that an identifier, a normalized URL and what parsing the
    /// URL's lowercase gave make.
    pub fn link_from_parts(identifier: String, url: String, parts: Option<UriParts>) -> (res: Result<
        DbLink,
        Error,
    >)
        ensures
            match spec_link_from_uri(url@, parts_view(parts)) {
                Ok((scheme, host, path)) => res matches Ok(link) && link@ == LinkView {
                    identifier: identifier@,
                    scheme,
                    host,
                    path,
                },
                Err(e) => res == Err::<DbLink, Error>(e),
            },
            ({
                &&& parts matches Some(p)
                &&& p.scheme matches Some(raw)
                &&& p.host matches Some(h)
                &&& (unicode_lowercase(raw@) == "http"@ || unicode_lowercase(raw@) == "https"@)
                &&& ({
                    let prefix = unicode_lowercase(raw@) + "://"@ + h@;
                    prefix.len() <= url@.len() && url@.subrange(0, prefix.len() as int) == prefix
                })
            }) ==> ({
                let p = parts->Some_0;
                let scheme = unicode_lowercase(p.scheme->Some_0@);
                let host = p.host->Some_0@;
                let cut = (scheme.len() + 3 + host.len()) as int;
                &&& res matches Ok(link)
                &&& link@.identifier == identifier@
                &&& link@.scheme == scheme
                &&& link@.host == host
                &&& link@.path == url@.subrange(cut, url@.len() as int)
            }),
            res matches Ok(link) ==> link@.scheme + "://"@ + link@.host + link@.path == url@,
    {
        proof {
            reveal_strlit("://");
        }
        let parts = match parts {
            Some(p) => p,
            None => return Err(Error::InvalidURLFormat),
        };
        let scheme = match parts.scheme {
            Some(raw) => raw.as_str().to_lowercase(),
            None => return Err(Error::MissingScheme),
        };
        let http = String::from_str("http");
        let https = String::from_str("https");
        if !(scheme == http) && !(scheme == https) {
            return Err(Error::UnsupportedScheme);
        }
        let host = match parts.host {
            Some(h) => h,
            None => return Err(Error::MissingHost),
        };
        let prefix = concat(concat(scheme.as_str(), "://").as_str(), host.as_str());
        match strip_prefix(url.as_str(), prefix.as_str()) {
            Some(path) => Ok(DbLink { identifier, scheme, host, path }),
            None => Err(Error::MissingPath),
        }
    }

    /// The link for a submission: the identifier is trimmed; an empty one is
    /// replaced by six random emoticons, one that is not made of emoji is
    /// refused; then the URL is cut as `with_identifier` does.
    pub fn new(form_data: CreateUrl) -> (res: Result<DbLink, Error>)
        ensures
            ({
                let wished = spec_trim(form_data.identifier@);
                &&& wished.len() == 0 ==> match spec_link_parts(form_data.url@) {
                    Ok((scheme, host, path)) => res matches Ok(link) && link@.scheme == scheme
                        && link@.host == host && link@.path == path
                        && emoji::is_generated_identifier(link@.identifier),
                    Err(e) => res == Err::<DbLink, Error>(e),
                }
                &&& wished.len() > 0 && !emoji::spec_is_valid(wished) ==> res
                    == Err::<DbLink, Error>(Error::InvalidIdentifier)
                &&& wished.len() > 0 && emoji::spec_is_valid(wished) ==> is_link_for(
                    res,
                    wished,
                    form_data.url@,
                )
                &&& res matches Ok(link) ==> no_ascii_upper(link.host@)
            }),
    {
        let wished = form_data.identifier.as_str().trim();
        let identifier = if wished.is_empty() {
            emoji::random_sequence()
        } else if emoji::is_valid(wished) {
            String::from_str(wished)
        } else {
            return Err(Error::InvalidIdentifier);
        };
        DbLink::with_identifier(identifier, form_data.url)
    }
}

/// The stored link, written back out, is the normalized URL; its scheme is
/// `http` or `https`.
pub proof fn lemma_link_reassembles(url: Seq<char>)
    requires
        spec_link_parts(url) is Ok,
    ensures
        ({
            let (scheme, host, path) = spec_link_parts(url)->Ok_0;
            &&& scheme + "://"@ + host + path == spec_normalize_scheme(url)
            &&& scheme == "http"@ || scheme == "https"@
        }),
{
    let n = spec_normalize_scheme(url);
    let (scheme, host, path) = spec_link_parts(url)->Ok_0;
    let prefix = scheme + "://"@ + host;
    assert(n == n.subrange(0, prefix.len() as int) + n.subrange(prefix.len() as int, n.len() as int));
}

/// A URL is cut whenever the lowercase of its normalized form parses with
/// an `http` or `https` scheme and a host, and the normalized form starts
/// with that scheme, `://` and the host: the path is then all that follows,
/// whatever it is.
pub proof fn lemma_link_parts_complete(url: Seq<char>)
    requires
        ({
            let n = spec_normalize_scheme(url);
            let lowered = unicode_lowercase(n);
            &&& uri_parses(lowered)
            &&& uri_scheme(lowered) matches Some(raw)
            &&& uri_host(lowered) matches Some(h)
            &&& (unicode_lowercase(raw) == "http"@ || unicode_lowercase(raw) == "https"@)
            &&& ({
                let prefix = unicode_lowercase(raw) + "://"@ + h;
                prefix.len() <= n.len() && n.subrange(0, prefix.len() as int) == prefix
            })
        }),
    ensures
        ({
            let n = spec_normalize_scheme(url);
            let lowered = unicode_lowercase(n);
            let scheme = unicode_lowercase(uri_scheme(lowered)->Some_0);
            let host = uri_host(lowered)->Some_0;
            let cut = (scheme.len() + 3 + host.len()) as int;
            spec_link_parts(url) == Ok::<(Seq<char>, Seq<char>, Seq<char>), Error>(
                (scheme, host, n.subrange(cut, n.len() as int)),
            )
        }),
{
    reveal_strlit("://");
}

/// Normalizing changes nothing from the first `://` on, and nothing but
/// letter case before it.
pub proof fn lemma_normalize_keeps_rest(url: Seq<char>, k: int)
    requires
        first_occurrence(url, "://"@) == Some(k),
    ensures
        spec_normalize_scheme(url) == unicode_lowercase(url.subrange(0, k)) + url.subrange(
            k,
            url.len() as int,
        ),
        spec_normalize_scheme(url).subrange(
            spec_normalize_scheme(url).len() - (url.len() - k),
            spec_normalize_scheme(url).len() as int,
        ) == url.subrange(k, url.len() as int),
{
    crate::text::lemma_first_occurrence(url, "://"@);
    let n = spec_normalize_scheme(url);
    let low = unicode_lowercase(url.subrange(0, k));
    assert(n.subrange(low.len() as int, n.len() as int) =~= url.subrange(k, url.len() as int));
}

/// Text without `://`, followed by text that starts with `://`, has its
/// first `://` where the second part begins.
proof fn lemma_first_separator_at_join(head: Seq<char>, tail: Seq<char>)
    requires
        free_of(head, "://"@),
        occurs_at(tail, "://"@, 0),
    ensures
        first_occurrence(head + tail, "://"@) == Some(head.len() as int),
{
    reveal_strlit("://");
    reveal(free_of);
    let pat = "://"@;
    let t = head + tail;
    let h = head.len() as int;
    assert(tail[0] == ':') by {
        assert(tail.subrange(0, 3)[0] == tail[0]);
    }
    assert(t.subrange(h, h + 3) =~= tail.subrange(0, 3));
    assert(occurs_at(t, pat, h));
    assert forall|j: int| 0 <= j < h implies !occurs_at(t, pat, j) by {
        if occurs_at(t, pat, j) {
            if j + 3 <= h {
                assert(head.subrange(j, j + 3) =~= t.subrange(j, j + 3));
                assert(occurs_at(head, pat, j));
            } else if j + 1 == h {
                assert(t.subrange(j, j + 3)[1] == t[j + 1]);
                assert(t[j + 1] == tail[0]);
            } else {
                assert(j + 2 == h);
                assert(t.subrange(j, j + 3)[2] == t[j + 2]);
                assert(t[j + 2] == tail[0]);
            }
        }
    }
    lemma_first_occurrence(t, pat);
    let m = first_occurrence(t, pat)->Some_0;
    if m < h {
        assert(!occurs_at(t, pat, m));
    } else if m > h {
        assert(occurs_before(t, pat, m));
    }
}

/// Normalizing a URL with a `://` gives a text that normalizing leaves as it is.
proof fn lemma_normalized_head_is_fixed(url: Seq<char>, k: int, lowered: Seq<char>)
    requires
        first_occurrence(url, "://"@) == Some(k),
        unicode_lowercase(lowered) == lowered,
        free_of(url.subrange(0, k), "://"@) ==> free_of(lowered, "://"@),
    ensures
        spec_normalize_scheme(lowered + url.subrange(k, url.len() as int)) == lowered
            + url.subrange(k, url.len() as int),
{
    let rest = url.subrange(k, url.len() as int);
    let n = lowered + rest;
    lemma_split_at_first_separator(url, k);
    lemma_first_separator_at_join(lowered, rest);
    assert(n.subrange(0, lowered.len() as int) =~= lowered);
    assert(n.subrange(lowered.len() as int, n.len() as int) =~= rest);
}

/// Normalizing a URL without `://` gives a text that normalizing leaves as it is.
proof fn lemma_normalized_whole_is_fixed(url: Seq<char>, lowered: Seq<char>)
    requires
        first_occurrence(url, "://"@) is None,
        unicode_lowercase(lowered) == lowered,
        free_of(url, "://"@) ==> free_of(lowered, "://"@),
    ensures
        spec_normalize_scheme(lowered) == lowered,
{
    reveal(free_of);
    lemma_first_occurrence(url, "://"@);
    assert(!(exists|k: int| occurs_at(lowered, "://"@, k)));
}

/// The part of a text before its first `://` holds no `://`, and the part
/// from there on starts with it.
proof fn lemma_split_at_first_separator(url: Seq<char>, k: int)
    requires
        first_occurrence(url, "://"@) == Some(k),
    ensures
        free_of(url.subrange(0, k), "://"@),
        occurs_at(url.subrange(k, url.len() as int), "://"@, 0),
{
    reveal_strlit("://");
    reveal(free_of);
    lemma_first_occurrence(url, "://"@);
    let pat = "://"@;
    let head = url.subrange(0, k);
    assert forall|j: int| !occurs_at(head, pat, j) by {
        if occurs_at(head, pat, j) {
            assert(url.subrange(j, j + pat.len()) =~= head.subrange(j, j + pat.len()));
            assert(occurs_at(url, pat, j));
            assert(occurs_before(url, pat, k));
        }
    }
    assert(url.subrange(k, url.len() as int).subrange(0, pat.len() as int) =~= url.subrange(
        k,
        k + pat.len(),
    ));
}

/// What a store of a link gives back: the identifier that the store
/// reports, `EmptyColumn` when it reports none, and `DuplicateIdentifier`
/// when the store itself fails.
pub fn stored_identifier(row: Result<Option<String>, ()>) -> (res: Result<String, Error>)
    ensures
        match row {
            Ok(Some(id)) => res == Ok::<String, Error>(id),
            Ok(None) => res == Err::<String, Error>(Error::EmptyColumn),
            Err(_) => res == Err::<String, Error>(Error::DuplicateIdentifier),
        },
{
    match row {
        Ok(Some(id)) => Ok(id),
        Ok(None) => Err(Error::EmptyColumn),
        Err(_) => Err(Error::DuplicateIdentifier),
    }
}

/// The statistics of one link from the columns that its look-up reports:
/// identifier, clicks and URL; a column that cannot be read is a
/// communication failure.
pub fn stats_entry(identifier: Option<String>, clicks: Option<i64>, url: Option<String>) -> (res:
    Result<leaderboard::Entry, Error>)
    ensures
        match (identifier, clicks, url) {
            (Some(i), Some(c), Some(u)) => res matches Ok(e) && e.identifier == i && e.clicks == c
                && e.url == u,
            _ => res == Err::<leaderboard::Entry, Error>(Error::DbCommunicationFailed),
        },
{
    match (identifier, clicks, url) {
        (Some(identifier), Some(clicks), Some(url)) => Ok(leaderboard::Entry { identifier, url, clicks }),
        _ => Err(Error::DbCommunicationFailed),
    }
}

/// The statistics of one link from the rows that its look-up reports: the
/// first row, read as `stats_entry` reads it; `EmptyColumn` when the look-up
/// reports no row at all (an unknown identifier).
pub fn stats_from_rows(rows: Vec<leaderboard::Row>) -> (res: Result<leaderboard::Entry, Error>)
    ensures
        rows@.len() == 0 ==> res == Err::<leaderboard::Entry, Error>(Error::EmptyColumn),
        rows@.len() > 0 ==> match (rows@[0].identifier, rows@[0].clicks, rows@[0].url) {
            (Some(i), Some(c), Some(u)) => res matches Ok(e) && e.identifier == i && e.clicks == c
                && e.url == u,
            _ => res == Err::<leaderboard::Entry, Error>(Error::DbCommunicationFailed),
        },
{
    let mut rows = rows;
    if rows.len() == 0 {
        return Err(Error::EmptyColumn);
    }
    let first = rows.swap_remove(0);
    stats_entry(first.identifier, first.clicks, first.url)
}

/// The URL that the look-up of an identifier reports; a column that cannot
/// be read is a communication failure.
pub fn fetched_url(column: Option<String>) -> (res: Result<String, Error>)
    ensures
        match column {
            Some(u) => res == Ok::<String, Error>(u),
            None => res == Err::<String, Error>(Error::DbCommunicationFailed),
        },
{
    match column {
        Some(u) => Ok(u),
        None => Err(Error::DbCommunicationFailed),
    }
}

} // verus!
