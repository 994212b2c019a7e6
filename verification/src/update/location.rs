//! Where the release archive is: beside the manifest, under a name made of
//! the application's name and the version.

use crate::err::{fault, fault_of, Error, ErrorKind, ErrorView};
use crate::text::{opt_view, split, split_on, views};
use vstd::prelude::*;

verus! {

/// A URI, held as plain values.
#[derive(Debug)]
pub struct Uri {
    pub scheme: Option<String>,
    pub authority: Option<String>,
    /// The path; empty where the URI has no path and query component.
    pub path: String,
    /// The URI as one text.
    pub text: String,
}

/// The mathematical content of a [`Uri`].
pub struct UriView {
    pub scheme: Option<Seq<char>>,
    pub authority: Option<Seq<char>>,
    pub path: Seq<char>,
    pub text: Seq<char>,
}

impl View for Uri {
    type V = UriView;

    open spec fn view(&self) -> UriView {
        UriView {
            scheme: opt_view(self.scheme),
            authority: opt_view(self.authority),
            path: self.path@,
            text: self.text@,
        }
    }
}

/// The view of an optional URI.
pub open spec fn opt_uri_view(o: Option<Uri>) -> Option<UriView> {
    match o {
        Some(u) => Some(u@),
        None => None,
    }
}

/// What `http::Uri` makes of `text` when it parses it; `None` where it
/// rejects the text.
pub uninterp spec fn uri_parse(text: Seq<char>) -> Option<UriView>;

/// The URI that `http::Uri::from_parts` makes of a scheme, an authority and a
/// path with query, each parsed from text; `None` where a part is rejected or
/// the parts do not go together.
pub uninterp spec fn uri_assemble(
    scheme: Option<Seq<char>>,
    authority: Option<Seq<char>>,
    path_and_query: Seq<char>,
) -> Option<UriView>;

/// The non-empty segments, each behind a slash.
pub open spec fn join_segments(segments: Seq<Seq<char>>) -> Seq<char>
    decreases segments.len(),
{
    if segments.len() == 0 {
        Seq::empty()
    } else if segments.last().len() == 0 {
        join_segments(segments.drop_last())
    } else {
        join_segments(segments.drop_last()) + "/"@ + segments.last()
    }
}

/// The path without its last segment, and without empty segments.
pub open spec fn parent_path_of(path: Seq<char>) -> Seq<char> {
    join_segments(split(path, '/').drop_last())
}

/// The path of the archive of `version` of `app_name`, beside `parent`.
pub open spec fn archive_path_of(
    parent: Seq<char>,
    app_name: Seq<char>,
    version: Seq<char>,
) -> Seq<char> {
    parent + "/"@ + app_name + "-"@ + version + ".tar.gz"@
}

/// The parent of the URI that `parts` describes: same scheme and authority,
/// and the parent of its path. `None` where the URI has no path or the parts
/// of the parent do not go together.
pub open spec fn parent_of(parts: UriView) -> Option<UriView> {
    if parts.path.len() > 0 {
        uri_assemble(parts.scheme, parts.authority, parent_path_of(parts.path))
    } else {
        None
    }
}

/// The address of the archive beside `parent`. `None` where `parent` lacks a
/// scheme or an authority, or the parts do not go together.
pub open spec fn archive_beside(
    parent: UriView,
    app_name: Seq<char>,
    version: Seq<char>,
) -> Option<UriView> {
    if parent.scheme is Some && parent.authority is Some {
        uri_assemble(
            parent.scheme,
            parent.authority,
            archive_path_of(parent.path, app_name, version),
        )
    } else {
        None
    }
}

/// The address of the archive of `version` of `app_name`, beside the
/// manifest at `manifest_url`.
pub open spec fn located(manifest_url: Seq<char>, app_name: Seq<char>, version: Seq<char>) -> Result<
    UriView,
    ErrorView,
> {
    let refused = Err::<UriView, ErrorView>(
        fault_of(ErrorKind::InvalidManifestUrl, "Invalid manifest URL: "@, manifest_url),
    );
    match uri_parse(manifest_url) {
        Some(parts) => match parent_of(parts) {
            Some(parent) => match archive_beside(parent, app_name, version) {
                Some(archive) => Ok(archive),
                None => refused,
            },
            None => refused,
        },
        None => refused,
    }
}

/// Parses `url` with `http::Uri`'s `FromStr` and copies what `scheme_str`,
/// `authority`, `path` and `to_string` report into plain values. The contract only gives the
/// outcome its name, [`uri_parse`].
#[verifier::external_body]
fn parse_uri(url: &str) -> (r: Option<Uri>)
    ensures
        opt_uri_view(r) == uri_parse(url@),
{
    let uri = url.parse::<http::Uri>().ok()?;
    let scheme = uri.scheme_str().map(str::to_string);
    let authority = uri.authority().map(|a| a.as_str().to_string());
    Some(Uri { scheme, authority, path: uri.path().to_string(), text: uri.to_string() })
}

/// Parses each part with `http`'s `FromStr` for it, joins them with
/// `http::Uri::from_parts` and copies the result into plain values. The
/// outcome has the name [`uri_assemble`]; beside it the contract states that
/// scheme and authority come out as they were given.
#[verifier::external_body]
fn assemble(scheme: &Option<String>, authority: &Option<String>, path_and_query: &str) -> (r:
    Option<Uri>)
    ensures
        opt_uri_view(r) == uri_assemble(opt_view(*scheme), opt_view(*authority), path_and_query@),
        r matches Some(u) ==> u@.scheme == opt_view(*scheme) && u@.authority == opt_view(
            *authority,
        ),
{
    let mut parts = http::uri::Parts::default();
    parts.scheme = scheme.as_ref().map(|s| s.parse()).transpose().ok()?;
    parts.authority = authority.as_ref().map(|a| a.parse()).transpose().ok()?;
    parts.path_and_query = Some(path_and_query.parse().ok()?);
    let uri = http::Uri::from_parts(parts).ok()?;
    let scheme = uri.scheme_str().map(str::to_string);
    let authority = uri.authority().map(|a| a.as_str().to_string());
    Some(Uri { scheme, authority, path: uri.path().to_string(), text: uri.to_string() })
}

impl Uri {
    /// Parses a URI.
    pub fn parse(url: &str) -> (r: Option<Uri>)
        ensures
            opt_uri_view(r) == uri_parse(url@),
    {
        parse_uri(url)
    }

    /// The path; empty where the URI has no path and query component.
    pub fn path(&self) -> (p: &str)
        ensures
            p@ == self@.path,
    {
        self.path.as_str()
    }

    /// The URI as one text.
    pub fn to_string(&self) -> (s: String)
        ensures
            s@ == self@.text,
    {
        self.text.clone()
    }

    /// The parent: same scheme and authority, and the parent of the path.
    /// `None` where the URI has no path or the parts of the parent do not go
    /// together.
    pub fn parent(&self) -> (r: Option<Uri>)
        ensures
            opt_uri_view(r) == parent_of(self@),
            r matches Some(p) ==> p@.scheme == self@.scheme && p@.authority == self@.authority,
    {
        if self.path.as_str().is_empty() {
            return None;
        }
        let up = parent_path(self.path.as_str());
        assemble(&self.scheme, &self.authority, up.as_str())
    }

    /// The address of the archive of `version` of `app_name` beside this
    /// URI. `None` where this URI lacks a scheme or an authority, or the parts
    /// do not go together.
    pub fn archive(&self, app_name: &str, version: &str) -> (r: Option<Uri>)
        ensures
            opt_uri_view(r) == archive_beside(self@, app_name@, version@),
            r matches Some(a) ==> a@.scheme == self@.scheme && a@.authority == self@.authority,
    {
        if self.scheme.is_none() || self.authority.is_none() {
            return None;
        }
        let path = archive_path(self.path(), app_name, version);
        assemble(&self.scheme, &self.authority, path.as_str())
    }
}

/// The path without its last segment, and without empty segments.
pub fn parent_path(path: &str) -> (parent: String)
    ensures
        parent@ == parent_path_of(path@),
{
    let segments = split_on(path, '/');
    proof {
        crate::text::split_is_not_empty(path@, '/');
    }
    let n: usize = segments.len() - 1;
    let ghost kept = split(path@, '/').drop_last();
    let mut parent = String::new();
    let mut i: usize = 0;
    while i < n
        invariant
            i <= n == segments.len() - 1,
            views(segments@) == split(path@, '/'),
            kept == split(path@, '/').drop_last(),
            parent@ == join_segments(kept.take(i as int)),
        decreases n - i,
    {
        let segment = segments[i].as_str();
        assert(kept.take(i + 1).drop_last() =~= kept.take(i as int));
        assert(kept.take(i + 1).last() == segment@);
        if !segment.is_empty() {
            parent.append("/");
            parent.append(segment);
        }
        i += 1;
    }
    assert(kept.take(n as int) =~= kept);
    parent
}

/// The path of the archive of `version` of `app_name`, beside `parent`.
pub fn archive_path(parent: &str, app_name: &str, version: &str) -> (path: String)
    ensures
        path@ == archive_path_of(parent@, app_name@, version@),
{
    let mut path = parent.to_owned();
    path.append("/");
    path.append(app_name);
    path.append("-");
    path.append(version);
    path.append(".tar.gz");
    path
}

/// The parent of the manifest's address.
///
/// Fails with `InvalidManifestUrl` if `url` is no URI, has no path, or the
/// parts of its parent do not go together.
pub fn parent_uri(url: &str) -> (r: Result<Uri, Error>)
    ensures
        match uri_parse(url@) {
            Some(parts) => match parent_of(parts) {
                Some(parent) => r matches Ok(p) && p@ == parent && parent.scheme == parts.scheme
                    && parent.authority == parts.authority,
                None => r matches Err(e) && e@ == fault_of(
                    ErrorKind::InvalidManifestUrl,
                    "Invalid manifest URL: "@,
                    url@,
                ),
            },
            None => r matches Err(e) && e@ == fault_of(
                ErrorKind::InvalidManifestUrl,
                "Invalid manifest URL: "@,
                url@,
            ),
        },
{
    match Uri::parse(url) {
        Some(uri) => match uri.parent() {
            Some(parent) => Ok(parent),
            None => Err(fault(ErrorKind::InvalidManifestUrl, "Invalid manifest URL: ", url)),
        },
        None => Err(fault(ErrorKind::InvalidManifestUrl, "Invalid manifest URL: ", url)),
    }
}

/// The address of the archive of `version` of `app_name`, beside the
/// manifest at `manifest_url`.
///
/// Fails with `InvalidManifestUrl` if the manifest's address has no parent,
/// if the parent lacks a scheme or an authority, or if the archive's path is
/// not accepted.
pub fn archive_uri(manifest_url: &str, app_name: &str, version: &str) -> (r: Result<Uri, Error>)
    ensures
        match located(manifest_url@, app_name@, version@) {
            Ok(archive) => r matches Ok(a) && a@ == archive,
            Err(err) => r matches Err(e) && e@ == err,
        },
{
    match parent_uri(manifest_url) {
        Ok(parent) => match parent.archive(app_name, version) {
            Some(archive) => Ok(archive),
            None => Err(fault(ErrorKind::InvalidManifestUrl, "Invalid manifest URL: ", manifest_url)),
        },
        Err(e) => Err(e),
    }
}

/// Splitting a text that ends in a slash and a piece without slash yields
/// the pieces of what is before the slash, and then that piece.
proof fn split_before_last_piece(before: Seq<char>, piece: Seq<char>)
    requires
        !piece.contains('/'),
    ensures
        split(before + "/"@ + piece, '/') == split(before, '/').push(piece),
    decreases piece.len(),
{
    reveal_strlit("/");
    let whole = before + "/"@ + piece;
    if piece.len() == 0 {
        assert(whole.last() == '/');
        assert(whole.drop_last() =~= before);
        assert(piece =~= Seq::<char>::empty());
    } else {
        let shorter = piece.drop_last();
        assert(piece.contains(piece.last()));
        assert forall|i: int| 0 <= i < shorter.len() implies shorter[i] != '/' by {
            assert(piece.contains(piece[i]));
        }
        split_before_last_piece(before, shorter);
        assert(whole.drop_last() =~= before + "/"@ + shorter);
        assert(whole.last() == piece.last());
        let pieces = split(before, '/').push(shorter);
        assert(pieces.drop_last() =~= split(before, '/'));
        assert(pieces.last().push(piece.last()) =~= piece);
    }
}

/// An empty segment in front does not show in the joined path.
proof fn join_skips_empty_front(segments: Seq<Seq<char>>)
    ensures
        join_segments(seq![Seq::<char>::empty()] + segments) == join_segments(segments),
    decreases segments.len(),
{
    let front = seq![Seq::<char>::empty()];
    if segments.len() == 0 {
        assert(front + segments =~= front);
        assert(front.drop_last() =~= segments);
        assert(front.last().len() == 0);
        assert(join_segments(front) == join_segments(front.drop_last()));
    } else {
        join_skips_empty_front(segments.drop_last());
        assert((front + segments).drop_last() =~= front + segments.drop_last());
        assert((front + segments).last() == segments.last());
    }
}

/// A path made of segments, each behind a slash, splits into an empty piece
/// and those segments.
proof fn split_of_joined_segments(segments: Seq<Seq<char>>)
    requires
        forall|i: int|
            0 <= i < segments.len() ==> (#[trigger] segments[i]).len() > 0 && !segments[i].contains(
                '/',
            ),
    ensures
        split(join_segments(segments), '/') == seq![Seq::<char>::empty()] + segments,
    decreases segments.len(),
{
    let front = seq![Seq::<char>::empty()];
    if segments.len() == 0 {
        assert(front + segments =~= split(Seq::<char>::empty(), '/'));
    } else {
        let shorter = segments.drop_last();
        assert forall|i: int| 0 <= i < shorter.len() implies (#[trigger] shorter[i]).len() > 0
            && !shorter[i].contains('/') by {
            assert(shorter[i] == segments[i]);
        }
        split_of_joined_segments(shorter);
        split_before_last_piece(join_segments(shorter), segments.last());
        assert((front + shorter).push(segments.last()) =~= front + segments);
    }
}

/// The parent of a path strips exactly the last segment: where a path is
/// made of segments, each behind a slash, and then one more segment behind a
/// slash, its parent is the path made of the former segments alone.
pub proof fn parent_strips_last_segment(segments: Seq<Seq<char>>, last: Seq<char>)
    requires
        forall|i: int|
            0 <= i < segments.len() ==> (#[trigger] segments[i]).len() > 0 && !segments[i].contains(
                '/',
            ),
        !last.contains('/'),
    ensures
        parent_path_of(join_segments(segments) + "/"@ + last) == join_segments(segments),
{
    let front = seq![Seq::<char>::empty()];
    split_before_last_piece(join_segments(segments), last);
    split_of_joined_segments(segments);
    assert((front + segments).push(last).drop_last() =~= front + segments);
    join_skips_empty_front(segments);
}

} // verus!
