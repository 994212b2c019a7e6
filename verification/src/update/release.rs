//! Semantic versions: parsing, precedence, and the rule that only a strictly
//! newer version is taken.

use crate::err::{Error, ErrorKind, ErrorView};
use crate::io::find_line;
use crate::text::{opt_view, trim, trimmed, views};
use std::cmp::Ordering;
use vstd::prelude::*;

verus! {

/// A semantic version, held as plain values.
#[derive(Debug)]
pub struct SemVer {
    pub major: u64,
    pub minor: u64,
    pub patch: u64,
    /// The pre-release identifiers, without the leading hyphen; empty if none.
    pub pre: String,
    /// The build metadata, without the leading plus sign; empty if none.
    pub build: String,
}

/// The mathematical content of a [`SemVer`].
pub struct SemVerView {
    pub major: nat,
    pub minor: nat,
    pub patch: nat,
    pub pre: Seq<char>,
    pub build: Seq<char>,
}

/// How one version stands relative to another.
#[derive(Debug, Clone, Copy, PartialEq, Eq, Structural)]
pub enum Precedence {
    Lower,
    Same,
    Higher,
}

impl View for SemVer {
    type V = SemVerView;

    open spec fn view(&self) -> SemVerView {
        SemVerView {
            major: self.major as nat,
            minor: self.minor as nat,
            patch: self.patch as nat,
            pre: self.pre@,
            build: self.build@,
        }
    }
}

/// What `semver::Version::parse` makes of `text`: the version's fields, or the
/// text of the parse error.
pub uninterp spec fn semver_parse(text: Seq<char>) -> Result<SemVerView, Seq<char>>;

/// How `semver::Version` orders `a` relative to `b`; `None` where the
/// pre-release or build text of either is not made of valid identifiers.
pub uninterp spec fn semver_order(a: SemVerView, b: SemVerView) -> Option<Precedence>;

/// What the numbers alone say of how `a` stands relative to `b`: the first of
/// major, minor and patch in which they differ decides; `None` where all
/// three are the same.
pub open spec fn by_numbers(a: SemVerView, b: SemVerView) -> Option<Precedence> {
    if a.major != b.major {
        Some(if a.major < b.major { Precedence::Lower } else { Precedence::Higher })
    } else if a.minor != b.minor {
        Some(if a.minor < b.minor { Precedence::Lower } else { Precedence::Higher })
    } else if a.patch != b.patch {
        Some(if a.patch < b.patch { Precedence::Lower } else { Precedence::Higher })
    } else {
        None
    }
}

/// Whether `c` can stand in the text of a version: an ASCII letter or digit,
/// a dot, a hyphen or a plus sign.
pub open spec fn version_char(c: char) -> bool {
    let n = c as u32;
    ||| 0x30 <= n <= 0x39
    ||| 0x41 <= n <= 0x5a
    ||| 0x61 <= n <= 0x7a
    ||| c == '.'
    ||| c == '-'
    ||| c == '+'
}

/// Whether every character of `text` can stand in the text of a version.
pub open spec fn version_chars(text: Seq<char>) -> bool {
    forall|i: int| 0 <= i < text.len() ==> version_char(#[trigger] text[i])
}

/// Whether `candidate` takes strict precedence over `current`.
pub open spec fn newer(candidate: SemVerView, current: SemVerView) -> bool {
    semver_order(candidate, current) == Some(Precedence::Higher)
}

/// The version that is installed, by the text of the version marker, if
/// there is one: the version that the trimmed text spells, and `0.0.0` where
/// there is no marker or its text is no version.
pub open spec fn installed_version(marker: Option<Seq<char>>) -> SemVerView {
    let zero = SemVerView { major: 0, minor: 0, patch: 0, pre: Seq::empty(), build: Seq::empty() };
    match marker {
        Some(text) => match semver_parse(trimmed(text)) {
            Ok(v) => v,
            Err(_) => zero,
        },
        None => zero,
    }
}

/// Whether some line of the ledger of failed versions parses to exactly
/// `version`. A line that spells the same version otherwise, so that it parses
/// to other fields, does not count, nor does a line that is no version.
pub open spec fn listed(lines: Seq<Seq<char>>, version: SemVerView) -> bool {
    exists|i: int|
        0 <= i < lines.len() && semver_parse(#[trigger] lines[i]) == Ok::<SemVerView, Seq<char>>(
            version,
        )
}

/// The version that `text` spells, if it is to be installed over `current`:
/// `None` unless it takes strict precedence over `current`.
pub open spec fn candidate_of(current: SemVerView, text: Seq<char>) -> Result<
    Option<SemVerView>,
    ErrorView,
> {
    match semver_parse(text) {
        Ok(v) => if newer(v, current) {
            Ok(Some(v))
        } else {
            Ok(None)
        },
        Err(m) => Err(ErrorView { kind: ErrorKind::InvalidVersion, message: m }),
    }
}

/// Calls `semver::Version::parse` and copies the fields of the version, or
/// the text of the error, into plain values. The outcome has the name
/// [`semver_parse`]; beside it the contract states that a text which is
/// accepted holds nothing but letters, digits, dots, hyphens and plus signs.
#[verifier::external_body]
fn parse_text(text: &str) -> (r: Result<SemVer, String>)
    ensures
        match r {
            Ok(v) => semver_parse(text@) == Ok::<SemVerView, Seq<char>>(v@),
            Err(m) => semver_parse(text@) == Err::<SemVerView, Seq<char>>(m@),
        },
        r is Ok ==> version_chars(text@),
{
    let v = semver::Version::parse(text).map_err(|e| e.to_string())?;
    let (pre, build) = (v.pre.as_str().to_string(), v.build.as_str().to_string());
    Ok(SemVer { major: v.major, minor: v.minor, patch: v.patch, pre, build })
}

/// Rebuilds two `semver::Version` values from plain fields and compares them
/// with the crate's `Ord`. `None` where `semver::Prerelease::new` or
/// `semver::BuildMetadata::new` rejects a field. The outcome has the name
/// [`semver_order`]; beside it the contract states that major, then minor,
/// then patch decide the order where they differ.
#[verifier::external_body]
fn compare(a: &SemVer, b: &SemVer) -> (r: Option<Precedence>)
    ensures
        r == semver_order(a@, b@),
        r is Some && by_numbers(a@, b@) is Some ==> r == by_numbers(a@, b@),
{
    let (p, q) = (semver::Prerelease::new(&a.pre).ok()?, semver::Prerelease::new(&b.pre).ok()?);
    let (m, n) = (semver::BuildMetadata::new(&a.build).ok()?, semver::BuildMetadata::new(&b.build).ok()?);
    let x = semver::Version { major: a.major, minor: a.minor, patch: a.patch, pre: p, build: m };
    let y = semver::Version { major: b.major, minor: b.minor, patch: b.patch, pre: q, build: n };
    Some(match x.cmp(&y) {
        Ordering::Less => Precedence::Lower,
        Ordering::Equal => Precedence::Same,
        Ordering::Greater => Precedence::Higher,
    })
}

impl SemVer {
    /// The release version `major.minor.patch`.
    pub fn new(major: u64, minor: u64, patch: u64) -> (v: SemVer)
        ensures
            v@ == (SemVerView {
                major: major as nat,
                minor: minor as nat,
                patch: patch as nat,
                pre: Seq::empty(),
                build: Seq::empty(),
            }),
    {
        SemVer { major, minor, patch, pre: String::new(), build: String::new() }
    }

    /// Parses a semantic version. Fails with `InvalidVersion`, carrying the
    /// parser's message, exactly when the text is no semantic version. A text
    /// that is one holds nothing but the characters of versions.
    pub fn parse(text: &str) -> (r: Result<SemVer, Error>)
        ensures
            match semver_parse(text@) {
                Ok(v) => r is Ok && r->Ok_0@ == v && version_chars(text@),
                Err(m) => r is Err && r->Err_0@ == (ErrorView {
                    kind: ErrorKind::InvalidVersion,
                    message: m,
                }),
            },
    {
        match parse_text(text) {
            Ok(v) => Ok(v),
            Err(m) => Err(Error::with_kind(ErrorKind::InvalidVersion, m)),
        }
    }

    /// How `self` stands relative to `other`; `None` where the pre-release
    /// or build text of either is not made of valid identifiers. Where the
    /// numbers differ, they decide.
    pub fn precedence(&self, other: &SemVer) -> (r: Option<Precedence>)
        ensures
            r == semver_order(self@, other@),
            r is Some && by_numbers(self@, other@) is Some ==> r == by_numbers(self@, other@),
    {
        compare(self, other)
    }

    /// Whether both versions have the same fields.
    pub fn same(&self, other: &SemVer) -> (r: bool)
        ensures
            r == (self@ == other@),
    {
        let r = self.major == other.major && self.minor == other.minor && self.patch
            == other.patch && self.pre == other.pre && self.build == other.build;
        r
    }
}

/// The version that `text` spells, if it is to be installed over `current`:
/// `None` unless it takes strict precedence over `current`.
///
/// Fails with `InvalidVersion` exactly when `text` is no semantic version.
pub fn candidate(current: &SemVer, text: &str) -> (r: Result<Option<SemVer>, Error>)
    ensures
        match candidate_of(current@, text@) {
            Ok(Some(v)) => r matches Ok(Some(c)) && c@ == v,
            Ok(None) => r matches Ok(None),
            Err(err) => r matches Err(e) && e@ == err,
        },
{
    let version = SemVer::parse(text)?;
    match version.precedence(current) {
        Some(Precedence::Higher) => Ok(Some(version)),
        _ => Ok(None),
    }
}

/// Whether the ledger of failed versions lists `version`.
pub fn ledger_lists(lines: &Vec<String>, version: &SemVer) -> (r: bool)
    ensures
        r == listed(views(lines@), version@),
{
    let accepts = |line: &String| -> (yes: bool)
        ensures
            yes == (semver_parse(line@) == Ok::<SemVerView, Seq<char>>(version@)),
        {
            match SemVer::parse(line.as_str()) {
                Ok(v) => v.same(version),
                Err(_) => false,
            }
        };
    let found = find_line(lines, accepts);
    let r = found.is_some();
    proof {
        let all = views(lines@);
        match found {
            Some(line) => {
                let i = choose|i: int|
                    0 <= i < lines.len() && line@ == (#[trigger] lines[i])@ && call_ensures(
                        accepts,
                        (&lines[i],),
                        true,
                    );
                assert(semver_parse(all[i]) == Ok::<SemVerView, Seq<char>>(version@));
            },
            None => {
                assert forall|i: int| 0 <= i < all.len() implies semver_parse(#[trigger] all[i])
                    != Ok::<SemVerView, Seq<char>>(version@) by {
                    assert(call_ensures(accepts, (&lines[i],), false));
                }
            },
        }
    }
    r
}

/// A version that the ledger lists stays listed however the ledger grows.
pub proof fn listed_is_kept(lines: Seq<Seq<char>>, more: Seq<Seq<char>>, version: SemVerView)
    requires
        listed(lines, version),
    ensures
        listed(lines + more, version),
{
    let i = choose|i: int|
        0 <= i < lines.len() && semver_parse(#[trigger] lines[i]) == Ok::<SemVerView, Seq<char>>(
            version,
        );
    assert((lines + more)[i] == lines[i]);
}

/// Once the text of a version is appended to the ledger, the ledger lists
/// the version.
pub proof fn recorded_is_listed(lines: Seq<Seq<char>>, text: Seq<char>, version: SemVerView)
    requires
        semver_parse(text) == Ok::<SemVerView, Seq<char>>(version),
    ensures
        listed(lines.push(text), version),
{
    assert(lines.push(text)[lines.len() as int] == text);
}

/// A text made of the characters of versions has no white space at its
/// ends.
pub proof fn version_text_is_trimmed(text: Seq<char>)
    requires
        version_chars(text),
    ensures
        trimmed(text) == text,
{
    if text.len() > 0 {
        assert(version_char(text[0]));
        assert(version_char(text.last()));
    }
}

/// A version marker that holds the text of a version, as it is written
/// after an update, reads back as that version.
pub proof fn written_marker_reads_back(text: Seq<char>, version: SemVerView)
    requires
        semver_parse(text) == Ok::<SemVerView, Seq<char>>(version),
        version_chars(text),
    ensures
        installed_version(Some(text)) == version,
{
    version_text_is_trimmed(text);
}

/// The version that is installed, by the text of the version marker, if
/// there is one. A missing marker and one that spells no version both stand
/// for `0.0.0`, so that any version of the manifest is newer. A marker that
/// holds the text of a version, as it is written after an update, reads back
/// as that version.
pub fn resolve_version(marker: Option<String>) -> (v: SemVer)
    ensures
        v@ == installed_version(opt_view(marker)),
        marker matches Some(text) ==> (semver_parse(text@) matches Ok(written) ==> v@ == written),
{
    match marker {
        Some(text) => match SemVer::parse(text.as_str()) {
            Ok(v) => {
                proof {
                    written_marker_reads_back(text@, v@);
                }
                v
            },
            Err(_) => match SemVer::parse(trim(text.as_str())) {
                Ok(v) => v,
                Err(_) => SemVer::new(0, 0, 0),
            },
        },
        None => SemVer::new(0, 0, 0),
    }
}

} // verus!
