//! The previous generation of the application: how its directory is named
//! when it is set aside, and which archives of earlier generations are to go.

use crate::io::{list_file_names, select, select_is_filter};
use crate::text::{ends_with, opt_view, starts_with, views};
use std::fmt::Write;
use vstd::prelude::*;

verus! {

/// The format of the stamp in the name of a directory that is set aside:
/// year, month, day, hour, minute and second, with nothing between them.
pub const STAMP_FORMAT: &'static str = "%Y%m%d%H%M%S";

/// The text of the instant that many seconds after the epoch, in UTC, as
/// `chrono` formats it by `format`; `None` where `chrono` cannot represent
/// the instant or cannot format by `format`.
pub uninterp spec fn utc_format(seconds: i64, format: Seq<char>) -> Option<Seq<char>>;

/// The stamp of the instant that many seconds after the epoch.
pub open spec fn utc_stamp(seconds: i64) -> Option<Seq<char>> {
    utc_format(seconds, STAMP_FORMAT@)
}

/// Whether a name in the local prefix is that of a retained archive of the
/// application.
pub open spec fn is_retained(app_name: Seq<char>, name: Seq<char>) -> bool {
    app_name.is_prefix_of(name) && ".tar.gz"@.is_suffix_of(name)
}

/// The names of the retained archives of the application among `names`.
pub open spec fn retained_of(app_name: Seq<char>, names: Seq<Seq<char>>) -> Seq<Seq<char>> {
    names.filter(|name: Seq<char>| is_retained(app_name, name))
}

/// The name under which the live directory is set aside.
pub open spec fn archived_name_of(app_name: Seq<char>, stamp: Seq<char>) -> Seq<char> {
    app_name + "-"@ + stamp
}

/// The name of the archive made of the directory `archived`.
pub open spec fn archive_file_of(archived: Seq<char>) -> Seq<char> {
    archived + ".tar.gz"@
}

/// Makes a UTC `chrono::DateTime` with `from_timestamp` and writes what its
/// `format` gives for `format`. The contract only gives the outcome its name,
/// [`utc_format`].
#[verifier::external_body]
fn format_utc(seconds: i64, format: &str) -> (r: Option<String>)
    ensures
        opt_view(r) == utc_format(seconds, format@),
{
    let time = chrono::DateTime::from_timestamp(seconds, 0)?;
    let mut text = String::new();
    write!(text, "{}", time.format(format)).ok()?;
    Some(text)
}

/// The stamp of the instant that many seconds after the epoch; `None` where
/// the instant is out of range.
pub fn stamp(seconds: i64) -> (r: Option<String>)
    ensures
        opt_view(r) == utc_stamp(seconds),
{
    format_utc(seconds, STAMP_FORMAT)
}

/// The name under which the live directory is set aside.
pub fn archived_name(app_name: &str, stamp: &str) -> (name: String)
    ensures
        name@ == archived_name_of(app_name@, stamp@),
{
    let mut name = app_name.to_owned();
    name.append("-");
    name.append(stamp);
    name
}

/// The name of the archive made of the directory `archived`.
pub fn archive_file(archived: &str) -> (name: String)
    ensures
        name@ == archive_file_of(archived@),
{
    let mut name = archived.to_owned();
    name.append(".tar.gz");
    name
}

/// The names of the retained archives of the application among `names`, in
/// the order of the listing.
pub fn retained_archives(app_name: &str, names: &Vec<String>) -> (retained: Vec<String>)
    ensures
        views(retained@) == retained_of(app_name@, views(names@)),
{
    let accepts = |name: &String| -> (yes: bool)
        ensures
            yes == is_retained(app_name@, name@),
        { starts_with(name.as_str(), app_name) && ends_with(name.as_str(), ".tar.gz") };
    let retained = list_file_names(names, accepts);
    proof {
        let all = views(names@);
        let kept = choose|kept: Seq<bool>|
            {
                &&& kept.len() == names.len()
                &&& forall|i: int|
                    0 <= i < names.len() ==> call_ensures(accepts, (&names[i],), #[trigger] kept[i])
                &&& views(retained@) == select(all, kept)
            };
        assert forall|i: int| 0 <= i < all.len() implies kept[i] == is_retained(
            app_name@,
            #[trigger] all[i],
        ) by {
            assert(call_ensures(accepts, (&names[i],), kept[i]));
        }
        select_is_filter(all, kept, |name: Seq<char>| is_retained(app_name@, name));
    }
    retained
}

} // verus!
