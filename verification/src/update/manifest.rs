//! The manifest: which version each device is assigned.

use crate::text::join;
use vstd::prelude::*;

verus! {

/// A regular expression over device identifiers.
#[derive(Debug)]
pub struct Pattern(pub String);

/// A version as the manifest spells it.
#[derive(Debug)]
pub struct Version(pub String);

/// A path as the manifest spells it.
#[derive(Debug)]
pub struct Path(String);

/// One assignment rule: devices whose identifier matches `pattern` are to run
/// `version`.
#[derive(Debug)]
pub struct Device {
    pub pattern: Pattern,
    pub version: Version,
}

/// The rules for one type of object, in the order in which they are declared.
pub struct Manifest {
    pub object_type: String,
    pub devices: Vec<Device>,
}

/// The mathematical content of a [`Device`].
pub struct DeviceView {
    pub pattern: Seq<char>,
    pub version: Seq<char>,
}

/// The mathematical content of a [`Manifest`].
pub struct ManifestView {
    pub object_type: Seq<char>,
    pub devices: Seq<DeviceView>,
}

impl View for Pattern {
    type V = Seq<char>;

    open spec fn view(&self) -> Seq<char> {
        self.0@
    }
}

impl View for Version {
    type V = Seq<char>;

    open spec fn view(&self) -> Seq<char> {
        self.0@
    }
}

impl View for Path {
    type V = Seq<char>;

    closed spec fn view(&self) -> Seq<char> {
        self.0@
    }
}

impl View for Device {
    type V = DeviceView;

    open spec fn view(&self) -> DeviceView {
        DeviceView { pattern: self.pattern@, version: self.version@ }
    }
}

impl View for Manifest {
    type V = ManifestView;

    open spec fn view(&self) -> ManifestView {
        ManifestView {
            object_type: self.object_type@,
            devices: self.devices@.map_values(|d: Device| d@),
        }
    }
}

/// Whether the regular expression `pattern` finds a match somewhere in
/// `text`, as `regex::Regex::is_match` answers it; `None` where
/// `regex::Regex::new` rejects the pattern.
pub uninterp spec fn regex_match(pattern: Seq<char>, text: Seq<char>) -> Option<bool>;

/// The line that shows one device rule.
pub open spec fn device_line(d: DeviceView) -> Seq<char> {
    d.pattern + " = "@ + d.version
}

/// The text that shows a manifest.
pub open spec fn manifest_text(m: ManifestView) -> Seq<char> {
    "[meta]\nobject_type = "@ + m.object_type + "\n\n[devices]\n"@ + join(
        m.devices.map_values(|d: DeviceView| device_line(d)),
        "\n"@,
    )
}

/// Compiles `pattern` with `regex::Regex::new` and searches `text` with
/// `is_match`. The contract only gives the outcome its name, [`regex_match`].
#[verifier::external_body]
fn search(pattern: &str, text: &str) -> (r: Option<bool>)
    ensures
        r == regex_match(pattern@, text@),
{
    regex::Regex::new(pattern).ok().map(|re| re.is_match(text))
}

impl Pattern {
    /// Whether the pattern finds a match in `text`; `None` if the pattern is
    /// no valid regular expression.
    pub fn matches(&self, text: &str) -> (r: Option<bool>)
        ensures
            r == regex_match(self@, text@),
    {
        search(self.0.as_str(), text)
    }
}

impl Clone for Pattern {
    fn clone(&self) -> (r: Self)
        ensures
            r@ == self@,
    {
        Pattern(self.0.clone())
    }
}

impl Version {
    /// The version's text.
    pub fn to_string(&self) -> (s: String)
        ensures
            s@ == self@,
    {
        self.0.clone()
    }
}

impl Clone for Version {
    fn clone(&self) -> (r: Self)
        ensures
            r@ == self@,
    {
        Version(self.0.clone())
    }
}

impl PartialEq for Version {
    fn eq(&self, other: &Self) -> (r: bool) {
        self.0 == other.0
    }
}

impl Eq for Version {

}

impl vstd::std_specs::cmp::PartialEqSpecImpl for Version {
    open spec fn obeys_eq_spec() -> bool {
        true
    }

    open spec fn eq_spec(&self, other: &Self) -> bool {
        self.0@ == other.0@
    }
}

impl Clone for Device {
    fn clone(&self) -> (r: Self)
        ensures
            r@ == self@,
    {
        Device { pattern: self.pattern.clone(), version: self.version.clone() }
    }
}

impl Manifest {
    /// The manifest as text: its object type, then one line per device rule.
    pub fn to_string(&self) -> (s: String)
        ensures
            s@ == manifest_text(self@),
    {
        let mut out = String::from_str("[meta]\nobject_type = ");
        out.append(self.object_type.as_str());
        out.append("\n\n[devices]\n");
        let ghost head = out@;
        let ghost lines = self@.devices.map_values(|d: DeviceView| device_line(d));
        let n: usize = self.devices.len();
        let mut i: usize = 0;
        while i < n
            invariant
                i <= n == self.devices.len(),
                lines == self@.devices.map_values(|d: DeviceView| device_line(d)),
                out@ == head + join(lines.take(i as int), "\n"@),
            decreases n - i,
        {
            let d = &self.devices[i];
            assert(lines.take(i + 1).drop_last() =~= lines.take(i as int));
            assert(lines.take(i + 1).last() == device_line(d@));
            if i > 0 {
                out.append("\n");
            }
            out.append(d.pattern.0.as_str());
            out.append(" = ");
            out.append(d.version.0.as_str());
            assert(out@ =~= head + join(lines.take(i + 1), "\n"@));
            i += 1;
        }
        assert(lines.take(n as int) =~= lines);
        out
    }
}

} // verus!
