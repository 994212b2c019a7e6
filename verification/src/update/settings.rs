//! From the manifest response to the rule that applies to this device.

use crate::err::{fault, fault_of, Error, ErrorKind, ErrorView};
use crate::text::{decimal, decimal_of, same};
use crate::update::identity::{decode, decoded};
use crate::update::manifest::{regex_match, Device, DeviceView, Manifest, ManifestView};
use vstd::prelude::*;

verus! {

/// The only response status with which a manifest is accepted.
pub const STATUS_OK: u16 = 200;

/// Whether the rule applies to the device: its pattern is a valid regular
/// expression and finds a match in the identifier.
pub open spec fn rule_applies(d: DeviceView, thing_id: Seq<char>) -> bool {
    regex_match(d.pattern, thing_id) == Some(true)
}

/// The first rule, in declared order, that applies to the device.
pub open spec fn first_applicable(devices: Seq<DeviceView>, thing_id: Seq<char>) -> Option<
    DeviceView,
>
    decreases devices.len(),
{
    if devices.len() == 0 {
        None
    } else if rule_applies(devices[0], thing_id) {
        Some(devices[0])
    } else {
        first_applicable(devices.drop_first(), thing_id)
    }
}

/// The text of a manifest response: the body decoded, provided the status is
/// exactly 200. The error for another status tells the status.
pub open spec fn body_text(status: u16, body: Seq<u8>) -> Result<Seq<char>, ErrorView> {
    if status != STATUS_OK {
        Err(
            fault_of(
                ErrorKind::Fetch,
                "Fails to fetch manifest: status = "@,
                decimal_of(status as nat) + " != 200"@,
            ),
        )
    } else {
        match decoded(body) {
            Ok(text) => Ok(text),
            Err(cause) => Err(fault_of(ErrorKind::Parse, "UTF8 error: "@, cause)),
        }
    }
}

/// The rule of the manifest that applies to the device, provided the manifest
/// is meant for `object_type`.
pub open spec fn selected(
    object_type: Seq<char>,
    manifest: ManifestView,
    thing_id: Seq<char>,
) -> Result<Option<DeviceView>, ErrorView> {
    if manifest.object_type != object_type {
        Err(
            fault_of(
                ErrorKind::Mismatch,
                "Unexpected object_type: "@,
                manifest.object_type + " != "@ + object_type,
            ),
        )
    } else {
        Ok(first_applicable(manifest.devices, thing_id))
    }
}

/// The rule that [`first_applicable`] selects is declared before every other
/// rule that applies, and no rule is selected only if none applies.
pub proof fn first_applicable_is_least(devices: Seq<DeviceView>, thing_id: Seq<char>)
    ensures
        match first_applicable(devices, thing_id) {
            Some(d) => exists|i: int|
                0 <= i < devices.len() && devices[i] == d && rule_applies(devices[i], thing_id)
                    && forall|j: int| 0 <= j < i ==> !rule_applies(#[trigger] devices[j], thing_id),
            None => forall|i: int|
                0 <= i < devices.len() ==> !rule_applies(#[trigger] devices[i], thing_id),
        },
    decreases devices.len(),
{
    if devices.len() > 0 && !rule_applies(devices[0], thing_id) {
        let rest = devices.drop_first();
        first_applicable_is_least(rest, thing_id);
        match first_applicable(rest, thing_id) {
            Some(d) => {
                let i = choose|i: int|
                    0 <= i < rest.len() && rest[i] == d && rule_applies(rest[i], thing_id)
                        && forall|j: int| 0 <= j < i ==> !rule_applies(#[trigger] rest[j], thing_id);
                assert forall|j: int| 0 <= j < i + 1 implies !rule_applies(
                    #[trigger] devices[j],
                    thing_id,
                ) by {
                    if j > 0 {
                        assert(devices[j] == rest[j - 1]);
                    }
                }
                assert(devices[i + 1] == rest[i]);
            },
            None => {
                assert forall|i: int| 0 <= i < devices.len() implies !rule_applies(
                    #[trigger] devices[i],
                    thing_id,
                ) by {
                    if i > 0 {
                        assert(devices[i] == rest[i - 1]);
                    }
                }
            },
        }
    } else if devices.len() > 0 {
        assert(devices[0] == devices[0] && rule_applies(devices[0], thing_id));
    }
}

/// The text of a manifest response.
///
/// Fails with `Fetch` unless the status is exactly 200, and with `Parse` if
/// the body is no valid UTF-8.
pub fn manifest_body(status: u16, body: &[u8]) -> (r: Result<&str, Error>)
    ensures
        match body_text(status, body@) {
            Ok(text) => r matches Ok(s) && s@ == text,
            Err(err) => r matches Err(e) && e@ == err,
        },
{
    if status != STATUS_OK {
        let mut detail = decimal(status as u64);
        detail.append(" != 200");
        return Err(fault(ErrorKind::Fetch, "Fails to fetch manifest: status = ", detail.as_str()));
    }
    match decode(body) {
        Ok(text) => Ok(text),
        Err(cause) => Err(fault(ErrorKind::Parse, "UTF8 error: ", cause.as_str())),
    }
}

/// The first rule among `devices`, in declared order, that applies to the
/// device. A rule whose pattern is no valid regular expression is passed
/// over; rules after the first that applies are not looked at.
pub fn find_device(devices: &Vec<Device>, thing_id: &str) -> (r: Option<Device>)
    ensures
        match first_applicable(devices@.map_values(|d: Device| d@), thing_id@) {
            Some(d) => r matches Some(found) && found@ == d,
            None => r is None,
        },
{
    let ghost all = devices@.map_values(|d: Device| d@);
    let n: usize = devices.len();
    let mut i: usize = 0;
    assert(all.skip(0) =~= all);
    while i < n
        invariant
            i <= n == devices.len(),
            all == devices@.map_values(|d: Device| d@),
            first_applicable(all, thing_id@) == first_applicable(all.skip(i as int), thing_id@),
        decreases n - i,
    {
        let d = &devices[i];
        assert(all.skip(i as int)[0] == d@);
        assert(all.skip(i as int).drop_first() =~= all.skip(i + 1));
        match d.pattern.matches(thing_id) {
            Some(true) => {
                return Some(d.clone());
            },
            _ => {},
        }
        i += 1;
    }
    None
}

/// The rule of the manifest that applies to the device, if any.
///
/// Fails with `Mismatch` exactly when the manifest is meant for another
/// object type than `object_type`.
pub fn device_settings(object_type: &str, manifest: &Manifest, thing_id: &str) -> (r: Result<
    Option<Device>,
    Error,
>)
    ensures
        match selected(object_type@, manifest@, thing_id@) {
            Ok(Some(d)) => r matches Ok(Some(found)) && found@ == d,
            Ok(None) => r matches Ok(None),
            Err(err) => r matches Err(e) && e@ == err,
        },
{
    if !same(manifest.object_type.as_str(), object_type) {
        let mut detail = manifest.object_type.clone();
        detail.append(" != ");
        detail.append(object_type);
        return Err(fault(ErrorKind::Mismatch, "Unexpected object_type: ", detail.as_str()));
    }
    Ok(find_device(&manifest.devices, thing_id))
}

} // verus!
