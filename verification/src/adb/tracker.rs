// Decisions of the device tracker: when a line from `adb track-devices`
// triggers a refresh, whether the device list changed, and how often the
// heartbeat polls.
use vstd::prelude::*;

use crate::adb::executor::{DeviceInfo, DeviceStatus};
use crate::error::opt_view;
use crate::text::{chars_of, trim, trimmed};

verus! {

/// Event payload sent when the device list changes.
pub struct DeviceChangedPayload {
    pub devices: Vec<DeviceInfo>,
}

/// Minimum time between two refreshes caused by tracker lines.
pub const DEBOUNCE_MS: u64 = 500;

/// A status as plain values: its kind, and the word of an unknown status.
pub open spec fn status_view(s: DeviceStatus) -> (int, Seq<char>) {
    match s {
        DeviceStatus::Device => (0, Seq::empty()),
        DeviceStatus::Offline => (1, Seq::empty()),
        DeviceStatus::Unauthorized => (2, Seq::empty()),
        DeviceStatus::Unknown(w) => (3, w@),
    }
}

pub open spec fn device_view(d: DeviceInfo) -> (Seq<char>, (int, Seq<char>), Option<Seq<char>>, Option<Seq<char>>) {
    (d.id@, status_view(d.status), opt_view(d.model), opt_view(d.product))
}

pub open spec fn device_views(ds: Seq<DeviceInfo>) -> Seq<(Seq<char>, (int, Seq<char>), Option<Seq<char>>, Option<Seq<char>>)> {
    Seq::new(ds.len(), |i: int| device_view(ds[i]))
}

fn str_eq(a: &String, b: &String) -> (r: bool)
    ensures
        r == (a@ == b@),
{
    let x = chars_of(a.as_str());
    let y = chars_of(b.as_str());
    crate::text::chars_eq(&x, &y)
}

fn opt_str_eq(a: &Option<String>, b: &Option<String>) -> (r: bool)
    ensures
        r == (opt_view(*a) == opt_view(*b)),
{
    match (a, b) {
        (Some(x), Some(y)) => str_eq(x, y),
        (None, None) => true,
        _ => false,
    }
}

fn status_eq(a: &DeviceStatus, b: &DeviceStatus) -> (r: bool)
    ensures
        r == (status_view(*a) == status_view(*b)),
{
    match (a, b) {
        (DeviceStatus::Device, DeviceStatus::Device) => true,
        (DeviceStatus::Offline, DeviceStatus::Offline) => true,
        (DeviceStatus::Unauthorized, DeviceStatus::Unauthorized) => true,
        (DeviceStatus::Unknown(x), DeviceStatus::Unknown(y)) => str_eq(x, y),
        _ => false,
    }
}

/// Whether a fresh device list differs from the last one sent.
pub fn devices_changed(last: &Vec<DeviceInfo>, now: &Vec<DeviceInfo>) -> (r: bool)
    ensures
        r == (device_views(last@) != device_views(now@)),
{
    if last.len() != now.len() {
        assert(device_views(last@).len() != device_views(now@).len());
        return true;
    }
    let mut i: usize = 0;
    while i < last.len()
        invariant
            i <= last.len(),
            last.len() == now.len(),
            forall|k: int| 0 <= k < i ==> device_view(#[trigger] last@[k]) == device_view(now@[k]),
        decreases last.len() - i,
    {
        let a = &last[i];
        let b = &now[i];
        if !(str_eq(&a.id, &b.id) && status_eq(&a.status, &b.status) && opt_str_eq(&a.model, &b.model)
            && opt_str_eq(&a.product, &b.product)) {
            assert(device_views(last@)[i as int] != device_views(now@)[i as int]);
            return true;
        }
        i = i + 1;
    }
    assert(device_views(last@) =~= device_views(now@));
    false
}

/// A device still settling: unauthorized or in a state not otherwise known.
pub open spec fn transitional(d: DeviceInfo) -> bool {
    d.status is Unauthorized || d.status is Unknown
}

/// Seconds between heartbeat polls: 2 while a device is settling, else 10.
pub fn heartbeat_interval_secs(last: &Vec<DeviceInfo>) -> (r: u64)
    ensures
        r == if exists|k: int| 0 <= k < last.len() && transitional(#[trigger] last@[k]) {
            2u64
        } else {
            10u64
        },
{
    let mut i: usize = 0;
    while i < last.len()
        invariant
            i <= last.len(),
            forall|k: int| 0 <= k < i ==> !transitional(#[trigger] last@[k]),
        decreases last.len() - i,
    {
        match &last[i].status {
            DeviceStatus::Unauthorized => {
                assert(transitional(last@[i as int]));
                return 2;
            },
            DeviceStatus::Unknown(_) => {
                assert(transitional(last@[i as int]));
                return 2;
            },
            _ => {},
        }
        i = i + 1;
    }
    10
}

/// A non-blank tracker line refreshes the list once the debounce time has
/// passed since the last refresh.
pub fn should_refresh(line: &str, elapsed_ms: u64) -> (r: bool)
    ensures
        r == (trim(line@).len() > 0 && elapsed_ms >= 500),
{
    let t = trimmed(line);
    let c = chars_of(t.as_str());
    c.len() > 0 && elapsed_ms >= DEBOUNCE_MS
}

} // verus!
