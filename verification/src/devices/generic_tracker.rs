//! Trackers that the runtime lists beside the display and the controllers.

use crate::devices::tracked_device::{
    BaseDevice, TrackedDeviceType, MAX_TRACKED_DEVICE_COUNT, RESERVED_DEVICE_INDECES,
};
use crate::profiles::Profile;
use crate::text::{chars_of, contains_chars, lowercase_of, occurs};
use vstd::prelude::*;

verus! {

/// The number of generic trackers that the index-and-property interface can
/// address.
pub const MAX_GENERIC_TRACKERS: u32 = MAX_TRACKED_DEVICE_COUNT - RESERVED_DEVICE_INDECES;

/// A device as the runtime's device list describes it.
#[derive(Debug, PartialEq, Eq)]
pub struct Xdev {
    /// The raw handle of the device's tracking space, where the runtime
    /// could create one.
    pub space: Option<openxr::sys::Space>,
    pub name: String,
    pub serial: String,
}

/// Why a tracker could not be made.
#[derive(Clone, Copy, Debug, PartialEq, Eq, Structural)]
pub enum TrackerError {
    /// The index is one of those set aside for the display and the hands.
    ReservedIndex,
    /// The device has no tracking space.
    MissingSpace,
}

/// A generic tracker: tracked through a space of its own, always connected,
/// always under the tracker profile.
#[derive(Debug, PartialEq, Eq)]
pub struct XrGenericTracker {
    pub base: BaseDevice,
    /// The raw handle of the tracking space.
    pub space: openxr::sys::Space,
    pub name: String,
    pub serial: String,
}

/// Whether a lowercase device name says that the device is a tracker.
pub open spec fn names_tracker(lowered: Seq<char>) -> bool {
    occurs(lowered, "tracker"@)
}

/// Whether a listed device becomes a generic tracker: it has a tracking space
/// and its name, in lowercase, holds the word "tracker".
pub open spec fn is_tracker(dev: Xdev) -> bool {
    dev.space is Some && names_tracker(lowercase_of(dev.name@))
}

/// The tracker that stands for `dev` at `index`.
pub open spec fn tracker_of(index: u32, dev: Xdev) -> XrGenericTracker
    recommends
        dev.space is Some,
{
    XrGenericTracker {
        base: BaseDevice {
            index,
            device_type: TrackedDeviceType::GenericTracker,
            interaction_profile: Some(Profile::ViveTracker),
            connected: true,
            previous_connected: false,
        },
        space: dev.space.unwrap(),
        name: dev.name,
        serial: dev.serial,
    }
}

/// Whether a lowercase device name says that the device is a tracker.
pub fn lowercase_name_is_tracker(lowered: &str) -> (r: bool)
    ensures
        r == names_tracker(lowered@),
{
    let name = chars_of(lowered);
    let word = chars_of("tracker");
    contains_chars(&name, &word)
}

impl Xdev {
    /// Whether this device becomes a generic tracker.
    pub fn is_tracker(&self) -> (r: bool)
        ensures
            r == is_tracker(*self),
    {
        if self.space.is_none() {
            return false;
        }
        let lowered = self.name.as_str().to_lowercase();
        lowercase_name_is_tracker(lowered.as_str())
    }
}

impl XrGenericTracker {
    /// The tracker has the tracker's role and profile and sits behind the
    /// reserved indices.
    pub open spec fn wf(&self) -> bool {
        &&& self.base.index >= RESERVED_DEVICE_INDECES
        &&& self.base.device_type == TrackedDeviceType::GenericTracker
        &&& self.base.interaction_profile == Some(Profile::ViveTracker)
    }

    /// The tracker that stands for `dev` at `index`. The index must lie
    /// behind the reserved ones, and the device must have a tracking space.
    pub fn new(index: u32, dev: Xdev) -> (r: XrGenericTracker)
        requires
            index >= RESERVED_DEVICE_INDECES,
            dev.space is Some,
        ensures
            r == tracker_of(index, dev),
            r.wf(),
    {
        let mut base = BaseDevice::new(index, TrackedDeviceType::GenericTracker);
        base.set_interaction_profile(Profile::ViveTracker);
        base.connected = true;
        let Xdev { space, name, serial } = dev;
        XrGenericTracker { base, space: space.unwrap(), name, serial }
    }

    /// The tracker that stands for `dev` at `index`, or the reason why there
    /// is none: a reserved index first, a missing space second.
    pub fn try_new(index: u32, dev: Xdev) -> (r: Result<XrGenericTracker, TrackerError>)
        ensures
            r == if index < RESERVED_DEVICE_INDECES {
                Err::<XrGenericTracker, TrackerError>(TrackerError::ReservedIndex)
            } else if dev.space is None {
                Err(TrackerError::MissingSpace)
            } else {
                Ok(tracker_of(index, dev))
            },
            r matches Ok(tracker) ==> tracker.wf(),
    {
        if index < RESERVED_DEVICE_INDECES {
            Err(TrackerError::ReservedIndex)
        } else if dev.space.is_none() {
            Err(TrackerError::MissingSpace)
        } else {
            Ok(XrGenericTracker::new(index, dev))
        }
    }

    /// What the tracker shares with every tracked device.
    pub fn get_base_device(&self) -> (r: &BaseDevice)
        ensures
            *r == self.base,
    {
        &self.base
    }

    /// The name under which the runtime listed the device.
    pub fn name(&self) -> (r: &str)
        ensures
            r@ == self.name@,
    {
        self.name.as_str()
    }

    /// The serial number under which the runtime listed the device.
    pub fn serial(&self) -> (r: &str)
        ensures
            r@ == self.serial@,
    {
        self.serial.as_str()
    }
}

} // verus!
