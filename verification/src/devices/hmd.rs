//! The head-mounted display.

use crate::devices::tracked_device::{BaseDevice, TrackedDeviceType, TRACKED_DEVICE_INDEX_HMD};
use vstd::prelude::*;

verus! {

/// The head-mounted display. It is always connected.
#[derive(Clone, Copy, Debug, PartialEq, Eq)]
pub struct XrHMD {
    pub base: BaseDevice,
}

impl XrHMD {
    /// The display as it is when a registry is built: at index 0, connected,
    /// without a profile.
    pub open spec fn initial() -> XrHMD {
        XrHMD {
            base: BaseDevice {
                index: TRACKED_DEVICE_INDEX_HMD,
                device_type: TrackedDeviceType::HMD,
                interaction_profile: None,
                connected: true,
                previous_connected: false,
            },
        }
    }

    /// The display sits at index 0 and has the display's role.
    pub open spec fn wf(&self) -> bool {
        &&& self.base.index == TRACKED_DEVICE_INDEX_HMD
        &&& self.base.device_type == TrackedDeviceType::HMD
    }

    /// The display, connected.
    pub fn new() -> (r: XrHMD)
        ensures
            r == XrHMD::initial(),
            r.wf(),
    {
        let mut base = BaseDevice::new(TRACKED_DEVICE_INDEX_HMD, TrackedDeviceType::HMD);
        base.connected = true;
        XrHMD { base }
    }

    /// What the display shares with every tracked device.
    pub fn get_base_device(&self) -> (r: &BaseDevice)
        ensures
            *r == self.base,
    {
        &self.base
    }
}

} // verus!
