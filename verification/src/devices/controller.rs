//! The two hand controllers.

use crate::devices::tracked_device::{BaseDevice, TrackedDeviceType};
use crate::hand::Hand;
use vstd::prelude::*;

verus! {

/// A hand controller. It is connected once the runtime has reported which
/// family it belongs to.
#[derive(Clone, Copy, Debug, PartialEq, Eq)]
pub struct XrController {
    pub base: BaseDevice,
}

impl XrController {
    /// The controller of `hand` as it is when a registry is built: at the
    /// index reserved for the hand, not connected, without a profile.
    pub open spec fn initial(hand: TrackedDeviceType) -> XrController {
        XrController {
            base: BaseDevice {
                index: hand.reserved_index_spec().unwrap(),
                device_type: hand,
                interaction_profile: None,
                connected: false,
                previous_connected: false,
            },
        }
    }

    /// The controller has the role of a hand and sits at the index reserved
    /// for that hand.
    pub open spec fn wf(&self) -> bool {
        &&& self.base.device_type.hand_spec() is Some
        &&& self.base.device_type.reserved_index_spec() == Some(self.base.index)
    }

    /// The hand that holds the controller.
    pub open spec fn hand_spec(&self) -> Hand
        recommends
            self.wf(),
    {
        self.base.device_type.hand_spec().unwrap()
    }

    /// The controller of `hand`, which must be one of the two hand roles.
    pub fn new(hand: TrackedDeviceType) -> (r: XrController)
        requires
            hand.hand_spec() is Some,
        ensures
            r == XrController::initial(hand),
            r.wf(),
    {
        let index = match hand {
            TrackedDeviceType::LeftHand => 1,
            _ => 2,
        };
        XrController { base: BaseDevice::new(index, hand) }
    }

    /// The hand that holds the controller.
    pub fn hand(&self) -> (r: Hand)
        requires
            self.wf(),
        ensures
            r == self.hand_spec(),
    {
        match self.base.device_type {
            TrackedDeviceType::LeftHand => Hand::Left,
            _ => Hand::Right,
        }
    }

    /// What the controller shares with every tracked device.
    pub fn get_base_device(&self) -> (r: &BaseDevice)
        ensures
            *r == self.base,
    {
        &self.base
    }
}

} // verus!
