//! Identity of a tracked device: its role, its index, and what follows from
//! the index alone.

use crate::hand::Hand;
use crate::profiles::{property_value, InteractionProfile, MainAxisType, Profile};
use crate::properties::{
    ControllerAxisType, DevicePropertyTypes, TrackedDeviceProperty, TrackedPropertyError,
};
use vstd::prelude::*;
use vstd::std_specs::convert::FromSpecImpl;

verus! {

/// The number of indices set aside for the head-mounted display and the two
/// hand controllers. Generic trackers start here.
pub const RESERVED_DEVICE_INDECES: u32 = 3;

/// The index of the head-mounted display.
pub const TRACKED_DEVICE_INDEX_HMD: u32 = 0;

/// The index that stands for "no device".
pub const TRACKED_DEVICE_INDEX_INVALID: u32 = 0xFFFF_FFFF;

/// The number of devices the index-and-property interface can address.
pub const MAX_TRACKED_DEVICE_COUNT: u32 = 64;

/// The role of a tracked device.
#[derive(Clone, Copy, Debug, PartialEq, Eq, Structural)]
pub enum TrackedDeviceType {
    HMD,
    LeftHand,
    RightHand,
    GenericTracker,
}

/// The class under which the index-and-property interface files a device.
#[derive(Clone, Copy, Debug, PartialEq, Eq, Structural)]
pub enum TrackedDeviceClass {
    Invalid,
    HMD,
    Controller,
    GenericTracker,
}

impl TrackedDeviceType {
    /// The role that the device at `index` has: the reserved indices belong to
    /// the display and the hands, every later index to a generic tracker.
    pub open spec fn of_index(index: u32) -> TrackedDeviceType {
        if index == 0 {
            TrackedDeviceType::HMD
        } else if index == 1 {
            TrackedDeviceType::LeftHand
        } else if index == 2 {
            TrackedDeviceType::RightHand
        } else {
            TrackedDeviceType::GenericTracker
        }
    }

    /// The index reserved for this role; generic trackers have none.
    pub open spec fn reserved_index_spec(self) -> Option<u32> {
        match self {
            TrackedDeviceType::HMD => Some(0u32),
            TrackedDeviceType::LeftHand => Some(1u32),
            TrackedDeviceType::RightHand => Some(2u32),
            TrackedDeviceType::GenericTracker => None,
        }
    }

    /// The hand of a controller role.
    pub open spec fn hand_spec(self) -> Option<Hand> {
        match self {
            TrackedDeviceType::LeftHand => Some(Hand::Left),
            TrackedDeviceType::RightHand => Some(Hand::Right),
            _ => None,
        }
    }

    /// The class of a device of this role.
    pub open spec fn class_spec(self) -> TrackedDeviceClass {
        match self {
            TrackedDeviceType::HMD => TrackedDeviceClass::HMD,
            TrackedDeviceType::LeftHand => TrackedDeviceClass::Controller,
            TrackedDeviceType::RightHand => TrackedDeviceClass::Controller,
            TrackedDeviceType::GenericTracker => TrackedDeviceClass::GenericTracker,
        }
    }

    /// The index reserved for this role; generic trackers have none.
    pub fn reserved_index(self) -> (r: Option<u32>)
        ensures
            r == self.reserved_index_spec(),
            r matches Some(i) ==> i < RESERVED_DEVICE_INDECES && TrackedDeviceType::of_index(i)
                == self,
    {
        match self {
            TrackedDeviceType::HMD => Some(0),
            TrackedDeviceType::LeftHand => Some(1),
            TrackedDeviceType::RightHand => Some(2),
            TrackedDeviceType::GenericTracker => None,
        }
    }

    /// The hand of a controller role.
    pub fn hand(self) -> (r: Option<Hand>)
        ensures
            r == self.hand_spec(),
    {
        match self {
            TrackedDeviceType::LeftHand => Some(Hand::Left),
            TrackedDeviceType::RightHand => Some(Hand::Right),
            _ => None,
        }
    }

    /// The controller role of a hand.
    pub fn from_hand(hand: Hand) -> (r: TrackedDeviceType)
        ensures
            r.hand_spec() == Some(hand),
    {
        match hand {
            Hand::Left => TrackedDeviceType::LeftHand,
            Hand::Right => TrackedDeviceType::RightHand,
        }
    }

    /// The class of a device of this role.
    pub fn class(self) -> (r: TrackedDeviceClass)
        ensures
            r == self.class_spec(),
            r != TrackedDeviceClass::Invalid,
    {
        match self {
            TrackedDeviceType::HMD => TrackedDeviceClass::HMD,
            TrackedDeviceType::LeftHand => TrackedDeviceClass::Controller,
            TrackedDeviceType::RightHand => TrackedDeviceClass::Controller,
            TrackedDeviceType::GenericTracker => TrackedDeviceClass::GenericTracker,
        }
    }
}

impl From<u32> for TrackedDeviceType {
    fn from(index: u32) -> (r: TrackedDeviceType) {
        if index == 0 {
            TrackedDeviceType::HMD
        } else if index == 1 {
            TrackedDeviceType::LeftHand
        } else if index == 2 {
            TrackedDeviceType::RightHand
        } else {
            TrackedDeviceType::GenericTracker
        }
    }
}

impl FromSpecImpl<u32> for TrackedDeviceType {
    open spec fn obeys_from_spec() -> bool {
        true
    }

    open spec fn from_spec(index: u32) -> TrackedDeviceType {
        TrackedDeviceType::of_index(index)
    }
}

impl From<TrackedDeviceType> for TrackedDeviceClass {
    fn from(device_type: TrackedDeviceType) -> (r: TrackedDeviceClass) {
        device_type.class()
    }
}

impl FromSpecImpl<TrackedDeviceType> for TrackedDeviceClass {
    open spec fn obeys_from_spec() -> bool {
        true
    }

    open spec fn from_spec(device_type: TrackedDeviceType) -> TrackedDeviceClass {
        device_type.class_spec()
    }
}

/// The space in which a device's pose is resolved.
#[derive(Clone, Copy, Debug, PartialEq, Eq)]
pub enum PoseSource {
    /// The view space of the session.
    View,
    /// The grip space of a hand.
    Grip(Hand),
    /// A space that belongs to the device alone, by its raw handle.
    Space(openxr::sys::Space),
}

/// The text reported for a property that must be answered but has no
/// meaningful value.
pub const UNKNOWN_TEXT: &'static str = "<unknown>";

/// What every tracked device has: its identity, its profile and its
/// connection state.
#[derive(Clone, Copy, Debug, PartialEq, Eq)]
pub struct BaseDevice {
    pub index: u32,
    pub device_type: TrackedDeviceType,
    pub interaction_profile: Option<Profile>,
    pub connected: bool,
    pub previous_connected: bool,
}

/// Whether a device of the given role answers `property` with the unknown
/// text when its profile declares nothing for it.
pub open spec fn answers_unknown(
    device_type: TrackedDeviceType,
    property: TrackedDeviceProperty,
) -> bool {
    ||| property == TrackedDeviceProperty::SerialNumber_String
    ||| property == TrackedDeviceProperty::ManufacturerName_String
    ||| device_type == TrackedDeviceType::HMD && property
        == TrackedDeviceProperty::ControllerType_String
}

/// The text that the profile of `base` declares for `property`.
pub open spec fn declared_text(base: BaseDevice, property: TrackedDeviceProperty) -> Option<
    &'static str,
> {
    match base.interaction_profile {
        Some(profile) => match property_value(
            profile.props(),
            profile.hmd_props(),
            property,
            base.device_type,
        ) {
            Some(DevicePropertyTypes::String(text)) => Some(text),
            _ => None,
        },
        None => None,
    }
}

/// The answer of a device to a string property: what its profile declares;
/// else the unknown text for the properties that must be answered, which a
/// controller or tracker does only once it has a profile; else no answer.
pub open spec fn string_property_of(base: BaseDevice, property: TrackedDeviceProperty) -> Result<
    &'static str,
    TrackedPropertyError,
> {
    match declared_text(base, property) {
        Some(text) => Ok(text),
        None => if (base.device_type == TrackedDeviceType::HMD || base.interaction_profile
            is Some) && answers_unknown(base.device_type, property) {
            Ok(UNKNOWN_TEXT)
        } else {
            Err(TrackedPropertyError::UnknownProperty)
        },
    }
}

/// The answer of a device to an integer property: a hand controller with a
/// profile reports the kinds of its axes, the first by the main axis of its
/// family; nothing else is known.
pub open spec fn int32_property_of(base: BaseDevice, property: TrackedDeviceProperty) -> Result<
    i32,
    TrackedPropertyError,
> {
    if base.device_type.hand_spec() is Some && base.interaction_profile is Some {
        match property {
            TrackedDeviceProperty::Axis0Type_Int32 => Ok(
                match base.interaction_profile.unwrap().props().main_axis {
                    MainAxisType::Thumbstick => ControllerAxisType::Joystick.raw(),
                    MainAxisType::Trackpad => ControllerAxisType::TrackPad.raw(),
                },
            ),
            TrackedDeviceProperty::Axis1Type_Int32 => Ok(ControllerAxisType::Trigger.raw()),
            TrackedDeviceProperty::Axis2Type_Int32 => Ok(ControllerAxisType::Trigger.raw()),
            TrackedDeviceProperty::Axis3Type_Int32 => Ok(ControllerAxisType::NoAxis.raw()),
            TrackedDeviceProperty::Axis4Type_Int32 => Ok(ControllerAxisType::NoAxis.raw()),
            _ => Err(TrackedPropertyError::UnknownProperty),
        }
    } else {
        Err(TrackedPropertyError::UnknownProperty)
    }
}

impl BaseDevice {
    /// A device that is not connected and has no profile yet.
    pub fn new(index: u32, device_type: TrackedDeviceType) -> (r: BaseDevice)
        ensures
            r == (BaseDevice {
                index,
                device_type,
                interaction_profile: None,
                connected: false,
                previous_connected: false,
            }),
    {
        BaseDevice {
            index,
            device_type,
            interaction_profile: None,
            connected: false,
            previous_connected: false,
        }
    }

    /// Assigns the profile if the device has none. A profile, once assigned,
    /// stays; the result says whether this call assigned it.
    pub fn set_interaction_profile(&mut self, profile: Profile) -> (assigned: bool)
        ensures
            assigned == (old(self).interaction_profile is None),
            final(self).interaction_profile == if assigned {
                Some(profile)
            } else {
                old(self).interaction_profile
            },
            final(self).index == old(self).index,
            final(self).device_type == old(self).device_type,
            final(self).connected == old(self).connected,
            final(self).previous_connected == old(self).previous_connected,
    {
        if self.interaction_profile.is_none() {
            self.interaction_profile = Some(profile);
            true
        } else {
            false
        }
    }

    /// The answer of the device to a string property.
    pub fn get_string_property(&self, property: TrackedDeviceProperty) -> (r: Result<
        &'static str,
        TrackedPropertyError,
    >)
        ensures
            r == string_property_of(*self, property),
    {
        let declared = match self.interaction_profile {
            Some(profile) => match profile.get_property(property, self.device_type) {
                Some(value) => value.as_string(),
                None => None,
            },
            None => None,
        };
        match declared {
            Some(text) => Ok(text),
            None => {
                let is_hmd = self.device_type == TrackedDeviceType::HMD;
                let must_answer = property == TrackedDeviceProperty::SerialNumber_String
                    || property == TrackedDeviceProperty::ManufacturerName_String || (is_hmd
                    && property == TrackedDeviceProperty::ControllerType_String);
                if (is_hmd || self.interaction_profile.is_some()) && must_answer {
                    Ok(UNKNOWN_TEXT)
                } else {
                    Err(TrackedPropertyError::UnknownProperty)
                }
            },
        }
    }

    /// The answer of the device to an integer property.
    pub fn get_int32_property(&self, property: TrackedDeviceProperty) -> (r: Result<
        i32,
        TrackedPropertyError,
    >)
        ensures
            r == int32_property_of(*self, property),
    {
        if self.device_type.hand().is_none() {
            return Err(TrackedPropertyError::UnknownProperty);
        }
        match self.interaction_profile {
            None => Err(TrackedPropertyError::UnknownProperty),
            Some(profile) => match property {
                TrackedDeviceProperty::Axis0Type_Int32 => match profile.properties().main_axis {
                    MainAxisType::Thumbstick => Ok(ControllerAxisType::Joystick.as_raw()),
                    MainAxisType::Trackpad => Ok(ControllerAxisType::TrackPad.as_raw()),
                },
                TrackedDeviceProperty::Axis1Type_Int32 => Ok(ControllerAxisType::Trigger.as_raw()),
                TrackedDeviceProperty::Axis2Type_Int32 => Ok(ControllerAxisType::Trigger.as_raw()),
                TrackedDeviceProperty::Axis3Type_Int32 => Ok(ControllerAxisType::NoAxis.as_raw()),
                TrackedDeviceProperty::Axis4Type_Int32 => Ok(ControllerAxisType::NoAxis.as_raw()),
                _ => Err(TrackedPropertyError::UnknownProperty),
            },
        }
    }

    /// The answer of the device to a boolean property: no device knows one.
    pub fn get_bool_property(&self, property: TrackedDeviceProperty) -> (r: Result<
        bool,
        TrackedPropertyError,
    >)
        ensures
            r == Err::<bool, TrackedPropertyError>(TrackedPropertyError::UnknownProperty),
    {
        Err(TrackedPropertyError::UnknownProperty)
    }
}

} // verus!
