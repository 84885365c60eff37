//! Device properties of the index-and-property interface, and the values a
//! property can hold.

use vstd::prelude::*;

verus! {

/// The properties that a tracked device can be asked for. Properties that no
/// device distinguishes are carried by their raw identifier.
#[allow(non_camel_case_types)]
#[derive(Clone, Copy, Debug, PartialEq, Eq, Structural)]
pub enum TrackedDeviceProperty {
    ModelNumber_String,
    SerialNumber_String,
    ManufacturerName_String,
    RenderModelName_String,
    ControllerType_String,
    Axis0Type_Int32,
    Axis1Type_Int32,
    Axis2Type_Int32,
    Axis3Type_Int32,
    Axis4Type_Int32,
    Other(u32),
}

/// How a property query ended.
#[derive(Clone, Copy, Debug, PartialEq, Eq, Structural)]
pub enum TrackedPropertyError {
    Success,
    BufferTooSmall,
    UnknownProperty,
    InvalidDevice,
}

/// Kinds of controller axis, by the numbers the property interface reports.
#[derive(Clone, Copy, Debug, PartialEq, Eq, Structural)]
pub enum ControllerAxisType {
    NoAxis,
    TrackPad,
    Joystick,
    Trigger,
}

impl ControllerAxisType {
    /// The number that stands for this axis type in an integer property.
    pub open spec fn raw(self) -> i32 {
        match self {
            ControllerAxisType::NoAxis => 0,
            ControllerAxisType::TrackPad => 1,
            ControllerAxisType::Joystick => 2,
            ControllerAxisType::Trigger => 3,
        }
    }

    /// The number that stands for this axis type in an integer property.
    pub fn as_raw(self) -> (r: i32)
        ensures
            r == self.raw(),
    {
        match self {
            ControllerAxisType::NoAxis => 0,
            ControllerAxisType::TrackPad => 1,
            ControllerAxisType::Joystick => 2,
            ControllerAxisType::Trigger => 3,
        }
    }
}

/// A property value as a profile declares it.
#[derive(Clone, Copy, Debug, PartialEq, Eq)]
pub enum DevicePropertyTypes {
    Bool(bool),
    Int32(i32),
    Uint64(u64),
    String(&'static str),
}

impl DevicePropertyTypes {
    /// The text of a string value; nothing for the other kinds.
    pub fn as_string(&self) -> (r: Option<&'static str>)
        ensures
            r == match *self {
                DevicePropertyTypes::String(s) => Some(s),
                _ => None,
            },
    {
        match self {
            DevicePropertyTypes::String(s) => Some(*s),
            _ => None,
        }
    }

    /// The number of a 32-bit integer value; nothing for the other kinds.
    pub fn as_int32(&self) -> (r: Option<i32>)
        ensures
            r == match *self {
                DevicePropertyTypes::Int32(v) => Some(v),
                _ => None,
            },
    {
        match self {
            DevicePropertyTypes::Int32(v) => Some(*v),
            _ => None,
        }
    }

    /// The flag of a boolean value; nothing for the other kinds.
    pub fn as_bool(&self) -> (r: Option<bool>)
        ensures
            r == match *self {
                DevicePropertyTypes::Bool(v) => Some(v),
                _ => None,
            },
    {
        match self {
            DevicePropertyTypes::Bool(v) => Some(*v),
            _ => None,
        }
    }
}

/// A value declared for the left hand, with an optional different value for
/// the right hand. Without one, the right hand shares the left hand's value.
#[derive(Clone, Copy, Debug, PartialEq, Eq)]
pub struct HandValueType<T> {
    pub left: T,
    pub right: Option<T>,
}

} // verus!
