//! The queries of the index-and-property interface that are answered from
//! the device registry: connection, class, role, activity, properties and
//! connection events.

use crate::devices::tracked_device::{
    int32_property_of, string_property_of, BaseDevice, TrackedDeviceClass, TrackedDeviceType,
    TRACKED_DEVICE_INDEX_HMD, TRACKED_DEVICE_INDEX_INVALID,
};
use crate::devices::{TrackedDeviceContainer, TrackedDeviceList};
use crate::properties::{TrackedDeviceProperty, TrackedPropertyError};
use vstd::prelude::*;
use vstd::string::StringSliceAdditionalSpecFns;

verus! {

/// The role of a controller in the index-and-property interface.
#[derive(Clone, Copy, Debug, PartialEq, Eq, Structural)]
pub enum TrackedControllerRole {
    Invalid,
    LeftHand,
    RightHand,
    OptOut,
    Treadmill,
    Stylus,
}

/// How active a device is.
#[derive(Clone, Copy, Debug, PartialEq, Eq, Structural)]
pub enum DeviceActivityLevel {
    Unknown,
    UserInteraction,
}

/// The kinds of connection event.
#[derive(Clone, Copy, Debug, PartialEq, Eq, Structural)]
pub enum DeviceEventType {
    TrackedDeviceActivated,
    TrackedDeviceDeactivated,
}

/// A change of a device's connection state, reported once.
#[derive(Clone, Copy, Debug, PartialEq, Eq, Structural)]
pub struct DeviceEvent {
    pub event_type: DeviceEventType,
    pub tracked_device_index: u32,
}

/// What writing a string property into a caller's buffer gave.
#[derive(Clone, Copy, Debug, PartialEq, Eq, Structural)]
pub struct StringPropertyWritten {
    /// The number of bytes the text needs, its terminator included; 0 for an
    /// empty text.
    pub len: u32,
    pub error: TrackedPropertyError,
}

/// The device at `index`, if there is one and it is connected.
pub open spec fn connected_device(devices: Seq<TrackedDeviceContainer>, index: u32) -> Option<
    TrackedDeviceContainer,
> {
    if index < devices.len() && devices[index as int].base().connected {
        Some(devices[index as int])
    } else {
        None
    }
}

/// The answer to a string property query at `index`: an invalid device where
/// none is connected there, else the answer of the device.
pub open spec fn string_property(
    devices: Seq<TrackedDeviceContainer>,
    index: u32,
    property: TrackedDeviceProperty,
) -> Result<&'static str, TrackedPropertyError> {
    match connected_device(devices, index) {
        Some(device) => string_property_of(device.base(), property),
        None => Err(TrackedPropertyError::InvalidDevice),
    }
}

/// The answer to an integer property query at `index`: an invalid device
/// where none is connected there, else the answer of the device.
pub open spec fn int32_property(
    devices: Seq<TrackedDeviceContainer>,
    index: u32,
    property: TrackedDeviceProperty,
) -> Result<i32, TrackedPropertyError> {
    match connected_device(devices, index) {
        Some(device) => int32_property_of(device.base(), property),
        None => Err(TrackedPropertyError::InvalidDevice),
    }
}

/// The error of every query for a property of a kind that no device holds:
/// an invalid device where none is connected at `index`, else an unknown
/// property.
pub open spec fn unanswered(devices: Seq<TrackedDeviceContainer>, index: u32)
    -> TrackedPropertyError {
    match connected_device(devices, index) {
        Some(device) => TrackedPropertyError::UnknownProperty,
        None => TrackedPropertyError::InvalidDevice,
    }
}

/// The controller role that belongs to a device index.
pub open spec fn role_of_index(index: u32) -> TrackedControllerRole {
    match TrackedDeviceType::of_index(index) {
        TrackedDeviceType::LeftHand => TrackedControllerRole::LeftHand,
        TrackedDeviceType::RightHand => TrackedControllerRole::RightHand,
        _ => TrackedControllerRole::Invalid,
    }
}

/// Whether the device at position `i` has a connection state that was not
/// yet reported.
pub open spec fn is_pending(devices: Seq<TrackedDeviceContainer>, i: int) -> bool {
    devices[i].base().connected != devices[i].base().previous_connected
}

/// The device with its connection state marked as reported.
pub open spec fn reported(device: TrackedDeviceContainer) -> TrackedDeviceContainer {
    device.with_base(
        BaseDevice { previous_connected: device.base().connected, ..device.base() },
    )
}

/// The event that reports the connection state of `device`.
pub open spec fn event_of(device: TrackedDeviceContainer) -> DeviceEvent {
    DeviceEvent {
        event_type: if device.base().connected {
            DeviceEventType::TrackedDeviceActivated
        } else {
            DeviceEventType::TrackedDeviceDeactivated
        },
        tracked_device_index: device.base().index,
    }
}

/// The positions of the devices whose connection state was not yet reported.
pub open spec fn pending(devices: Seq<TrackedDeviceContainer>) -> Set<int> {
    Set::new(|i: int| 0 <= i < devices.len() && is_pending(devices, i))
}

/// Reporting the state of one device settles that device and no other:
/// each change of a connection state is reported once.
pub proof fn lemma_report_settles_one_device(devices: Seq<TrackedDeviceContainer>, i: int)
    requires
        0 <= i < devices.len(),
    ensures
        pending(devices.update(i, reported(devices[i]))) == pending(devices).remove(i),
        reported(devices[i]).base().connected == devices[i].base().connected,
{
}

/// The devices after the device at `index` was disconnected.
pub open spec fn disconnected(devices: Seq<TrackedDeviceContainer>, index: u32) -> Seq<
    TrackedDeviceContainer,
>
    recommends
        index < devices.len(),
{
    devices.update(
        index as int,
        devices[index as int].with_base(
            BaseDevice { connected: false, ..devices[index as int].base() },
        ),
    )
}

/// Once a device is disconnected, every property query at its index finds
/// an invalid device, and every query at another index is answered as
/// before: the device there is the same, and so are its connection state,
/// its properties and the space in which its pose is resolved.
pub proof fn lemma_disconnect_touches_one_index(
    devices: Seq<TrackedDeviceContainer>,
    index: u32,
    other: u32,
    property: TrackedDeviceProperty,
)
    requires
        index < devices.len(),
        other != index,
    ensures
        string_property(disconnected(devices, index), index, property) == Err::<
            &'static str,
            TrackedPropertyError,
        >(TrackedPropertyError::InvalidDevice),
        int32_property(disconnected(devices, index), index, property) == Err::<
            i32,
            TrackedPropertyError,
        >(TrackedPropertyError::InvalidDevice),
        unanswered(disconnected(devices, index), index) == TrackedPropertyError::InvalidDevice,
        other < devices.len() ==> disconnected(devices, index)[other as int]
            == devices[other as int],
        connected_device(disconnected(devices, index), other) == connected_device(devices, other),
        string_property(disconnected(devices, index), other, property) == string_property(
            devices,
            other,
            property,
        ),
        int32_property(disconnected(devices, index), other, property) == int32_property(
            devices,
            other,
            property,
        ),
{
}

/// The bytes of a text in a caller's buffer: the text, then a zero byte.
pub open spec fn terminated(text: Seq<u8>) -> Seq<u8> {
    text.push(0u8)
}

/// The answers of the index-and-property interface over one device registry.
#[derive(Debug, PartialEq, Eq)]
pub struct System {
    pub devices: TrackedDeviceList,
}

impl System {
    /// The interface over `devices`.
    pub fn new(devices: TrackedDeviceList) -> (r: System)
        ensures
            r.devices == devices,
    {
        System { devices }
    }

    /// The device at `device_index` if one stands there and is connected;
    /// an invalid device otherwise. Every property query starts here.
    pub fn get_connected_device(&self, device_index: u32) -> (r: Result<
        &TrackedDeviceContainer,
        TrackedPropertyError,
    >)
        ensures
            match r {
                Ok(device) => connected_device(self.devices.devices@, device_index) == Some(
                    *device,
                ),
                Err(error) => error == TrackedPropertyError::InvalidDevice && connected_device(
                    self.devices.devices@,
                    device_index,
                ) is None,
            },
    {
        match self.devices.get_device(device_index) {
            Some(device) => {
                if device.connected() {
                    Ok(device)
                } else {
                    Err(TrackedPropertyError::InvalidDevice)
                }
            },
            None => Err(TrackedPropertyError::InvalidDevice),
        }
    }

    /// Whether a device stands at `device_index` and is connected.
    pub fn is_tracked_device_connected(&self, device_index: u32) -> (r: bool)
        ensures
            r == connected_device(self.devices.devices@, device_index) is Some,
    {
        self.get_connected_device(device_index).is_ok()
    }

    /// The class of the device at `index`: invalid where no device is
    /// connected there, else the class of the role that the index stands for.
    pub fn get_tracked_device_class(&self, index: u32) -> (r: TrackedDeviceClass)
        ensures
            r == if connected_device(self.devices.devices@, index) is Some {
                TrackedDeviceType::of_index(index).class_spec()
            } else {
                TrackedDeviceClass::Invalid
            },
    {
        if !self.is_tracked_device_connected(index) {
            TrackedDeviceClass::Invalid
        } else {
            TrackedDeviceType::from(index).into()
        }
    }

    /// The controller role that belongs to a device index: a hand for the
    /// two controller indices, none for every other index.
    pub fn get_controller_role_for_tracked_device_index(&self, index: u32) -> (r:
        TrackedControllerRole)
        ensures
            r == role_of_index(index),
    {
        match TrackedDeviceType::from(index) {
            TrackedDeviceType::LeftHand => TrackedControllerRole::LeftHand,
            TrackedDeviceType::RightHand => TrackedControllerRole::RightHand,
            _ => TrackedControllerRole::Invalid,
        }
    }

    /// The index of the controller with the given role: the index reserved
    /// for the hand where a device is connected there, the invalid index in
    /// every other case.
    pub fn get_tracked_device_index_for_controller_role(&self, role: TrackedControllerRole) -> (r:
        u32)
        ensures
            r == match role {
                TrackedControllerRole::LeftHand => if connected_device(
                    self.devices.devices@,
                    1,
                ) is Some {
                    1u32
                } else {
                    TRACKED_DEVICE_INDEX_INVALID
                },
                TrackedControllerRole::RightHand => if connected_device(
                    self.devices.devices@,
                    2,
                ) is Some {
                    2u32
                } else {
                    TRACKED_DEVICE_INDEX_INVALID
                },
                _ => TRACKED_DEVICE_INDEX_INVALID,
            },
            r != TRACKED_DEVICE_INDEX_INVALID ==> role_of_index(r) == role,
    {
        let index: u32 = match role {
            TrackedControllerRole::LeftHand => 1,
            TrackedControllerRole::RightHand => 2,
            _ => {
                return TRACKED_DEVICE_INDEX_INVALID;
            },
        };
        if self.is_tracked_device_connected(index) {
            index
        } else {
            TRACKED_DEVICE_INDEX_INVALID
        }
    }

    /// The activity of the device at `device_index`: the display is always
    /// in use; any other device is in use while it is connected.
    pub fn get_tracked_device_activity_level(&self, device_index: u32) -> (r: DeviceActivityLevel)
        ensures
            r == if device_index == TRACKED_DEVICE_INDEX_HMD || connected_device(
                self.devices.devices@,
                device_index,
            ) is Some {
                DeviceActivityLevel::UserInteraction
            } else {
                DeviceActivityLevel::Unknown
            },
    {
        if device_index == TRACKED_DEVICE_INDEX_HMD {
            DeviceActivityLevel::UserInteraction
        } else if self.is_tracked_device_connected(device_index) {
            DeviceActivityLevel::UserInteraction
        } else {
            DeviceActivityLevel::Unknown
        }
    }

    /// The answer to a string property query.
    pub fn get_string_tracked_device_property(
        &self,
        device_index: u32,
        property: TrackedDeviceProperty,
    ) -> (r: Result<&'static str, TrackedPropertyError>)
        ensures
            r == string_property(self.devices.devices@, device_index, property),
    {
        match self.get_connected_device(device_index) {
            Ok(device) => device.get_string_property(property),
            Err(error) => Err(error),
        }
    }

    /// The answer to an integer property query.
    pub fn get_int32_tracked_device_property(
        &self,
        device_index: u32,
        property: TrackedDeviceProperty,
    ) -> (r: Result<i32, TrackedPropertyError>)
        ensures
            r == int32_property(self.devices.devices@, device_index, property),
    {
        match self.get_connected_device(device_index) {
            Ok(device) => device.get_int32_property(property),
            Err(error) => Err(error),
        }
    }

    /// The answer to a boolean property query: no device holds one.
    pub fn get_bool_tracked_device_property(
        &self,
        device_index: u32,
        property: TrackedDeviceProperty,
    ) -> (r: Result<bool, TrackedPropertyError>)
        ensures
            r == Err::<bool, TrackedPropertyError>(unanswered(self.devices.devices@, device_index)),
    {
        match self.get_connected_device(device_index) {
            Ok(device) => device.get_bool_property(property),
            Err(error) => Err(error),
        }
    }

    /// The answer to a 64-bit property query: no device holds one.
    pub fn get_uint64_tracked_device_property(
        &self,
        device_index: u32,
        property: TrackedDeviceProperty,
    ) -> (r: Result<u64, TrackedPropertyError>)
        ensures
            r == Err::<u64, TrackedPropertyError>(unanswered(self.devices.devices@, device_index)),
    {
        match self.get_connected_device(device_index) {
            Ok(_) => Err(TrackedPropertyError::UnknownProperty),
            Err(error) => Err(error),
        }
    }

    /// Reports the connection state of the first device whose state was not
    /// yet reported, and marks it as reported. Nothing is reported, and
    /// nothing changes, where every state was reported already.
    pub fn poll_next_event(&mut self) -> (r: Option<DeviceEvent>)
        ensures
            match r {
                Some(event) => exists|i: int|
                    {
                        &&& 0 <= i < old(self).devices.devices@.len()
                        &&& #[trigger] is_pending(old(self).devices.devices@, i)
                        &&& forall|k: int| 0 <= k < i ==> !is_pending(old(self).devices.devices@, k)
                        &&& event == event_of(old(self).devices.devices@[i])
                        &&& final(self).devices.devices@ == old(self).devices.devices@.update(
                            i,
                            reported(old(self).devices.devices@[i]),
                        )
                    },
                None => {
                    &&& forall|i: int|
                        0 <= i < old(self).devices.devices@.len() ==> !is_pending(
                            old(self).devices.devices@,
                            i,
                        )
                    &&& final(self).devices.devices@ == old(self).devices.devices@
                },
            },
            old(self).devices.wf() ==> final(self).devices.wf(),
    {
        let mut i: usize = 0;
        while i < self.devices.devices.len()
            invariant
                i <= self.devices.devices.len(),
                self.devices.devices@ == old(self).devices.devices@,
                forall|k: int| 0 <= k < i ==> !is_pending(self.devices.devices@, k),
            decreases self.devices.devices.len() - i,
        {
            let current = self.devices.devices[i].connected();
            if current != self.devices.devices[i].last_connected_state() {
                let index = self.devices.devices[i].device_index();
                self.devices.devices[i].set_last_connected_state(current);
                let event_type = if current {
                    DeviceEventType::TrackedDeviceActivated
                } else {
                    DeviceEventType::TrackedDeviceDeactivated
                };
                assert(is_pending(old(self).devices.devices@, i as int));
                return Some(DeviceEvent { event_type, tracked_device_index: index });
            }
            i += 1;
        }
        None
    }
}

/// Writes `text` into `value` as the index-and-property interface hands out
/// strings: the bytes of the text and a zero byte, at the start of the
/// buffer. An empty text writes nothing and needs no room. A buffer that is
/// too small is left as it is, and the result tells how much room is needed.
pub fn write_string_property(text: &str, value: &mut Vec<u8>) -> (r: StringPropertyWritten)
    requires
        !text.spec_bytes().contains(0u8),
        text.spec_bytes().len() < u32::MAX,
    ensures
        final(value)@.len() == old(value)@.len(),
        text@.len() == 0 ==> r == (StringPropertyWritten {
            len: 0,
            error: TrackedPropertyError::Success,
        }) && final(value)@ == old(value)@,
        text@.len() > 0 ==> r.len == text.spec_bytes().len() + 1,
        text@.len() > 0 && old(value)@.len() < r.len ==> r.error
            == TrackedPropertyError::BufferTooSmall && final(value)@ == old(value)@,
        text@.len() > 0 && old(value)@.len() >= r.len ==> r.error == TrackedPropertyError::Success
            && final(value)@ == terminated(text.spec_bytes()) + old(value)@.skip(r.len as int),
{
    if text.is_empty() {
        return StringPropertyWritten { len: 0, error: TrackedPropertyError::Success };
    }
    let bytes = text.as_bytes();
    let needed: usize = bytes.len() + 1;
    if value.len() < needed {
        return StringPropertyWritten {
            len: needed as u32,
            error: TrackedPropertyError::BufferTooSmall,
        };
    }
    let mut i: usize = 0;
    while i < bytes.len()
        invariant
            i <= bytes.len(),
            needed == bytes.len() + 1,
            value.len() == old(value).len(),
            value.len() >= needed,
            value@ =~= bytes@.take(i as int) + old(value)@.skip(i as int),
        decreases bytes.len() - i,
    {
        value[i] = bytes[i];
        i += 1;
    }
    value[i] = 0;
    StringPropertyWritten { len: needed as u32, error: TrackedPropertyError::Success }
}

} // verus!
