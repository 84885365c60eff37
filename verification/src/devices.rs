//! Tracked devices and the registry that owns them.

pub mod controller;
pub mod generic_tracker;
pub mod hmd;
pub mod tracked_device;

use crate::devices::controller::XrController;
use crate::devices::generic_tracker::{is_tracker, tracker_of, Xdev, XrGenericTracker};
use crate::devices::hmd::XrHMD;
use crate::devices::tracked_device::{
    int32_property_of, string_property_of, BaseDevice, PoseSource, TrackedDeviceType,
    RESERVED_DEVICE_INDECES, TRACKED_DEVICE_INDEX_HMD,
};
use crate::profiles::Profile;
use crate::properties::{TrackedDeviceProperty, TrackedPropertyError};
use vstd::prelude::*;
use vstd::std_specs::convert::FromSpecImpl;

verus! {

/// A tracked device of any kind.
#[derive(Debug, PartialEq, Eq)]
pub enum TrackedDeviceContainer {
    HMD(XrHMD),
    Controller(XrController),
    GenericTracker(XrGenericTracker),
}

impl TrackedDeviceContainer {
    /// What the device shares with every tracked device.
    pub open spec fn base(&self) -> BaseDevice {
        match self {
            TrackedDeviceContainer::HMD(device) => device.base,
            TrackedDeviceContainer::Controller(device) => device.base,
            TrackedDeviceContainer::GenericTracker(device) => device.base,
        }
    }

    /// The same device with `base` in place of its own.
    pub open spec fn with_base(self, base: BaseDevice) -> TrackedDeviceContainer {
        match self {
            TrackedDeviceContainer::HMD(device) => TrackedDeviceContainer::HMD(XrHMD { base }),
            TrackedDeviceContainer::Controller(device) => TrackedDeviceContainer::Controller(
                XrController { base },
            ),
            TrackedDeviceContainer::GenericTracker(device) => TrackedDeviceContainer::GenericTracker(
                XrGenericTracker {
                    base,
                    space: device.space,
                    name: device.name,
                    serial: device.serial,
                },
            ),
        }
    }

    /// The kind of the device, its role and its index agree.
    pub open spec fn wf(&self) -> bool {
        match self {
            TrackedDeviceContainer::HMD(device) => device.wf(),
            TrackedDeviceContainer::Controller(device) => device.wf(),
            TrackedDeviceContainer::GenericTracker(device) => device.wf(),
        }
    }

    /// The space in which the pose of the device is resolved.
    pub open spec fn pose_source_spec(&self) -> PoseSource
        recommends
            self.wf(),
    {
        match self {
            TrackedDeviceContainer::HMD(device) => PoseSource::View,
            TrackedDeviceContainer::Controller(device) => PoseSource::Grip(device.hand_spec()),
            TrackedDeviceContainer::GenericTracker(device) => PoseSource::Space(device.space),
        }
    }

    /// Whether the kind of the device, its role and its index agree.
    pub fn is_wf(&self) -> (r: bool)
        ensures
            r == self.wf(),
    {
        let base = self.get_base_device();
        match self {
            TrackedDeviceContainer::HMD(_) => base.index == TRACKED_DEVICE_INDEX_HMD
                && base.device_type == TrackedDeviceType::HMD,
            TrackedDeviceContainer::Controller(_) => match base.device_type.reserved_index() {
                Some(index) => base.device_type.hand().is_some() && index == base.index,
                None => false,
            },
            TrackedDeviceContainer::GenericTracker(_) => base.index >= RESERVED_DEVICE_INDECES
                && base.device_type == TrackedDeviceType::GenericTracker && match base.interaction_profile {
                Some(profile) => profile == Profile::ViveTracker,
                None => false,
            },
        }
    }

    /// What the device shares with every tracked device.
    pub fn get_base_device(&self) -> (r: &BaseDevice)
        ensures
            *r == self.base(),
    {
        match self {
            TrackedDeviceContainer::HMD(device) => device.get_base_device(),
            TrackedDeviceContainer::Controller(device) => device.get_base_device(),
            TrackedDeviceContainer::GenericTracker(device) => device.get_base_device(),
        }
    }

    /// The index of the device.
    pub fn device_index(&self) -> (r: u32)
        ensures
            r == self.base().index,
    {
        self.get_base_device().index
    }

    /// The role of the device.
    pub fn get_type(&self) -> (r: TrackedDeviceType)
        ensures
            r == self.base().device_type,
            self.wf() ==> r == TrackedDeviceType::of_index(self.base().index),
    {
        self.get_base_device().device_type
    }

    /// Whether the device is connected.
    pub fn connected(&self) -> (r: bool)
        ensures
            r == self.base().connected,
    {
        self.get_base_device().connected
    }

    /// The connection state that was last reported as an event.
    pub fn last_connected_state(&self) -> (r: bool)
        ensures
            r == self.base().previous_connected,
    {
        self.get_base_device().previous_connected
    }

    /// The profile of the device, once it has one.
    pub fn get_interaction_profile(&self) -> (r: Option<Profile>)
        ensures
            r == self.base().interaction_profile,
    {
        self.get_base_device().interaction_profile
    }

    /// Sets the connection flag and nothing else.
    pub fn set_connected(&mut self, connected: bool)
        ensures
            *final(self) == old(self).with_base(
                BaseDevice { connected, ..old(self).base() },
            ),
            old(self).wf() ==> final(self).wf(),
    {
        match self {
            TrackedDeviceContainer::HMD(device) => {
                device.base.connected = connected;
            },
            TrackedDeviceContainer::Controller(device) => {
                device.base.connected = connected;
            },
            TrackedDeviceContainer::GenericTracker(device) => {
                device.base.connected = connected;
            },
        }
    }

    /// Records the connection state that was last reported as an event, and
    /// changes nothing else.
    pub fn set_last_connected_state(&mut self, state: bool)
        ensures
            *final(self) == old(self).with_base(
                BaseDevice { previous_connected: state, ..old(self).base() },
            ),
            old(self).wf() ==> final(self).wf(),
    {
        match self {
            TrackedDeviceContainer::HMD(device) => {
                device.base.previous_connected = state;
            },
            TrackedDeviceContainer::Controller(device) => {
                device.base.previous_connected = state;
            },
            TrackedDeviceContainer::GenericTracker(device) => {
                device.base.previous_connected = state;
            },
        }
    }

    /// Assigns the profile if the device has none, and changes nothing else.
    /// A profile, once assigned, stays; the result says whether this call
    /// assigned it.
    pub fn set_interaction_profile(&mut self, profile: Profile) -> (assigned: bool)
        ensures
            assigned == (old(self).base().interaction_profile is None),
            *final(self) == old(self).with_base(
                BaseDevice {
                    interaction_profile: if assigned {
                        Some(profile)
                    } else {
                        old(self).base().interaction_profile
                    },
                    ..old(self).base()
                },
            ),
            old(self).wf() ==> final(self).wf(),
    {
        match self {
            TrackedDeviceContainer::HMD(device) => device.base.set_interaction_profile(profile),
            TrackedDeviceContainer::Controller(device) => device.base.set_interaction_profile(
                profile,
            ),
            TrackedDeviceContainer::GenericTracker(device) => device.base.set_interaction_profile(
                profile,
            ),
        }
    }

    /// The answer of the device to a string property.
    pub fn get_string_property(&self, property: TrackedDeviceProperty) -> (r: Result<
        &'static str,
        TrackedPropertyError,
    >)
        ensures
            r == string_property_of(self.base(), property),
    {
        self.get_base_device().get_string_property(property)
    }

    /// The answer of the device to an integer property.
    pub fn get_int32_property(&self, property: TrackedDeviceProperty) -> (r: Result<
        i32,
        TrackedPropertyError,
    >)
        ensures
            r == int32_property_of(self.base(), property),
    {
        self.get_base_device().get_int32_property(property)
    }

    /// The answer of the device to a boolean property: no device knows one.
    pub fn get_bool_property(&self, property: TrackedDeviceProperty) -> (r: Result<
        bool,
        TrackedPropertyError,
    >)
        ensures
            r == Err::<bool, TrackedPropertyError>(TrackedPropertyError::UnknownProperty),
    {
        self.get_base_device().get_bool_property(property)
    }

    /// The space in which the pose of the device is resolved: the view space
    /// for the display, the grip space of its hand for a controller, its own
    /// space for a tracker.
    pub fn pose_source(&self) -> (r: PoseSource)
        requires
            self.wf(),
        ensures
            r == self.pose_source_spec(),
    {
        match self {
            TrackedDeviceContainer::HMD(_) => PoseSource::View,
            TrackedDeviceContainer::Controller(device) => PoseSource::Grip(device.hand()),
            TrackedDeviceContainer::GenericTracker(device) => PoseSource::Space(device.space),
        }
    }
}

impl From<XrHMD> for TrackedDeviceContainer {
    fn from(device: XrHMD) -> (r: TrackedDeviceContainer) {
        TrackedDeviceContainer::HMD(device)
    }
}

impl FromSpecImpl<XrHMD> for TrackedDeviceContainer {
    open spec fn obeys_from_spec() -> bool {
        true
    }

    open spec fn from_spec(device: XrHMD) -> TrackedDeviceContainer {
        TrackedDeviceContainer::HMD(device)
    }
}

impl From<XrController> for TrackedDeviceContainer {
    fn from(device: XrController) -> (r: TrackedDeviceContainer) {
        TrackedDeviceContainer::Controller(device)
    }
}

impl FromSpecImpl<XrController> for TrackedDeviceContainer {
    open spec fn obeys_from_spec() -> bool {
        true
    }

    open spec fn from_spec(device: XrController) -> TrackedDeviceContainer {
        TrackedDeviceContainer::Controller(device)
    }
}

impl From<XrGenericTracker> for TrackedDeviceContainer {
    fn from(device: XrGenericTracker) -> (r: TrackedDeviceContainer) {
        TrackedDeviceContainer::GenericTracker(device)
    }
}

impl FromSpecImpl<XrGenericTracker> for TrackedDeviceContainer {
    open spec fn obeys_from_spec() -> bool {
        true
    }

    open spec fn from_spec(device: XrGenericTracker) -> TrackedDeviceContainer {
        TrackedDeviceContainer::GenericTracker(device)
    }
}

/// What asking the runtime for its device list gave.
#[derive(Debug, PartialEq, Eq)]
pub enum XdevEnumeration {
    /// The runtime has no device list.
    Unsupported,
    /// The runtime has a device list, but listing failed with this result.
    Failed(openxr::sys::Result),
    /// The devices that the runtime listed, in its order.
    Listed(Vec<Xdev>),
}

/// The listed devices that become generic trackers, in listing order.
pub open spec fn trackers_among(listed: Seq<Xdev>) -> Seq<Xdev> {
    listed.filter(|dev: Xdev| is_tracker(dev))
}

/// The generic trackers made from a device list: one for each device that
/// becomes a tracker, in listing order, at consecutive indices from the
/// first index behind the reserved ones.
pub open spec fn discovered(listed: Seq<Xdev>) -> Seq<TrackedDeviceContainer> {
    let found = trackers_among(listed);
    Seq::new(
        found.len(),
        |i: int|
            TrackedDeviceContainer::GenericTracker(
                tracker_of((RESERVED_DEVICE_INDECES + i) as u32, found[i]),
            ),
    )
}

/// The devices of a registry after discovery: unchanged where the runtime
/// listed nothing, else the reserved devices followed by the discovered
/// trackers.
pub open spec fn refreshed(
    before: Seq<TrackedDeviceContainer>,
    enumeration: XdevEnumeration,
) -> Seq<TrackedDeviceContainer> {
    match enumeration {
        XdevEnumeration::Listed(listed) => before.take(RESERVED_DEVICE_INDECES as int)
            + discovered(listed@),
        _ => before,
    }
}

/// Taking one more listed device into account adds it to the trackers
/// found so far if it becomes a tracker, and changes nothing otherwise.
pub proof fn lemma_trackers_among_step(listed: Seq<Xdev>, i: int)
    requires
        0 <= i < listed.len(),
    ensures
        trackers_among(listed.take(i + 1)) == if is_tracker(listed[i]) {
            trackers_among(listed.take(i)).push(listed[i])
        } else {
            trackers_among(listed.take(i))
        },
        trackers_among(listed.take(i)).len() <= i,
{
    let pred = |dev: Xdev| is_tracker(dev);
    let longer = listed.take(i + 1);
    assert(longer.drop_last() =~= listed.take(i));
    reveal(Seq::filter);
    listed.take(i).lemma_filter_len(pred);
}

/// The registry of tracked devices, addressed by index.
#[derive(Debug, PartialEq, Eq)]
pub struct TrackedDeviceList {
    pub devices: Vec<TrackedDeviceContainer>,
}

impl TrackedDeviceList {
    /// Every device is well formed and stands at its own index.
    pub open spec fn wf(&self) -> bool {
        forall|i: int|
            0 <= i < self.devices@.len() ==> {
                &&& (#[trigger] self.devices@[i]).wf()
                &&& self.devices@[i].base().index == i
            }
    }

    /// The devices of a registry with the display alone.
    pub open spec fn display_only() -> Seq<TrackedDeviceContainer> {
        seq![TrackedDeviceContainer::HMD(XrHMD::initial())]
    }

    /// The devices of a registry with the display and both controllers.
    pub open spec fn display_and_controllers() -> Seq<TrackedDeviceContainer> {
        seq![
            TrackedDeviceContainer::HMD(XrHMD::initial()),
            TrackedDeviceContainer::Controller(XrController::initial(TrackedDeviceType::LeftHand)),
            TrackedDeviceContainer::Controller(
                XrController::initial(TrackedDeviceType::RightHand),
            ),
        ]
    }

    /// Whether every device is well formed and stands at its own index.
    pub fn is_wf(&self) -> (r: bool)
        ensures
            r == self.wf(),
    {
        let mut i: usize = 0;
        while i < self.devices.len()
            invariant
                i <= self.devices.len(),
                forall|k: int|
                    0 <= k < i ==> {
                        &&& (#[trigger] self.devices@[k]).wf()
                        &&& self.devices@[k].base().index == k
                    },
            decreases self.devices.len() - i,
        {
            let device = &self.devices[i];
            if !device.is_wf() || i > u32::MAX as usize || device.device_index() != i as u32 {
                return false;
            }
            i += 1;
        }
        true
    }

    /// A registry with the display and both controllers.
    pub fn new() -> (r: TrackedDeviceList)
        ensures
            r.devices@ == TrackedDeviceList::display_and_controllers(),
            r.wf(),
    {
        let mut devices: Vec<TrackedDeviceContainer> = Vec::new();
        devices.push(TrackedDeviceContainer::HMD(XrHMD::new()));
        devices.push(TrackedDeviceContainer::Controller(XrController::new(TrackedDeviceType::LeftHand)));
        devices.push(
            TrackedDeviceContainer::Controller(XrController::new(TrackedDeviceType::RightHand)),
        );
        TrackedDeviceList { devices }
    }

    /// Adds `device` at the next index, which must be the device's own.
    pub fn push(&mut self, device: TrackedDeviceContainer)
        requires
            old(self).wf(),
            device.wf(),
            device.base().index == old(self).devices@.len(),
        ensures
            final(self).devices@ == old(self).devices@.push(device),
            final(self).wf(),
    {
        self.devices.push(device);
    }

    /// The device at `device_index`, if the registry has one there.
    pub fn get_device(&self, device_index: u32) -> (r: Option<&TrackedDeviceContainer>)
        ensures
            device_index < self.devices@.len() ==> r == Some(&self.devices@[device_index as int]),
            device_index >= self.devices@.len() ==> r is None,
            self.wf() ==> (r matches Some(device) ==> device.base().index == device_index),
    {
        let index = device_index as usize;
        if index < self.devices.len() {
            Some(&self.devices[index])
        } else {
            None
        }
    }

    /// The device at `device_index`, which the registry must have.
    pub fn get_device_unchecked(&self, device_index: u32) -> (r: &TrackedDeviceContainer)
        requires
            device_index < self.devices@.len(),
        ensures
            *r == self.devices@[device_index as int],
            self.wf() ==> r.base().index == device_index,
    {
        &self.devices[device_index as usize]
    }

    /// The device at `device_index`, if the registry has one there, for
    /// changing it in place. Whatever the caller makes of the device stands
    /// at that index afterwards; no other index changes.
    pub fn get_device_mut(&mut self, device_index: u32) -> (r: Option<
        &mut TrackedDeviceContainer,
    >)
        ensures
            match r {
                Some(device) => {
                    &&& device_index < old(self).devices@.len()
                    &&& *device == old(self).devices@[device_index as int]
                    &&& final(self).devices@ == old(self).devices@.update(
                        device_index as int,
                        *final(device),
                    )
                },
                None => {
                    &&& device_index >= old(self).devices@.len()
                    &&& final(self).devices@ == old(self).devices@
                },
            },
    {
        let index = device_index as usize;
        if index < self.devices.len() {
            Some(&mut self.devices[index])
        } else {
            None
        }
    }

    /// The device at `device_index`, which the registry must have, for
    /// changing it in place.
    pub fn get_device_mut_unchecked(&mut self, device_index: u32) -> (r:
        &mut TrackedDeviceContainer)
        requires
            device_index < old(self).devices@.len(),
        ensures
            *r == old(self).devices@[device_index as int],
            final(self).devices@ == old(self).devices@.update(device_index as int, *final(r)),
    {
        &mut self.devices[device_index as usize]
    }

    /// The position of the first device of the given role.
    fn position_of_type(&self, device_type: TrackedDeviceType) -> (r: Option<usize>)
        ensures
            match r {
                Some(i) => {
                    &&& i < self.devices@.len()
                    &&& self.devices@[i as int].base().device_type == device_type
                    &&& forall|k: int|
                        0 <= k < i ==> (#[trigger] self.devices@[k]).base().device_type
                            != device_type
                },
                None => forall|i: int|
                    0 <= i < self.devices@.len() ==> (#[trigger] self.devices@[i]).base().device_type
                        != device_type,
            },
    {
        let mut i: usize = 0;
        while i < self.devices.len()
            invariant
                i <= self.devices.len(),
                forall|k: int|
                    0 <= k < i ==> (#[trigger] self.devices@[k]).base().device_type != device_type,
            decreases self.devices.len() - i,
        {
            if self.devices[i].get_type() == device_type {
                return Some(i);
            }
            i += 1;
        }
        None
    }

    /// The first device of the given role, if the registry has one, for
    /// changing it in place.
    pub fn get_device_by_type_mut(&mut self, device_type: TrackedDeviceType) -> (r: Option<
        &mut TrackedDeviceContainer,
    >)
        ensures
            match r {
                Some(device) => exists|i: int|
                    {
                        &&& 0 <= i < old(self).devices@.len()
                        &&& #[trigger] old(self).devices@[i] == *device
                        &&& device.base().device_type == device_type
                        &&& forall|k: int|
                            0 <= k < i ==> (#[trigger] old(self).devices@[k]).base().device_type
                                != device_type
                        &&& final(self).devices@ == old(self).devices@.update(i, *final(device))
                    },
                None => {
                    &&& forall|i: int|
                        0 <= i < old(self).devices@.len() ==> (#[trigger] old(
                            self,
                        ).devices@[i]).base().device_type != device_type
                    &&& final(self).devices@ == old(self).devices@
                },
            },
    {
        match self.position_of_type(device_type) {
            Some(i) => Some(&mut self.devices[i]),
            None => None,
        }
    }

    /// The first device of the given role, if the registry has one.
    pub fn get_device_by_type(&self, device_type: TrackedDeviceType) -> (r: Option<
        &TrackedDeviceContainer,
    >)
        ensures
            match r {
                Some(device) => exists|i: int|
                    {
                        &&& 0 <= i < self.devices@.len()
                        &&& #[trigger] self.devices@[i] == *device
                        &&& device.base().device_type == device_type
                        &&& forall|k: int|
                            0 <= k < i ==> (#[trigger] self.devices@[k]).base().device_type
                                != device_type
                    },
                None => forall|i: int|
                    0 <= i < self.devices@.len() ==> (#[trigger] self.devices@[i]).base().device_type
                        != device_type,
            },
    {
        match self.position_of_type(device_type) {
            Some(i) => Some(&self.devices[i]),
            None => None,
        }
    }

    /// The display, which stands first in every well-formed registry that
    /// is not empty.
    pub fn get_hmd(&self) -> (r: &XrHMD)
        requires
            self.wf(),
            self.devices@.len() > 0,
        ensures
            self.devices@[0] == TrackedDeviceContainer::HMD(*r),
    {
        match &self.devices[0] {
            TrackedDeviceContainer::HMD(hmd) => hmd,
            _ => {
                unreached()
            },
        }
    }

    /// The controller of `hand`, which must be a hand role whose reserved
    /// index the registry has.
    pub fn get_controller(&self, hand: TrackedDeviceType) -> (r: &XrController)
        requires
            self.wf(),
            hand.reserved_index_spec() matches Some(index) && 0 < index < self.devices@.len(),
        ensures
            self.devices@[hand.reserved_index_spec().unwrap() as int]
                == TrackedDeviceContainer::Controller(*r),
            r.base.device_type == hand,
    {
        let index: usize = match hand {
            TrackedDeviceType::LeftHand => 1,
            _ => 2,
        };
        match &self.devices[index] {
            TrackedDeviceContainer::Controller(controller) => controller,
            _ => unreached(),
        }
    }

    /// The devices, in index order.
    pub fn iter(&self) -> (r: &Vec<TrackedDeviceContainer>)
        ensures
            r@ == self.devices@,
    {
        &self.devices
    }

    /// The number of devices.
    pub fn len(&self) -> (r: usize)
        ensures
            r == self.devices@.len(),
    {
        self.devices.len()
    }

    /// Drops every device at index `len` and above.
    pub fn truncate(&mut self, len: usize)
        ensures
            final(self).devices@ == if len <= old(self).devices@.len() {
                old(self).devices@.take(len as int)
            } else {
                old(self).devices@
            },
            old(self).wf() ==> final(self).wf(),
    {
        self.devices.truncate(len);
    }
}

impl TrackedDeviceList {
    /// Replaces the generic trackers of the registry by those that the
    /// runtime lists now. Where the runtime has no device list, or listing
    /// failed, the registry stays as it is, and only a failed listing is an
    /// error. Where it listed devices, the registry keeps its reserved
    /// devices and gets one tracker for each listed device that has a
    /// tracking space and a name that holds "tracker" in any case.
    pub fn create_generic_trackers(&mut self, enumeration: XdevEnumeration) -> (r: Result<
        (),
        openxr::sys::Result,
    >)
        requires
            old(self).wf(),
            enumeration matches XdevEnumeration::Listed(listed) ==> {
                &&& old(self).devices@.len() >= RESERVED_DEVICE_INDECES
                &&& listed@.len() <= u32::MAX - RESERVED_DEVICE_INDECES
            },
        ensures
            final(self).devices@ == refreshed(old(self).devices@, enumeration),
            final(self).wf(),
            r == match enumeration {
                XdevEnumeration::Failed(error) => Err::<(), openxr::sys::Result>(error),
                _ => Ok(()),
            },
    {
        match enumeration {
            XdevEnumeration::Unsupported => Ok(()),
            XdevEnumeration::Failed(error) => Err(error),
            XdevEnumeration::Listed(listed) => {
                self.truncate(RESERVED_DEVICE_INDECES as usize);
                let ghost kept = self.devices@;
                let mut i: usize = 0;
                while i < listed.len()
                    invariant
                        i <= listed.len(),
                        listed@.len() <= u32::MAX - RESERVED_DEVICE_INDECES,
                        kept.len() == RESERVED_DEVICE_INDECES,
                        self.wf(),
                        self.devices@ == kept + discovered(listed@.take(i as int)),
                    decreases listed.len() - i,
                {
                    proof {
                        lemma_trackers_among_step(listed@, i as int);
                    }
                    let dev = &listed[i];
                    if dev.is_tracker() {
                        let copy = Xdev {
                            space: dev.space,
                            name: dev.name.clone(),
                            serial: dev.serial.clone(),
                        };
                        let index = self.len() as u32;
                        let tracker = XrGenericTracker::new(index, copy);
                        self.push(TrackedDeviceContainer::GenericTracker(tracker));
                    }
                    i += 1;
                }
                assert(listed@.take(listed@.len() as int) =~= listed@);
                Ok(())
            },
        }
    }
}

/// In a well-formed registry the role of a device tells its index: a display
/// stands at index 0, the left controller at 1, the right controller at 2,
/// and whatever stands there is of that kind; every later device is a
/// generic tracker.
pub proof fn lemma_reserved_devices_keep_their_index(list: TrackedDeviceList, i: int)
    requires
        list.wf(),
        0 <= i < list.devices@.len(),
    ensures
        list.devices@[i].base().device_type == TrackedDeviceType::of_index(i as u32),
        (list.devices@[i] is HMD) == (i == 0),
        (list.devices@[i] is Controller) == (i == 1 || i == 2),
        (list.devices@[i] is GenericTracker) == (i >= RESERVED_DEVICE_INDECES),
        list.devices@[i].base().device_type == TrackedDeviceType::LeftHand <==> i == 1,
        list.devices@[i].base().device_type == TrackedDeviceType::RightHand <==> i == 2,
{
}

/// Running discovery twice on the same device list gives the registry that
/// running it once gives.
pub proof fn lemma_discovery_is_idempotent(
    before: Seq<TrackedDeviceContainer>,
    enumeration: XdevEnumeration,
)
    requires
        before.len() >= RESERVED_DEVICE_INDECES,
    ensures
        refreshed(refreshed(before, enumeration), enumeration) == refreshed(before, enumeration),
{
}

/// Where none of the listed devices becomes a tracker, discovery leaves
/// exactly the reserved devices.
pub proof fn lemma_discovery_without_trackers(
    before: Seq<TrackedDeviceContainer>,
    listed: Vec<Xdev>,
)
    requires
        before.len() >= RESERVED_DEVICE_INDECES,
        forall|i: int| 0 <= i < listed@.len() ==> !is_tracker(#[trigger] listed@[i]),
    ensures
        refreshed(before, XdevEnumeration::Listed(listed)) == before.take(
            RESERVED_DEVICE_INDECES as int,
        ),
        refreshed(before, XdevEnumeration::Listed(listed)).len() == RESERVED_DEVICE_INDECES,
{
    let found = trackers_among(listed@);
    if found.len() > 0 {
        lemma_found_tracker_was_listed(listed@, 0);
    }
}

/// Every device among the trackers found was listed, and becomes a tracker.
pub proof fn lemma_found_tracker_was_listed(listed: Seq<Xdev>, k: int)
    requires
        0 <= k < trackers_among(listed).len(),
    ensures
        listed.contains(trackers_among(listed)[k]),
        is_tracker(trackers_among(listed)[k]),
    decreases listed.len(),
{
    reveal(Seq::filter);
    if listed.len() > 0 {
        let shorter = listed.drop_last();
        let found = trackers_among(shorter);
        if k < found.len() {
            lemma_found_tracker_was_listed(shorter, k);
        }
    }
}

impl Default for TrackedDeviceList {
    /// A registry with the display alone.
    fn default() -> (r: TrackedDeviceList)
        ensures
            r.devices@ == TrackedDeviceList::display_only(),
            r.wf(),
    {
        let mut devices: Vec<TrackedDeviceContainer> = Vec::new();
        devices.push(TrackedDeviceContainer::HMD(XrHMD::new()));
        TrackedDeviceList { devices }
    }
}

} // verus!
