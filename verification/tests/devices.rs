use xr_compat::devices::controller::XrController;
use xr_compat::devices::generic_tracker::{
    lowercase_name_is_tracker, TrackerError, Xdev, XrGenericTracker, MAX_GENERIC_TRACKERS,
};
use xr_compat::devices::hmd::XrHMD;
use openxr::sys::{Handle, Space};
use xr_compat::devices::tracked_device::{
    BaseDevice, PoseSource, TrackedDeviceClass, TrackedDeviceType, RESERVED_DEVICE_INDECES,
};
use xr_compat::devices::{TrackedDeviceContainer, TrackedDeviceList, XdevEnumeration};
use xr_compat::hand::Hand;
use xr_compat::profiles::Profile;

fn xdev(space: Option<u64>, name: &str, serial: &str) -> Xdev {
    Xdev { space: space.map(Space::from_raw), name: name.to_string(), serial: serial.to_string() }
}

fn some_devices() -> Vec<Xdev> {
    vec![
        xdev(Some(10), "Vive Tracker 3.0", "LHR-1"),
        xdev(Some(11), "Lighthouse Base Station", "LHB-2"),
        xdev(None, "Vive Tracker without space", "LHR-3"),
        xdev(Some(12), "TUNDRA TRACKER", "TT-4"),
    ]
}

fn with_trackers() -> TrackedDeviceList {
    let mut list = TrackedDeviceList::new();
    list.create_generic_trackers(XdevEnumeration::Listed(some_devices())).unwrap();
    list
}

#[test]
fn device_type_from_index() {
    assert_eq!(TrackedDeviceType::from(0), TrackedDeviceType::HMD);
    assert_eq!(TrackedDeviceType::from(1), TrackedDeviceType::LeftHand);
    assert_eq!(TrackedDeviceType::from(2), TrackedDeviceType::RightHand);
    assert_eq!(TrackedDeviceType::from(3), TrackedDeviceType::GenericTracker);
    assert_eq!(TrackedDeviceType::from(u32::MAX), TrackedDeviceType::GenericTracker);
    assert_eq!(TrackedDeviceType::HMD.reserved_index(), Some(0));
    assert_eq!(TrackedDeviceType::LeftHand.reserved_index(), Some(1));
    assert_eq!(TrackedDeviceType::RightHand.reserved_index(), Some(2));
    assert_eq!(TrackedDeviceType::GenericTracker.reserved_index(), None);
    assert_eq!(RESERVED_DEVICE_INDECES, 3);
    assert_eq!(MAX_GENERIC_TRACKERS, 61);
}

#[test]
fn device_type_class_and_hand() {
    assert_eq!(TrackedDeviceClass::from(TrackedDeviceType::HMD), TrackedDeviceClass::HMD);
    assert_eq!(TrackedDeviceType::LeftHand.class(), TrackedDeviceClass::Controller);
    assert_eq!(TrackedDeviceType::RightHand.class(), TrackedDeviceClass::Controller);
    assert_eq!(TrackedDeviceType::GenericTracker.class(), TrackedDeviceClass::GenericTracker);
    assert_eq!(TrackedDeviceType::LeftHand.hand(), Some(Hand::Left));
    assert_eq!(TrackedDeviceType::RightHand.hand(), Some(Hand::Right));
    assert_eq!(TrackedDeviceType::HMD.hand(), None);
    assert_eq!(TrackedDeviceType::from_hand(Hand::Right), TrackedDeviceType::RightHand);
}

#[test]
fn default_registry_has_the_display_alone() {
    let list = TrackedDeviceList::default();
    assert_eq!(list.len(), 1);
    let hmd = list.get_hmd();
    assert_eq!(hmd.base.index, 0);
    assert_eq!(hmd.base.device_type, TrackedDeviceType::HMD);
    assert!(hmd.base.connected);
    assert!(list.get_device(1).is_none());
}

#[test]
fn full_registry_has_reserved_devices_at_reserved_indices() {
    let list = TrackedDeviceList::new();
    assert_eq!(list.len(), 3);
    assert_eq!(list.get_hmd().base.index, 0);
    let left = list.get_controller(TrackedDeviceType::LeftHand);
    assert_eq!(left.base.index, 1);
    assert_eq!(left.base.device_type, TrackedDeviceType::LeftHand);
    assert_eq!(left.hand(), Hand::Left);
    assert!(!left.base.connected);
    let right = list.get_controller(TrackedDeviceType::RightHand);
    assert_eq!(right.base.index, 2);
    assert_eq!(right.hand(), Hand::Right);
    assert_eq!(list.devices[0], TrackedDeviceContainer::from(XrHMD::new()));
    assert_eq!(
        list.devices[2],
        TrackedDeviceContainer::from(XrController::new(TrackedDeviceType::RightHand))
    );
}

#[test]
fn get_device_returns_the_device_with_that_index() {
    let mut list = TrackedDeviceList::new();
    list.create_generic_trackers(XdevEnumeration::Listed(some_devices())).unwrap();
    for i in 0..list.len() as u32 {
        let device = list.get_device(i).unwrap();
        assert_eq!(device.device_index(), i);
        assert_eq!(device.get_type(), TrackedDeviceType::from(i));
        assert_eq!(list.get_device_unchecked(i).device_index(), i);
    }
}

#[test]
fn get_device_out_of_range_is_not_found() {
    let mut list = TrackedDeviceList::new();
    assert!(list.get_device(3).is_none());
    assert!(list.get_device(64).is_none());
    assert!(list.get_device(u32::MAX).is_none());
    assert!(list.get_device_mut(3).is_none());
    assert!(TrackedDeviceList::default().get_device(1).is_none());
}

#[test]
fn get_device_by_type_finds_the_first_match() {
    let mut list = TrackedDeviceList::new();
    assert_eq!(list.get_device_by_type(TrackedDeviceType::HMD).unwrap().device_index(), 0);
    assert_eq!(list.get_device_by_type(TrackedDeviceType::LeftHand).unwrap().device_index(), 1);
    assert_eq!(list.get_device_by_type(TrackedDeviceType::RightHand).unwrap().device_index(), 2);
    assert!(list.get_device_by_type(TrackedDeviceType::GenericTracker).is_none());
    assert!(list.get_device_by_type_mut(TrackedDeviceType::GenericTracker).is_none());
    list.create_generic_trackers(XdevEnumeration::Listed(some_devices())).unwrap();
    assert_eq!(list.get_device_by_type(TrackedDeviceType::GenericTracker).unwrap().device_index(), 3);
    list.get_device_by_type_mut(TrackedDeviceType::RightHand).unwrap().set_connected(true);
    assert!(list.get_device(2).unwrap().connected());
    assert!(!list.get_device(1).unwrap().connected());
}

#[test]
fn push_appends_at_the_next_index() {
    let mut list = TrackedDeviceList::new();
    list.push(XrGenericTracker::new(3, xdev(Some(5), "tracker", "s")).into());
    assert_eq!(list.len(), 4);
    let tracker = XrGenericTracker::new(3, xdev(Some(5), "tracker", "s"));
    assert_eq!(list.get_device(3), Some(&TrackedDeviceContainer::GenericTracker(tracker)));
    assert_eq!(list.iter().len(), 4);
}

#[test]
fn truncate_drops_the_tail() {
    let mut list = TrackedDeviceList::new();
    list.create_generic_trackers(XdevEnumeration::Listed(some_devices())).unwrap();
    assert_eq!(list.len(), 5);
    list.truncate(10);
    assert_eq!(list.len(), 5);
    list.truncate(4);
    assert_eq!(list.len(), 4);
    assert_eq!(list.get_device(3).unwrap().device_index(), 3);
    list.truncate(3);
    assert_eq!(list, TrackedDeviceList::new());
}

#[test]
fn tracker_names_are_matched_in_any_case() {
    assert!(xdev(Some(1), "Vive Tracker", "").is_tracker());
    assert!(xdev(Some(1), "VIVE TRACKER", "").is_tracker());
    assert!(xdev(Some(1), "tracker", "").is_tracker());
    assert!(xdev(Some(1), "my-TrAcKeR-2", "").is_tracker());
    assert!(!xdev(Some(1), "Vive Track", "").is_tracker());
    assert!(!xdev(Some(1), "", "").is_tracker());
    assert!(!xdev(None, "Vive Tracker", "").is_tracker());
    assert!(lowercase_name_is_tracker("a tracker"));
    assert!(!lowercase_name_is_tracker("A TRACKER"));
}

#[test]
fn discovery_builds_one_tracker_per_matching_device() {
    let mut list = TrackedDeviceList::new();
    assert_eq!(list.create_generic_trackers(XdevEnumeration::Listed(some_devices())), Ok(()));
    assert_eq!(list.len(), 5);
    let expect = |index: u32, space: u64, name: &str, serial: &str| {
        TrackedDeviceContainer::GenericTracker(XrGenericTracker {
            base: BaseDevice {
                index,
                device_type: TrackedDeviceType::GenericTracker,
                interaction_profile: Some(Profile::ViveTracker),
                connected: true,
                previous_connected: false,
            },
            space: Space::from_raw(space),
            name: name.to_string(),
            serial: serial.to_string(),
        })
    };
    assert_eq!(list.devices[3], expect(3, 10, "Vive Tracker 3.0", "LHR-1"));
    assert_eq!(list.devices[4], expect(4, 12, "TUNDRA TRACKER", "TT-4"));
    assert_eq!(list.devices[..3], TrackedDeviceList::new().devices[..]);
}

#[test]
fn discovery_is_idempotent() {
    let mut once = TrackedDeviceList::new();
    once.create_generic_trackers(XdevEnumeration::Listed(some_devices())).unwrap();
    let mut twice = TrackedDeviceList::new();
    twice.create_generic_trackers(XdevEnumeration::Listed(some_devices())).unwrap();
    twice.create_generic_trackers(XdevEnumeration::Listed(some_devices())).unwrap();
    assert_eq!(twice, once);
}

#[test]
fn discovery_replaces_earlier_trackers() {
    let mut list = TrackedDeviceList::new();
    list.create_generic_trackers(XdevEnumeration::Listed(some_devices())).unwrap();
    list.create_generic_trackers(XdevEnumeration::Listed(vec![xdev(Some(77), "Other tracker", "O-1")]))
        .unwrap();
    assert_eq!(list.len(), 4);
    match list.get_device(3).unwrap() {
        TrackedDeviceContainer::GenericTracker(tracker) => {
            assert_eq!(tracker.space, Space::from_raw(77));
            assert_eq!(tracker.name(), "Other tracker");
            assert_eq!(tracker.serial(), "O-1");
        }
        other => panic!("not a tracker: {other:?}"),
    }
}

#[test]
fn discovery_without_matches_leaves_the_reserved_devices() {
    let mut list = TrackedDeviceList::new();
    list.create_generic_trackers(XdevEnumeration::Listed(some_devices())).unwrap();
    let listed = vec![xdev(Some(1), "Base Station", "b"), xdev(None, "tracker", "t")];
    assert_eq!(list.create_generic_trackers(XdevEnumeration::Listed(listed)), Ok(()));
    assert_eq!(list, TrackedDeviceList::new());
    assert_eq!(list.create_generic_trackers(XdevEnumeration::Listed(Vec::new())), Ok(()));
    assert_eq!(list.len(), 3);
}

#[test]
fn discovery_without_device_list_changes_nothing() {
    let mut list = with_trackers();
    assert_eq!(list.create_generic_trackers(XdevEnumeration::Unsupported), Ok(()));
    assert_eq!(list, with_trackers());
    let mut small = TrackedDeviceList::default();
    assert_eq!(small.create_generic_trackers(XdevEnumeration::Unsupported), Ok(()));
    assert_eq!(small.len(), 1);
}

#[test]
fn failed_listing_is_an_error_and_changes_nothing() {
    let mut list = with_trackers();
    let error = openxr::sys::Result::ERROR_RUNTIME_FAILURE;
    assert_eq!(list.create_generic_trackers(XdevEnumeration::Failed(error)), Err(error));
    assert_eq!(list, with_trackers());
}

#[test]
fn tracker_construction() {
    let tracker = XrGenericTracker::new(7, xdev(Some(9), "Tracker", "S"));
    assert_eq!(tracker.base.index, 7);
    assert_eq!(tracker.base.device_type, TrackedDeviceType::GenericTracker);
    assert_eq!(tracker.base.interaction_profile, Some(Profile::ViveTracker));
    assert!(tracker.base.connected);
    assert_eq!(tracker.get_base_device(), &tracker.base);
    assert_eq!(tracker.space, Space::from_raw(9));
    assert_eq!(XrGenericTracker::try_new(7, xdev(Some(9), "Tracker", "S")), Ok(tracker));
    assert_eq!(
        XrGenericTracker::try_new(2, xdev(Some(9), "Tracker", "S")),
        Err(TrackerError::ReservedIndex)
    );
    assert_eq!(
        XrGenericTracker::try_new(2, xdev(None, "Tracker", "S")),
        Err(TrackerError::ReservedIndex)
    );
    assert_eq!(XrGenericTracker::try_new(3, xdev(None, "Tracker", "S")), Err(TrackerError::MissingSpace));
}

#[test]
fn profile_is_assigned_once() {
    let mut list = TrackedDeviceList::new();
    let left = list.get_device_mut(1).unwrap();
    assert_eq!(left.get_interaction_profile(), None);
    assert!(left.set_interaction_profile(Profile::Knuckles));
    assert!(!left.set_interaction_profile(Profile::Touch));
    assert_eq!(left.get_interaction_profile(), Some(Profile::Knuckles));
    assert_eq!(list.get_device(2).unwrap().get_interaction_profile(), None);

    let mut tracker: TrackedDeviceContainer = XrGenericTracker::new(3, xdev(Some(1), "tracker", "")).into();
    assert!(!tracker.set_interaction_profile(Profile::Knuckles));
    assert_eq!(tracker.get_interaction_profile(), Some(Profile::ViveTracker));
}

#[test]
fn connection_flags_change_one_device() {
    let mut list = TrackedDeviceList::new();
    let before = TrackedDeviceList::new();
    list.get_device_mut_unchecked(1).set_connected(true);
    assert!(list.get_device(1).unwrap().connected());
    assert_eq!(list.devices[0], before.devices[0]);
    assert_eq!(list.devices[2], before.devices[2]);
    list.get_device_mut(1).unwrap().set_connected(false);
    assert_eq!(list, before);
    list.get_device_mut(2).unwrap().set_last_connected_state(true);
    assert!(list.get_device(2).unwrap().last_connected_state());
    assert!(!list.get_device(2).unwrap().connected());
}

#[test]
fn well_formedness_is_checked_at_run_time() {
    let mut list = TrackedDeviceList::new();
    assert!(list.is_wf());
    assert!(TrackedDeviceList::default().is_wf());
    list.create_generic_trackers(XdevEnumeration::Listed(some_devices())).unwrap();
    assert!(list.is_wf());
    assert!(list.devices.iter().all(|device| device.is_wf()));

    // A controller in the display's place.
    let mut swapped = TrackedDeviceList::new();
    swapped.devices.swap(0, 1);
    assert!(!swapped.is_wf());
    assert!(swapped.devices[0].is_wf());

    // A tracker at a reserved index.
    let mut tracker = XrGenericTracker::new(3, xdev(Some(1), "tracker", ""));
    tracker.base.index = 2;
    assert!(!TrackedDeviceContainer::GenericTracker(tracker).is_wf());

    // A display that claims to be a controller.
    let mut hmd = XrHMD::new();
    hmd.base.device_type = TrackedDeviceType::LeftHand;
    assert!(!TrackedDeviceContainer::HMD(hmd).is_wf());

    // A gap in the indices.
    let mut gap = TrackedDeviceList::new();
    gap.devices.push(XrGenericTracker::new(4, xdev(Some(1), "tracker", "")).into());
    assert!(!gap.is_wf());
}

#[test]
fn pose_sources() {
    let mut list = TrackedDeviceList::new();
    list.create_generic_trackers(XdevEnumeration::Listed(some_devices())).unwrap();
    assert_eq!(list.get_device(0).unwrap().pose_source(), PoseSource::View);
    assert_eq!(list.get_device(1).unwrap().pose_source(), PoseSource::Grip(Hand::Left));
    assert_eq!(list.get_device(2).unwrap().pose_source(), PoseSource::Grip(Hand::Right));
    assert_eq!(list.get_device(3).unwrap().pose_source(), PoseSource::Space(Space::from_raw(10)));
    assert_eq!(list.get_device(4).unwrap().pose_source(), PoseSource::Space(Space::from_raw(12)));
}
