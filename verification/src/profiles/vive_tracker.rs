//! The puck-shaped tracker. It is tracked, but offers no input that an
//! application could bind.

use crate::hand::no_paths;
use crate::legacy::{LegacyBindings, LegacyPaths};
use crate::profiles::{InteractionProfile, MainAxisType, ProfileProperties, Property};
use crate::properties::{DevicePropertyTypes, TrackedDeviceProperty};
use crate::translation::{PathTranslation, RewriteRule};
use vstd::prelude::*;

verus! {

/// The profile of the tracker.
#[derive(Clone, Copy, Debug, PartialEq, Eq)]
pub struct ViveTracker;

impl InteractionProfile for ViveTracker {
    open spec fn path(&self) -> Seq<char> {
        "/interaction_profiles/htc/vive_tracker_htcx"@
    }

    open spec fn props(&self) -> ProfileProperties {
        ProfileProperties {
            model: "Vive Tracker Handheld Object",
            openvr_controller_type: "vive_tracker_handheld_object",
            render_model_name: Property::BothHands("{htc}vr_tracker_vive_1_0"),
            main_axis: MainAxisType::Trackpad,
        }
    }

    open spec fn rules(&self) -> Seq<RewriteRule> {
        Seq::empty()
    }

    open spec fn legal(&self) -> Seq<Seq<char>> {
        Seq::empty()
    }

    open spec fn legacy(&self) -> LegacyPaths {
        LegacyPaths {
            grip_pose: Seq::empty(),
            aim_pose: Seq::empty(),
            app_menu: Seq::empty(),
            trigger: Seq::empty(),
            trigger_click: Seq::empty(),
            squeeze: Seq::empty(),
        }
    }

    open spec fn hmd_props(&self) -> Seq<(TrackedDeviceProperty, DevicePropertyTypes)> {
        Seq::empty()
    }

    fn profile_path(&self) -> (r: &'static str) {
        "/interaction_profiles/htc/vive_tracker_htcx"
    }

    fn properties(&self) -> (r: ProfileProperties) {
        ProfileProperties {
            model: "Vive Tracker Handheld Object",
            openvr_controller_type: "vive_tracker_handheld_object",
            render_model_name: Property::BothHands("{htc}vr_tracker_vive_1_0"),
            main_axis: MainAxisType::Trackpad,
        }
    }

    fn translate_map(&self) -> (r: Vec<PathTranslation>) {
        Vec::new()
    }

    /// The tracker has no path that could be bound: the list is empty.
    fn legal_paths(&self) -> (r: Vec<String>)
        ensures
            r@.len() == 0,
    {
        no_paths()
    }

    fn legacy_bindings(&self) -> (r: LegacyBindings) {
        LegacyBindings {
            grip_pose: no_paths(),
            aim_pose: no_paths(),
            app_menu: no_paths(),
            trigger: no_paths(),
            trigger_click: no_paths(),
            squeeze: no_paths(),
        }
    }

    fn hmd_properties(&self) -> (r: Vec<(TrackedDeviceProperty, DevicePropertyTypes)>) {
        Vec::new()
    }
}

} // verus!
