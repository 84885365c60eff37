//! The minimal controller that every runtime offers: one select button, one
//! menu button, two poses.

use crate::hand::{both_hands, leftright, mirror, mirrored, no_paths, strs_of};
use crate::legacy::{LegacyBindings, LegacyPaths};
use crate::profiles::{InteractionProfile, MainAxisType, ProfileProperties, Property};
use crate::properties::{DevicePropertyTypes, TrackedDeviceProperty};
use crate::translation::{PathTranslation, RewriteRule};
use vstd::prelude::*;

verus! {

/// The profile of the minimal controller.
#[derive(Clone, Copy, Debug, PartialEq, Eq)]
pub struct SimpleController;

/// The inputs and outputs of the controller; each exists on both hands.
pub open spec fn simple_controller_inputs() -> Seq<&'static str> {
    seq![
        "input/select/click",
        "input/menu/click",
        "input/grip/pose",
        "input/aim/pose",
        "output/haptic",
    ]
}

impl InteractionProfile for SimpleController {
    open spec fn path(&self) -> Seq<char> {
        "/interaction_profiles/khr/simple_controller"@
    }

    open spec fn props(&self) -> ProfileProperties {
        ProfileProperties {
            model: "<unknown>",
            openvr_controller_type: "<unknown>",
            render_model_name: Property::BothHands("generic_controller"),
            main_axis: MainAxisType::Thumbstick,
        }
    }

    open spec fn rules(&self) -> Seq<RewriteRule> {
        seq![
            RewriteRule { from: "trigger/pull"@, to: "select/click"@, stop: true },
            RewriteRule { from: "trigger/value"@, to: "select/click"@, stop: true },
            RewriteRule { from: "trigger/click"@, to: "select/click"@, stop: true },
            RewriteRule { from: "application_menu"@, to: "menu"@, stop: true },
        ]
    }

    open spec fn legal(&self) -> Seq<Seq<char>> {
        mirrored(strs_of(simple_controller_inputs()))
    }

    open spec fn legacy(&self) -> LegacyPaths {
        LegacyPaths {
            grip_pose: both_hands("input/grip/pose"@),
            aim_pose: both_hands("input/aim/pose"@),
            app_menu: both_hands("input/menu/click"@),
            trigger: both_hands("input/select/click"@),
            trigger_click: both_hands("input/select/click"@),
            squeeze: Seq::empty(),
        }
    }

    open spec fn hmd_props(&self) -> Seq<(TrackedDeviceProperty, DevicePropertyTypes)> {
        Seq::empty()
    }

    fn profile_path(&self) -> (r: &'static str) {
        "/interaction_profiles/khr/simple_controller"
    }

    fn properties(&self) -> (r: ProfileProperties) {
        ProfileProperties {
            model: "<unknown>",
            openvr_controller_type: "<unknown>",
            render_model_name: Property::BothHands("generic_controller"),
            main_axis: MainAxisType::Thumbstick,
        }
    }

    fn translate_map(&self) -> (r: Vec<PathTranslation>) {
        vec![
            PathTranslation { from: "trigger/pull", to: "select/click", stop: true },
            PathTranslation { from: "trigger/value", to: "select/click", stop: true },
            PathTranslation { from: "trigger/click", to: "select/click", stop: true },
            PathTranslation { from: "application_menu", to: "menu", stop: true },
        ]
    }

    fn legal_paths(&self) -> (r: Vec<String>) {
        let inputs = vec![
            "input/select/click",
            "input/menu/click",
            "input/grip/pose",
            "input/aim/pose",
            "output/haptic",
        ];
        mirror(&inputs)
    }

    fn legacy_bindings(&self) -> (r: LegacyBindings) {
        LegacyBindings {
            grip_pose: leftright("input/grip/pose"),
            aim_pose: leftright("input/aim/pose"),
            app_menu: leftright("input/menu/click"),
            trigger: leftright("input/select/click"),
            trigger_click: leftright("input/select/click"),
            squeeze: no_paths(),
        }
    }

    fn hmd_properties(&self) -> (r: Vec<(TrackedDeviceProperty, DevicePropertyTypes)>) {
        Vec::new()
    }
}

/// Every path behind a legacy input of the controller is a path the
/// controller has.
pub proof fn lemma_simple_controller_legacy_paths_are_legal(path: Seq<char>)
    requires
        SimpleController.legacy().all().contains(path),
    ensures
        SimpleController.legal().contains(path),
{
    let inputs = strs_of(simple_controller_inputs());
    crate::hand::lemma_mirrored_holds_both(inputs, 0);
    crate::hand::lemma_mirrored_holds_both(inputs, 1);
    crate::hand::lemma_mirrored_holds_both(inputs, 2);
    crate::hand::lemma_mirrored_holds_both(inputs, 3);
}

} // verus!
