//! The finger-tracking controllers with thumbstick, trackpad and
//! force-sensitive grip.

use crate::hand::{both_hands, leftright, mirror, mirrored, strs_of};
use crate::legacy::{LegacyBindings, LegacyPaths};
use crate::profiles::{InteractionProfile, MainAxisType, ProfileProperties, Property};
use crate::properties::{DevicePropertyTypes, TrackedDeviceProperty};
use crate::translation::{PathTranslation, RewriteRule};
use vstd::prelude::*;

verus! {

/// The profile of the finger-tracking controllers.
#[derive(Clone, Copy, Debug, PartialEq, Eq)]
pub struct Knuckles;

/// The inputs and outputs of the controller; each exists on both hands.
pub open spec fn knuckles_inputs() -> Seq<&'static str> {
    seq![
        "input/a/click",
        "input/a/touch",
        "input/b/click",
        "input/b/touch",
        "input/trigger/click",
        "input/trigger/touch",
        "input/thumbstick/click",
        "input/thumbstick/touch",
        "input/thumbstick/x",
        "input/thumbstick/y",
        "input/thumbstick",
        "input/trackpad/x",
        "input/trackpad/y",
        "input/trackpad",
        "input/squeeze/value",
        "input/squeeze/force",
        "input/trigger/value",
        "input/trackpad/force",
        "input/trackpad/touch",
        "input/grip/pose",
        "input/aim/pose",
        "output/haptic",
    ]
}

impl InteractionProfile for Knuckles {
    open spec fn path(&self) -> Seq<char> {
        "/interaction_profiles/valve/index_controller"@
    }

    open spec fn props(&self) -> ProfileProperties {
        ProfileProperties {
            model: "Knuckles",
            openvr_controller_type: "knuckles",
            render_model_name: Property::PerHand {
                left: "{indexcontroller}valve_controller_knu_1_0_left",
                right: "{indexcontroller}valve_controller_knu_1_0_right",
            },
            main_axis: MainAxisType::Thumbstick,
        }
    }

    open spec fn rules(&self) -> Seq<RewriteRule> {
        seq![
            RewriteRule { from: "pull"@, to: "value"@, stop: false },
            RewriteRule { from: "input/grip"@, to: "input/squeeze"@, stop: false },
            RewriteRule { from: "squeeze/click"@, to: "squeeze/force"@, stop: true },
            RewriteRule { from: "squeeze/grab"@, to: "squeeze/force"@, stop: true },
            RewriteRule { from: "trackpad/click"@, to: "trackpad/force"@, stop: true },
        ]
    }

    open spec fn legal(&self) -> Seq<Seq<char>> {
        mirrored(strs_of(knuckles_inputs()))
    }

    open spec fn legacy(&self) -> LegacyPaths {
        LegacyPaths {
            grip_pose: both_hands("input/grip/pose"@),
            aim_pose: both_hands("input/aim/pose"@),
            app_menu: both_hands("input/b/click"@),
            trigger: both_hands("input/trigger/click"@),
            trigger_click: both_hands("input/trigger/value"@),
            squeeze: both_hands("input/squeeze/value"@),
        }
    }

    open spec fn hmd_props(&self) -> Seq<(TrackedDeviceProperty, DevicePropertyTypes)> {
        seq![
            (TrackedDeviceProperty::ManufacturerName_String, DevicePropertyTypes::String("Valve")),
            (TrackedDeviceProperty::ModelNumber_String, DevicePropertyTypes::String("Index")),
            (TrackedDeviceProperty::ControllerType_String, DevicePropertyTypes::String("indexhmd")),
        ]
    }

    fn profile_path(&self) -> (r: &'static str) {
        "/interaction_profiles/valve/index_controller"
    }

    fn properties(&self) -> (r: ProfileProperties) {
        ProfileProperties {
            model: "Knuckles",
            openvr_controller_type: "knuckles",
            render_model_name: Property::PerHand {
                left: "{indexcontroller}valve_controller_knu_1_0_left",
                right: "{indexcontroller}valve_controller_knu_1_0_right",
            },
            main_axis: MainAxisType::Thumbstick,
        }
    }

    fn translate_map(&self) -> (r: Vec<PathTranslation>) {
        vec![
            PathTranslation { from: "pull", to: "value", stop: false },
            PathTranslation { from: "input/grip", to: "input/squeeze", stop: false },
            PathTranslation { from: "squeeze/click", to: "squeeze/force", stop: true },
            PathTranslation { from: "squeeze/grab", to: "squeeze/force", stop: true },
            PathTranslation { from: "trackpad/click", to: "trackpad/force", stop: true },
        ]
    }

    fn legal_paths(&self) -> (r: Vec<String>) {
        let inputs = vec![
            "input/a/click",
            "input/a/touch",
            "input/b/click",
            "input/b/touch",
            "input/trigger/click",
            "input/trigger/touch",
            "input/thumbstick/click",
            "input/thumbstick/touch",
            "input/thumbstick/x",
            "input/thumbstick/y",
            "input/thumbstick",
            "input/trackpad/x",
            "input/trackpad/y",
            "input/trackpad",
            "input/squeeze/value",
            "input/squeeze/force",
            "input/trigger/value",
            "input/trackpad/force",
            "input/trackpad/touch",
            "input/grip/pose",
            "input/aim/pose",
            "output/haptic",
        ];
        mirror(&inputs)
    }

    fn legacy_bindings(&self) -> (r: LegacyBindings) {
        LegacyBindings {
            grip_pose: leftright("input/grip/pose"),
            aim_pose: leftright("input/aim/pose"),
            app_menu: leftright("input/b/click"),
            trigger: leftright("input/trigger/click"),
            trigger_click: leftright("input/trigger/value"),
            squeeze: leftright("input/squeeze/value"),
        }
    }

    fn hmd_properties(&self) -> (r: Vec<(TrackedDeviceProperty, DevicePropertyTypes)>) {
        vec![
            (TrackedDeviceProperty::ManufacturerName_String, DevicePropertyTypes::String("Valve")),
            (TrackedDeviceProperty::ModelNumber_String, DevicePropertyTypes::String("Index")),
            (TrackedDeviceProperty::ControllerType_String, DevicePropertyTypes::String("indexhmd")),
        ]
    }
}

/// Every path behind a legacy input of the controllers is a path the
/// controllers have.
pub proof fn lemma_knuckles_legacy_paths_are_legal(path: Seq<char>)
    requires
        Knuckles.legacy().all().contains(path),
    ensures
        Knuckles.legal().contains(path),
{
    let inputs = strs_of(knuckles_inputs());
    crate::hand::lemma_mirrored_holds_both(inputs, 2);
    crate::hand::lemma_mirrored_holds_both(inputs, 4);
    crate::hand::lemma_mirrored_holds_both(inputs, 14);
    crate::hand::lemma_mirrored_holds_both(inputs, 16);
    crate::hand::lemma_mirrored_holds_both(inputs, 19);
    crate::hand::lemma_mirrored_holds_both(inputs, 20);
}

} // verus!
