//! The wand controllers.

use crate::hand::{both_hands, leftright, mirror, mirrored, strs_of};
use crate::legacy::{LegacyBindings, LegacyPaths};
use crate::profiles::{InteractionProfile, MainAxisType, ProfileProperties, Property};
use crate::properties::{DevicePropertyTypes, TrackedDeviceProperty};
use crate::translation::{PathTranslation, RewriteRule};
use vstd::prelude::*;

verus! {

/// The profile of the wand controllers.
#[derive(Clone, Copy, Debug, PartialEq, Eq)]
pub struct ViveWands;

/// The inputs and outputs of a wand; each exists on both hands.
pub open spec fn vive_wand_inputs() -> Seq<&'static str> {
    seq![
        "input/squeeze/click",
        "input/menu/click",
        "input/trigger/click",
        "input/trigger/value",
        "input/trackpad",
        "input/trackpad/x",
        "input/trackpad/y",
        "input/trackpad/click",
        "input/trackpad/touch",
        "input/grip/pose",
        "input/aim/pose",
        "output/haptic",
    ]
}

impl InteractionProfile for ViveWands {
    open spec fn path(&self) -> Seq<char> {
        "/interaction_profiles/htc/vive_controller"@
    }

    open spec fn props(&self) -> ProfileProperties {
        ProfileProperties {
            model: "Vive. Controller MV",
            openvr_controller_type: "vive_controller",
            render_model_name: Property::BothHands("vr_controller_vive_1_5"),
            main_axis: MainAxisType::Trackpad,
        }
    }

    open spec fn rules(&self) -> Seq<RewriteRule> {
        seq![
            RewriteRule { from: "grip"@, to: "squeeze"@, stop: true },
            RewriteRule { from: "trigger/pull"@, to: "trigger/value"@, stop: true },
            RewriteRule { from: "trigger/click"@, to: "trigger/value"@, stop: true },
            RewriteRule { from: "application_menu"@, to: "menu"@, stop: true },
        ]
    }

    open spec fn legal(&self) -> Seq<Seq<char>> {
        mirrored(strs_of(vive_wand_inputs()))
    }

    open spec fn legacy(&self) -> LegacyPaths {
        LegacyPaths {
            grip_pose: both_hands("input/grip/pose"@),
            aim_pose: both_hands("input/aim/pose"@),
            app_menu: both_hands("input/menu/click"@),
            trigger: both_hands("input/trigger/value"@),
            trigger_click: both_hands("input/trigger/click"@),
            squeeze: both_hands("input/squeeze/click"@),
        }
    }

    open spec fn hmd_props(&self) -> Seq<(TrackedDeviceProperty, DevicePropertyTypes)> {
        seq![
            (TrackedDeviceProperty::ManufacturerName_String, DevicePropertyTypes::String("HTC")),
            (TrackedDeviceProperty::ModelNumber_String, DevicePropertyTypes::String("Vive. MV")),
            (TrackedDeviceProperty::ControllerType_String, DevicePropertyTypes::String("vive")),
        ]
    }

    fn profile_path(&self) -> (r: &'static str) {
        "/interaction_profiles/htc/vive_controller"
    }

    fn properties(&self) -> (r: ProfileProperties) {
        ProfileProperties {
            model: "Vive. Controller MV",
            openvr_controller_type: "vive_controller",
            render_model_name: Property::BothHands("vr_controller_vive_1_5"),
            main_axis: MainAxisType::Trackpad,
        }
    }

    fn translate_map(&self) -> (r: Vec<PathTranslation>) {
        vec![
            PathTranslation { from: "grip", to: "squeeze", stop: true },
            PathTranslation { from: "trigger/pull", to: "trigger/value", stop: true },
            PathTranslation { from: "trigger/click", to: "trigger/value", stop: true },
            PathTranslation { from: "application_menu", to: "menu", stop: true },
        ]
    }

    fn legal_paths(&self) -> (r: Vec<String>) {
        let inputs = vec![
            "input/squeeze/click",
            "input/menu/click",
            "input/trigger/click",
            "input/trigger/value",
            "input/trackpad",
            "input/trackpad/x",
            "input/trackpad/y",
            "input/trackpad/click",
            "input/trackpad/touch",
            "input/grip/pose",
            "input/aim/pose",
            "output/haptic",
        ];
        mirror(&inputs)
    }

    fn legacy_bindings(&self) -> (r: LegacyBindings) {
        LegacyBindings {
            grip_pose: leftright("input/grip/pose"),
            aim_pose: leftright("input/aim/pose"),
            trigger: leftright("input/trigger/value"),
            trigger_click: leftright("input/trigger/click"),
            app_menu: leftright("input/menu/click"),
            squeeze: leftright("input/squeeze/click"),
        }
    }

    fn hmd_properties(&self) -> (r: Vec<(TrackedDeviceProperty, DevicePropertyTypes)>) {
        vec![
            (TrackedDeviceProperty::ManufacturerName_String, DevicePropertyTypes::String("HTC")),
            (TrackedDeviceProperty::ModelNumber_String, DevicePropertyTypes::String("Vive. MV")),
            (TrackedDeviceProperty::ControllerType_String, DevicePropertyTypes::String("vive")),
        ]
    }
}

/// Every path behind a legacy input of the wands is a path the wands have.
pub proof fn lemma_vive_wands_legacy_paths_are_legal(path: Seq<char>)
    requires
        ViveWands.legacy().all().contains(path),
    ensures
        ViveWands.legal().contains(path),
{
    let inputs = strs_of(vive_wand_inputs());
    crate::hand::lemma_mirrored_holds_both(inputs, 0);
    crate::hand::lemma_mirrored_holds_both(inputs, 1);
    crate::hand::lemma_mirrored_holds_both(inputs, 2);
    crate::hand::lemma_mirrored_holds_both(inputs, 3);
    crate::hand::lemma_mirrored_holds_both(inputs, 9);
    crate::hand::lemma_mirrored_holds_both(inputs, 10);
}

} // verus!
