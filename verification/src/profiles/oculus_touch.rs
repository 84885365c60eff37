//! The touch controllers, whose face buttons differ between the hands.

use crate::hand::{
    both_hands, chain, leftright, mirror, mirrored, no_paths, on_hand, place, strs_of, Hand,
};
use crate::legacy::{LegacyBindings, LegacyPaths};
use crate::profiles::{InteractionProfile, MainAxisType, ProfileProperties, Property};
use crate::properties::{DevicePropertyTypes, TrackedDeviceProperty};
use crate::translation::{PathTranslation, RewriteRule};
use vstd::prelude::*;

verus! {

/// The profile of the touch controllers.
#[derive(Clone, Copy, Debug, PartialEq, Eq)]
pub struct Touch;

/// The inputs that only the left controller has.
pub open spec fn touch_left_inputs() -> Seq<&'static str> {
    seq!["input/x/click", "input/x/touch", "input/y/click", "input/y/touch", "input/menu/click"]
}

/// The inputs that only the right controller has.
pub open spec fn touch_right_inputs() -> Seq<&'static str> {
    seq!["input/a/click", "input/a/touch", "input/b/click", "input/b/touch"]
}

/// The inputs and outputs that both controllers have.
pub open spec fn touch_shared_inputs() -> Seq<&'static str> {
    seq![
        "input/squeeze/value",
        "input/trigger/value",
        "input/trigger/touch",
        "input/thumbstick",
        "input/thumbstick/x",
        "input/thumbstick/y",
        "input/thumbstick/click",
        "input/thumbstick/touch",
        "input/thumbrest/touch",
        "input/grip/pose",
        "input/aim/pose",
        "output/haptic",
    ]
}

impl InteractionProfile for Touch {
    open spec fn path(&self) -> Seq<char> {
        "/interaction_profiles/oculus/touch_controller"@
    }

    open spec fn props(&self) -> ProfileProperties {
        ProfileProperties {
            model: "Miramar",
            openvr_controller_type: "oculus_touch",
            render_model_name: Property::PerHand {
                left: "oculus_quest_controller_left",
                right: "oculus_quest_controller_right",
            },
            main_axis: MainAxisType::Thumbstick,
        }
    }

    open spec fn rules(&self) -> Seq<RewriteRule> {
        seq![
            RewriteRule { from: "trigger/click"@, to: "trigger/value"@, stop: true },
            RewriteRule { from: "grip/click"@, to: "squeeze/value"@, stop: true },
            RewriteRule { from: "trigger/pull"@, to: "trigger/value"@, stop: true },
            RewriteRule { from: "trigger/click"@, to: "trigger/value"@, stop: true },
            RewriteRule { from: "application_menu"@, to: "menu"@, stop: true },
            RewriteRule { from: "joystick"@, to: "thumbstick"@, stop: true },
        ]
    }

    open spec fn legal(&self) -> Seq<Seq<char>> {
        on_hand(Hand::Left, strs_of(touch_left_inputs())) + on_hand(
            Hand::Right,
            strs_of(touch_right_inputs()),
        ) + mirrored(strs_of(touch_shared_inputs()))
    }

    open spec fn legacy(&self) -> LegacyPaths {
        LegacyPaths {
            grip_pose: both_hands("input/grip/pose"@),
            aim_pose: both_hands("input/aim/pose"@),
            app_menu: Seq::empty(),
            trigger: both_hands("input/trigger/value"@),
            trigger_click: both_hands("input/trigger/value"@),
            squeeze: both_hands("input/squeeze/value"@),
        }
    }

    open spec fn hmd_props(&self) -> Seq<(TrackedDeviceProperty, DevicePropertyTypes)> {
        seq![
            (
                TrackedDeviceProperty::ManufacturerName_String,
                DevicePropertyTypes::String("Oculus"),
            ),
            (
                TrackedDeviceProperty::ModelNumber_String,
                DevicePropertyTypes::String("Oculus Quest2"),
            ),
            (TrackedDeviceProperty::ControllerType_String, DevicePropertyTypes::String("oculus")),
        ]
    }

    fn profile_path(&self) -> (r: &'static str) {
        "/interaction_profiles/oculus/touch_controller"
    }

    fn properties(&self) -> (r: ProfileProperties) {
        ProfileProperties {
            model: "Miramar",
            openvr_controller_type: "oculus_touch",
            render_model_name: Property::PerHand {
                left: "oculus_quest_controller_left",
                right: "oculus_quest_controller_right",
            },
            main_axis: MainAxisType::Thumbstick,
        }
    }

    fn translate_map(&self) -> (r: Vec<PathTranslation>) {
        vec![
            PathTranslation { from: "trigger/click", to: "trigger/value", stop: true },
            PathTranslation { from: "grip/click", to: "squeeze/value", stop: true },
            PathTranslation { from: "trigger/pull", to: "trigger/value", stop: true },
            PathTranslation { from: "trigger/click", to: "trigger/value", stop: true },
            PathTranslation { from: "application_menu", to: "menu", stop: true },
            PathTranslation { from: "joystick", to: "thumbstick", stop: true },
        ]
    }

    fn legal_paths(&self) -> (r: Vec<String>) {
        let left_only = vec![
            "input/x/click",
            "input/x/touch",
            "input/y/click",
            "input/y/touch",
            "input/menu/click",
        ];
        let right_only = vec!["input/a/click", "input/a/touch", "input/b/click", "input/b/touch"];
        let both = vec![
            "input/squeeze/value",
            "input/trigger/value",
            "input/trigger/touch",
            "input/thumbstick",
            "input/thumbstick/x",
            "input/thumbstick/y",
            "input/thumbstick/click",
            "input/thumbstick/touch",
            "input/thumbrest/touch",
            "input/grip/pose",
            "input/aim/pose",
            "output/haptic",
        ];
        chain(chain(place(Hand::Left, &left_only), place(Hand::Right, &right_only)), mirror(&both))
    }

    fn legacy_bindings(&self) -> (r: LegacyBindings) {
        LegacyBindings {
            grip_pose: leftright("input/grip/pose"),
            aim_pose: leftright("input/aim/pose"),
            trigger: leftright("input/trigger/value"),
            trigger_click: leftright("input/trigger/value"),
            app_menu: no_paths(),
            squeeze: leftright("input/squeeze/value"),
        }
    }

    fn hmd_properties(&self) -> (r: Vec<(TrackedDeviceProperty, DevicePropertyTypes)>) {
        vec![
            (
                TrackedDeviceProperty::ManufacturerName_String,
                DevicePropertyTypes::String("Oculus"),
            ),
            (
                TrackedDeviceProperty::ModelNumber_String,
                DevicePropertyTypes::String("Oculus Quest2"),
            ),
            (TrackedDeviceProperty::ControllerType_String, DevicePropertyTypes::String("oculus")),
        ]
    }
}

/// Every path behind a legacy input of the controllers is a path the
/// controllers have.
pub proof fn lemma_touch_legacy_paths_are_legal(path: Seq<char>)
    requires
        Touch.legacy().all().contains(path),
    ensures
        Touch.legal().contains(path),
{
    let inputs = strs_of(touch_shared_inputs());
    let single = on_hand(Hand::Left, strs_of(touch_left_inputs())) + on_hand(
        Hand::Right,
        strs_of(touch_right_inputs()),
    );
    crate::hand::lemma_mirrored_holds_both(inputs, 0);
    crate::hand::lemma_mirrored_holds_both(inputs, 1);
    crate::hand::lemma_mirrored_holds_both(inputs, 9);
    crate::hand::lemma_mirrored_holds_both(inputs, 10);
    let k = choose|k: int| 0 <= k < mirrored(inputs).len() && mirrored(inputs)[k] == path;
    assert((single + mirrored(inputs))[single.len() + k] == path);
}

} // verus!
