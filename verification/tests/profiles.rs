use xr_compat::devices::tracked_device::TrackedDeviceType;
use xr_compat::hand::{left, leftright, right, Hand};
use xr_compat::profiles::knuckles::Knuckles;
use xr_compat::profiles::oculus_touch::Touch;
use xr_compat::profiles::simple_controller::SimpleController;
use xr_compat::profiles::vive_controller::ViveWands;
use xr_compat::profiles::vive_tracker::ViveTracker;
use xr_compat::profiles::{
    ControllerType, InteractionProfile, MainAxisType, Profile, Profiles, Property,
};
use xr_compat::properties::TrackedDeviceProperty::{
    Axis0Type_Int32, ControllerType_String, ModelNumber_String, Other, RenderModelName_String,
    SerialNumber_String,
};
use xr_compat::properties::{DevicePropertyTypes, HandValueType, TrackedDeviceProperty};

/// Translates each requested path for its hand and collects what is bound.
fn bind<P: InteractionProfile>(profile: &P, requests: &[(Hand, &str)]) -> Vec<String> {
    requests
        .iter()
        .map(|(hand, path)| profile.translate_and_validate(*hand, path).unwrap())
        .collect()
}

fn strings(paths: &[&str]) -> Vec<String> {
    paths.iter().map(|p| p.to_string()).collect()
}

const L: Hand = Hand::Left;
const R: Hand = Hand::Right;

#[test]
fn knuckles_verify_bindings() {
    let path = Knuckles.profile_path();
    assert_eq!(path, "/interaction_profiles/valve/index_controller");

    let boolact = bind(
        &Knuckles,
        &[
            (L, "input/a/click"),
            (R, "input/a/click"),
            (L, "input/b/click"),
            (R, "input/b/click"),
            (L, "input/trigger/click"),
            (R, "input/trigger/click"),
            (L, "input/trigger/touch"),
            (R, "input/trigger/touch"),
            (L, "input/thumbstick/click"),
            (R, "input/thumbstick/click"),
            (L, "input/thumbstick/touch"),
            (R, "input/thumbstick/touch"),
            (R, "input/trackpad/touch"),
            (L, "input/grip/click"),
            (L, "input/trackpad/click"),
            (R, "input/trackpad/click"),
        ],
    );
    assert_eq!(
        boolact,
        strings(&[
            "/user/hand/left/input/a/click",
            "/user/hand/right/input/a/click",
            "/user/hand/left/input/b/click",
            "/user/hand/right/input/b/click",
            "/user/hand/left/input/trigger/click",
            "/user/hand/right/input/trigger/click",
            "/user/hand/left/input/trigger/touch",
            "/user/hand/right/input/trigger/touch",
            "/user/hand/left/input/thumbstick/click",
            "/user/hand/right/input/thumbstick/click",
            "/user/hand/left/input/thumbstick/touch",
            "/user/hand/right/input/thumbstick/touch",
            "/user/hand/right/input/trackpad/touch",
            "/user/hand/left/input/squeeze/force",
            "/user/hand/left/input/trackpad/force",
            "/user/hand/right/input/trackpad/force",
        ])
    );

    let suggested = bind(&Knuckles, &[(R, "input/grip/grab")]);
    assert!(suggested.contains(&"/user/hand/right/input/squeeze/force".to_string()));

    let vec1act = bind(
        &Knuckles,
        &[
            (L, "input/trigger/pull"),
            (R, "input/trigger/pull"),
            (L, "input/grip/grab"),
            (R, "input/grip/pull"),
        ],
    );
    assert_eq!(
        vec1act,
        strings(&[
            "/user/hand/left/input/trigger/value",
            "/user/hand/right/input/trigger/value",
            "/user/hand/left/input/squeeze/force",
            "/user/hand/right/input/squeeze/value",
        ])
    );

    let vec2act = bind(
        &Knuckles,
        &[(L, "input/trackpad"), (R, "input/trackpad"), (L, "input/thumbstick"), (R, "input/thumbstick")],
    );
    assert_eq!(
        vec2act,
        strings(&[
            "/user/hand/left/input/trackpad",
            "/user/hand/right/input/trackpad",
            "/user/hand/left/input/thumbstick",
            "/user/hand/right/input/thumbstick",
        ])
    );

    let vib = bind(&Knuckles, &[(L, "output/haptic"), (R, "output/haptic")]);
    assert_eq!(
        vib,
        strings(&["/user/hand/left/output/haptic", "/user/hand/right/output/haptic"])
    );
}

#[test]
fn oculus_touch_verify_bindings() {
    let path = Touch.profile_path();
    assert_eq!(path, "/interaction_profiles/oculus/touch_controller");

    let boolact = bind(
        &Touch,
        &[
            (L, "input/x/click"),
            (L, "input/y/click"),
            (R, "input/a/click"),
            (R, "input/b/click"),
            (L, "input/grip/click"),
            (R, "input/grip/click"),
            (R, "input/joystick/click"),
            (R, "input/joystick/touch"),
            (L, "input/application_menu/click"),
            (L, "input/trigger/click"),
            (R, "input/trigger/click"),
        ],
    );
    assert_eq!(
        boolact,
        strings(&[
            "/user/hand/left/input/x/click",
            "/user/hand/left/input/y/click",
            "/user/hand/right/input/a/click",
            "/user/hand/right/input/b/click",
            "/user/hand/left/input/squeeze/value",
            "/user/hand/right/input/squeeze/value",
            "/user/hand/right/input/thumbstick/click",
            "/user/hand/right/input/thumbstick/touch",
            "/user/hand/left/input/menu/click",
            "/user/hand/left/input/trigger/value",
            "/user/hand/right/input/trigger/value",
        ])
    );

    let vec1act = bind(&Touch, &[(L, "input/trigger/pull"), (R, "input/trigger/pull")]);
    assert_eq!(
        vec1act,
        strings(&[
            "/user/hand/left/input/trigger/value",
            "/user/hand/right/input/trigger/value",
        ])
    );

    let vec2act = bind(&Touch, &[(L, "input/joystick"), (R, "input/joystick")]);
    assert_eq!(
        vec2act,
        strings(&["/user/hand/left/input/thumbstick", "/user/hand/right/input/thumbstick"])
    );

    let vib = bind(&Touch, &[(L, "output/haptic"), (R, "output/haptic")]);
    assert_eq!(
        vib,
        strings(&["/user/hand/left/output/haptic", "/user/hand/right/output/haptic"])
    );
}

#[test]
fn vive_controller_verify_bindings() {
    let path = ViveWands.profile_path();
    assert_eq!(path, "/interaction_profiles/htc/vive_controller");

    let boolact = bind(
        &ViveWands,
        &[
            (L, "input/grip/click"),
            (R, "input/grip/click"),
            (L, "input/application_menu/click"),
            (R, "input/application_menu/click"),
            (L, "input/trigger/click"),
            (R, "input/trigger/click"),
            (L, "input/trackpad/click"),
            (L, "input/trackpad/touch"),
        ],
    );
    assert_eq!(
        boolact,
        strings(&[
            "/user/hand/left/input/squeeze/click",
            "/user/hand/right/input/squeeze/click",
            "/user/hand/left/input/menu/click",
            "/user/hand/right/input/menu/click",
            // Suggesting float paths for boolean inputs is legal
            "/user/hand/left/input/trigger/value",
            "/user/hand/right/input/trigger/value",
            "/user/hand/left/input/trackpad/click",
            "/user/hand/left/input/trackpad/touch",
        ])
    );

    let vec1act = bind(
        &ViveWands,
        &[(L, "input/trigger/pull"), (R, "input/trigger/pull"), (R, "input/grip/click")],
    );
    assert_eq!(
        vec1act,
        strings(&[
            "/user/hand/left/input/trigger/value",
            "/user/hand/right/input/trigger/value",
            "/user/hand/right/input/squeeze/click",
        ])
    );

    let vec2act = bind(&ViveWands, &[(L, "input/trackpad"), (R, "input/trackpad")]);
    assert_eq!(
        vec2act,
        strings(&["/user/hand/left/input/trackpad", "/user/hand/right/input/trackpad"])
    );

    let vib = bind(&ViveWands, &[(L, "output/haptic"), (R, "output/haptic")]);
    assert_eq!(
        vib,
        strings(&["/user/hand/left/output/haptic", "/user/hand/right/output/haptic"])
    );
}

#[test]
fn unmatched_pose_path_is_translated_unchanged() {
    assert_eq!(
        Touch.translate_and_validate(L, "input/grip/pose"),
        Ok("/user/hand/left/input/grip/pose".to_string())
    );
    assert_eq!(
        SimpleController.translate_and_validate(R, "input/grip/pose"),
        Ok("/user/hand/right/input/grip/pose".to_string())
    );
}

#[test]
fn illegal_translation_is_a_binding_error() {
    // The left touch controller has no "a" button.
    let refused = Touch.translate_and_validate(L, "input/a/click").unwrap_err();
    assert_eq!(refused.path, "input/a/click");
    assert_eq!(refused.translated, "/user/hand/left/input/a/click");
    // The wands rewrite every "grip", the grip pose included.
    let refused = ViveWands.translate_and_validate(R, "input/grip/pose").unwrap_err();
    assert_eq!(refused.translated, "/user/hand/right/input/squeeze/pose");
    // The tracker has no bindable path at all.
    assert!(ViveTracker.translate_and_validate(L, "input/grip/pose").is_err());
}

#[test]
fn every_translation_is_a_legal_path() {
    let requests = [
        "input/grip/click",
        "input/grip/pull",
        "input/grip/grab",
        "input/trigger/click",
        "input/trigger/pull",
        "input/application_menu/click",
        "input/joystick",
        "input/trackpad/click",
        "input/a/click",
        "input/nothing",
    ];
    for (_, profile) in Profiles::get().list {
        let legal = profile.legal_paths();
        for hand in [L, R] {
            for request in requests {
                if let Ok(full) = profile.translate_and_validate(hand, request) {
                    assert!(legal.contains(&full));
                }
            }
        }
    }
}

#[test]
fn legal_paths_are_mirrored_in_declaration_order() {
    let wands = ViveWands.legal_paths();
    assert_eq!(wands.len(), 24);
    assert_eq!(wands[0], "/user/hand/left/input/squeeze/click");
    assert_eq!(wands[1], "/user/hand/right/input/squeeze/click");
    assert_eq!(wands[23], "/user/hand/right/output/haptic");

    let knuckles = Knuckles.legal_paths();
    assert_eq!(knuckles.len(), 44);
    assert_eq!(knuckles[0], "/user/hand/left/input/a/click");
    assert_eq!(knuckles[3], "/user/hand/right/input/a/touch");
    assert_eq!(knuckles[20], "/user/hand/left/input/thumbstick");
    assert!(knuckles.contains(&"/user/hand/right/input/squeeze/force".to_string()));

    assert_eq!(SimpleController.legal_paths().len(), 10);
    assert!(ViveTracker.legal_paths().is_empty());
}

#[test]
fn touch_legal_paths_differ_between_hands() {
    let touch = Touch.legal_paths();
    assert_eq!(touch.len(), 5 + 4 + 24);
    assert_eq!(touch[0], "/user/hand/left/input/x/click");
    assert_eq!(touch[4], "/user/hand/left/input/menu/click");
    assert_eq!(touch[5], "/user/hand/right/input/a/click");
    assert_eq!(touch[9], "/user/hand/left/input/squeeze/value");
    assert_eq!(touch[10], "/user/hand/right/input/squeeze/value");
    assert!(!touch.contains(&"/user/hand/right/input/menu/click".to_string()));
    assert!(!touch.contains(&"/user/hand/left/input/a/click".to_string()));
}

#[test]
fn legacy_bindings_per_profile() {
    let wands = ViveWands.legacy_bindings();
    assert_eq!(wands.grip_pose, leftright("input/grip/pose"));
    assert_eq!(wands.aim_pose, leftright("input/aim/pose"));
    assert_eq!(wands.trigger, leftright("input/trigger/value"));
    assert_eq!(wands.trigger_click, leftright("input/trigger/click"));
    assert_eq!(wands.app_menu, leftright("input/menu/click"));
    assert_eq!(wands.squeeze, leftright("input/squeeze/click"));

    let knuckles = Knuckles.legacy_bindings();
    assert_eq!(knuckles.app_menu, leftright("input/b/click"));
    assert_eq!(knuckles.trigger, leftright("input/trigger/click"));
    assert_eq!(knuckles.trigger_click, leftright("input/trigger/value"));
    assert_eq!(knuckles.squeeze, leftright("input/squeeze/value"));

    let touch = Touch.legacy_bindings();
    assert!(touch.app_menu.is_empty());
    assert_eq!(touch.trigger, leftright("input/trigger/value"));
    assert_eq!(touch.trigger_click, leftright("input/trigger/value"));
    assert_eq!(touch.squeeze, leftright("input/squeeze/value"));

    let tracker = ViveTracker.legacy_bindings();
    assert!(tracker.grip_pose.is_empty() && tracker.trigger.is_empty());
}

#[test]
fn legacy_bindings_are_legal_paths() {
    for (_, profile) in Profiles::get().list {
        let legal = profile.legal_paths();
        let b = profile.legacy_bindings();
        for list in [b.grip_pose, b.aim_pose, b.app_menu, b.trigger, b.trigger_click, b.squeeze] {
            for path in list {
                assert!(legal.contains(&path), "{path}");
            }
        }
    }
}

#[test]
fn hand_paths() {
    assert_eq!(Hand::Left.prefix(), "/user/hand/left/");
    assert_eq!(Hand::Right.path("input/a/click"), "/user/hand/right/input/a/click");
    assert_eq!(
        leftright("input/grip/pose"),
        vec!["/user/hand/left/input/grip/pose".to_string(), "/user/hand/right/input/grip/pose".to_string()]
    );
    assert_eq!(left("output/haptic"), vec!["/user/hand/left/output/haptic".to_string()]);
    assert_eq!(right("output/haptic"), vec!["/user/hand/right/output/haptic".to_string()]);
}

#[test]
fn property_get_picks_the_hand() {
    let shared = Property::BothHands(7);
    assert_eq!(*shared.get(Hand::Left), 7);
    assert_eq!(*shared.get(Hand::Right), 7);
    let split = Property::PerHand { left: "l", right: "r" };
    assert_eq!(*split.get(Hand::Left), "l");
    assert_eq!(*split.get(Hand::Right), "r");
}

#[test]
fn profile_properties() {
    let wands = ViveWands.properties();
    assert_eq!(wands.model, "Vive. Controller MV");
    assert_eq!(wands.openvr_controller_type, "vive_controller");
    assert_eq!(wands.render_model_name, Property::BothHands("vr_controller_vive_1_5"));
    assert_eq!(wands.main_axis, MainAxisType::Trackpad);
    assert_eq!(Knuckles.properties().model, "Knuckles");
    assert_eq!(Knuckles.properties().openvr_controller_type, "knuckles");
    assert_eq!(Knuckles.properties().main_axis, MainAxisType::Thumbstick);
    assert_eq!(Touch.properties().model, "Miramar");
    assert_eq!(Touch.properties().openvr_controller_type, "oculus_touch");
}

#[test]
fn named_properties_come_from_the_tables() {
    assert_eq!(ViveWands.model(TrackedDeviceType::LeftHand), "Vive. Controller MV");
    assert_eq!(ViveWands.model(TrackedDeviceType::RightHand), "Vive. Controller MV");
    assert_eq!(ViveWands.openvr_controller_type(), "vive_controller");
    assert_eq!(ViveWands.render_model_name(TrackedDeviceType::RightHand), "vr_controller_vive_1_5");
    assert_eq!(
        Knuckles.render_model_name(TrackedDeviceType::LeftHand),
        "{indexcontroller}valve_controller_knu_1_0_left"
    );
    assert_eq!(
        Knuckles.render_model_name(TrackedDeviceType::RightHand),
        "{indexcontroller}valve_controller_knu_1_0_right"
    );
}

#[test]
fn property_tables() {
    assert_eq!(
        ViveWands.hmd_properties(),
        vec![
            (TrackedDeviceProperty::ManufacturerName_String, DevicePropertyTypes::String("HTC")),
            (TrackedDeviceProperty::ModelNumber_String, DevicePropertyTypes::String("Vive. MV")),
            (TrackedDeviceProperty::ControllerType_String, DevicePropertyTypes::String("vive")),
        ]
    );
    assert_eq!(
        ViveWands.controller_properties(),
        vec![
            (
                TrackedDeviceProperty::ModelNumber_String,
                HandValueType { left: DevicePropertyTypes::String("Vive. Controller MV"), right: None },
            ),
            (
                TrackedDeviceProperty::RenderModelName_String,
                HandValueType { left: DevicePropertyTypes::String("vr_controller_vive_1_5"), right: None },
            ),
            (
                TrackedDeviceProperty::ControllerType_String,
                HandValueType { left: DevicePropertyTypes::String("vive_controller"), right: None },
            ),
        ]
    );
    assert_eq!(
        Touch.controller_properties()[1].1,
        HandValueType {
            left: DevicePropertyTypes::String("oculus_quest_controller_left"),
            right: Some(DevicePropertyTypes::String("oculus_quest_controller_right")),
        }
    );
}

#[test]
fn get_property_by_role() {
    assert_eq!(
        ViveWands.get_property(ModelNumber_String, TrackedDeviceType::HMD),
        Some(DevicePropertyTypes::String("Vive. MV"))
    );
    assert_eq!(
        ViveWands.get_property(ModelNumber_String, TrackedDeviceType::LeftHand),
        Some(DevicePropertyTypes::String("Vive. Controller MV"))
    );
    assert_eq!(ViveWands.get_property(SerialNumber_String, TrackedDeviceType::HMD), None);
    assert_eq!(ViveWands.get_property(RenderModelName_String, TrackedDeviceType::HMD), None);
    assert_eq!(ViveWands.get_property(Axis0Type_Int32, TrackedDeviceType::LeftHand), None);
    assert_eq!(ViveWands.get_property(Other(1234), TrackedDeviceType::RightHand), None);
    assert_eq!(
        Touch.get_property(RenderModelName_String, TrackedDeviceType::RightHand),
        Some(DevicePropertyTypes::String("oculus_quest_controller_right"))
    );
    assert_eq!(
        ViveTracker.get_property(ControllerType_String, TrackedDeviceType::GenericTracker),
        Some(DevicePropertyTypes::String("vive_tracker_handheld_object"))
    );
}

#[test]
fn property_values_by_kind() {
    assert_eq!(DevicePropertyTypes::String("x").as_string(), Some("x"));
    assert_eq!(DevicePropertyTypes::Int32(3).as_string(), None);
    assert_eq!(DevicePropertyTypes::Int32(3).as_int32(), Some(3));
    assert_eq!(DevicePropertyTypes::Bool(true).as_int32(), None);
    assert_eq!(DevicePropertyTypes::Bool(true).as_bool(), Some(true));
    assert_eq!(DevicePropertyTypes::Uint64(1).as_bool(), None);
}

#[test]
fn profile_table_in_registration_order() {
    let profiles = Profiles::get();
    assert_eq!(
        profiles.list,
        vec![
            (ControllerType::ViveController, Profile::ViveWands),
            (ControllerType::Knuckles, Profile::Knuckles),
            (ControllerType::OculusTouch, Profile::Touch),
            (ControllerType::ViveController, Profile::SimpleController),
            (ControllerType::ViveTracker, Profile::ViveTracker),
        ]
    );
    assert_eq!(
        profiles.profiles_iter(),
        vec![
            Profile::ViveWands,
            Profile::Knuckles,
            Profile::Touch,
            Profile::SimpleController,
            Profile::ViveTracker,
        ]
    );
}

#[test]
fn profile_lookup_by_path() {
    let profiles = Profiles::get();
    for profile in profiles.profiles_iter() {
        assert_eq!(profiles.profile_from_name(profile.profile_path()), Some(profile));
    }
    assert_eq!(
        profiles.profile_from_name("/interaction_profiles/htc/vive_tracker_htcx"),
        Some(Profile::ViveTracker)
    );
    assert_eq!(profiles.profile_from_name("/interaction_profiles/khr/simple_controller"), Some(Profile::SimpleController));
    assert_eq!(profiles.profile_from_name("/interaction_profiles/unknown/controller"), None);
    assert_eq!(profiles.profile_from_name(""), None);
    assert_eq!(profiles.profile_from_name("/interaction_profiles/htc/vive_controller/"), None);
}

#[test]
fn profile_enum_answers_as_the_profile_it_names() {
    assert_eq!(Profile::Knuckles.profile_path(), Knuckles.profile_path());
    assert_eq!(Profile::Knuckles.translate_map(), Knuckles.translate_map());
    assert_eq!(Profile::Touch.legal_paths(), Touch.legal_paths());
    assert_eq!(Profile::ViveWands.legacy_bindings(), ViveWands.legacy_bindings());
    assert_eq!(Profile::SimpleController.properties(), SimpleController.properties());
    assert_eq!(Profile::ViveTracker.hmd_properties(), ViveTracker.hmd_properties());
}
