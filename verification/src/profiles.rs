//! Interaction profiles: what each supported controller family offers, how
//! requested paths are rewritten for it, and the table of supported families.

pub mod knuckles;
pub mod oculus_touch;
pub mod simple_controller;
pub mod vive_controller;
pub mod vive_tracker;

use crate::devices::tracked_device::TrackedDeviceType;
use crate::profiles::knuckles::Knuckles;
use crate::profiles::oculus_touch::Touch;
use crate::profiles::simple_controller::SimpleController;
use crate::profiles::vive_controller::ViveWands;
use crate::profiles::vive_tracker::ViveTracker;
use crate::text::same_text;
use crate::hand::{strings_of, Hand};
use crate::legacy::{LegacyBindings, LegacyPaths};
use crate::properties::{DevicePropertyTypes, HandValueType, TrackedDeviceProperty};
use crate::translation::{
    rules_of, translate_and_validate, translated_path, validated, InvalidActionPath,
    PathTranslation, RewriteRule,
};
use vstd::prelude::*;

verus! {

/// A value that both hands share, or one value per hand.
#[derive(Clone, Copy, Debug, PartialEq, Eq)]
pub enum Property<T> {
    BothHands(T),
    PerHand { left: T, right: T },
}

impl<T> Property<T> {
    /// The value that holds for `hand`.
    pub open spec fn value(self, hand: Hand) -> T {
        match self {
            Property::BothHands(property) => property,
            Property::PerHand { left, right } => match hand {
                Hand::Left => left,
                Hand::Right => right,
            },
        }
    }

    /// The value that holds for `hand`.
    pub fn get(&self, hand: Hand) -> (r: &T)
        ensures
            *r == self.value(hand),
    {
        match self {
            Property::BothHands(property) => property,
            Property::PerHand { left, right } => match hand {
                Hand::Left => left,
                Hand::Right => right,
            },
        }
    }
}

/// The main two-dimensional input of a controller.
#[derive(Clone, Copy, Debug, PartialEq, Eq, Structural)]
pub enum MainAxisType {
    Thumbstick,
    Trackpad,
}

/// What a controller family reports about itself.
#[derive(Clone, Copy, Debug, PartialEq, Eq)]
pub struct ProfileProperties {
    /// The model number.
    pub model: &'static str,
    /// The controller type.
    pub openvr_controller_type: &'static str,
    /// The name of the render model.
    pub render_model_name: Property<&'static str>,
    pub main_axis: MainAxisType,
}

/// The property table that `properties` stands for: model number, render
/// model name and controller type, the render model per hand where the
/// hands differ.
pub open spec fn controller_table(properties: ProfileProperties) -> Seq<
    (TrackedDeviceProperty, HandValueType<DevicePropertyTypes>),
> {
    seq![
        (
            TrackedDeviceProperty::ModelNumber_String,
            HandValueType { left: DevicePropertyTypes::String(properties.model), right: None },
        ),
        (
            TrackedDeviceProperty::RenderModelName_String,
            match properties.render_model_name {
                Property::BothHands(name) => HandValueType {
                    left: DevicePropertyTypes::String(name),
                    right: None,
                },
                Property::PerHand { left, right } => HandValueType {
                    left: DevicePropertyTypes::String(left),
                    right: Some(DevicePropertyTypes::String(right)),
                },
            },
        ),
        (
            TrackedDeviceProperty::ControllerType_String,
            HandValueType {
                left: DevicePropertyTypes::String(properties.openvr_controller_type),
                right: None,
            },
        ),
    ]
}

/// The value a controller of the given properties reports for `property` on
/// `hand`: its model number, render model name or controller type.
pub open spec fn controller_value(
    properties: ProfileProperties,
    property: TrackedDeviceProperty,
    hand: Hand,
) -> Option<DevicePropertyTypes> {
    match property {
        TrackedDeviceProperty::ModelNumber_String => Some(
            DevicePropertyTypes::String(properties.model),
        ),
        TrackedDeviceProperty::RenderModelName_String => Some(
            DevicePropertyTypes::String(properties.render_model_name.value(hand)),
        ),
        TrackedDeviceProperty::ControllerType_String => Some(
            DevicePropertyTypes::String(properties.openvr_controller_type),
        ),
        _ => None,
    }
}

/// The value that the first entry for `property` in `table` holds.
pub open spec fn first_value(
    table: Seq<(TrackedDeviceProperty, DevicePropertyTypes)>,
    property: TrackedDeviceProperty,
) -> Option<DevicePropertyTypes>
    decreases table.len(),
{
    if table.len() == 0 {
        None
    } else if table[0].0 == property {
        Some(table[0].1)
    } else {
        first_value(table.skip(1), property)
    }
}

/// The hand whose value a device of the given role reports: the right hand's
/// for the right controller, the left hand's for every other device.
pub open spec fn reporting_hand(device_type: TrackedDeviceType) -> Hand {
    if device_type == TrackedDeviceType::RightHand {
        Hand::Right
    } else {
        Hand::Left
    }
}

/// What a device of the given role reports for `property` under a profile
/// with the given controller properties and display table.
pub open spec fn property_value(
    properties: ProfileProperties,
    hmd_table: Seq<(TrackedDeviceProperty, DevicePropertyTypes)>,
    property: TrackedDeviceProperty,
    device_type: TrackedDeviceType,
) -> Option<DevicePropertyTypes> {
    if device_type == TrackedDeviceType::HMD {
        first_value(hmd_table, property)
    } else {
        controller_value(properties, property, reporting_hand(device_type))
    }
}

/// The policy of one controller family.
pub trait InteractionProfile {
    /// The path that names the profile.
    spec fn path(&self) -> Seq<char>;

    /// What controllers of this family report about themselves.
    spec fn props(&self) -> ProfileProperties;

    /// The rewrite rules, in declaration order.
    spec fn rules(&self) -> Seq<RewriteRule>;

    /// The input and output paths that the family has.
    spec fn legal(&self) -> Seq<Seq<char>>;

    /// The paths behind each legacy input.
    spec fn legacy(&self) -> LegacyPaths;

    /// What the display that ships with this family reports about itself.
    spec fn hmd_props(&self) -> Seq<(TrackedDeviceProperty, DevicePropertyTypes)>;

    /// The path that names the profile.
    fn profile_path(&self) -> (r: &'static str)
        ensures
            r@ == self.path(),
    ;

    /// What controllers of this family report about themselves.
    fn properties(&self) -> (r: ProfileProperties)
        ensures
            r == self.props(),
    ;

    /// The rewrite rules, in declaration order.
    fn translate_map(&self) -> (r: Vec<PathTranslation>)
        ensures
            rules_of(r@) == self.rules(),
    ;

    /// The input and output paths that the family has.
    fn legal_paths(&self) -> (r: Vec<String>)
        ensures
            strings_of(r@) == self.legal(),
    ;

    /// The paths behind each legacy input.
    fn legacy_bindings(&self) -> (r: LegacyBindings)
        ensures
            r@ == self.legacy(),
    ;

    /// What the display that ships with this family reports about itself.
    fn hmd_properties(&self) -> (r: Vec<(TrackedDeviceProperty, DevicePropertyTypes)>)
        ensures
            r@ == self.hmd_props(),
    ;

    /// The property table of the controllers, derived from `properties`.
    fn controller_properties(&self) -> (r: Vec<
        (TrackedDeviceProperty, HandValueType<DevicePropertyTypes>),
    >)
        ensures
            r@ == controller_table(self.props()),
    {
        let properties = self.properties();
        let render_model = match properties.render_model_name {
            Property::BothHands(name) => HandValueType {
                left: DevicePropertyTypes::String(name),
                right: None,
            },
            Property::PerHand { left, right } => HandValueType {
                left: DevicePropertyTypes::String(left),
                right: Some(DevicePropertyTypes::String(right)),
            },
        };
        let mut table = Vec::new();
        table.push(
            (
                TrackedDeviceProperty::ModelNumber_String,
                HandValueType { left: DevicePropertyTypes::String(properties.model), right: None },
            ),
        );
        table.push((TrackedDeviceProperty::RenderModelName_String, render_model));
        table.push(
            (
                TrackedDeviceProperty::ControllerType_String,
                HandValueType {
                    left: DevicePropertyTypes::String(properties.openvr_controller_type),
                    right: None,
                },
            ),
        );
        table
    }

    /// What a device of the given role reports for `property`: the display
    /// answers from the display table, every other device from the controller
    /// table, the right controller with the right hand's value where one is
    /// declared.
    fn get_property(&self, property: TrackedDeviceProperty, device_type: TrackedDeviceType) -> (r:
        Option<DevicePropertyTypes>)
        ensures
            r == property_value(self.props(), self.hmd_props(), property, device_type),
    {
        match device_type {
            TrackedDeviceType::HMD => {
                let table = self.hmd_properties();
                let mut i: usize = 0;
                assert(table@.skip(0) =~= table@);
                while i < table.len()
                    invariant
                        i <= table.len(),
                        device_type == TrackedDeviceType::HMD,
                        table@ == self.hmd_props(),
                        first_value(table@.skip(i as int), property) == first_value(
                            table@,
                            property,
                        ),
                    decreases table.len() - i,
                {
                    assert(table@.skip(i as int).skip(1) =~= table@.skip(i + 1));
                    if table[i].0 == property {
                        return Some(table[i].1);
                    }
                    i += 1;
                }
                None
            },
            _ => {
                let table = self.controller_properties();
                let mut i: usize = 0;
                while i < table.len()
                    invariant
                        i <= table.len(),
                        device_type != TrackedDeviceType::HMD,
                        table@ == controller_table(self.props()),
                        forall|k: int| 0 <= k < i ==> table@[k].0 != property,
                    decreases table.len() - i,
                {
                    if table[i].0 == property {
                        let entry = table[i].1;
                        return match (device_type, entry.right) {
                            (TrackedDeviceType::RightHand, Some(right)) => Some(right),
                            _ => Some(entry.left),
                        };
                    }
                    i += 1;
                }
                None
            },
        }
    }

    /// The model number of the controller in `hand`.
    fn model(&self, hand: TrackedDeviceType) -> (r: &'static str)
        requires
            hand.hand_spec() is Some,
        ensures
            r == self.props().model,
    {
        self.get_property(TrackedDeviceProperty::ModelNumber_String, hand).unwrap().as_string()
            .unwrap()
    }

    /// The controller type of the family.
    fn openvr_controller_type(&self) -> (r: &'static str)
        ensures
            r == self.props().openvr_controller_type,
    {
        self.get_property(
            TrackedDeviceProperty::ControllerType_String,
            TrackedDeviceType::LeftHand,
        ).unwrap().as_string().unwrap()
    }

    /// The name of the render model of the controller in `hand`.
    fn render_model_name(&self, hand: TrackedDeviceType) -> (r: &'static str)
        requires
            hand.hand_spec() matches Some(h),
        ensures
            r == self.props().render_model_name.value(hand.hand_spec().unwrap()),
    {
        self.get_property(TrackedDeviceProperty::RenderModelName_String, hand).unwrap().as_string()
            .unwrap()
    }

    /// Rewrites the requested `path` by the profile's rules, places it on
    /// `hand`, and accepts it only if the family has that path.
    fn translate_and_validate(&self, hand: Hand, path: &str) -> (r: Result<
        String,
        InvalidActionPath,
    >)
        ensures
            match r {
                Ok(full) => validated(self.rules(), self.legal(), hand, path@) == Some(full@),
                Err(e) => {
                    &&& validated(self.rules(), self.legal(), hand, path@) is None
                    &&& e.path@ == path@
                    &&& e.translated@ == translated_path(self.rules(), hand, path@)
                },
            },
    {
        let table = self.translate_map();
        let legal = self.legal_paths();
        translate_and_validate(&table, &legal, hand, path)
    }
}

/// The controller family that an application's bindings are written for.
#[derive(Clone, Copy, Debug, PartialEq, Eq, Structural)]
pub enum ControllerType {
    ViveController,
    Knuckles,
    OculusTouch,
    ViveTracker,
}

/// One of the supported profiles.
#[derive(Clone, Copy, Debug, PartialEq, Eq, Structural)]
pub enum Profile {
    ViveWands,
    Knuckles,
    Touch,
    SimpleController,
    ViveTracker,
}

impl InteractionProfile for Profile {
    open spec fn path(&self) -> Seq<char> {
        match self {
            Profile::ViveWands => ViveWands.path(),
            Profile::Knuckles => Knuckles.path(),
            Profile::Touch => Touch.path(),
            Profile::SimpleController => SimpleController.path(),
            Profile::ViveTracker => ViveTracker.path(),
        }
    }

    open spec fn props(&self) -> ProfileProperties {
        match self {
            Profile::ViveWands => ViveWands.props(),
            Profile::Knuckles => Knuckles.props(),
            Profile::Touch => Touch.props(),
            Profile::SimpleController => SimpleController.props(),
            Profile::ViveTracker => ViveTracker.props(),
        }
    }

    open spec fn rules(&self) -> Seq<RewriteRule> {
        match self {
            Profile::ViveWands => ViveWands.rules(),
            Profile::Knuckles => Knuckles.rules(),
            Profile::Touch => Touch.rules(),
            Profile::SimpleController => SimpleController.rules(),
            Profile::ViveTracker => ViveTracker.rules(),
        }
    }

    open spec fn legal(&self) -> Seq<Seq<char>> {
        match self {
            Profile::ViveWands => ViveWands.legal(),
            Profile::Knuckles => Knuckles.legal(),
            Profile::Touch => Touch.legal(),
            Profile::SimpleController => SimpleController.legal(),
            Profile::ViveTracker => ViveTracker.legal(),
        }
    }

    open spec fn legacy(&self) -> LegacyPaths {
        match self {
            Profile::ViveWands => ViveWands.legacy(),
            Profile::Knuckles => Knuckles.legacy(),
            Profile::Touch => Touch.legacy(),
            Profile::SimpleController => SimpleController.legacy(),
            Profile::ViveTracker => ViveTracker.legacy(),
        }
    }

    open spec fn hmd_props(&self) -> Seq<(TrackedDeviceProperty, DevicePropertyTypes)> {
        match self {
            Profile::ViveWands => ViveWands.hmd_props(),
            Profile::Knuckles => Knuckles.hmd_props(),
            Profile::Touch => Touch.hmd_props(),
            Profile::SimpleController => SimpleController.hmd_props(),
            Profile::ViveTracker => ViveTracker.hmd_props(),
        }
    }

    fn profile_path(&self) -> (r: &'static str) {
        match self {
            Profile::ViveWands => ViveWands.profile_path(),
            Profile::Knuckles => Knuckles.profile_path(),
            Profile::Touch => Touch.profile_path(),
            Profile::SimpleController => SimpleController.profile_path(),
            Profile::ViveTracker => ViveTracker.profile_path(),
        }
    }

    fn properties(&self) -> (r: ProfileProperties) {
        match self {
            Profile::ViveWands => ViveWands.properties(),
            Profile::Knuckles => Knuckles.properties(),
            Profile::Touch => Touch.properties(),
            Profile::SimpleController => SimpleController.properties(),
            Profile::ViveTracker => ViveTracker.properties(),
        }
    }

    fn translate_map(&self) -> (r: Vec<PathTranslation>) {
        match self {
            Profile::ViveWands => ViveWands.translate_map(),
            Profile::Knuckles => Knuckles.translate_map(),
            Profile::Touch => Touch.translate_map(),
            Profile::SimpleController => SimpleController.translate_map(),
            Profile::ViveTracker => ViveTracker.translate_map(),
        }
    }

    fn legal_paths(&self) -> (r: Vec<String>) {
        match self {
            Profile::ViveWands => ViveWands.legal_paths(),
            Profile::Knuckles => Knuckles.legal_paths(),
            Profile::Touch => Touch.legal_paths(),
            Profile::SimpleController => SimpleController.legal_paths(),
            Profile::ViveTracker => ViveTracker.legal_paths(),
        }
    }

    fn legacy_bindings(&self) -> (r: LegacyBindings) {
        match self {
            Profile::ViveWands => ViveWands.legacy_bindings(),
            Profile::Knuckles => Knuckles.legacy_bindings(),
            Profile::Touch => Touch.legacy_bindings(),
            Profile::SimpleController => SimpleController.legacy_bindings(),
            Profile::ViveTracker => ViveTracker.legacy_bindings(),
        }
    }

    fn hmd_properties(&self) -> (r: Vec<(TrackedDeviceProperty, DevicePropertyTypes)>) {
        match self {
            Profile::ViveWands => ViveWands.hmd_properties(),
            Profile::Knuckles => Knuckles.hmd_properties(),
            Profile::Touch => Touch.hmd_properties(),
            Profile::SimpleController => SimpleController.hmd_properties(),
            Profile::ViveTracker => ViveTracker.hmd_properties(),
        }
    }
}

/// The first profile of `list` that `name` names.
pub open spec fn first_named(list: Seq<(ControllerType, Profile)>, name: Seq<char>) -> Option<
    Profile,
>
    decreases list.len(),
{
    if list.len() == 0 {
        None
    } else if list[0].1.path() == name {
        Some(list[0].1)
    } else {
        first_named(list.skip(1), name)
    }
}

/// The supported profiles, each with the controller family whose bindings
/// it serves, in registration order.
pub open spec fn supported_profiles() -> Seq<(ControllerType, Profile)> {
    seq![
        (ControllerType::ViveController, Profile::ViveWands),
        (ControllerType::Knuckles, Profile::Knuckles),
        (ControllerType::OculusTouch, Profile::Touch),
        (ControllerType::ViveController, Profile::SimpleController),
        (ControllerType::ViveTracker, Profile::ViveTracker),
    ]
}

/// The table of supported profiles.
#[derive(Clone, Debug, PartialEq, Eq)]
pub struct Profiles {
    pub list: Vec<(ControllerType, Profile)>,
}

impl Profiles {
    /// The table of the supported profiles.
    pub fn get() -> (r: Profiles)
        ensures
            r.list@ == supported_profiles(),
    {
        let list = vec![
            (ControllerType::ViveController, Profile::ViveWands),
            (ControllerType::Knuckles, Profile::Knuckles),
            (ControllerType::OculusTouch, Profile::Touch),
            (ControllerType::ViveController, Profile::SimpleController),
            (ControllerType::ViveTracker, Profile::ViveTracker),
        ];
        Profiles { list }
    }

    /// The profiles of the table, in registration order.
    pub fn profiles_iter(&self) -> (r: Vec<Profile>)
        ensures
            r@ == self.list@.map_values(|entry: (ControllerType, Profile)| entry.1),
    {
        let mut out: Vec<Profile> = Vec::new();
        let mut i: usize = 0;
        while i < self.list.len()
            invariant
                i <= self.list.len(),
                out.len() == i,
                forall|k: int| 0 <= k < i ==> out@[k] == self.list@[k].1,
            decreases self.list.len() - i,
        {
            out.push(self.list[i].1);
            i += 1;
        }
        out
    }

    /// The first profile of the table whose path is `name`; nothing where
    /// the table has no such profile.
    pub fn profile_from_name(&self, name: &str) -> (r: Option<Profile>)
        ensures
            r == first_named(self.list@, name@),
            r matches Some(profile) ==> profile.path() == name@ && exists|i: int|
                0 <= i < self.list.len() && (#[trigger] self.list@[i]).1 == profile,
            r is None <==> forall|i: int|
                0 <= i < self.list.len() ==> (#[trigger] self.list@[i]).1.path() != name@,
    {
        let mut i: usize = 0;
        assert(self.list@.skip(0) =~= self.list@);
        while i < self.list.len()
            invariant
                i <= self.list.len(),
                first_named(self.list@.skip(i as int), name@) == first_named(self.list@, name@),
                forall|k: int| 0 <= k < i ==> (#[trigger] self.list@[k]).1.path() != name@,
            decreases self.list.len() - i,
        {
            let profile = self.list[i].1;
            assert(self.list@.skip(i as int).skip(1) =~= self.list@.skip(i + 1));
            if same_text(profile.profile_path(), name) {
                return Some(profile);
            }
            i += 1;
        }
        None
    }
}

/// The five supported profiles have five different paths.
pub proof fn lemma_profile_paths_differ(a: Profile, b: Profile)
    requires
        a != b,
    ensures
        a.path() != b.path(),
{
    reveal_strlit("/interaction_profiles/htc/vive_controller");
    reveal_strlit("/interaction_profiles/valve/index_controller");
    reveal_strlit("/interaction_profiles/oculus/touch_controller");
    reveal_strlit("/interaction_profiles/khr/simple_controller");
    reveal_strlit("/interaction_profiles/htc/vive_tracker_htcx");
    assert(Profile::Knuckles.path()[22] == 'v');
    assert(Profile::Touch.path()[22] == 'o');
    assert(Profile::SimpleController.path()[22] == 'k');
    assert(Profile::ViveTracker.path()[22] == 'h' && Profile::ViveTracker.path()[31] == 't');
}

/// Looking a supported profile up by its own path finds that profile.
pub proof fn lemma_supported_profile_is_found(profile: Profile)
    ensures
        first_named(supported_profiles(), profile.path()) == Some(profile),
{
    reveal_with_fuel(first_named, 6);
    lemma_profile_paths_differ(Profile::ViveWands, Profile::Knuckles);
    lemma_profile_paths_differ(Profile::ViveWands, Profile::Touch);
    lemma_profile_paths_differ(Profile::ViveWands, Profile::SimpleController);
    lemma_profile_paths_differ(Profile::ViveWands, Profile::ViveTracker);
    lemma_profile_paths_differ(Profile::Knuckles, Profile::Touch);
    lemma_profile_paths_differ(Profile::Knuckles, Profile::SimpleController);
    lemma_profile_paths_differ(Profile::Knuckles, Profile::ViveTracker);
    lemma_profile_paths_differ(Profile::Touch, Profile::SimpleController);
    lemma_profile_paths_differ(Profile::Touch, Profile::ViveTracker);
    lemma_profile_paths_differ(Profile::SimpleController, Profile::ViveTracker);
}

/// Every path behind a legacy input of a supported profile is a path that
/// the profile has.
pub proof fn lemma_legacy_paths_are_legal(profile: Profile, path: Seq<char>)
    requires
        profile.legacy().all().contains(path),
    ensures
        profile.legal().contains(path),
{
    match profile {
        Profile::ViveWands => vive_controller::lemma_vive_wands_legacy_paths_are_legal(path),
        Profile::Knuckles => knuckles::lemma_knuckles_legacy_paths_are_legal(path),
        Profile::Touch => oculus_touch::lemma_touch_legacy_paths_are_legal(path),
        Profile::SimpleController => {
            simple_controller::lemma_simple_controller_legacy_paths_are_legal(path)
        },
        Profile::ViveTracker => {},
    }
}

} // verus!
