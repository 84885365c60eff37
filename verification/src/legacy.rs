//! Bindings for callers that read controller state without declaring actions.

use crate::hand::strings_of;
use vstd::prelude::*;

verus! {

/// The input paths that stand behind each legacy input of a controller.
#[derive(Clone, Debug, PartialEq, Eq)]
pub struct LegacyBindings {
    pub grip_pose: Vec<String>,
    pub aim_pose: Vec<String>,
    pub app_menu: Vec<String>,
    pub trigger: Vec<String>,
    pub trigger_click: Vec<String>,
    pub squeeze: Vec<String>,
}

/// Legacy bindings as the contracts see them.
pub struct LegacyPaths {
    pub grip_pose: Seq<Seq<char>>,
    pub aim_pose: Seq<Seq<char>>,
    pub app_menu: Seq<Seq<char>>,
    pub trigger: Seq<Seq<char>>,
    pub trigger_click: Seq<Seq<char>>,
    pub squeeze: Seq<Seq<char>>,
}

impl View for LegacyBindings {
    type V = LegacyPaths;

    open spec fn view(&self) -> LegacyPaths {
        LegacyPaths {
            grip_pose: strings_of(self.grip_pose@),
            aim_pose: strings_of(self.aim_pose@),
            app_menu: strings_of(self.app_menu@),
            trigger: strings_of(self.trigger@),
            trigger_click: strings_of(self.trigger_click@),
            squeeze: strings_of(self.squeeze@),
        }
    }
}

impl LegacyPaths {
    /// Every path of the bundle, whatever input it stands behind.
    pub open spec fn all(self) -> Seq<Seq<char>> {
        self.grip_pose + self.aim_pose + self.app_menu + self.trigger + self.trigger_click
            + self.squeeze
    }
}

} // verus!
