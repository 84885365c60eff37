//! Device registry and interaction-profile binding translation for running
//! index-and-property based XR applications on an action-and-space based runtime.

pub mod devices;
pub mod hand;
pub mod legacy;
pub mod profiles;
pub mod properties;
pub mod runtime;
pub mod system;
pub mod text;
pub mod translation;
