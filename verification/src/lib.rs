//! A minimal tabbed text-editor shell: an ordered collection of open
//! documents, an active-tab pointer, and a controller that interprets user
//! intents (new/open/save/save-as/quit, text edits, tab selection and
//! closure) into state changes plus requested side effects. File dialogs and
//! rendering are left to an unverified front end; the state machine here is
//! verified.

pub mod controller;
pub mod laws;
pub mod tab_bar;
pub mod tabs;
pub mod theme;
