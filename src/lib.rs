//! Discovery, inspection and synchronisation of a game's encrypted save
//! directories: the save-bundle model, the copy/delete planning engine and the
//! controller that serialises every change to the shared application state.

pub mod location;
pub mod order;
pub mod save;
pub mod save_bundle;
pub mod fs_util;
pub mod model;
pub mod codec;
pub mod controller;
pub mod platform;
pub mod view;
