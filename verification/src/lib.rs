//! Game logic, form rules and map-editing state for a Hide & Seek game
//! (modelled on Jetlag: The Game), independent of any user-interface toolkit.

pub mod boundary;
pub mod boundary_scripts;
pub mod cards;
pub mod forms;
pub mod ids;
pub mod navigation;
pub mod page_scripts;
pub mod radar;
pub mod requests;
pub mod text;
pub mod transit;
pub mod transit_editor;
pub mod wizard;
pub mod zone_sync;
pub mod zones;
