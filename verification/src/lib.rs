//! Verified core of a 2D CAD system: identifiers and snapping masks, the
//! constraint store, the grid index of entities, the command registry, action
//! histories, drawing-tool state machines and the editor's interaction
//! state, the DXF group-code text reader and writer, the native file frame,
//! and the decision logic of the Git-backed version control.

pub mod entity;
pub mod snap;
pub mod text;
pub mod parametric;
pub mod action;
pub mod command_registry;
pub mod dxf_raw;
pub mod native;
pub mod version_control;
pub mod actions;
pub mod ui_state;
pub mod tile;
pub mod input_parser;
pub mod color;
pub mod constraint_system;
pub mod constraints;
pub mod spatial;
pub mod dxf_objects;
pub mod ui_session;
pub mod canvas;
pub mod typed_input;
pub mod shortcuts;
