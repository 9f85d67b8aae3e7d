//! An immediate-mode GUI layout and interaction engine.
//!
//! Application code redeclares its widget tree every frame; the engine
//! reconciles that declaration against input state and previous-frame
//! geometry. The pieces: a space-tagged coordinate and transform model,
//! a size-negotiation protocol turning declarative hints into concrete
//! rectangles, pluggable layout strategies (vertical stack, floating
//! resizable windows), a per-widget retained state store with a textual
//! persistence codec, a frame-scoped input-arbitration state machine,
//! and a texture-atlas packer used by the glyph cache.
//!
//! Coordinates are logical units held in `i64`; painting and font
//! rasterisation are external consumers of the paint-operation list.

pub mod atlas;
pub mod codec;
pub mod colors;
pub mod hint;
pub mod ident;
pub mod idmap;
pub mod io;
pub mod layer;
pub mod layout;
pub mod memory;
pub mod painter;
pub mod query;
pub mod resize;
pub mod resize_layout;
pub mod style;
pub mod text;
pub mod texture;
pub mod types;
pub mod ui;
pub mod vert_layout;
pub mod vis;
pub mod widgets;

pub use types::{Any, GblType, LclType, PrtType, TexType};
pub use types::{Pt2D, Rt2D, Sz2D, ZOrder};
