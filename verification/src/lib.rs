//! A colorimetric conversion engine: fifteen color formats, a bit-exact byte
//! encoding for each, and conversion from any format to any other, in whole
//! numbers and in single-precision arithmetic on bit patterns. Beside it,
//! the element bookkeeping of a small retained GUI tree.

pub mod bounds;
pub mod byte_order;
pub mod color;
pub mod element_id;
pub mod float32;
pub mod gui_context;
pub mod gui_tree_node;
pub mod widget;

pub use bounds::{Bounds, HorizAlign, Position, Size, VertAlign};
pub use byte_order::ByteOrder;
pub use element_id::ElementId;
pub use float32::Float32;
pub use gui_context::GuiContext;
pub use gui_tree_node::GuiTreeNode;
