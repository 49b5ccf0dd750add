//! A retained-tree UI composition engine: composable node combinators that
//! perform constraint-based layout, pointer-event arbitration ("dibs") and
//! draw-order traversal for an interactive 2D interface, independent of any
//! concrete rendering or input backend.

pub mod align_box;
pub mod amy_gui_node;
pub mod area_box;
pub mod button;
pub mod events;
pub mod geometry;
pub mod label;
pub mod node;
pub mod overlay_box;
pub mod pad_box;
pub mod region;
pub mod size_box;
pub mod split_box;
pub mod stack_box;
pub mod uniform_grid;
pub mod viewport;

pub use amy_gui_node::AmyGUINode;
pub use events::Event;
pub use events::Events;
pub use events::InputBackend;
pub use events::MouseEvent;
pub use geometry::Point;
pub use geometry::Rect;
pub use geometry::SizeRange;
pub use node::Direction;
pub use node::DrawBackend;
pub use node::DrawCommand;
pub use node::DrawList;
pub use node::DrawNode;
pub use node::Empty;
pub use node::GUINode;
pub use node::Node;
pub use node::ParentNode;
pub use node::TickBackend;
pub use node::TickNode;
pub use node::Visibility;
