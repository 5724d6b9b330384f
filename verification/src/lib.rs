//! Transform, clip-chain and scroll-state core of a hierarchical scene tree.
//!
//! A scene is a tree of [`node::ClipScrollNode`]s: reference frames establish
//! new coordinate spaces, clip nodes restrict the visible area, scroll frames
//! offset their content under user input, and sticky frames track configured
//! viewport margins as their ancestors scroll. A driver walks the tree in
//! parent-before-child order, threading one [`tree::TransformUpdateState`]
//! accumulator through the walk; each node computes its world transforms,
//! its combined viewport rectangle and its link in the shared clip chain from
//! the parent's exit state.
//!
//! All geometry is carried in integer layer units with saturating arithmetic;
//! collaborators that live outside this core (the clip-source store, the GPU
//! caches, the damped-spring integrator for overscroll bounce) exchange plain
//! values with it at the function boundaries.

pub mod clip_chain;
pub mod geom;
pub mod node;
pub mod scrolling;
pub mod transform;
pub mod tree;
pub mod types;

pub use clip_chain::ClipChainArena;
pub use geom::DeviceIntRect;
pub use geom::LayerPoint;
pub use geom::LayerRect;
pub use geom::LayerSize;
pub use geom::LayerVector2D;
pub use geom::WorldPoint;
pub use node::ClipScrollNode;
pub use node::NodeType;
pub use scrolling::ScrollingState;
pub use transform::LayerTransform;
pub use tree::TransformUpdateState;
