pub mod drag;

pub use drag::{process_drag, DragDelta};
