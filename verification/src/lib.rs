//! Verified frame logic for a browser benchmark of 2D renderers that draws
//! rectangles bouncing off the walls of a canvas.

pub mod pixel_format;
pub mod pixmap;
pub mod frame_counter;
pub mod event_plan;
pub mod canvas;
pub mod device_slots;
