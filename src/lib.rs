//! Integer core of a progressive path tracer: the pixel grid; the schedule
//! that decides which scanline receives the next sample, with what weight it
//! is averaged in, and when accumulation starts over; the layout of the RGB
//! pixel buffer; the choice of the nearest hit among the objects a ray meets;
//! and the plan of recursive traces that shading a hit calls for, which
//! always terminates.

pub mod accumulation;
pub mod canvas;
pub mod layout;
pub mod nearest;
pub mod shading;

pub use canvas::Canvas;
pub use accumulation::{Accumulation, FrameTask, LineTask};
pub use layout::{buffer_len, is_renderable, pixel_offset};
pub use nearest::nearest_hit;
pub use shading::{plan, Finish, Plan, Recurse, Scatter, SurfaceKind};
