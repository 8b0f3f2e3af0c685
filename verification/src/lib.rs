//! Immediate-mode launcher UI core: geometry and hit-testing, a per-frame
//! canvas with drawing primitives, widget helpers, the release list shared
//! between the render loop and a background fetch, and the frame scheduler's
//! input/debounce/scroll bookkeeping.

pub mod canvas;
pub mod frame;
pub mod geometry;
pub mod release;
pub mod state;

pub use canvas::{Drawing, TextCmd};
pub use frame::{FrameCtx, FrameHits, ListBody};
pub use geometry::{Color, Location2, Location4};
pub use release::{Asset, Author, Release, Root, Uploader};
pub use state::AppState;
