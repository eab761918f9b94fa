//! Verified core of the clipboard manager's hover preview: window sizing,
//! text trimming, GDI+ pixel and geometry helpers, and the decisions that the
//! Win32 glue in `app/` carries out.

pub mod geometry;
pub mod item;
pub mod strings;
pub mod text_preview;
pub mod file_preview;
pub mod window_size;
pub mod preview_window;
pub mod main_view;
pub mod gdiplus;
