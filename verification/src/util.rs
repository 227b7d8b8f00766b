//! Text and paging helpers shared by the rest of the crate.

pub mod codec;
pub mod decimal;
pub mod misc;
pub mod paging;

pub use self::misc::left_pad;
pub use self::paging::{IntCursor, Page, PageInfos, Paging};
