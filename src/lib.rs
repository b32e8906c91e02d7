//! Widgets for the pure rendering mode, with their configuration modelled as
//! plain values and every builder step verified.
pub mod length;
pub mod padding;
pub mod pick_list;

pub use length::Length;
pub use padding::Padding;
pub use pick_list::PickList;
