//! A four-entry battle menu (Shop, Fight, Run, Item): the selection state
//! machine, the button layout and the per-frame list of draw commands,
//! together with a greedy word-wrapping helper.

pub mod selection;
pub mod layout;
pub mod render;
pub mod text;
