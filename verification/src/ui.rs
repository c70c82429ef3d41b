//! Choosing among platforms, devices and other items.
pub mod selection;

pub use selection::{
    chosen_index, finish_platform_selection, resolve_platform, select_device, select_item,
    select_platform, PlatformChoice, PLATFORM_PROMPT,
};
