//! A system-information fetch pipeline: an ordered, per-field-configurable
//! metric set is resolved to probe bindings, executed against a platform
//! snapshot, formatted, and laid out for a terminal, in one of two display
//! styles.

pub mod numtext;
pub mod platform;
pub mod probe;
pub mod format;
pub mod config;
pub mod renderer;
