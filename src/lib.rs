//! Performance-overlay entries: per-metric records, their formatting and
//! severity rules, the bundles that group them, and the registry that decides
//! which records a display shows.

pub mod text;
pub mod entry;
pub mod registry;
pub mod bundles;
