//! Typed access to the configuration a display server holds in its
//! resource-manager database: a colour palette keyed by class, a
//! dots-per-inch value, and the enumerations a font-name description uses.
//! The database is modelled as a snapshot of owned class/name/value entries;
//! lookups, palette assembly, key naming and integer parsing all carry
//! verified contracts.

pub mod colors;
pub mod x11api;
pub mod xft;

pub use crate::colors::Colors;
pub use crate::x11api::{ResourceDb, ResourceEntry, XDisplayError, get_xrm_resource, query_xrdb};
pub use crate::xft::{Rgba, Slant, Spacing, Weight, Xft};
