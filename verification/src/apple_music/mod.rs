//! The per-track resource objects of the catalog API, as plain data.

pub mod song;
