//! Pages served from the caches.
pub mod pages;
