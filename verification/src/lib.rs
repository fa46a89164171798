//! A verified core for a resume-builder application.
//!
//! The crate models a resume document (personal information, education,
//! experience, skills, projects and a presentation theme), the use-case layer
//! that mutates it under index-bounds checks, a persistence port with an
//! ephemeral and a durable adapter, and the view-state adapter that holds the
//! live document for a session.  The durable adapter persists documents in a
//! field-named text format whose parser is proved to invert the renderer, so
//! a saved document always loads back equal to what was saved.

pub mod codec;
pub mod durable;
pub mod errors;
pub mod format;
pub mod models;
pub mod repository;
pub mod sample;
pub mod use_cases;
pub mod view_model;
