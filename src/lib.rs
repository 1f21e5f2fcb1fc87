//! Reports how recently tracked projects were last commented on, from the
//! documents a project-tracking service returns, and classifies each project
//! as updated or outdated against a freshness threshold in days.
pub mod batch;
pub mod json;
pub mod project;
pub mod text;
pub mod timestamp;
pub mod vault;
