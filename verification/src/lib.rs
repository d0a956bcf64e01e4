//! A host-monitoring core: snapshot records for each hardware and OS
//! category, probe boundaries that degrade to defaults instead of failing,
//! and a bounded split/resize pane layout that binds each pane to one
//! category and one owned snapshot.
pub mod layout;
pub mod probe;
pub mod snapshot;
pub mod text;
pub mod view;
