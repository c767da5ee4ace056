//! Entry model, cross-file comparison index and selection engine of a
//! terminal viewer for media metadata.

pub mod compare;
pub mod entry;
pub mod events;
pub mod ingest;
pub mod state;
pub mod text;
pub mod view;
pub mod visible;
