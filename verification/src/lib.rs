//! Download planning for the image catalogues of the Arknights fan wiki.
//!
//! A category of images (a [`Target`]) has a catalogue page, a rule that picks
//! the image elements on that page, and a directory for the files. This crate
//! holds every decision between "these categories were asked for" and "fetch
//! this address and store it under that name"; the caller performs the
//! network and file-system work and reports how it went.

pub mod args;
pub mod error;
pub mod filename;
pub mod page;
pub mod plan;
pub mod resolve;
pub mod rule;
pub mod run;
pub mod target;
pub mod text;

pub use args::Args;
pub use error::DownloadError;
pub use filename::{file_extension, sanitize_filename};
pub use page::{ImageElement, ImageElementView, Page};
pub use plan::resolve_all;
pub use resolve::{resolve_url, ImageCandidate, ResolvedDownload, BASE_URL};
pub use rule::SelectionRule;
pub use run::{run, Action, Failure, Outcome, Run, Stage};
pub use target::{Target, TargetConfig, TargetConfigView};
