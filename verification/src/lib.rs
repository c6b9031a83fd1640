//! Core logic of a "now playing" desktop widget: discovery of the active
//! media player on the session bus, normalization of track metadata, the
//! supervisor state machine that sequences connect/discover/poll, and the
//! shared cell that hands the current track to the presentation layer.
//!
//! The bus traffic itself, the configuration file and the window live in
//! the surrounding binary; everything that decides is here.

pub mod cell;
pub mod color;
pub mod discovery;
pub mod metadata;
pub mod supervisor;
pub mod track;

pub use cell::SharedCell;
pub use color::Rgb;
pub use color::parse_color;
pub use discovery::CandidateReport;
pub use discovery::filter_player_names;
pub use discovery::is_player_name;
pub use discovery::select_candidate;
pub use metadata::extract_track;
pub use supervisor::Directive;
pub use supervisor::Supervisor;
pub use supervisor::SupervisorAction;
pub use supervisor::SupervisorEvent;
pub use supervisor::SupervisorState;
pub use track::PlaybackStatus;
pub use track::TrackRecord;
