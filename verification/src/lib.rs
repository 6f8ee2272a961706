//! Storage marshaling and export core of the NoteSponge note-taking application.
//!
//! The crate turns rows read from the database into portable records, binds
//! loosely typed parameters to SQL statements, names the files of an export and
//! decides, step by step, what an export does next. It performs no I/O itself:
//! the shell around it runs the statements and writes the files.
//!
//! - [`value`], [`record`]: one cell and one row, as they travel.
//! - [`marshal`], [`params`], [`query`]: from the rows that the driver read to
//!   records, from parameters to bound arguments, and what a statement gives.
//! - [`filename`], [`export`], [`session`], [`course`]: the files of an export,
//!   the session that decides its steps, and what holds of its whole course.
//! - [`encoding`], [`decimal`], [`strings`]: base64, decimal numbers and text.
//! - [`db`], [`menu`]: connection setup, and the menu as it follows the editor.

pub mod course;
pub mod db;
pub mod decimal;
pub mod encoding;
pub mod export;
pub mod filename;
pub mod marshal;
pub mod menu;
pub mod params;
pub mod query;
pub mod record;
pub mod session;
pub mod strings;
pub mod value;
