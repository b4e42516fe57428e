//! Version resolution and installation of DuckDB releases: the catalog of
//! published versions, the choice of the archive for a platform, the place
//! of the installed executable, and the run that takes a requested version
//! from the catalog to that place.

pub mod catalog;
pub mod error;
pub mod history;
pub mod installer;
pub mod platform;
pub mod release;
pub mod run;
pub mod target;
pub mod text;
