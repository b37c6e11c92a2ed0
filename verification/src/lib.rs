//! Ink density recording: data model, lenient session loading, settings, the
//! HTML / SVG / spreadsheet layouts of the exported reports, and the state of
//! the data entry panel and grid.

pub mod text;
pub mod models;
pub mod session;
pub mod settings;
pub mod pantone;
pub mod report;
pub mod svg;
pub mod excel;
pub mod job_config;
pub mod illustrator;
pub mod weight_grid;
