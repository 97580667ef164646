//! Typed chart descriptions and the configuration documents built from them.
//!
//! A host view describes a chart with a [`chart_type::ChartType`], a list of
//! [`series::ChartSeries`] and optional raw JSON options. [`options`] combines
//! them into one configuration document for the charting engine, and
//! [`lifecycle`] decides when that document is created, rendered, updated and
//! released. [`chart_options`] holds raw options on their own.
//!
//! Documents are [`json::Json`] trees. [`codec`] reads and prints them with
//! `serde_json`, whose parser and printer are the only code here that is
//! taken on trust.

pub mod chart_options;
pub mod chart_type;
pub mod codec;
pub mod error;
pub mod json;
pub mod lifecycle;
pub mod options;
pub mod prelude;
pub mod series;
