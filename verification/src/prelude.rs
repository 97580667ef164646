//! The items most hosts need, in one import.

pub use crate::chart_options::ChartOptions;
pub use crate::chart_type::ChartType;
pub use crate::error::ConfigError;
pub use crate::json::Json;
pub use crate::lifecycle::{
    ApexChartComponentMsg, LifecycleAction, LifecycleEvent, LifecycleState, RenderLifecycle,
};
pub use crate::options::{build_options, OptionsBuilder};
pub use crate::series::{ChartSeries, SeriesData};
