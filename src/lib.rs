//! Measurement and charting logic for comparing the insert latency of
//! several logging backends: a flat file, two relational tables and an
//! embedded database table.
//!
//! The library decides what a benchmark run does next, what text it writes
//! to each store, and how its latency series are laid out and summarised on
//! a chart. Talking to the stores and drawing the pictures is left to the
//! caller.

mod decimal;

pub use decimal::{decimal_string, iterations_from_arg, parse_usize, DEFAULT_ITERATIONS};
mod bench;

pub use bench::{
    insert_sql, log_line, setup_sql, Backend, Run, Step, EMBEDDED_DB_FILE, LOG_FILE_NAME,
    PROGRESS_INTERVAL, RELATIONAL_URL,
};
mod chart;

pub use chart::{
    average_label, comparison_chart, mean_nanos, single_chart, ChartError, ComparisonChart,
    SingleChart, AXIS_LABEL_AREA, CANVAS_HEIGHT, CANVAS_WIDTH, CAPTION_FONT_SIZE,
    RIGHT_LABEL_AREA, Y_CEILING_NANOS,
};
