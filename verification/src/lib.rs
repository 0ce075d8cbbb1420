//! Quality tables: classification of measured parameters against their
//! limits, grouping of records, and the layout of the paginated report.
//!
//! Measured values, limits and thresholds are carried as levels: 64-bit
//! integers whose order is the order of the quantities they stand for. The
//! library compares, counts, ranks and selects levels; it never does
//! arithmetic on them.
pub mod chart;
pub mod config;
pub mod data;
pub mod group;
pub mod limits;
pub mod numbers;
pub mod options;
pub mod pdf;
pub mod qtable;
pub mod table;
pub mod text;
