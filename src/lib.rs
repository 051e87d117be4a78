//! A monitoring check around one run of a command: conditions on its run
//! time, exit code and output are evaluated against warning and critical
//! ranges, folded into one worst severity, and rendered as a status report
//! with performance data.
pub mod number;
pub mod range;
pub mod matcher;
pub mod plugin;
pub mod alerts;
pub mod evaluate;
pub mod cnt_iter;
pub mod cli;
pub mod arg_parser;
pub mod usage;
