//! Grade resolution for classroom assignments: picks the graded CI run of each
//! student repository, scores the declared tests from the run's step outcomes,
//! refines the total from the job log, and blends on-time and late results.

pub mod batch;
pub mod config;
pub mod content;
pub mod export;
pub mod fetcher;
pub mod late;
pub mod models;
pub mod paging;
pub mod parser;
pub mod paths;
pub mod resolver;
pub mod scoring;
pub mod selector;
pub mod source;
pub mod stats;
pub mod table;
pub mod text;
pub mod time;
pub mod ui;
