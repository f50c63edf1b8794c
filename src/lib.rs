//! Core of an on-demand antivirus daemon: engine lifecycle, priority task
//! scheduling, the two-stage scan pipeline, scan bookkeeping and the
//! quarantine vault, each as a verified state machine driven by its host.
pub mod types;
pub mod binding;
pub mod platform;
pub mod text;
pub mod engine;
pub mod worker;
pub mod service;
pub mod config;
pub mod manager;
pub mod env;
pub mod quarantine;
pub mod signatures;
pub mod mounts;
pub mod models;
pub mod update;
pub mod clamscan;
