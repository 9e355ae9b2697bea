//! The rules behind the OmaAsus control center, as verified functions.

pub mod apply;
pub mod apply_laws;
pub mod config;
pub mod config_laws;
pub mod control_laws;
pub mod controls;
pub mod cpu;
pub mod curve;
pub mod double;
pub mod event_laws;
pub mod events;
pub mod fan_laws;
pub mod fans;
pub mod gpu_laws;
pub mod gpus;
pub mod ids;
pub mod inventory;
pub mod levels;
pub mod lighting;
pub mod lighting_laws;
pub mod lights;
pub mod machine;
pub mod model;
pub mod number;
pub mod nvidia;
pub mod power;
pub mod profile;
pub mod report;
pub mod routes;
pub mod sensors;
pub mod seqs;
pub mod settings;
pub mod step_laws;
pub mod strmap;
pub mod summary_laws;
pub mod text;
pub mod text_laws;
