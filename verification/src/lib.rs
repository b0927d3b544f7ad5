//! A verified core for YAML-driven browser testing and interactive browser sessions.

pub mod action;
pub mod address;
pub mod assertions;
pub mod bundle;
pub mod codec;
pub mod diagnostics;
pub mod dialog;
pub mod envelope;
pub mod flow;
pub mod flow_run;
pub mod flow_run_laws;
pub mod frames;
pub mod gesture;
pub mod guards;
pub mod http;
pub mod interaction;
pub mod interactive;
pub mod journal;
pub mod json;
pub mod locate;
pub mod navigation;
pub mod number;
pub mod outputs;
pub mod overlay;
pub mod paths;
pub mod recorder;
pub mod replay;
pub mod report;
pub mod request;
pub mod run_report;
pub mod runtime;
pub mod secrets;
pub mod session;
pub mod session_laws;
pub mod snapshot;
pub mod snapshot_json;
pub mod step_error;
pub mod step_work;
pub mod text;
pub mod text_map;
pub mod values;
pub mod video;
pub mod visual;
pub mod wire;
