//! Decisions of a Chrome native-messaging runtime host.
#![allow(unused_imports)]

pub mod admission;
pub mod admission_laws;
pub mod assets;
pub mod config;
pub mod connection;
pub mod connection_laws;
pub mod decode;
pub mod encode;
pub mod endpoint;
pub mod error;
pub mod fields;
pub mod file_laws;
pub mod files;
pub mod json;
pub mod json_text;
pub mod laws;
pub mod manager;
pub mod manifest;
pub mod manifest_laws;
pub mod params;
pub mod paths;
pub mod process;
pub mod proxy_laws;
pub mod proxying;
pub mod refusal_laws;
pub mod request_laws;
pub mod requests;
pub mod root_laws;
pub mod roots;
pub mod selection;
pub mod selection_laws;
pub mod server_laws;
pub mod serving;
pub mod step_laws;
pub mod steps;
pub mod table;
pub mod text;
pub mod told_laws;
pub mod value_laws;
