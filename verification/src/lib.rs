//! The decision core of the `irlume` command line: argument reading, command
//! routing, the versioned machine contract, the login-wiring transaction
//! machine, diagnostics and the plans behind every subcommand.

pub mod apply;
pub mod args;
pub mod bench;
pub mod calibration;
pub mod camera;
pub mod capture;
pub mod console;
pub mod contract;
pub mod daemon;
pub mod devtools;
pub mod doctor;
pub mod enroll;
pub mod events;
pub mod flags;
pub mod hardware;
pub mod ids;
pub mod image;
pub mod json;
pub mod keyring;
pub mod listing;
pub mod machine;
pub mod models;
pub mod plan;
pub mod profiles;
pub mod profiles_cmd;
pub mod protocol;
pub mod quote;
pub mod readiness;
pub mod release;
pub mod report;
pub mod rollback;
pub mod route;
pub mod setup;
pub mod status;
pub mod text;
pub mod transaction;
pub mod update;
pub mod upkeep;
pub mod version;
