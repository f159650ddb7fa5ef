//! Verified core of a mod manager: settings ordering, install planning and the
//! command flows that tie them to the file system.
pub mod text;
pub mod models;
pub mod sorting;
pub mod ordering;
pub mod paths;
pub mod command_ops;
pub mod command_logic;
pub mod command_download_ops;
pub mod install_planning;
pub mod install_orchestration;
pub mod install_command_flow;
pub mod install_finalize_flow;
pub mod install_scan;
pub mod install_archive_flow;
pub mod install_command_core;
pub mod install_rendering;
pub mod command_flow;
pub mod commands;
pub mod commands_runtime;
pub mod command_mutations;
pub mod command_info_ops;
pub mod archive;
pub mod install;
pub mod install_commands;
pub mod install_execution;
pub mod install_service;
pub mod laws;
pub mod install_laws;
pub mod info_ops;
pub mod tracking;
pub mod conflict_resolution;
