//! Deployment logic of wire, a tool to deploy NixOS systems: the line
//! buffering of command output, the progress status of nodes, the decisions
//! taken while a command runs in a pseudo terminal, the planning of the steps
//! that apply a goal to a node, and the command lines that those steps run.

pub mod activate;
pub mod agent;
pub mod build_step;
pub mod cli;
pub mod commands;
pub mod evaluate;
pub mod hive;
pub mod interactive;
pub mod keys;
pub mod log_format;
pub mod logbuffer;
pub mod matcher;
pub mod node;
pub mod nix_eval;
pub mod nix_log;
pub mod nix_output;
pub mod persistent;
pub mod push;
pub mod pty;
pub mod status;
pub mod steps;
pub mod text;
pub mod watch;
