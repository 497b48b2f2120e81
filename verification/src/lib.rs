//! Boot-entry decider: the decision logic of a pre-boot program that picks
//! the next boot entry and hands control over to it.
//!
//! Everything here works on plain values. Firmware access (volumes, network
//! interfaces, variables, image loading) is left to the caller, which performs
//! the actions that the state machines of this crate ask for and reports what
//! came of them.
//!
//! - `boot`: the run as a whole, from the one-shot gate to the default loader.
//! - `chainload`: one attempt to start a loader, with the search for a
//!   partition by its GUID.
//! - `config`: the configuration and the operator's choice.
//! - `fs`: the search for a marker file on the local volumes.
//! - `tftp`: the fetch of the choice file over the network.
//! - `nixos`: the search for the newest generation among file names.
//! - `helpers`: paths, UTF-16 and the `key = value` format.
//! - `text`: white space, trimming and searching in texts.

pub mod boot;
pub mod chainload;
pub mod config;
pub mod fs;
pub mod helpers;
pub mod nixos;
pub mod text;
pub mod tftp;
