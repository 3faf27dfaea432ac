//! The backend of a desktop control panel for a Hyprland system on Arch
//! Linux. At its core is the package operation engine: it chooses how an
//! install, removal, update or system update runs (piped, under an escalation
//! prefix, or in a terminal for an AUR helper) and turns the process's events
//! into a stream of progress records with a single final record. Around it are
//! the readers of the system tools' output (packages, networks, Bluetooth,
//! themes, fonts). Processes are run by the caller; everything here is a
//! function of the values it is handed.


pub mod commands;
pub mod engine;
pub mod font;
pub mod fonts;
pub mod network;
pub mod ordering;
pub mod packages;
pub mod records;
pub mod scan;
pub mod strategy;
pub mod terminal;
pub mod theme;
pub mod text;

