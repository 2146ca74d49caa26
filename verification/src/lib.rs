//! The core of an updater that replaces the files of an installed application, can
//! be taken up again after the process died, and puts everything back when it fails.
//!
//! The library does no input or output. An [`runner::Updater`] says which
//! [`action::Action`] it needs next; whoever drives it carries the action out and
//! hands back a [`action::Reply`]. What the update does to the files is stated over
//! a model of the disk, [`disk::Disk`], and proved in the modules whose names end
//! in `_laws` and in [`recovery`].

pub mod action;
pub mod copying;
pub mod copying_laws;
pub mod disk;
pub mod flags;
pub mod manifest;
pub mod paths;
pub mod plan;
pub mod recovery;
pub mod rollback;
pub mod rollback_laws;
pub mod runner;
pub mod staging;
pub mod staging_laws;
pub mod state;
pub mod update_laws;
