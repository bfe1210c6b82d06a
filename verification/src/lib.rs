//! Bookkeeping and decision logic of an incremental installer for patched
//! fonts: the catalog's entries, the record of finished work, the progress of
//! one archive transfer, and the order in which downloads and installs run.

pub mod catalog;
pub mod download;
pub mod env;
pub mod installer;
pub mod names;
pub mod paths;
pub mod status;
