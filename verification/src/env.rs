//! The configuration that a run starts from.

use vstd::prelude::*;

verus! {

/// Where the catalog and the release descriptor are fetched from, and the
/// name of the directory that fonts are installed under.
#[derive(Debug)]
pub struct EnvFont {
    pub repo_url: String,
    pub root_url: String,
    pub fonts_dir_name: String,
}

/// The whole configuration.
#[derive(Debug)]
pub struct Env {
    pub font: EnvFont,
}

/// The install directory's name where the configuration gives none.
pub fn default_fonts_dir_name() -> (name: String)
    ensures
        name@ == "$homer"@,
{
    "$homer".to_owned()
}

} // verus!
