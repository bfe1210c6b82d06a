//! Where things are kept: the archive cache and the status file below the
//! application's data directory, the installed fonts below the user's home
//! directory. A location is the list of path components below its base.

use crate::download::{archive_file_name_of, FontDownloader};
use crate::names::{lemma_texts_push, texts};
use vstd::prelude::*;

verus! {

/// The archive cache, below the data directory.
pub open spec fn cache_dir_of() -> Seq<Seq<char>> {
    seq!["fonts"@]
}

/// The status file, below the data directory.
pub open spec fn status_file_of() -> Seq<Seq<char>> {
    seq!["fonts"@, "font-status.json"@]
}

/// The archive of a font, below the data directory.
pub open spec fn archive_file_of(font_name: Seq<char>) -> Seq<Seq<char>> {
    seq!["fonts"@, archive_file_name_of(font_name)]
}

/// The directory that fonts are installed under, below the home directory.
pub open spec fn install_dir_of(fonts_dir_name: Seq<char>) -> Seq<Seq<char>> {
    seq![".local"@, "share"@, "fonts"@, fonts_dir_name]
}

/// The directory that one font is unpacked into, below the home directory.
pub open spec fn font_dir_of(fonts_dir_name: Seq<char>, font_name: Seq<char>) -> Seq<Seq<char>> {
    install_dir_of(fonts_dir_name).push(font_name)
}

/// The archive cache, below the data directory.
pub fn cache_dir() -> (parts: Vec<String>)
    ensures
        texts(parts@) == cache_dir_of(),
{
    let mut parts: Vec<String> = Vec::new();
    parts.push("fonts".to_owned());
    assert(texts(parts@) =~= cache_dir_of());
    parts
}

/// The status file, below the data directory.
pub fn status_file() -> (parts: Vec<String>)
    ensures
        texts(parts@) == status_file_of(),
{
    let mut parts = cache_dir();
    let name = "font-status.json".to_owned();
    proof {
        lemma_texts_push(parts@, name);
    }
    parts.push(name);
    assert(texts(parts@) =~= status_file_of());
    parts
}

/// The file that a font's archive is saved to, below the data directory.
pub fn archive_file(font_name: &str) -> (parts: Vec<String>)
    ensures
        texts(parts@) == archive_file_of(font_name@),
{
    let mut parts = cache_dir();
    let name = FontDownloader::archive_file_name(font_name);
    proof {
        lemma_texts_push(parts@, name);
    }
    parts.push(name);
    assert(texts(parts@) =~= archive_file_of(font_name@));
    parts
}

/// The directory that fonts are installed under, below the home directory.
pub fn install_dir(fonts_dir_name: &str) -> (parts: Vec<String>)
    ensures
        texts(parts@) == install_dir_of(fonts_dir_name@),
{
    let mut parts: Vec<String> = Vec::new();
    parts.push(".local".to_owned());
    parts.push("share".to_owned());
    parts.push("fonts".to_owned());
    parts.push(fonts_dir_name.to_owned());
    assert(texts(parts@) =~= install_dir_of(fonts_dir_name@));
    parts
}

/// The directory that one font is unpacked into, below the home directory:
/// the install directory, and in it a directory named after the font.
pub fn font_dir(fonts_dir_name: &str, font_name: &str) -> (parts: Vec<String>)
    ensures
        texts(parts@) == font_dir_of(fonts_dir_name@, font_name@),
{
    let mut parts = install_dir(fonts_dir_name);
    let name = font_name.to_owned();
    proof {
        lemma_texts_push(parts@, name);
    }
    parts.push(name);
    parts
}

} // verus!
