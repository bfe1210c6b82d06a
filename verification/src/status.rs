//! The record of which fonts have been downloaded and which installed.

use crate::names::{
    contains_name, lemma_present_occurs_once, lemma_with_name_keeps,
    lemma_with_name_keeps_distinct, occurrences, texts, with_name,
};
use vstd::prelude::*;

verus! {

/// The fonts whose archive has been saved and those whose archive has been
/// unpacked, each by folder name.
///
/// Both lists stand for sets: the order carries no meaning, and the marking
/// operations never add a name that is already present.
#[derive(Debug)]
pub struct FontDownloadStatus {
    pub downloaded: Vec<String>,
    pub installed: Vec<String>,
}

impl FontDownloadStatus {
    /// The folder names recorded as downloaded.
    pub open spec fn downloaded_names(&self) -> Seq<Seq<char>> {
        texts(self.downloaded@)
    }

    /// The folder names recorded as installed.
    pub open spec fn installed_names(&self) -> Seq<Seq<char>> {
        texts(self.installed@)
    }

    /// Neither list names a font twice.
    pub open spec fn wf(&self) -> bool {
        self.downloaded_names().no_duplicates() && self.installed_names().no_duplicates()
    }

    /// The record of a first run: nothing downloaded, nothing installed.
    pub fn new() -> (record: Self)
        ensures
            record.downloaded_names() == Seq::<Seq<char>>::empty(),
            record.installed_names() == Seq::<Seq<char>>::empty(),
            record.wf(),
    {
        let record = FontDownloadStatus { downloaded: Vec::new(), installed: Vec::new() };
        assert(record.downloaded_names() =~= Seq::<Seq<char>>::empty());
        assert(record.installed_names() =~= Seq::<Seq<char>>::empty());
        record
    }

    /// The record to start a run from: what was stored, or the empty record
    /// where nothing has been stored yet.
    pub fn load(stored: Option<FontDownloadStatus>) -> (record: Self)
        ensures
            stored is Some ==> record == stored->0,
            stored is None ==> record.downloaded_names() == Seq::<Seq<char>>::empty()
                && record.installed_names() == Seq::<Seq<char>>::empty(),
    {
        match stored {
            Some(record) => record,
            None => FontDownloadStatus::new(),
        }
    }

    /// Records `font` as downloaded, unless it already is.
    pub fn set_completed(&mut self, font: &str)
        ensures
            final(self).downloaded_names() == with_name(old(self).downloaded_names(), font@),
            final(self).installed == old(self).installed,
            final(self).downloaded_names().contains(font@),
            old(self).wf() ==> final(self).wf(),
    {
        let ghost before = self.downloaded_names();
        if !contains_name(&self.downloaded, font) {
            self.downloaded.push(font.to_owned());
            assert(self.downloaded_names() =~= before.push(font@));
            assert(self.downloaded_names()[before.len() as int] == font@);
        }
        proof {
            if before.no_duplicates() {
                lemma_with_name_keeps_distinct(before, font@);
            }
        }
    }

    /// Records `font` as installed, unless it already is.
    pub fn set_installed(&mut self, font: &str)
        ensures
            final(self).installed_names() == with_name(old(self).installed_names(), font@),
            final(self).downloaded == old(self).downloaded,
            final(self).installed_names().contains(font@),
            old(self).wf() ==> final(self).wf(),
    {
        let ghost before = self.installed_names();
        if !contains_name(&self.installed, font) {
            self.installed.push(font.to_owned());
            assert(self.installed_names() =~= before.push(font@));
            assert(self.installed_names()[before.len() as int] == font@);
        }
        proof {
            if before.no_duplicates() {
                lemma_with_name_keeps_distinct(before, font@);
            }
        }
    }
}

/// Marking is idempotent: a second marking with the same name changes
/// nothing.
pub proof fn law_marking_twice_changes_nothing(list: Seq<Seq<char>>, name: Seq<char>)
    ensures
        with_name(with_name(list, name), name) == with_name(list, name),
{
    lemma_with_name_keeps(list, name, name);
}

/// After a name has been marked, once or twice, a list without repetition
/// holds it exactly once, and is still without repetition.
pub proof fn law_marked_name_occurs_once(list: Seq<Seq<char>>, name: Seq<char>)
    requires
        list.no_duplicates(),
    ensures
        occurrences(with_name(list, name), name) == 1,
        occurrences(with_name(with_name(list, name), name), name) == 1,
        with_name(with_name(list, name), name).no_duplicates(),
{
    law_marking_twice_changes_nothing(list, name);
    lemma_with_name_keeps_distinct(list, name);
    lemma_present_occurs_once(with_name(list, name), name);
}

} // verus!
