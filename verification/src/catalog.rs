//! The catalog of installable fonts and the current upstream release.

use crate::names::{contains_name, texts};
use vstd::prelude::*;

verus! {

/// One entry of the catalog. A font is identified by `folder_name` alone.
#[derive(Debug)]
pub struct FontInfo {
    pub unpatched_name: String,
    pub license_id: String,
    pub rfn: bool,
    pub version: String,
    pub patched_name: String,
    pub folder_name: String,
    pub image_preview_font: String,
    pub image_preview_font_source: String,
    pub cask_name: String,
    pub repo_release: bool,
    pub is_monospaced: bool,
    pub description: String,
}

impl Clone for FontInfo {
    fn clone(&self) -> (copy: Self)
        ensures
            copy == *self,
    {
        FontInfo {
            unpatched_name: self.unpatched_name.clone(),
            license_id: self.license_id.clone(),
            rfn: self.rfn,
            version: self.version.clone(),
            patched_name: self.patched_name.clone(),
            folder_name: self.folder_name.clone(),
            image_preview_font: self.image_preview_font.clone(),
            image_preview_font_source: self.image_preview_font_source.clone(),
            cask_name: self.cask_name.clone(),
            repo_release: self.repo_release,
            is_monospaced: self.is_monospaced,
            description: self.description.clone(),
        }
    }
}

/// The catalog as one fetch returned it, in the order it was given.
#[derive(Debug)]
pub struct FontRepo {
    pub fonts: Vec<FontInfo>,
}

/// The upstream release that archives are taken from.
#[derive(Debug)]
pub struct NerdFontsInfo {
    pub current_version: String,
}

/// The folder names of a list of catalog entries, in order.
pub open spec fn folder_names(fonts: Seq<FontInfo>) -> Seq<Seq<char>> {
    fonts.map_values(|font: FontInfo| font.folder_name@)
}

/// Whether a catalog entry is among the chosen folder names.
pub open spec fn chosen(selection: Seq<Seq<char>>) -> spec_fn(FontInfo) -> bool {
    |font: FontInfo| selection.contains(font.folder_name@)
}

/// From catalog entries to the names a checklist shows.
pub trait ToStringVec {
    fn to_string_vec(&self) -> Vec<String>;
}

/// From the names a checklist returned back to catalog entries.
pub trait ToFontInfoVec {
    fn to_font_info_vec(&self, font_infos: &Vec<FontInfo>) -> Vec<FontInfo>;
}

impl ToStringVec for Vec<FontInfo> {
    /// The folder name of every entry, in catalog order.
    fn to_string_vec(&self) -> (names: Vec<String>)
        ensures
            texts(names@) == folder_names(self@),
    {
        let mut names: Vec<String> = Vec::new();
        let mut i: usize = 0;
        while i < self.len()
            invariant
                i <= self.len(),
                names@.len() == i,
                texts(names@) == folder_names(self@.take(i as int)),
            decreases self.len() - i,
        {
            let ghost before = names@;
            names.push(self[i].folder_name.clone());
            assert(texts(names@) =~= folder_names(self@.take(i + 1))) by {
                assert(texts(before) == folder_names(self@.take(i as int)));
                assert forall|k: int| 0 <= k < i + 1 implies texts(names@)[k] == folder_names(
                    self@.take(i + 1),
                )[k] by {
                    if k < i {
                        assert(names@[k] == before[k]);
                        assert(texts(names@)[k] == texts(before)[k]);
                        assert(folder_names(self@.take(i as int))[k] == self@[k].folder_name@);
                    }
                }
            }
            i = i + 1;
        }
        assert(self@.take(i as int) =~= self@);
        names
    }
}

impl ToFontInfoVec for Vec<String> {
    /// The catalog entries whose folder name is among these names, in catalog
    /// order. A name that no entry carries selects nothing.
    fn to_font_info_vec(&self, font_infos: &Vec<FontInfo>) -> (picked: Vec<FontInfo>)
        ensures
            picked@ == font_infos@.filter(chosen(texts(self@))),
    {
        let ghost wanted = chosen(texts(self@));
        let mut picked: Vec<FontInfo> = Vec::new();
        let mut i: usize = 0;
        proof {
            reveal(Seq::filter);
            assert(font_infos@.take(0).filter(wanted) =~= Seq::<FontInfo>::empty());
        }
        while i < font_infos.len()
            invariant
                i <= font_infos.len(),
                wanted == chosen(texts(self@)),
                picked@ == font_infos@.take(i as int).filter(wanted),
            decreases font_infos.len() - i,
        {
            proof {
                reveal(Seq::filter);
                assert(font_infos@.take(i + 1).drop_last() =~= font_infos@.take(i as int));
                assert(font_infos@.take(i + 1).last() == font_infos@[i as int]);
            }
            if contains_name(self, font_infos[i].folder_name.as_str()) {
                picked.push(font_infos[i].clone());
            }
            i = i + 1;
        }
        assert(font_infos@.take(i as int) =~= font_infos@);
        picked
    }
}

/// The places in `fonts` of the entries whose folder name is in `marked`, in
/// rising order: the entries a checklist shows as already chosen.
pub fn marked_indices(fonts: &Vec<FontInfo>, marked: &Vec<String>) -> (places: Vec<usize>)
    ensures
        forall|a: int, b: int| 0 <= a < b < places@.len() ==> places@[a] < places@[b],
        forall|k: int|
            0 <= k < fonts@.len() ==> (places@.contains(k as usize) <==> texts(marked@).contains(
                #[trigger] fonts@[k].folder_name@,
            )),
        forall|a: int| 0 <= a < places@.len() ==> (#[trigger] places@[a]) < fonts@.len(),
{
    let mut places: Vec<usize> = Vec::new();
    let mut i: usize = 0;
    while i < fonts.len()
        invariant
            i <= fonts.len(),
            forall|a: int, b: int| 0 <= a < b < places@.len() ==> places@[a] < places@[b],
            forall|a: int| 0 <= a < places@.len() ==> (#[trigger] places@[a]) < i,
            forall|k: int|
                0 <= k < i ==> (places@.contains(k as usize) <==> texts(marked@).contains(
                    #[trigger] fonts@[k].folder_name@,
                )),
        decreases fonts.len() - i,
    {
        let ghost before = places@;
        if contains_name(marked, fonts[i].folder_name.as_str()) {
            places.push(i);
            assert(places@[before.len() as int] == i);
            assert forall|k: int| 0 <= k < i + 1 implies (places@.contains(k as usize)
                <==> texts(marked@).contains(#[trigger] fonts@[k].folder_name@)) by {
                if k < i {
                    if before.contains(k as usize) {
                        let a = choose|a: int| 0 <= a < before.len() && before[a] == k as usize;
                        assert(places@[a] == k as usize);
                    }
                    if places@.contains(k as usize) {
                        let a = choose|a: int| 0 <= a < places@.len() && places@[a] == k as usize;
                        assert(a < before.len());
                        assert(before[a] == k as usize);
                    }
                }
            }
        } else {
            assert forall|k: int| 0 <= k < i + 1 implies (places@.contains(k as usize)
                <==> texts(marked@).contains(#[trigger] fonts@[k].folder_name@)) by {
                if k == i && places@.contains(k as usize) {
                    let a = choose|a: int| 0 <= a < places@.len() && places@[a] == k as usize;
                    assert(places@[a] < i);
                }
            }
        }
        i = i + 1;
    }
    places
}

impl FontRepo {
    /// No two entries of the catalog share a folder name.
    pub open spec fn wf(&self) -> bool {
        folder_names(self.fonts@).no_duplicates()
    }
}

/// The selection holds exactly the catalog's entries whose folder name was
/// chosen: nothing else comes in, and none of them is left out.
pub proof fn law_selection_is_exact(fonts: Seq<FontInfo>, selection: Seq<Seq<char>>, font: FontInfo)
    ensures
        fonts.filter(chosen(selection)).contains(font) <==> fonts.contains(font)
            && selection.contains(font.folder_name@),
{
    let picked = fonts.filter(chosen(selection));
    if picked.contains(font) {
        let i = choose|i: int| 0 <= i < picked.len() && picked[i] == font;
        fonts.lemma_filter_pred(chosen(selection), i);
        fonts.lemma_filter_contains_rev(chosen(selection), font);
    }
    if fonts.contains(font) && selection.contains(font.folder_name@) {
        let i = choose|i: int| 0 <= i < fonts.len() && fonts[i] == font;
        fonts.lemma_filter_contains(chosen(selection), i);
    }
}

/// Where no two entries of the catalog share a folder name, no two entries
/// of a selection do.
pub proof fn law_selection_keeps_names_distinct(fonts: Seq<FontInfo>, selection: Seq<Seq<char>>)
    requires
        folder_names(fonts).no_duplicates(),
    ensures
        folder_names(fonts.filter(chosen(selection))).no_duplicates(),
    decreases fonts.len(),
{
    reveal(Seq::filter);
    if fonts.len() > 0 {
        let front = fonts.drop_last();
        let last = fonts.last();
        let kept = front.filter(chosen(selection));
        assert forall|i: int, j: int|
            0 <= i < front.len() && 0 <= j < front.len() && i != j implies folder_names(front)[i]
            != folder_names(front)[j] by {
            assert(folder_names(fonts)[i] == front[i].folder_name@);
            assert(folder_names(fonts)[j] == front[j].folder_name@);
        }
        law_selection_keeps_names_distinct(front, selection);
        if chosen(selection)(last) {
            let picked = kept.push(last);
            assert forall|i: int, j: int|
                0 <= i < picked.len() && 0 <= j < picked.len() && i != j implies folder_names(
                picked,
            )[i] != folder_names(picked)[j] by {
                if i < kept.len() && j < kept.len() {
                    assert(folder_names(kept)[i] == picked[i].folder_name@);
                    assert(folder_names(kept)[j] == picked[j].folder_name@);
                } else {
                    let older = if i < kept.len() {
                        i
                    } else {
                        j
                    };
                    assert(kept.contains(kept[older]));
                    front.lemma_filter_contains_rev(chosen(selection), kept[older]);
                    let k = choose|k: int| 0 <= k < front.len() && front[k] == kept[older];
                    assert(folder_names(fonts)[k] == kept[older].folder_name@);
                    assert(folder_names(fonts)[fonts.len() - 1] == last.folder_name@);
                }
            }
        }
    }
}

} // verus!
