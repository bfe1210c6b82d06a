//! The order of a run: every pending download first, then every pending
//! install, with the status record saved after each finished unit of work.
//!
//! The run is a state machine. It names the next thing to be done outside
//! (fetch an archive, unpack one, save the record), and is told how that went.

use crate::catalog::{folder_names, FontInfo};
use crate::names::{
    contains_name, lemma_with_name_keeps, lemma_with_name_keeps_distinct, texts, with_name,
};
use crate::status::FontDownloadStatus;
use vstd::prelude::*;

verus! {

/// Where a run stands. The number is a place in the selection.
#[derive(Debug, Clone, Copy, PartialEq, Eq, Structural)]
pub enum Stage {
    /// The archive of this font is being fetched.
    Downloading(usize),
    /// This font has been recorded as downloaded; the record is being saved.
    SavingDownload(usize),
    /// The archive of this font is being unpacked.
    Installing(usize),
    /// This font has been recorded as installed; the record is being saved.
    SavingInstall(usize),
    /// Every selected font is downloaded and installed.
    Done,
    /// Something failed; nothing more is done.
    Aborted,
}

/// What the outside has to do next.
#[derive(Debug, Clone, Copy, PartialEq, Eq, Structural)]
pub enum Action {
    /// Fetch the archive of the selected font at this place.
    Download(usize),
    /// Unpack the archive of the selected font at this place.
    Install(usize),
    /// Write the status record out.
    Save,
    /// End the run with success.
    Finish,
    /// End the run with failure.
    Abort,
}

/// How the last action went.
#[derive(Debug, Clone, Copy, PartialEq, Eq, Structural)]
pub enum Event {
    /// The archive was fetched and saved.
    Downloaded,
    /// The archive was unpacked.
    Installed,
    /// The status record was written out.
    Saved,
    /// The action failed.
    Failed,
}

/// A run as mathematics: the selected folder names in order, the two lists
/// of the status record, and the stage.
pub struct RunModel {
    pub selected: Seq<Seq<char>>,
    pub downloaded: Seq<Seq<char>>,
    pub installed: Seq<Seq<char>>,
    pub stage: Stage,
}

/// The first place at or after `from` whose name is not in `done`, or the
/// length of `selected` where there is none.
pub open spec fn first_pending(selected: Seq<Seq<char>>, done: Seq<Seq<char>>, from: nat) -> nat
    decreases selected.len() - from,
{
    if from >= selected.len() {
        selected.len()
    } else if !done.contains(selected[from as int]) {
        from
    } else {
        first_pending(selected, done, from + 1)
    }
}

/// The install pass, looked through from `from` on: the next font to unpack,
/// or the end of the run.
pub open spec fn continue_installs(m: RunModel, from: nat) -> (RunModel, Action) {
    let at = first_pending(m.selected, m.installed, from);
    if at < m.selected.len() {
        (RunModel { stage: Stage::Installing(at as usize), ..m }, Action::Install(at as usize))
    } else {
        (RunModel { stage: Stage::Done, ..m }, Action::Finish)
    }
}

/// The download pass, looked through from `from` on: the next font to fetch,
/// or, when none is left, the start of the install pass.
pub open spec fn continue_downloads(m: RunModel, from: nat) -> (RunModel, Action) {
    let at = first_pending(m.selected, m.downloaded, from);
    if at < m.selected.len() {
        (RunModel { stage: Stage::Downloading(at as usize), ..m }, Action::Download(at as usize))
    } else {
        continue_installs(m, 0)
    }
}

/// The action that a stage waits for.
pub open spec fn awaited(stage: Stage) -> Action {
    match stage {
        Stage::Downloading(i) => Action::Download(i),
        Stage::Installing(i) => Action::Install(i),
        Stage::SavingDownload(_) => Action::Save,
        Stage::SavingInstall(_) => Action::Save,
        Stage::Done => Action::Finish,
        Stage::Aborted => Action::Abort,
    }
}

/// Whether a run has ended.
pub open spec fn ended(stage: Stage) -> bool {
    stage == Stage::Done || stage == Stage::Aborted
}

/// A run's first state and action.
pub open spec fn begin(
    selected: Seq<Seq<char>>,
    downloaded: Seq<Seq<char>>,
    installed: Seq<Seq<char>>,
) -> (RunModel, Action) {
    continue_downloads(RunModel { selected, downloaded, installed, stage: Stage::Done }, 0)
}

/// The state after `event`, and the action to take then.
///
/// A failure ends a run that has not ended. The success that the stage waits
/// for moves the run on. Any other event changes nothing, and the awaited
/// action is named again.
pub open spec fn step(m: RunModel, event: Event) -> (RunModel, Action) {
    match (m.stage, event) {
        (Stage::Done, _) => (m, Action::Finish),
        (Stage::Aborted, _) => (m, Action::Abort),
        (_, Event::Failed) => (RunModel { stage: Stage::Aborted, ..m }, Action::Abort),
        (Stage::Downloading(i), Event::Downloaded) => (
            RunModel {
                downloaded: with_name(m.downloaded, m.selected[i as int]),
                stage: Stage::SavingDownload(i),
                ..m
            },
            Action::Save,
        ),
        (Stage::SavingDownload(i), Event::Saved) => continue_downloads(m, (i + 1) as nat),
        (Stage::Installing(i), Event::Installed) => (
            RunModel {
                installed: with_name(m.installed, m.selected[i as int]),
                stage: Stage::SavingInstall(i),
                ..m
            },
            Action::Save,
        ),
        (Stage::SavingInstall(i), Event::Saved) => continue_installs(m, (i + 1) as nat),
        _ => (m, awaited(m.stage)),
    }
}

/// Every name of `selected` before `end` is in `done`.
pub open spec fn all_done(selected: Seq<Seq<char>>, done: Seq<Seq<char>>, end: int) -> bool {
    forall|k: int| 0 <= k < end && k < selected.len() ==> done.contains(#[trigger] selected[k])
}

/// What holds of every state that a run reaches.
///
/// A font that is being fetched is not yet recorded as downloaded, and one
/// that is being unpacked is not yet recorded as installed. The install pass
/// begins only when every selected font is recorded as downloaded.
pub open spec fn consistent(m: RunModel) -> bool {
    &&& m.selected.len() <= usize::MAX
    &&& match m.stage {
        Stage::Downloading(i) => {
            &&& i < m.selected.len()
            &&& !m.downloaded.contains(m.selected[i as int])
            &&& all_done(m.selected, m.downloaded, i as int)
        },
        Stage::SavingDownload(i) => {
            &&& i < m.selected.len()
            &&& all_done(m.selected, m.downloaded, i + 1)
        },
        Stage::Installing(i) => {
            &&& i < m.selected.len()
            &&& !m.installed.contains(m.selected[i as int])
            &&& all_done(m.selected, m.downloaded, m.selected.len() as int)
            &&& all_done(m.selected, m.installed, i as int)
        },
        Stage::SavingInstall(i) => {
            &&& i < m.selected.len()
            &&& all_done(m.selected, m.downloaded, m.selected.len() as int)
            &&& all_done(m.selected, m.installed, i + 1)
        },
        Stage::Done => {
            &&& all_done(m.selected, m.downloaded, m.selected.len() as int)
            &&& all_done(m.selected, m.installed, m.selected.len() as int)
        },
        Stage::Aborted => true,
    }
}

/// `first_pending` finds a place whose name is not done, and passes over
/// done names only.
pub proof fn lemma_first_pending(selected: Seq<Seq<char>>, done: Seq<Seq<char>>, from: nat)
    ensures
        from <= selected.len() ==> from <= first_pending(selected, done, from),
        first_pending(selected, done, from) <= selected.len() || from > selected.len(),
        first_pending(selected, done, from) < selected.len() ==> !done.contains(
            selected[first_pending(selected, done, from) as int],
        ),
        forall|k: int|
            from <= k < first_pending(selected, done, from) && k < selected.len() ==> done.contains(
                #[trigger] selected[k],
            ),
    decreases selected.len() - from,
{
    if from < selected.len() && done.contains(selected[from as int]) {
        lemma_first_pending(selected, done, from + 1);
    }
}

/// Looking through the install pass from a place before which everything is
/// installed, with everything downloaded, gives a consistent state.
pub proof fn lemma_continue_installs(m: RunModel, from: nat)
    requires
        from <= m.selected.len() <= usize::MAX,
        all_done(m.selected, m.downloaded, m.selected.len() as int),
        all_done(m.selected, m.installed, from as int),
    ensures
        consistent(continue_installs(m, from).0),
{
    lemma_first_pending(m.selected, m.installed, from);
}

/// Looking through the download pass from a place before which everything
/// is downloaded gives a consistent state.
pub proof fn lemma_continue_downloads(m: RunModel, from: nat)
    requires
        from <= m.selected.len() <= usize::MAX,
        all_done(m.selected, m.downloaded, from as int),
    ensures
        consistent(continue_downloads(m, from).0),
{
    lemma_first_pending(m.selected, m.downloaded, from);
    if first_pending(m.selected, m.downloaded, from) >= m.selected.len() {
        lemma_continue_installs(m, 0);
    }
}

/// A run starts in a consistent state, whatever the selection and the record.
pub proof fn law_begin_is_consistent(
    selected: Seq<Seq<char>>,
    downloaded: Seq<Seq<char>>,
    installed: Seq<Seq<char>>,
)
    requires
        selected.len() <= usize::MAX,
    ensures
        consistent(begin(selected, downloaded, installed).0),
        begin(selected, downloaded, installed).0.selected == selected,
        begin(selected, downloaded, installed).0.downloaded == downloaded,
        begin(selected, downloaded, installed).0.installed == installed,
{
    lemma_continue_downloads(RunModel { selected, downloaded, installed, stage: Stage::Done }, 0);
}

/// Every step leads from a consistent state to a consistent state, keeps
/// the selection, and takes no name out of the record.
pub proof fn law_step_keeps_consistency(m: RunModel, event: Event)
    requires
        consistent(m),
    ensures
        consistent(step(m, event).0),
        step(m, event).0.selected == m.selected,
        forall|name: Seq<char>| #[trigger]
            m.downloaded.contains(name) ==> step(m, event).0.downloaded.contains(name),
        forall|name: Seq<char>| #[trigger]
            m.installed.contains(name) ==> step(m, event).0.installed.contains(name),
{
    let next = step(m, event).0;
    assert forall|name: Seq<char>| #[trigger] m.downloaded.contains(name) implies next.downloaded.contains(
        name,
    ) by {
        match (m.stage, event) {
            (Stage::Downloading(i), Event::Downloaded) => {
                lemma_with_name_keeps(m.downloaded, m.selected[i as int], name);
            },
            _ => {},
        }
    }
    assert forall|name: Seq<char>| #[trigger] m.installed.contains(name) implies next.installed.contains(
        name,
    ) by {
        match (m.stage, event) {
            (Stage::Installing(i), Event::Installed) => {
                lemma_with_name_keeps(m.installed, m.selected[i as int], name);
            },
            _ => {},
        }
    }
    match (m.stage, event) {
        (Stage::Downloading(i), Event::Downloaded) => {
            lemma_with_name_keeps(m.downloaded, m.selected[i as int], m.selected[i as int]);
            assert(all_done(next.selected, next.downloaded, i + 1));
        },
        (Stage::SavingDownload(i), Event::Saved) => {
            lemma_continue_downloads(m, (i + 1) as nat);
        },
        (Stage::Installing(i), Event::Installed) => {
            lemma_with_name_keeps(m.installed, m.selected[i as int], m.selected[i as int]);
            assert(all_done(next.selected, next.installed, i + 1));
        },
        (Stage::SavingInstall(i), Event::Saved) => {
            lemma_continue_installs(m, (i + 1) as nat);
        },
        _ => {},
    }
}

/// No archive is fetched twice: whenever a step asks for a download, the
/// font it names is selected and not recorded as downloaded.
pub proof fn law_download_only_when_missing(m: RunModel, event: Event, place: usize)
    requires
        consistent(m),
        step(m, event).1 == Action::Download(place),
    ensures
        place < m.selected.len(),
        !m.downloaded.contains(m.selected[place as int]),
        !step(m, event).0.downloaded.contains(m.selected[place as int]),
{
    law_step_keeps_consistency(m, event);
}

/// No archive is unpacked twice: whenever a step asks for an install, the
/// font it names is selected and not recorded as installed, and every
/// selected font is recorded as downloaded.
pub proof fn law_install_only_when_missing(m: RunModel, event: Event, place: usize)
    requires
        consistent(m),
        step(m, event).1 == Action::Install(place),
    ensures
        place < m.selected.len(),
        !m.installed.contains(m.selected[place as int]),
        !step(m, event).0.installed.contains(m.selected[place as int]),
        all_done(m.selected, m.downloaded, m.selected.len() as int),
{
    law_step_keeps_consistency(m, event);
}

/// The first action of a run obeys the same rule: a font that the record
/// shows as downloaded is not fetched, and one that it shows as installed is
/// not unpacked.
pub proof fn law_first_action_skips_finished(
    selected: Seq<Seq<char>>,
    downloaded: Seq<Seq<char>>,
    installed: Seq<Seq<char>>,
    place: usize,
)
    requires
        selected.len() <= usize::MAX,
    ensures
        begin(selected, downloaded, installed).1 == Action::Download(place) ==> place
            < selected.len() && !downloaded.contains(selected[place as int]),
        begin(selected, downloaded, installed).1 == Action::Install(place) ==> place
            < selected.len() && !installed.contains(selected[place as int]) && all_done(
            selected,
            downloaded,
            selected.len() as int,
        ),
{
    law_begin_is_consistent(selected, downloaded, installed);
}

/// A failure ends the run where it stands: the record is left as it was, so
/// the font at work is not recorded, and from then on every step answers
/// with `Abort`.
pub proof fn law_failure_ends_the_run(m: RunModel, later: Event)
    requires
        !ended(m.stage),
    ensures
        step(m, Event::Failed).1 == Action::Abort,
        step(m, Event::Failed).0 == (RunModel { stage: Stage::Aborted, ..m }),
        step(step(m, Event::Failed).0, later) == (step(m, Event::Failed).0, Action::Abort),
{
}

/// When a run is done, every selected font is recorded as downloaded and as
/// installed.
pub proof fn law_done_means_all_installed(m: RunModel, place: int)
    requires
        consistent(m),
        m.stage == Stage::Done,
        0 <= place < m.selected.len(),
    ensures
        m.downloaded.contains(m.selected[place]),
        m.installed.contains(m.selected[place]),
{
}

/// A record that names no font twice still names none twice after a step.
pub proof fn law_step_keeps_record_distinct(m: RunModel, event: Event)
    ensures
        m.downloaded.no_duplicates() ==> step(m, event).0.downloaded.no_duplicates(),
        m.installed.no_duplicates() ==> step(m, event).0.installed.no_duplicates(),
{
    match (m.stage, event) {
        (Stage::Downloading(i), Event::Downloaded) => {
            if m.downloaded.no_duplicates() {
                lemma_with_name_keeps_distinct(m.downloaded, m.selected[i as int]);
            }
        },
        (Stage::Installing(i), Event::Installed) => {
            if m.installed.no_duplicates() {
                lemma_with_name_keeps_distinct(m.installed, m.selected[i as int]);
            }
        },
        _ => {},
    }
}

/// A run: the selected fonts, the status record, and the stage.
#[derive(Debug)]
pub struct Installer {
    selected: Vec<FontInfo>,
    status: FontDownloadStatus,
    stage: Stage,
}

impl View for Installer {
    type V = RunModel;

    closed spec fn view(&self) -> RunModel {
        RunModel {
            selected: folder_names(self.selected@),
            downloaded: self.status.downloaded_names(),
            installed: self.status.installed_names(),
            stage: self.stage,
        }
    }
}

/// The first place at or after `from` whose font is not named in `done`.
fn find_pending(selected: &Vec<FontInfo>, done: &Vec<String>, from: usize) -> (at: usize)
    requires
        from <= selected.len(),
    ensures
        at == first_pending(folder_names(selected@), texts(done@), from as nat),
        from <= at <= selected.len(),
{
    let mut i: usize = from;
    while i < selected.len()
        invariant
            from <= i <= selected.len(),
            first_pending(folder_names(selected@), texts(done@), i as nat) == first_pending(
                folder_names(selected@),
                texts(done@),
                from as nat,
            ),
        decreases selected.len() - i,
    {
        if !contains_name(done, selected[i].folder_name.as_str()) {
            return i;
        }
        i = i + 1;
    }
    i
}

impl Installer {
    /// The state is one that a run reaches.
    pub open spec fn wf(&self) -> bool {
        consistent(self@)
    }

    /// The selected catalog entries. Their folder names are the selection
    /// of the view.
    pub closed spec fn fonts(&self) -> Seq<FontInfo> {
        self.selected@
    }

    /// Begins a run over `selected`, resuming from `status`. The action is
    /// the first thing to do.
    pub fn start(selected: Vec<FontInfo>, status: FontDownloadStatus) -> (run: (Installer, Action))
        ensures
            (run.0@, run.1) == begin(
                folder_names(selected@),
                status.downloaded_names(),
                status.installed_names(),
            ),
            run.0.fonts() == selected@,
            run.0.wf(),
    {
        proof {
            assert(folder_names(selected@).len() == selected.len());
            law_begin_is_consistent(
                folder_names(selected@),
                status.downloaded_names(),
                status.installed_names(),
            );
        }
        let mut run = Installer { selected, status, stage: Stage::Done };
        let action = run.resume_downloads(0);
        (run, action)
    }

    /// Looks through the download pass from `from` on.
    fn resume_downloads(&mut self, from: usize) -> (action: Action)
        requires
            from <= old(self).selected@.len(),
        ensures
            (final(self)@, action) == continue_downloads(old(self)@, from as nat),
            final(self).fonts() == old(self).fonts(),
    {
        let at = find_pending(&self.selected, &self.status.downloaded, from);
        if at < self.selected.len() {
            self.stage = Stage::Downloading(at);
            Action::Download(at)
        } else {
            self.resume_installs(0)
        }
    }

    /// Looks through the install pass from `from` on.
    fn resume_installs(&mut self, from: usize) -> (action: Action)
        requires
            from <= old(self).selected@.len(),
        ensures
            (final(self)@, action) == continue_installs(old(self)@, from as nat),
            final(self).fonts() == old(self).fonts(),
    {
        let at = find_pending(&self.selected, &self.status.installed, from);
        if at < self.selected.len() {
            self.stage = Stage::Installing(at);
            Action::Install(at)
        } else {
            self.stage = Stage::Done;
            Action::Finish
        }
    }

    /// Takes in how the last action went, and names the next one.
    ///
    /// After a download the font is recorded as downloaded, after an install
    /// as installed, and the record is to be saved before anything else is
    /// done. A failure of any action ends the run.
    pub fn step(&mut self, event: Event) -> (action: Action)
        requires
            old(self).wf(),
        ensures
            (final(self)@, action) == step(old(self)@, event),
            final(self).fonts() == old(self).fonts(),
            final(self).wf(),
    {
        proof {
            law_step_keeps_consistency(self@, event);
            assert(self@.selected.len() == self.selected@.len());
        }
        match self.stage {
            Stage::Done => Action::Finish,
            Stage::Aborted => Action::Abort,
            Stage::Downloading(i) => match event {
                Event::Failed => self.abort(),
                Event::Downloaded => {
                    self.status.set_completed(self.selected[i].folder_name.as_str());
                    self.stage = Stage::SavingDownload(i);
                    Action::Save
                },
                _ => Action::Download(i),
            },
            Stage::SavingDownload(i) => match event {
                Event::Failed => self.abort(),
                Event::Saved => self.resume_downloads(i + 1),
                _ => Action::Save,
            },
            Stage::Installing(i) => match event {
                Event::Failed => self.abort(),
                Event::Installed => {
                    self.status.set_installed(self.selected[i].folder_name.as_str());
                    self.stage = Stage::SavingInstall(i);
                    Action::Save
                },
                _ => Action::Install(i),
            },
            Stage::SavingInstall(i) => match event {
                Event::Failed => self.abort(),
                Event::Saved => self.resume_installs(i + 1),
                _ => Action::Save,
            },
        }
    }

    /// Ends the run with failure.
    fn abort(&mut self) -> (action: Action)
        ensures
            final(self)@ == (RunModel { stage: Stage::Aborted, ..old(self)@ }),
            final(self).fonts() == old(self).fonts(),
            action == Action::Abort,
    {
        self.stage = Stage::Aborted;
        Action::Abort
    }

    /// The selected fonts, in the order in which they are worked through.
    pub fn selected(&self) -> (fonts: &Vec<FontInfo>)
        ensures
            fonts@ == self.fonts(),
            folder_names(fonts@) == self@.selected,
    {
        &self.selected
    }

    /// The status record as it stands.
    pub fn status(&self) -> (record: &FontDownloadStatus)
        ensures
            record.downloaded_names() == self@.downloaded,
            record.installed_names() == self@.installed,
    {
        &self.status
    }

    /// Where the run stands.
    pub fn stage(&self) -> (stage: Stage)
        ensures
            stage == self@.stage,
    {
        self.stage
    }
}

} // verus!
