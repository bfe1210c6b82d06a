use homer::catalog::FontInfo;
use homer::installer::{Action, Event, Installer, Stage};
use homer::status::FontDownloadStatus;

fn font(folder: &str) -> FontInfo {
    FontInfo {
        unpatched_name: String::new(),
        license_id: String::new(),
        rfn: false,
        version: String::new(),
        patched_name: String::new(),
        folder_name: folder.to_string(),
        image_preview_font: String::new(),
        image_preview_font_source: String::new(),
        cask_name: String::new(),
        repo_release: false,
        is_monospaced: false,
        description: String::new(),
    }
}

fn names(list: &[&str]) -> Vec<String> {
    list.iter().map(|s| s.to_string()).collect()
}

fn record(downloaded: &[&str], installed: &[&str]) -> FontDownloadStatus {
    FontDownloadStatus { downloaded: names(downloaded), installed: names(installed) }
}

/// Plays a run in which every action succeeds, and returns the actions in
/// the order in which they were asked for.
fn play(run: &mut Installer, first: Action) -> Vec<Action> {
    let mut asked = vec![first];
    let mut action = first;
    let mut pending_save = false;
    for _ in 0..1000 {
        let event = match action {
            Action::Download(_) => Event::Downloaded,
            Action::Install(_) => Event::Installed,
            Action::Save => Event::Saved,
            Action::Finish | Action::Abort => return asked,
        };
        if let Action::Save = action {
            assert!(pending_save);
        }
        pending_save = !matches!(action, Action::Save);
        action = run.step(event);
        asked.push(action);
    }
    panic!("the run did not end");
}

#[test]
fn fresh_run_downloads_then_installs_both() {
    let (mut run, first) = Installer::start(vec![font("A"), font("B")], record(&[], &[]));
    let asked = play(&mut run, first);
    assert_eq!(
        asked,
        vec![
            Action::Download(0),
            Action::Save,
            Action::Download(1),
            Action::Save,
            Action::Install(0),
            Action::Save,
            Action::Install(1),
            Action::Save,
            Action::Finish,
        ]
    );
    assert_eq!(run.status().downloaded, names(&["A", "B"]));
    assert_eq!(run.status().installed, names(&["A", "B"]));
    assert_eq!(run.stage(), Stage::Done);
}

#[test]
fn downloaded_font_is_not_fetched_again() {
    let (mut run, first) = Installer::start(vec![font("A"), font("B")], record(&["A"], &[]));
    let asked = play(&mut run, first);
    assert_eq!(
        asked,
        vec![
            Action::Download(1),
            Action::Save,
            Action::Install(0),
            Action::Save,
            Action::Install(1),
            Action::Save,
            Action::Finish,
        ]
    );
    assert_eq!(run.status().downloaded, names(&["A", "B"]));
    assert_eq!(run.status().installed, names(&["A", "B"]));
}

#[test]
fn installed_font_is_not_unpacked_again() {
    let (mut run, first) =
        Installer::start(vec![font("A"), font("B")], record(&["A", "B"], &["B"]));
    let asked = play(&mut run, first);
    assert_eq!(asked, vec![Action::Install(0), Action::Save, Action::Finish]);
    assert_eq!(run.status().installed, names(&["B", "A"]));
    assert_eq!(run.status().downloaded, names(&["A", "B"]));
}

#[test]
fn finished_selection_asks_for_nothing() {
    let (run, first) =
        Installer::start(vec![font("A"), font("B")], record(&["B", "A"], &["A", "B"]));
    assert_eq!(first, Action::Finish);
    assert_eq!(run.stage(), Stage::Done);
    assert_eq!(run.status().downloaded, names(&["B", "A"]));
}

#[test]
fn empty_selection_finishes_at_once() {
    let (mut run, first) = Installer::start(Vec::new(), record(&["A"], &[]));
    assert_eq!(first, Action::Finish);
    assert_eq!(run.step(Event::Saved), Action::Finish);
    assert_eq!(run.status().downloaded, names(&["A"]));
    assert!(run.selected().is_empty());
}

#[test]
fn failed_download_aborts_before_any_install() {
    let (mut run, first) = Installer::start(vec![font("A"), font("B")], record(&[], &[]));
    assert_eq!(first, Action::Download(0));
    assert_eq!(run.stage(), Stage::Downloading(0));
    assert_eq!(run.step(Event::Failed), Action::Abort);
    assert_eq!(run.stage(), Stage::Aborted);
    assert!(run.status().downloaded.is_empty());
    assert!(run.status().installed.is_empty());
    for event in [Event::Downloaded, Event::Installed, Event::Saved, Event::Failed] {
        assert_eq!(run.step(event), Action::Abort);
    }
    assert!(run.status().downloaded.is_empty());
    assert!(run.status().installed.is_empty());
}

#[test]
fn failed_second_download_keeps_the_first() {
    let (mut run, first) = Installer::start(vec![font("A"), font("B")], record(&[], &[]));
    assert_eq!(first, Action::Download(0));
    assert_eq!(run.step(Event::Downloaded), Action::Save);
    assert_eq!(run.step(Event::Saved), Action::Download(1));
    assert_eq!(run.step(Event::Failed), Action::Abort);
    assert_eq!(run.status().downloaded, names(&["A"]));
    assert!(run.status().installed.is_empty());
}

#[test]
fn failed_save_aborts() {
    let (mut run, _) = Installer::start(vec![font("A")], record(&[], &[]));
    assert_eq!(run.step(Event::Downloaded), Action::Save);
    assert_eq!(run.stage(), Stage::SavingDownload(0));
    assert_eq!(run.step(Event::Failed), Action::Abort);
    assert_eq!(run.stage(), Stage::Aborted);
}

#[test]
fn failed_install_aborts_and_is_not_recorded() {
    let (mut run, first) = Installer::start(vec![font("A"), font("B")], record(&["A", "B"], &[]));
    assert_eq!(first, Action::Install(0));
    assert_eq!(run.step(Event::Installed), Action::Save);
    assert_eq!(run.stage(), Stage::SavingInstall(0));
    assert_eq!(run.step(Event::Saved), Action::Install(1));
    assert_eq!(run.step(Event::Failed), Action::Abort);
    assert_eq!(run.status().installed, names(&["A"]));
}

#[test]
fn unexpected_event_repeats_the_awaited_action() {
    let (mut run, first) = Installer::start(vec![font("A")], record(&[], &[]));
    assert_eq!(first, Action::Download(0));
    assert_eq!(run.step(Event::Saved), Action::Download(0));
    assert_eq!(run.step(Event::Installed), Action::Download(0));
    assert!(run.status().downloaded.is_empty());
    assert_eq!(run.step(Event::Downloaded), Action::Save);
    assert_eq!(run.step(Event::Downloaded), Action::Save);
    assert_eq!(run.status().downloaded, names(&["A"]));
    assert_eq!(run.step(Event::Saved), Action::Install(0));
    assert_eq!(run.step(Event::Downloaded), Action::Install(0));
    assert_eq!(run.step(Event::Installed), Action::Save);
    assert_eq!(run.step(Event::Installed), Action::Save);
    assert_eq!(run.step(Event::Saved), Action::Finish);
    assert_eq!(run.step(Event::Failed), Action::Finish);
    assert_eq!(run.stage(), Stage::Done);
}

#[test]
fn font_selected_twice_is_worked_once() {
    let (mut run, first) = Installer::start(vec![font("A"), font("A")], record(&[], &[]));
    let asked = play(&mut run, first);
    assert_eq!(
        asked,
        vec![Action::Download(0), Action::Save, Action::Install(0), Action::Save, Action::Finish]
    );
    assert_eq!(run.status().downloaded, names(&["A"]));
    assert_eq!(run.status().installed, names(&["A"]));
}

#[test]
fn selection_is_kept_in_order() {
    let (run, _) = Installer::start(vec![font("B"), font("A")], record(&[], &[]));
    let folders: Vec<String> = run.selected().iter().map(|f| f.folder_name.clone()).collect();
    assert_eq!(folders, names(&["B", "A"]));
}
