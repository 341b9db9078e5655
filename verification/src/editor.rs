//! The decisions the editor takes around the open file and project: what the
//! window titles say, whether closing needs a confirmation, where a save goes
//! and what it records, and which folder becomes the open project.

use vstd::prelude::*;
use vstd::string::StringSliceAdditionalSpecFns;
use vstd::utf8::encode_utf8;
use crate::paths::path_parent;
use crate::digest::keccak512_digest;
use crate::state::{ActiveFile, ActiveMetadata, ProjectMetadata};

verus! {

/// The abstract value of the open file, if there is one.
pub open spec fn file_model(file: Option<ActiveMetadata>) -> Option<ActiveFile> {
    match file {
        Some(f) => Some(f@),
        None => None,
    }
}

/// The directory of the open project, if there is one.
pub open spec fn project_model(project: Option<ProjectMetadata>) -> Option<Seq<char>> {
    match project {
        Some(p) => Some(p@),
        None => None,
    }
}

// ---------------------------------------------------------------- opening

/// The folder the "open file" dialog starts in: that of the open file.
pub open spec fn dialog_folder(file: Option<ActiveFile>) -> Option<Seq<char>> {
    match file {
        Some(f) => path_parent(f.path),
        None => None,
    }
}

/// The folder to start the "open file" dialog in, if any.
pub fn open_dialog_folder(current_file: &Option<ActiveMetadata>) -> (folder: Option<String>)
    ensures
        folder.deep_view() == dialog_folder(file_model(*current_file)),
{
    match current_file {
        Some(f) => f.get_dir(),
        None => None,
    }
}

// ---------------------------------------------------------------- closing

/// Whether the editor holds changes that were not saved. With no text in the
/// editor there are none; with an open file, the text differs from what was
/// last loaded or saved; with no open file, any text at all is unsaved.
pub open spec fn unsaved_changes(text: Option<Seq<char>>, file: Option<ActiveFile>) -> bool {
    match text {
        None => false,
        Some(t) => match file {
            Some(f) => !f.matches(encode_utf8(t)),
            None => t.len() > 0,
        },
    }
}

/// Whether closing the file should first ask about unsaved changes, given the
/// editor's text (if it could be read) and the open file.
pub fn has_unsaved_changes(text: Option<&str>, current_file: &Option<ActiveMetadata>) -> (unsaved: bool)
    ensures
        unsaved == unsaved_changes(text.deep_view(), file_model(*current_file)),
{
    match text {
        None => false,
        Some(t) => match current_file {
            Some(f) => !f.is_same_as(t.as_bytes()),
            None => !t.is_empty(),
        },
    }
}

// ---------------------------------------------------------------- titles

/// The window title when no file is open.
pub open spec fn app_title() -> Seq<char> {
    "Rozsda IDE"@
}

/// The window title: the open file's path (or the application's name), a
/// star when the text differs from the file, and the open project's path.
pub open spec fn window_title(file: Option<ActiveFile>, project: Option<Seq<char>>, same_sum: bool) -> Seq<char> {
    let named = match file {
        Some(f) => f.path,
        None => app_title(),
    };
    let marked = if same_sum {
        named
    } else {
        named + "*"@
    };
    match project {
        Some(p) => marked + " - "@ + p,
        None => marked,
    }
}

/// The titles can be shown: an open file has a directory to name.
pub open spec fn titles_defined(file: Option<ActiveFile>) -> bool {
    match file {
        Some(f) => path_parent(f.path) is Some,
        None => true,
    }
}

/// The window subtitle: the directory of the open file, or nothing.
pub open spec fn window_subtitle(file: Option<ActiveFile>) -> Seq<char> {
    match file {
        Some(f) => path_parent(f.path)->Some_0,
        None => Seq::empty(),
    }
}

/// The window's title and subtitle, where `same_sum` tells whether the
/// editor's text is what the open file holds.
pub fn window_titles(
    current_file: &Option<ActiveMetadata>,
    current_project: &Option<ProjectMetadata>,
    same_sum: bool,
) -> (titles: (String, String))
    requires
        titles_defined(file_model(*current_file)),
    ensures
        titles.0@ == window_title(file_model(*current_file), project_model(*current_project), same_sum),
        titles.1@ == window_subtitle(file_model(*current_file)),
{
    let (mut title, subtitle) = match current_file {
        Some(f) => {
            let dir = match f.get_dir() {
                Some(d) => d,
                None => String::new(),
            };
            (f.get_path().to_owned(), dir)
        },
        None => ("Rozsda IDE".to_owned(), String::new()),
    };
    if !same_sum {
        title.append("*");
    }
    match current_project {
        Some(p) => {
            title.append(" - ");
            title.append(p.get_path());
        },
        None => {},
    }
    (title, subtitle)
}

/// The window's title and subtitle as [`window_titles`] gives them, or `None`
/// when the open file's path has no directory to show.
pub fn try_window_titles(
    current_file: &Option<ActiveMetadata>,
    current_project: &Option<ProjectMetadata>,
    same_sum: bool,
) -> (titles: Option<(String, String)>)
    ensures
        titles is Some <==> titles_defined(file_model(*current_file)),
        titles matches Some(t) ==> {
            &&& t.0@ == window_title(file_model(*current_file), project_model(*current_project), same_sum)
            &&& t.1@ == window_subtitle(file_model(*current_file))
        },
{
    match current_file {
        Some(f) => {
            if f.get_dir().is_none() {
                return None;
            }
        },
        None => {},
    }
    Some(window_titles(current_file, current_project, same_sum))
}

// ---------------------------------------------------------------- editing

/// What the window updates after the editor's text changed.
pub struct EditorRefresh {
    /// Whether the save menu item becomes active; left alone when no file is open.
    pub save_sensitive: Option<bool>,
    /// The `same_sum` flags to refresh the titles with, in order.
    pub title_updates: Vec<bool>,
}

/// Whether the save item is offered after the text became `text`: with an
/// open file, exactly when the text differs from it; otherwise left alone.
pub open spec fn save_offer(file: Option<ActiveFile>, text: Seq<char>) -> Option<bool> {
    match file {
        Some(f) => Some(!f.matches(encode_utf8(text))),
        None => None,
    }
}

/// The `same_sum` flags the titles are refreshed with after the text became
/// `text`: whether it matches the open file (when one is open), then whether
/// the editor is empty.
pub open spec fn title_refreshes(file: Option<ActiveFile>, text: Seq<char>) -> Seq<bool> {
    match file {
        Some(f) => seq![f.matches(encode_utf8(text)), text.len() == 0],
        None => seq![text.len() == 0],
    }
}

/// The refresh after the text became `text`: with an open file, saving is
/// offered exactly when the text differs from the file, and the titles are
/// refreshed with that; then, in any case, the titles are refreshed as
/// unchanged exactly when the editor is empty.
pub fn editor_changed(current_file: &Option<ActiveMetadata>, text: &str) -> (refresh: EditorRefresh)
    ensures
        refresh.save_sensitive == save_offer(file_model(*current_file), text@),
        refresh.title_updates@ == title_refreshes(file_model(*current_file), text@),
{
    let mut title_updates: Vec<bool> = Vec::new();
    let save_sensitive = match current_file {
        Some(f) => {
            let same = f.is_same_as(text.as_bytes());
            title_updates.push(same);
            Some(!same)
        },
        None => None,
    };
    title_updates.push(text.is_empty());
    EditorRefresh { save_sensitive, title_updates }
}

// ---------------------------------------------------------------- saving

/// What came of writing the editor's text to disk.
pub enum SaveAction {
    /// The text went to a newly chosen file, described by the metadata.
    New(ActiveMetadata),
    /// The text went to the open file.
    Saved,
    /// No file was chosen.
    Canceled,
}

/// Where a save writes: over the open file, unless the user asked to save
/// under another name or no file is open (then a dialog asks).
pub open spec fn save_destination(file: Option<ActiveFile>, save_as: bool) -> Option<Seq<char>> {
    if save_as {
        None
    } else {
        match file {
            Some(f) => Some(f.path),
            None => None,
        }
    }
}

/// The path to write to, or `None` to ask for one.
pub fn save_target(current_file: &Option<ActiveMetadata>, save_as: bool) -> (target: Option<String>)
    ensures
        target.deep_view() == save_destination(file_model(*current_file), save_as),
{
    if save_as {
        None
    } else {
        match current_file {
            Some(f) => Some(f.get_path().to_owned()),
            None => None,
        }
    }
}

/// The open file after a save of `data` came to `action`: a new file
/// replaces it, a save over it records the new contents, a cancelled save
/// changes nothing.
pub open spec fn file_after_save(file: Option<ActiveFile>, action: SaveAction, data: Seq<u8>) -> Option<ActiveFile> {
    match action {
        SaveAction::New(m) => Some(m@),
        SaveAction::Saved => match file {
            Some(f) => Some(f.resummed(data)),
            None => None,
        },
        SaveAction::Canceled => file,
    }
}

/// The save was recorded on an open file (and the save item goes inactive).
pub open spec fn save_recorded(file: Option<ActiveFile>, action: SaveAction) -> bool {
    match action {
        SaveAction::New(_) => true,
        SaveAction::Saved => file is Some,
        SaveAction::Canceled => false,
    }
}

/// Records the outcome of saving `data`, and tells whether it was recorded
/// (the save item then goes inactive).
pub fn apply_save_action(current_file: &mut Option<ActiveMetadata>, action: SaveAction, data: &[u8]) -> (recorded: bool)
    ensures
        file_model(*final(current_file)) == file_after_save(file_model(*old(current_file)), action, data@),
        recorded == save_recorded(file_model(*old(current_file)), action),
{
    match action {
        SaveAction::New(file) => {
            *current_file = Some(file);
            true
        },
        SaveAction::Saved => {
            match current_file {
                Some(f) => {
                    f.set_sum(data);
                    true
                },
                None => false,
            }
        },
        SaveAction::Canceled => false,
    }
}

// ---------------------------------------------------------------- projects

/// What came of choosing a folder to open as a project.
#[derive(Clone, Copy, Debug, PartialEq, Eq, Structural)]
pub enum ProjectChoice {
    /// The folder holds a `Cargo.toml` and is now the open project.
    Opened,
    /// The folder holds no `Cargo.toml`; the user is told it is not a crate.
    NotACrate,
    /// The choice is not a folder and is ignored.
    Ignored,
}

/// The outcome of choosing `folder`: it is opened when it is a directory
/// holding a manifest.
pub open spec fn project_choice(is_dir: bool, has_manifest: bool) -> ProjectChoice {
    if !is_dir {
        ProjectChoice::Ignored
    } else if has_manifest {
        ProjectChoice::Opened
    } else {
        ProjectChoice::NotACrate
    }
}

/// The open project after choosing `folder`: the folder when it is opened,
/// the project open before otherwise.
pub open spec fn project_after_choice(
    project: Option<Seq<char>>,
    folder: Seq<char>,
    is_dir: bool,
    has_manifest: bool,
) -> Option<Seq<char>> {
    if project_choice(is_dir, has_manifest) == ProjectChoice::Opened {
        Some(folder)
    } else {
        project
    }
}

/// Opens `folder` as the project when it is a directory holding a
/// `Cargo.toml`; otherwise the open project stays as it was.
pub fn choose_project_folder(
    current_project: &mut Option<ProjectMetadata>,
    folder: String,
    is_dir: bool,
    has_manifest: bool,
) -> (choice: ProjectChoice)
    ensures
        choice == project_choice(is_dir, has_manifest),
        project_model(*final(current_project))
            == project_after_choice(project_model(*old(current_project)), folder@, is_dir, has_manifest),
{
    if !is_dir {
        ProjectChoice::Ignored
    } else if has_manifest {
        *current_project = Some(ProjectMetadata::new(folder));
        ProjectChoice::Opened
    } else {
        ProjectChoice::NotACrate
    }
}

/// The open project after `cargo init` ran in `folder`: the folder when the
/// command succeeded, the project open before otherwise.
pub open spec fn project_after_init(project: Option<Seq<char>>, folder: Seq<char>, init_succeeded: bool) -> Option<Seq<char>> {
    if init_succeeded {
        Some(folder)
    } else {
        project
    }
}

/// Records a project that `cargo init` was run for in `folder`: it becomes
/// the open project when the command ran; otherwise nothing changes and the
/// user is told of the failure (the result is `false`).
pub fn record_created_project(
    current_project: &mut Option<ProjectMetadata>,
    folder: String,
    init_succeeded: bool,
) -> (created: bool)
    ensures
        created == init_succeeded,
        project_model(*final(current_project))
            == project_after_init(project_model(*old(current_project)), folder@, init_succeeded),
{
    if init_succeeded {
        *current_project = Some(ProjectMetadata::new(folder));
    }
    init_succeeded
}

// ---------------------------------------------------------------- laws

/// A file just opened holds no unsaved changes: its metadata recognises the
/// text it was loaded with.
pub proof fn law_opened_file_has_no_unsaved_changes(path: Seq<char>, text: Seq<char>)
    ensures
        !unsaved_changes(Some(text), Some(ActiveFile::loaded(path, encode_utf8(text)))),
{
}

/// Right after a save is recorded, the text that was saved holds no unsaved
/// changes, whether it went over the open file or to a new one whose
/// metadata was taken from the same text.
pub proof fn law_no_unsaved_changes_after_save(file: Option<ActiveFile>, action: SaveAction, text: Seq<char>)
    requires
        save_recorded(file, action),
        action matches SaveAction::New(m) ==> m@ == ActiveFile::loaded(m@.path, encode_utf8(text)),
    ensures
        !unsaved_changes(Some(text), file_after_save(file, action, encode_utf8(text))),
{
}

/// A save that was not recorded leaves the open file as it was.
pub proof fn law_unrecorded_save_changes_nothing(file: Option<ActiveFile>, action: SaveAction, data: Seq<u8>)
    requires
        !save_recorded(file, action),
    ensures
        file_after_save(file, action, data) == file,
{
}

/// With no file open, only an empty editor is free of unsaved changes.
pub proof fn law_closed_file_unsaved_iff_text(text: Seq<char>)
    ensures
        unsaved_changes(Some(text), None) <==> text.len() > 0,
{
}

/// A save to a newly chosen file always makes that file the open one and is
/// recorded, whatever was open before, nothing included.
pub proof fn law_save_to_new_file_opens_it(file: Option<ActiveFile>, m: ActiveMetadata, data: Seq<u8>)
    ensures
        file_after_save(file, SaveAction::New(m), data) == Some(m@),
        save_recorded(file, SaveAction::New(m)),
{
}

/// A save over the open file keeps its path, takes the fingerprint of the
/// saved bytes, and is recorded; with no file open it changes nothing and is
/// not recorded. A cancelled save is never recorded and changes nothing.
pub proof fn law_save_over_open_file(file: Option<ActiveFile>, data: Seq<u8>)
    ensures
        file matches Some(f) ==> {
            &&& file_after_save(file, SaveAction::Saved, data) matches Some(g)
            &&& g.path == f.path
            &&& g.sum == keccak512_digest(data)
            &&& save_recorded(file, SaveAction::Saved)
        },
        file is None ==> file_after_save(file, SaveAction::Saved, data) is None
            && !save_recorded(file, SaveAction::Saved),
        file_after_save(file, SaveAction::Canceled, data) == file,
        !save_recorded(file, SaveAction::Canceled),
{
}

/// With a file open and the editor's text at hand, the text is unsaved
/// exactly when the Keccak-512 digest of its UTF-8 bytes differs from the
/// recorded fingerprint, for texts of every length; with no text at hand
/// nothing is unsaved.
pub proof fn law_unsaved_iff_digest_differs(f: ActiveFile, text: Seq<char>, file: Option<ActiveFile>)
    ensures
        unsaved_changes(Some(text), Some(f)) <==> keccak512_digest(encode_utf8(text)) != f.sum,
        !unsaved_changes(None, file),
{
}

/// Without unsaved changes the title is the open file's path, or the
/// application's name; with them the same title gets a star; an open project
/// adds " - " and its path after that, the star not depending on it.
pub proof fn law_title_star_and_project(file: Option<ActiveFile>, project: Seq<char>)
    ensures
        window_title(file, None, true) == (match file {
            Some(f) => f.path,
            None => "Rozsda IDE"@,
        }),
        window_title(file, None, false) == window_title(file, None, true) + "*"@,
        window_title(file, Some(project), true) == window_title(file, None, true) + " - "@ + project,
        window_title(file, Some(project), false) == window_title(file, None, false) + " - "@ + project,
{
}

/// The subtitle names the open file's directory, and is empty when no file
/// is open; the titles can be shown exactly when an open file has a
/// directory.
pub proof fn law_subtitle_is_file_directory(file: Option<ActiveFile>)
    ensures
        file matches Some(f) ==> (path_parent(f.path) matches Some(d) ==> window_subtitle(file) == d),
        file is None ==> window_subtitle(file).len() == 0,
        titles_defined(file) <==> (file matches Some(f) ==> path_parent(f.path) is Some),
{
}

/// The "open file" dialog starts in the open file's directory, and in no
/// particular folder when no file is open.
pub proof fn law_dialog_starts_in_file_directory(file: Option<ActiveFile>)
    ensures
        file matches Some(f) ==> dialog_folder(file) == path_parent(f.path),
        file is None ==> dialog_folder(file) is None,
{
}

/// "Save as" always asks for a place; a plain save goes over the open file,
/// and asks only when no file is open.
pub proof fn law_save_destination(file: Option<ActiveFile>)
    ensures
        save_destination(file, true) is None,
        file matches Some(f) ==> save_destination(file, false) == Some(f.path),
        file is None ==> save_destination(file, false) is None,
{
}

/// After an edit with a file open, saving is offered exactly when the text's
/// digest differs from the file's fingerprint; with no file open the save
/// item is left alone. The titles are refreshed last as unchanged exactly
/// when the editor is empty, and before that, with a file open, as unchanged
/// exactly when the digests agree.
pub proof fn law_edit_refresh(f: ActiveFile, text: Seq<char>, file: Option<ActiveFile>)
    ensures
        save_offer(Some(f), text) == Some(keccak512_digest(encode_utf8(text)) != f.sum),
        save_offer(None, text) is None,
        title_refreshes(file, text).len() == (if file is Some { 2int } else { 1int }),
        title_refreshes(file, text).last() == (text.len() == 0),
        title_refreshes(Some(f), text)[0] == (keccak512_digest(encode_utf8(text)) == f.sum),
{
}

/// A folder is opened as the project only when it is a directory holding a
/// manifest; a directory without one is reported as not a crate; anything
/// else is ignored.
pub proof fn law_project_choice(is_dir: bool, has_manifest: bool)
    ensures
        (project_choice(is_dir, has_manifest) == ProjectChoice::Opened) <==> (is_dir && has_manifest),
        (project_choice(is_dir, has_manifest) == ProjectChoice::NotACrate) <==> (is_dir && !has_manifest),
        (project_choice(is_dir, has_manifest) == ProjectChoice::Ignored) <==> !is_dir,
{
}

/// Choosing a folder opens it exactly when it is a directory holding a
/// manifest, and otherwise keeps the project that was open; a successful
/// `cargo init` opens its folder, a failed one keeps the project that was
/// open.
pub proof fn law_project_after_events(project: Option<Seq<char>>, folder: Seq<char>, is_dir: bool, has_manifest: bool, ok: bool)
    ensures
        is_dir && has_manifest ==> project_after_choice(project, folder, is_dir, has_manifest) == Some(folder),
        !(is_dir && has_manifest) ==> project_after_choice(project, folder, is_dir, has_manifest) == project,
        ok ==> project_after_init(project, folder, ok) == Some(folder),
        !ok ==> project_after_init(project, folder, ok) == project,
{
}

/// The abstract open file and project are those of the metadata held, and
/// nothing when none is held.
pub proof fn law_models_follow_metadata(file: ActiveMetadata, project: ProjectMetadata)
    ensures
        file_model(Some(file)) == Some(file@),
        file_model(None) is None,
        project_model(Some(project)) == Some(project@),
        project_model(None) is None,
{
}

} // verus!
