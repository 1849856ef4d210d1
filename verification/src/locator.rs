//! Finding the interpreter that runs hotkey scripts, or getting hold of it.
//!
//! The search is a fixed chain without retries: the well-known places first;
//! then a copy already installed under the managed directory; then the
//! installer, downloaded and run silently; and when that fails for whatever
//! reason, a copy found on the executable search path. Only the end of the
//! chain reports a failure, and that one failure lists every place that was
//! looked at and everything that went wrong on the way.

use crate::protocol::{text_result, RemoveOutcome, RemoveOutcomeView};
use crate::text::{
    bullet_list, chain, concat2, concat3, contains_text, join_with, joined_with,
    lemma_bullet_list_holds_item, lemma_contains_in_context, lemma_joined_holds_item,
    render_bullet_list, split, split_on,
};
use vstd::prelude::*;

verus! {

/// The file name of the interpreter.
pub const EXECUTABLE_NAME: &'static str = "AutoHotkey64.exe";

/// Where the installer is downloaded from.
pub const INSTALLER_URL: &'static str = "https://www.autohotkey.com/download/ahk-v2.exe";

/// What separates the directories of a path.
pub const PATH_SEPARATOR: char = '\\';

/// What separates the entries of the executable search path.
pub const SEARCH_PATH_SEPARATOR: char = ';';

/// `name` inside the directory `base`: the two joined by the separator,
/// unless `base` is empty or already ends with one.
pub open spec fn joined(base: Seq<char>, name: Seq<char>) -> Seq<char> {
    if base.len() == 0 {
        name
    } else if base.last() == PATH_SEPARATOR || base.last() == '/' {
        base + name
    } else {
        base.push(PATH_SEPARATOR) + name
    }
}

/// The path of `name` inside the directory `base`.
pub fn join_path(base: &str, name: &str) -> (path: String)
    ensures
        path@ == joined(base@, name@),
{
    let n = base.unicode_len();
    if n == 0 {
        return name.to_string();
    }
    let last = base.get_char(n - 1);
    let mut path = base.to_string();
    if !(last == PATH_SEPARATOR || last == '/') {
        proof {
            reveal_strlit("\\");
        }
        path.append("\\");
    }
    path.append(name);
    path
}

/// The managed directory into which the interpreter is installed.
pub open spec fn install_dir_of(resource_dir: Seq<char>) -> Seq<char> {
    joined(joined(resource_dir, "AutoHotkey"@), "v2"@)
}

/// The well-known places, in the order in which they are tried.
pub open spec fn candidates_of(resource_dir: Seq<char>) -> Seq<Seq<char>> {
    seq![
        joined(install_dir_of(resource_dir), EXECUTABLE_NAME@),
        joined(joined(joined(joined(resource_dir, "resources"@), "AutoHotkey"@), "v2"@), EXECUTABLE_NAME@),
        "C:\\Program Files\\AutoHotkey\\v2\\AutoHotkey64.exe"@,
        "C:\\Program Files (x86)\\AutoHotkey\\v2\\AutoHotkey64.exe"@,
    ]
}

/// Where to look and where to install.
#[derive(Debug, PartialEq, Eq)]
pub struct Layout {
    /// The well-known places, in the order in which they are tried.
    pub candidates: Vec<String>,
    /// The managed directory into which the interpreter is installed.
    pub install_dir: String,
}

/// `Layout` as the contracts see it.
pub struct LayoutView {
    pub candidates: Seq<Seq<char>>,
    pub install_dir: Seq<char>,
}

impl View for Layout {
    type V = LayoutView;

    open spec fn view(&self) -> LayoutView {
        LayoutView { candidates: self.candidates.deep_view(), install_dir: self.install_dir@ }
    }
}

impl LayoutView {
    /// Where the installed interpreter is expected.
    pub open spec fn target(self) -> Seq<char> {
        joined(self.install_dir, EXECUTABLE_NAME@)
    }
}

/// The layout below the application's resource directory.
pub open spec fn layout_of(resource_dir: Seq<char>) -> LayoutView {
    LayoutView {
        candidates: candidates_of(resource_dir),
        install_dir: install_dir_of(resource_dir),
    }
}

impl Layout {
    /// The layout below the application's resource directory.
    pub fn new(resource_dir: &str) -> (layout: Layout)
        ensures
            layout@ == layout_of(resource_dir@),
    {
        let managed = join_path(resource_dir, "AutoHotkey");
        let install_dir = join_path(managed.as_str(), "v2");
        let bundled = join_path(resource_dir, "resources");
        let bundled = join_path(bundled.as_str(), "AutoHotkey");
        let bundled = join_path(bundled.as_str(), "v2");
        let mut candidates: Vec<String> = Vec::new();
        candidates.push(join_path(install_dir.as_str(), EXECUTABLE_NAME));
        candidates.push(join_path(bundled.as_str(), EXECUTABLE_NAME));
        candidates.push("C:\\Program Files\\AutoHotkey\\v2\\AutoHotkey64.exe".to_string());
        candidates.push("C:\\Program Files (x86)\\AutoHotkey\\v2\\AutoHotkey64.exe".to_string());
        assert(candidates.deep_view() =~= candidates_of(resource_dir@));
        Layout { candidates, install_dir }
    }

    /// Where the installed interpreter is expected.
    pub fn target(&self) -> (path: String)
        ensures
            path@ == self@.target(),
    {
        join_path(self.install_dir.as_str(), EXECUTABLE_NAME)
    }
}

/// What was seen at one well-known place.
#[derive(Debug, Clone, PartialEq, Eq)]
pub struct CandidateProbe {
    /// The place.
    pub path: String,
    /// Whether the interpreter is there.
    pub exists: bool,
}

/// `CandidateProbe` as the contracts see it.
pub struct CandidateProbeView {
    pub path: Seq<char>,
    pub exists: bool,
}

impl DeepView for CandidateProbe {
    type V = CandidateProbeView;

    open spec fn deep_view(&self) -> CandidateProbeView {
        CandidateProbeView { path: self.path@, exists: self.exists }
    }
}

/// The status line of an HTTP response.
#[derive(Debug, PartialEq, Eq)]
pub struct HttpStatus {
    /// The status code.
    pub code: u16,
    /// The status as it is shown, code and reason.
    pub line: String,
}

/// How saving the downloaded installer went.
#[derive(Debug, PartialEq, Eq)]
pub enum SaveOutcome {
    /// The whole body is in the file.
    Saved,
    /// The body could not be read.
    ReadFailed(String),
    /// The file could not be created.
    CreateFailed(String),
    /// The file could not be written.
    WriteFailed(String),
}

/// How the installer ended.
#[derive(Debug, PartialEq, Eq)]
pub struct InstallerExit {
    /// Whether its exit status tells success.
    pub success: bool,
    /// What it wrote to its error stream.
    pub stderr: String,
}

/// What the host reports after carrying out a locator's action.
#[derive(Debug, PartialEq, Eq)]
pub enum LocatorEvent {
    /// Answer to [`LocatorAction::Probe`]: whether the file exists.
    Probed(bool),
    /// Answer to [`LocatorAction::CreateDirAll`].
    DirReady(Result<(), String>),
    /// Answer to [`LocatorAction::CreateTempFile`]: the file's path.
    TempFileCreated(Result<String, String>),
    /// Answer to [`LocatorAction::Fetch`]: the status of the response.
    Fetched(Result<HttpStatus, String>),
    /// Answer to [`LocatorAction::SaveBody`].
    BodySaved(SaveOutcome),
    /// Answer to [`LocatorAction::RunInstaller`].
    InstallerExited(Result<InstallerExit, String>),
    /// Answer to [`LocatorAction::ListSubdirs`]: the paths of the subdirectories.
    Listed(Result<Vec<String>, String>),
    /// Answer to [`LocatorAction::Copy`].
    Copied(Result<(), String>),
    /// Answer to [`LocatorAction::ReadSearchPath`]: the search path, if it is set.
    SearchPath(Option<String>),
    /// Answer to [`LocatorAction::RemoveFile`].
    FileRemoved(RemoveOutcome),
}

/// What a locator asks its host to do next.
#[derive(Debug, PartialEq, Eq)]
pub enum LocatorAction {
    /// Find out whether this file exists.
    Probe(String),
    /// Create this directory and all that lead to it.
    CreateDirAll(String),
    /// Create a fresh temporary file.
    CreateTempFile { prefix: String, suffix: String },
    /// Request this URL and report the status of the response.
    Fetch { url: String },
    /// Write the body of the response to this file.
    SaveBody { path: String },
    /// Run the installer and wait for it to end.
    RunInstaller { program: String, args: Vec<String> },
    /// List the subdirectories of this directory.
    ListSubdirs(String),
    /// Copy a file.
    Copy { from: String, to: String },
    /// Read the executable search path from the environment.
    ReadSearchPath,
    /// Delete this file if it is there: the installer, which the search has
    /// no more use for.
    RemoveFile(String),
    /// The search has ended: the interpreter's path, or why there is none.
    Done(Result<String, String>),
    /// The event answers no pending action; it is handed back untouched and the
    /// locator has not moved.
    Rejected(LocatorEvent),
}

/// `HttpStatus` as the contracts see it.
pub struct HttpStatusView {
    pub code: u16,
    pub line: Seq<char>,
}

/// `SaveOutcome` as the contracts see it.
pub enum SaveOutcomeView {
    Saved,
    ReadFailed(Seq<char>),
    CreateFailed(Seq<char>),
    WriteFailed(Seq<char>),
}

/// `InstallerExit` as the contracts see it.
pub struct InstallerExitView {
    pub success: bool,
    pub stderr: Seq<char>,
}

/// `LocatorEvent` as the contracts see it.
pub enum LocatorEventView {
    Probed(bool),
    DirReady(Result<(), Seq<char>>),
    TempFileCreated(Result<Seq<char>, Seq<char>>),
    Fetched(Result<HttpStatusView, Seq<char>>),
    BodySaved(SaveOutcomeView),
    InstallerExited(Result<InstallerExitView, Seq<char>>),
    Listed(Result<Seq<Seq<char>>, Seq<char>>),
    Copied(Result<(), Seq<char>>),
    SearchPath(Option<Seq<char>>),
    FileRemoved(RemoveOutcomeView),
}

/// `LocatorAction` as the contracts see it.
pub enum LocatorActionView {
    Probe(Seq<char>),
    CreateDirAll(Seq<char>),
    CreateTempFile { prefix: Seq<char>, suffix: Seq<char> },
    Fetch { url: Seq<char> },
    SaveBody { path: Seq<char> },
    RunInstaller { program: Seq<char>, args: Seq<Seq<char>> },
    ListSubdirs(Seq<char>),
    Copy { from: Seq<char>, to: Seq<char> },
    ReadSearchPath,
    RemoveFile(Seq<char>),
    Done(Result<Seq<char>, Seq<char>>),
    Rejected(LocatorEventView),
}

impl View for HttpStatus {
    type V = HttpStatusView;

    open spec fn view(&self) -> HttpStatusView {
        HttpStatusView { code: self.code, line: self.line@ }
    }
}

impl View for SaveOutcome {
    type V = SaveOutcomeView;

    open spec fn view(&self) -> SaveOutcomeView {
        match self {
            SaveOutcome::Saved => SaveOutcomeView::Saved,
            SaveOutcome::ReadFailed(e) => SaveOutcomeView::ReadFailed(e@),
            SaveOutcome::CreateFailed(e) => SaveOutcomeView::CreateFailed(e@),
            SaveOutcome::WriteFailed(e) => SaveOutcomeView::WriteFailed(e@),
        }
    }
}

impl View for InstallerExit {
    type V = InstallerExitView;

    open spec fn view(&self) -> InstallerExitView {
        InstallerExitView { success: self.success, stderr: self.stderr@ }
    }
}

/// A result without a value, its failure seen as characters.
pub open spec fn unit_result(r: Result<(), String>) -> Result<(), Seq<char>> {
    match r {
        Ok(_) => Ok(()),
        Err(e) => Err(e@),
    }
}

impl View for LocatorEvent {
    type V = LocatorEventView;

    open spec fn view(&self) -> LocatorEventView {
        match self {
            LocatorEvent::Probed(b) => LocatorEventView::Probed(*b),
            LocatorEvent::DirReady(r) => LocatorEventView::DirReady(unit_result(*r)),
            LocatorEvent::TempFileCreated(r) => LocatorEventView::TempFileCreated(
                match r {
                    Ok(p) => Ok(p@),
                    Err(e) => Err(e@),
                },
            ),
            LocatorEvent::Fetched(r) => LocatorEventView::Fetched(
                match r {
                    Ok(status) => Ok(status@),
                    Err(e) => Err(e@),
                },
            ),
            LocatorEvent::BodySaved(o) => LocatorEventView::BodySaved(o@),
            LocatorEvent::InstallerExited(r) => LocatorEventView::InstallerExited(
                match r {
                    Ok(exit) => Ok(exit@),
                    Err(e) => Err(e@),
                },
            ),
            LocatorEvent::Listed(r) => LocatorEventView::Listed(
                match r {
                    Ok(dirs) => Ok(dirs.deep_view()),
                    Err(e) => Err(e@),
                },
            ),
            LocatorEvent::Copied(r) => LocatorEventView::Copied(unit_result(*r)),
            LocatorEvent::SearchPath(p) => LocatorEventView::SearchPath(
                match p {
                    Some(text) => Some(text@),
                    None => None,
                },
            ),
            LocatorEvent::FileRemoved(o) => LocatorEventView::FileRemoved(o@),
        }
    }
}

impl View for LocatorAction {
    type V = LocatorActionView;

    open spec fn view(&self) -> LocatorActionView {
        match self {
            LocatorAction::Probe(p) => LocatorActionView::Probe(p@),
            LocatorAction::CreateDirAll(p) => LocatorActionView::CreateDirAll(p@),
            LocatorAction::CreateTempFile { prefix, suffix } => LocatorActionView::CreateTempFile {
                prefix: prefix@,
                suffix: suffix@,
            },
            LocatorAction::Fetch { url } => LocatorActionView::Fetch { url: url@ },
            LocatorAction::SaveBody { path } => LocatorActionView::SaveBody { path: path@ },
            LocatorAction::RunInstaller { program, args } => LocatorActionView::RunInstaller {
                program: program@,
                args: args.deep_view(),
            },
            LocatorAction::ListSubdirs(p) => LocatorActionView::ListSubdirs(p@),
            LocatorAction::Copy { from, to } => LocatorActionView::Copy { from: from@, to: to@ },
            LocatorAction::ReadSearchPath => LocatorActionView::ReadSearchPath,
            LocatorAction::RemoveFile(p) => LocatorActionView::RemoveFile(p@),
            LocatorAction::Done(r) => LocatorActionView::Done(
                match r {
                    Ok(p) => Ok(p@),
                    Err(e) => Err(e@),
                },
            ),
            LocatorAction::Rejected(e) => LocatorActionView::Rejected(e@),
        }
    }
}

/// The failure of a search that never began: the resource directory is
/// not known.
pub open spec fn resource_dir_failure(e: Seq<char>) -> Seq<char> {
    "Falha ao obter diretório de recursos: "@ + e
}

/// The failure to create the managed directory.
pub open spec fn install_dir_failure(e: Seq<char>) -> Seq<char> {
    "Falha ao criar diretório de instalação: "@ + e
}

/// The failure to create a temporary file for the installer.
pub open spec fn temp_file_failure(e: Seq<char>) -> Seq<char> {
    "Falha ao criar arquivo temporário para download: "@ + e
}

/// The failure of the request for the installer.
pub open spec fn request_failure(e: Seq<char>) -> Seq<char> {
    "Falha na requisição HTTP: "@ + e
}

/// The failure of a download whose response does not tell success.
pub open spec fn status_failure(line: Seq<char>) -> Seq<char> {
    "Falha no download: Status HTTP "@ + line
}

/// The failure to read the body of the response.
pub open spec fn body_failure(e: Seq<char>) -> Seq<char> {
    "Falha ao ler dados da resposta: "@ + e
}

/// The failure to create the file that takes the installer.
pub open spec fn create_failure(e: Seq<char>) -> Seq<char> {
    "Falha ao criar arquivo: "@ + e
}

/// The failure to write the installer to its file.
pub open spec fn write_failure(e: Seq<char>) -> Seq<char> {
    "Falha ao escrever arquivo: "@ + e
}

/// The failure to run the installer.
pub open spec fn run_failure(e: Seq<char>) -> Seq<char> {
    "Falha ao executar instalador: "@ + e
}

/// The failure of an installer that ends without success.
pub open spec fn installer_failure(stderr: Seq<char>) -> Seq<char> {
    "Falha na instalação: "@ + stderr
}

/// The failure to list the managed directory.
pub open spec fn list_failure(e: Seq<char>) -> Seq<char> {
    "Falha ao listar diretório de instalação: "@ + e
}

/// The failure to copy the interpreter from where it was found.
pub open spec fn copy_failure(from: Seq<char>, e: Seq<char>) -> Seq<char> {
    "Falha ao copiar "@ + from + ": "@ + e
}

/// The failure to delete the installer once it is of no more use.
pub open spec fn discard_failure(e: Seq<char>) -> Seq<char> {
    "Falha ao remover instalador temporário: "@ + e
}

/// The failure of an installation that leaves no interpreter behind.
pub open spec fn not_installed_text() -> Seq<char> {
    "Instalação concluída mas executável não encontrado"@
}

/// The failure of the look along the executable search path.
pub open spec fn not_on_search_path_text() -> Seq<char> {
    "AutoHotkey not found in PATH or other locations"@
}

/// What separates the causes in a failure.
pub open spec fn cause_separator() -> Seq<char> {
    "; "@
}

/// The one failure that a search reports: every place that was looked at,
/// one per line, and everything that went wrong, in the order in which it
/// did.
pub open spec fn aggregate_failure(paths: Seq<Seq<char>>, causes: Seq<Seq<char>>) -> Seq<char> {
    "AutoHotkey V2 não encontrado e falha na instalação automática.\n\nVerificados os seguintes caminhos:\n"@
        + bullet_list(paths) + "\n\nErro de instalação: "@ + joined_with(causes, cause_separator())
        + "\n\nPor favor, instale manualmente o AutoHotkey V2 ou verifique as permissões de administrador."@
}

/// Whether a status code tells success: 200 to 299.
pub open spec fn is_success(code: u16) -> bool {
    200 <= code < 300
}

/// The arguments of a silent install into `install_dir`.
pub open spec fn installer_args(install_dir: Seq<char>) -> Seq<Seq<char>> {
    seq!["/S"@, "/D="@, install_dir]
}

/// Where a search stands.
enum Stage {
    Finished,
    Candidate { index: usize },
    InstallDir,
    Bundled,
    TempFile,
    Fetch { installer: String },
    Save { installer: String },
    Installer,
    Installed,
    Subdirs,
    Subdir { dirs: Vec<String>, index: usize },
    Relocate { dirs: Vec<String>, index: usize },
    Discard { success: bool },
    Verify,
    SearchPath,
    PathEntry { entries: Vec<String>, index: usize },
    PathCopy { entries: Vec<String>, index: usize },
}

/// Where a search stands, as the contracts see it.
pub enum StageView {
    /// The search is over, or has not begun.
    Finished,
    /// The well-known place `index` is being looked at.
    Candidate { index: int },
    /// The managed directory is being created.
    InstallDir,
    /// The managed directory is being looked at for a copy installed earlier.
    Bundled,
    /// A temporary file for the installer is being created.
    TempFile,
    /// The installer is being requested.
    Fetch { installer: Seq<char> },
    /// The installer is being saved.
    Save { installer: Seq<char> },
    /// The installer is running.
    Installer,
    /// The installer has ended with success and its result is being looked for.
    Installed,
    /// The subdirectories of the managed directory are being listed.
    Subdirs,
    /// The subdirectory `index` is being looked at.
    Subdir { dirs: Seq<Seq<char>>, index: int },
    /// The interpreter is being copied out of the subdirectory `index`.
    Relocate { dirs: Seq<Seq<char>>, index: int },
    /// Download and install are over, with or without `success`, and the
    /// installer's file is being deleted.
    Discard { success: bool },
    /// The installation is being verified.
    Verify,
    /// The executable search path is being read.
    SearchPath,
    /// The entry `index` of the search path is being looked at.
    PathEntry { entries: Seq<Seq<char>>, index: int },
    /// The interpreter is being copied from the entry `index` of the search path.
    PathCopy { entries: Seq<Seq<char>>, index: int },
}

impl StageView {
    /// Whether download and install are under way: from the request for the
    /// installer to the last look at what it has left behind.
    pub open spec fn downloading(self) -> bool {
        self is Fetch || self is Save || self is Installer || self is Installed || self is Subdirs
            || self is Subdir || self is Relocate
    }
}

impl View for Stage {
    type V = StageView;

    closed spec fn view(&self) -> StageView {
        match self {
            Stage::Finished => StageView::Finished,
            Stage::Candidate { index } => StageView::Candidate { index: *index as int },
            Stage::InstallDir => StageView::InstallDir,
            Stage::Bundled => StageView::Bundled,
            Stage::TempFile => StageView::TempFile,
            Stage::Fetch { installer } => StageView::Fetch { installer: installer@ },
            Stage::Save { installer } => StageView::Save { installer: installer@ },
            Stage::Installer => StageView::Installer,
            Stage::Installed => StageView::Installed,
            Stage::Subdirs => StageView::Subdirs,
            Stage::Subdir { dirs, index } => StageView::Subdir {
                dirs: dirs.deep_view(),
                index: *index as int,
            },
            Stage::Relocate { dirs, index } => StageView::Relocate {
                dirs: dirs.deep_view(),
                index: *index as int,
            },
            Stage::Discard { success } => StageView::Discard { success: *success },
            Stage::Verify => StageView::Verify,
            Stage::SearchPath => StageView::SearchPath,
            Stage::PathEntry { entries, index } => StageView::PathEntry {
                entries: entries.deep_view(),
                index: *index as int,
            },
            Stage::PathCopy { entries, index } => StageView::PathCopy {
                entries: entries.deep_view(),
                index: *index as int,
            },
        }
    }
}

/// A search for the interpreter.
pub struct DependencyLocator {
    layout: Layout,
    stage: Stage,
    tried: Vec<CandidateProbe>,
    searched: Vec<String>,
    causes: Vec<String>,
    installer: Option<String>,
    download_failure: Option<String>,
}

/// `DependencyLocator` as the contracts see it.
pub struct LocatorView {
    /// Where to look and where to install.
    pub layout: LayoutView,
    /// Where the search stands.
    pub stage: StageView,
    /// The well-known places that have been looked at, in order, each with
    /// what was seen there.
    pub tried: Seq<CandidateProbeView>,
    /// The places beyond the well-known ones that have been looked at, in
    /// order: below the managed directory and along the search path.
    pub searched: Seq<Seq<char>>,
    /// Everything that has gone wrong so far, in order.
    pub causes: Seq<Seq<char>>,
    /// The installer's temporary file, while there is one to delete.
    pub installer: Option<Seq<char>>,
    /// Why download and install failed, once they have.
    pub download_failure: Option<Seq<char>>,
}

impl View for DependencyLocator {
    type V = LocatorView;

    closed spec fn view(&self) -> LocatorView {
        LocatorView {
            layout: self.layout@,
            stage: self.stage@,
            tried: self.tried.deep_view(),
            searched: self.searched.deep_view(),
            causes: self.causes.deep_view(),
            installer: self.installer.deep_view(),
            download_failure: self.download_failure.deep_view(),
        }
    }
}

impl LocatorView {
    /// The same search at another stage.
    pub open spec fn at(self, stage: StageView) -> Self {
        LocatorView { stage, ..self }
    }

    /// The same search with one more thing gone wrong.
    pub open spec fn noted(self, cause: Seq<char>) -> Self {
        LocatorView { causes: self.causes.push(cause), ..self }
    }

    /// The same search with one more place looked at.
    pub open spec fn looked_at(self, path: Seq<char>) -> Self {
        LocatorView { searched: self.searched.push(path), ..self }
    }

    /// Every place that the failure of this search names: the well-known
    /// places and then the others that were looked at.
    pub open spec fn paths_tried(self) -> Seq<Seq<char>> {
        self.layout.candidates + self.searched
    }

    /// The end of the search with the interpreter at `path`.
    pub open spec fn found(self, path: Seq<char>) -> (LocatorView, LocatorActionView) {
        (self.at(StageView::Finished), LocatorActionView::Done(Ok(path)))
    }

    /// The end of the search without an interpreter: `cause` is the last
    /// thing that went wrong, and the failure tells all of them.
    pub open spec fn give_up(self, cause: Seq<char>) -> (LocatorView, LocatorActionView) {
        let end = self.noted(cause).at(StageView::Finished);
        (end, LocatorActionView::Done(Err(aggregate_failure(end.paths_tried(), end.causes))))
    }

    /// The search goes on after download and install: to the verification
    /// of what was installed, or to the executable search path.
    pub open spec fn proceed(self, success: bool) -> (LocatorView, LocatorActionView) {
        if success {
            (self.at(StageView::Verify), LocatorActionView::Probe(self.layout.target()))
        } else {
            (self.at(StageView::SearchPath), LocatorActionView::ReadSearchPath)
        }
    }

    /// Download and install are over. The installer's file, if there is
    /// one, is deleted before the search goes on.
    pub open spec fn end_download(self, success: bool) -> (LocatorView, LocatorActionView) {
        match self.installer {
            Some(path) => (
                LocatorView { installer: None, stage: StageView::Discard { success }, ..self },
                LocatorActionView::RemoveFile(path),
            ),
            None => self.proceed(success),
        }
    }

    /// Download and install have failed for `cause`: the cause is kept, and
    /// the search goes on with the executable search path.
    pub open spec fn fall_back(self, cause: Seq<char>) -> (LocatorView, LocatorActionView) {
        LocatorView { download_failure: Some(cause), ..self.noted(cause) }.end_download(false)
    }

    /// Looks at the well-known place `index`, or, when there is none left,
    /// begins the installation.
    pub open spec fn try_candidate(self, index: int) -> (LocatorView, LocatorActionView) {
        if 0 <= index < self.layout.candidates.len() {
            (
                self.at(StageView::Candidate { index }),
                LocatorActionView::Probe(self.layout.candidates[index]),
            )
        } else {
            (
                self.at(StageView::InstallDir),
                LocatorActionView::CreateDirAll(self.layout.install_dir),
            )
        }
    }

    /// Looks at the subdirectory `index` of the managed directory, or, when
    /// there is none left, falls back.
    pub open spec fn try_subdir(self, dirs: Seq<Seq<char>>, index: int) -> (
        LocatorView,
        LocatorActionView,
    ) {
        if 0 <= index < dirs.len() {
            (
                self.at(StageView::Subdir { dirs, index }),
                LocatorActionView::Probe(joined(dirs[index], EXECUTABLE_NAME@)),
            )
        } else {
            self.fall_back(not_installed_text())
        }
    }

    /// Looks at the entry `index` of the search path, or, when there is none
    /// left, gives up.
    pub open spec fn try_path_entry(self, entries: Seq<Seq<char>>, index: int) -> (
        LocatorView,
        LocatorActionView,
    ) {
        if 0 <= index < entries.len() {
            (
                self.at(StageView::PathEntry { entries, index }),
                LocatorActionView::Probe(joined(entries[index], EXECUTABLE_NAME@)),
            )
        } else {
            self.give_up(not_on_search_path_text())
        }
    }

    /// The record of a look at the well-known place `index`.
    pub open spec fn seen(self, index: int, exists: bool) -> Self {
        LocatorView {
            tried: self.tried.push(
                CandidateProbeView { path: self.layout.candidates[index], exists },
            ),
            ..self
        }
    }

    /// Whether the first `n` well-known places, and no others, have been
    /// looked at and the interpreter was at none of them.
    pub open spec fn tried_in_vain(self, n: int) -> bool {
        &&& self.tried.len() == n
        &&& n <= self.layout.candidates.len()
        &&& forall|i: int|
            0 <= i < n ==> (#[trigger] self.tried[i]) == CandidateProbeView {
                path: self.layout.candidates[i],
                exists: false,
            }
    }

    /// Whether the places looked at are the first of the well-known places,
    /// in their order, and the interpreter was at none of them but, at most,
    /// the last.
    pub open spec fn tried_in_order(self) -> bool {
        &&& self.tried.len() <= self.layout.candidates.len()
        &&& forall|i: int|
            0 <= i < self.tried.len() ==> (#[trigger] self.tried[i]).path
                == self.layout.candidates[i]
        &&& forall|i: int| 0 <= i < self.tried.len() - 1 ==> !(#[trigger] self.tried[i]).exists
    }

    /// Whether the position that the stage holds lies inside its list, and
    /// the well-known places have been tried as far as the stage tells: those
    /// before the position while they are being looked at, all of them once
    /// the search has gone on to install.
    pub open spec fn in_step(self) -> bool {
        match self.stage {
            StageView::Finished => self.tried_in_order(),
            StageView::Candidate { index } => 0 <= index < self.layout.candidates.len()
                && self.tried_in_vain(index),
            StageView::Subdir { dirs, index } => 0 <= index < dirs.len() && self.tried_in_vain(
                self.layout.candidates.len() as int,
            ),
            StageView::Relocate { dirs, index } => 0 <= index < dirs.len() && self.tried_in_vain(
                self.layout.candidates.len() as int,
            ),
            StageView::PathEntry { entries, index } => 0 <= index < entries.len()
                && self.tried_in_vain(self.layout.candidates.len() as int),
            StageView::PathCopy { entries, index } => 0 <= index < entries.len()
                && self.tried_in_vain(self.layout.candidates.len() as int),
            _ => self.tried_in_vain(self.layout.candidates.len() as int),
        }
    }

    /// What every search satisfies: its stage and its record of the
    /// well-known places agree; an installer's file is held only while
    /// download and install are under way; and why download and install
    /// failed is among the things that went wrong.
    pub open spec fn wf(self) -> bool {
        &&& self.in_step()
        &&& self.installer is Some ==> self.stage.downloading()
        &&& self.download_failure matches Some(cause) ==> self.causes.contains(cause)
    }
}

/// The beginning of a search in `layout`: the first well-known place is
/// looked at.
pub open spec fn search_step(layout: LayoutView) -> (LocatorView, LocatorActionView) {
    LocatorView {
        layout,
        stage: StageView::Finished,
        tried: Seq::empty(),
        searched: Seq::empty(),
        causes: Seq::empty(),
        installer: None,
        download_failure: None,
    }.try_candidate(0)
}

/// The beginning of a search below the resource directory. Without a
/// resource directory there is nothing to search.
pub open spec fn begin_step(resource_dir: Result<Seq<char>, Seq<char>>) -> (
    LocatorView,
    LocatorActionView,
) {
    match resource_dir {
        Ok(dir) => search_step(layout_of(dir)),
        Err(e) => (
            LocatorView {
                layout: LayoutView { candidates: Seq::empty(), install_dir: Seq::empty() },
                stage: StageView::Finished,
                tried: Seq::empty(),
                searched: Seq::empty(),
                causes: seq![resource_dir_failure(e)],
                installer: None,
                download_failure: None,
            },
            LocatorActionView::Done(Err(resource_dir_failure(e))),
        ),
    }
}

/// The move that follows an event.
///
/// Nothing that goes wrong is lost. Whatever ends download and install is
/// kept as the cause of their failure; a directory that cannot be listed, a
/// copy that fails and an installer's file that cannot be deleted are kept
/// as well; and the search goes on. Every place looked at below the managed
/// directory and along the search path is kept too, whatever was seen there.
/// The installer's file is deleted as soon as download and install are over,
/// however they ended.
pub open spec fn locator_step(s: LocatorView, event: LocatorEventView) -> (
    LocatorView,
    LocatorActionView,
) {
    let target = s.layout.target();
    match (s.stage, event) {
        (StageView::Candidate { index }, LocatorEventView::Probed(exists)) => if exists {
            s.seen(index, true).found(s.layout.candidates[index])
        } else {
            s.seen(index, false).try_candidate(index + 1)
        },
        (StageView::InstallDir, LocatorEventView::DirReady(ready)) => match ready {
            Ok(_) => (s.at(StageView::Bundled), LocatorActionView::Probe(target)),
            Err(e) => s.give_up(install_dir_failure(e)),
        },
        (StageView::Bundled, LocatorEventView::Probed(exists)) => if exists {
            s.found(target)
        } else {
            (
                s.at(StageView::TempFile),
                LocatorActionView::CreateTempFile { prefix: "ahk_v2_installer"@, suffix: ".exe"@ },
            )
        },
        (StageView::TempFile, LocatorEventView::TempFileCreated(created)) => match created {
            Ok(installer) => (
                LocatorView {
                    installer: Some(installer),
                    stage: StageView::Fetch { installer },
                    ..s
                },
                LocatorActionView::Fetch { url: INSTALLER_URL@ },
            ),
            Err(e) => s.fall_back(temp_file_failure(e)),
        },
        (StageView::Fetch { installer }, LocatorEventView::Fetched(fetched)) => match fetched {
            Ok(status) => if is_success(status.code) {
                (s.at(StageView::Save { installer }), LocatorActionView::SaveBody { path: installer })
            } else {
                s.fall_back(status_failure(status.line))
            },
            Err(e) => s.fall_back(request_failure(e)),
        },
        (StageView::Save { installer }, LocatorEventView::BodySaved(saved)) => match saved {
            SaveOutcomeView::Saved => (
                s.at(StageView::Installer),
                LocatorActionView::RunInstaller {
                    program: installer,
                    args: installer_args(s.layout.install_dir),
                },
            ),
            SaveOutcomeView::ReadFailed(e) => s.fall_back(body_failure(e)),
            SaveOutcomeView::CreateFailed(e) => s.fall_back(create_failure(e)),
            SaveOutcomeView::WriteFailed(e) => s.fall_back(write_failure(e)),
        },
        (StageView::Installer, LocatorEventView::InstallerExited(exited)) => match exited {
            Ok(exit) => if exit.success {
                (s.at(StageView::Installed), LocatorActionView::Probe(target))
            } else {
                s.fall_back(installer_failure(exit.stderr))
            },
            Err(e) => s.fall_back(run_failure(e)),
        },
        (StageView::Installed, LocatorEventView::Probed(exists)) => if exists {
            s.end_download(true)
        } else {
            (s.at(StageView::Subdirs), LocatorActionView::ListSubdirs(s.layout.install_dir))
        },
        (StageView::Subdirs, LocatorEventView::Listed(listed)) => match listed {
            Ok(dirs) => s.try_subdir(dirs, 0),
            Err(e) => s.noted(list_failure(e)).fall_back(not_installed_text()),
        },
        (StageView::Subdir { dirs, index }, LocatorEventView::Probed(exists)) => {
            let place = joined(dirs[index], EXECUTABLE_NAME@);
            if exists {
                (
                    s.looked_at(place).at(StageView::Relocate { dirs, index }),
                    LocatorActionView::Copy { from: place, to: target },
                )
            } else {
                s.looked_at(place).try_subdir(dirs, index + 1)
            }
        },
        (StageView::Relocate { dirs, index }, LocatorEventView::Copied(copied)) => match copied {
            Ok(_) => s.end_download(true),
            Err(e) => s.noted(copy_failure(joined(dirs[index], EXECUTABLE_NAME@), e)).try_subdir(
                dirs,
                index + 1,
            ),
        },
        (StageView::Discard { success }, LocatorEventView::FileRemoved(outcome)) => match outcome {
            RemoveOutcomeView::Failed(e) => s.noted(discard_failure(e)).proceed(success),
            _ => s.proceed(success),
        },
        (StageView::Verify, LocatorEventView::Probed(exists)) => if exists {
            s.found(target)
        } else {
            s.fall_back(not_installed_text())
        },
        (StageView::SearchPath, LocatorEventView::SearchPath(path)) => match path {
            Some(text) => s.try_path_entry(split_on(text, SEARCH_PATH_SEPARATOR), 0),
            None => s.give_up(not_on_search_path_text()),
        },
        (StageView::PathEntry { entries, index }, LocatorEventView::Probed(exists)) => {
            let place = joined(entries[index], EXECUTABLE_NAME@);
            if exists {
                (
                    s.looked_at(place).at(StageView::PathCopy { entries, index }),
                    LocatorActionView::Copy { from: place, to: target },
                )
            } else {
                s.looked_at(place).try_path_entry(entries, index + 1)
            }
        },
        (StageView::PathCopy { entries, index }, LocatorEventView::Copied(copied)) => match copied {
            Ok(_) => s.found(target),
            Err(e) => s.noted(
                copy_failure(joined(entries[index], EXECUTABLE_NAME@), e),
            ).try_path_entry(entries, index + 1),
        },
        _ => (s, LocatorActionView::Rejected(event)),
    }
}

/// Writes `aggregate_failure`.
pub fn render_aggregate_failure(paths: &Vec<String>, causes: &Vec<String>) -> (text: String)
    ensures
        text@ == aggregate_failure(paths.deep_view(), causes.deep_view()),
{
    let list = render_bullet_list(paths);
    let why = join_with(causes, "; ");
    let mut text =
        "AutoHotkey V2 não encontrado e falha na instalação automática.\n\nVerificados os seguintes caminhos:\n".to_string();
    text.append(list.as_str());
    text.append("\n\nErro de instalação: ");
    text.append(why.as_str());
    text.append(
        "\n\nPor favor, instale manualmente o AutoHotkey V2 ou verifique as permissões de administrador.",
    );
    text
}

/// Decides `is_success`.
pub fn status_is_success(code: u16) -> (b: bool)
    ensures
        b == is_success(code),
{
    200 <= code && code < 300
}

/// Writes `copy_failure`.
fn render_copy_failure(from: &str, e: &str) -> (text: String)
    ensures
        text@ == copy_failure(from@, e@),
{
    let mut text = concat3("Falha ao copiar ", from, ": ");
    text.append(e);
    text
}

impl DependencyLocator {
    #[verifier::type_invariant]
    spec fn well_formed(&self) -> bool {
        self@.wf()
    }

    fn note(&mut self, cause: String)
        requires
            old(self)@.stage is Finished,
            old(self)@.installer is None,
        ensures
            final(self)@ == old(self)@.noted(cause@),
    {
        proof {
            use_type_invariant(&*self);
        }
        let ghost before = self.causes.deep_view();
        let ghost kept = self@.download_failure;
        let mut download_failure: Option<String> = None;
        core::mem::swap(&mut self.download_failure, &mut download_failure);
        let mut causes: Vec<String> = Vec::new();
        core::mem::swap(&mut self.causes, &mut causes);
        causes.push(cause);
        core::mem::swap(&mut self.causes, &mut causes);
        proof {
            assert(self.causes.deep_view() =~= before.push(cause@));
            if let Some(text) = kept {
                let j = choose|j: int| 0 <= j < before.len() && before[j] == text;
                assert(self.causes.deep_view()[j] == text);
            }
        }
        self.download_failure = download_failure;
    }

    fn look_at(&mut self, place: String)
        requires
            old(self)@.stage is Finished,
            old(self)@.installer is None,
        ensures
            final(self)@ == old(self)@.looked_at(place@),
    {
        proof {
            use_type_invariant(&*self);
        }
        let ghost before = self.searched.deep_view();
        let mut searched: Vec<String> = Vec::new();
        core::mem::swap(&mut self.searched, &mut searched);
        searched.push(place);
        assert(searched.deep_view() =~= before.push(place@));
        core::mem::swap(&mut self.searched, &mut searched);
    }

    fn found(&mut self, path: String) -> (action: LocatorAction)
        requires
            old(self)@.stage is Finished,
            old(self)@.installer is None,
        ensures
            (final(self)@, action@) == old(self)@.found(path@),
    {
        LocatorAction::Done(Ok(path))
    }

    fn give_up(&mut self, cause: String) -> (action: LocatorAction)
        requires
            old(self)@.stage is Finished,
            old(self)@.installer is None,
        ensures
            (final(self)@, action@) == old(self)@.give_up(cause@),
    {
        self.note(cause);
        let paths = chain(&self.layout.candidates, &self.searched);
        LocatorAction::Done(Err(render_aggregate_failure(&paths, &self.causes)))
    }

    fn proceed(&mut self, success: bool) -> (action: LocatorAction)
        requires
            old(self)@.stage is Finished,
            old(self)@.installer is None,
            old(self)@.tried_in_vain(old(self)@.layout.candidates.len() as int),
        ensures
            (final(self)@, action@) == old(self)@.proceed(success),
    {
        proof {
            use_type_invariant(&*self);
        }
        if success {
            self.stage = Stage::Verify;
            LocatorAction::Probe(self.layout.target())
        } else {
            self.stage = Stage::SearchPath;
            LocatorAction::ReadSearchPath
        }
    }

    fn end_download(&mut self, installer: Option<String>, success: bool) -> (action: LocatorAction)
        requires
            old(self)@.stage is Finished,
            old(self)@.installer is None,
            old(self)@.tried_in_vain(old(self)@.layout.candidates.len() as int),
        ensures
            (final(self)@, action@) == (LocatorView {
                installer: installer.deep_view(),
                ..old(self)@
            }).end_download(success),
    {
        proof {
            use_type_invariant(&*self);
        }
        match installer {
            Some(path) => {
                self.stage = Stage::Discard { success };
                LocatorAction::RemoveFile(path)
            },
            None => self.proceed(success),
        }
    }

    fn fall_back(&mut self, installer: Option<String>, cause: String) -> (action: LocatorAction)
        requires
            old(self)@.stage is Finished,
            old(self)@.installer is None,
            old(self)@.tried_in_vain(old(self)@.layout.candidates.len() as int),
        ensures
            (final(self)@, action@) == (LocatorView {
                installer: installer.deep_view(),
                ..old(self)@
            }).fall_back(cause@),
    {
        let kept = cause.clone();
        self.note(cause);
        proof {
            let causes = self@.causes;
            assert(causes[causes.len() - 1] == kept@);
        }
        self.download_failure = Some(kept);
        self.end_download(installer, false)
    }

    fn try_candidate(&mut self, index: usize) -> (action: LocatorAction)
        requires
            old(self)@.stage is Finished,
            old(self)@.installer is None,
            old(self)@.tried_in_vain(index as int),
        ensures
            (final(self)@, action@) == old(self)@.try_candidate(index as int),
    {
        proof {
            use_type_invariant(&*self);
        }
        if index < self.layout.candidates.len() {
            assert(self.layout.candidates.deep_view()[index as int]
                == self.layout.candidates[index as int]@);
            self.stage = Stage::Candidate { index };
            LocatorAction::Probe(self.layout.candidates[index].clone())
        } else {
            self.stage = Stage::InstallDir;
            LocatorAction::CreateDirAll(self.layout.install_dir.clone())
        }
    }

    fn try_subdir(&mut self, installer: Option<String>, dirs: Vec<String>, index: usize) -> (action:
        LocatorAction)
        requires
            old(self)@.stage is Finished,
            old(self)@.installer is None,
            old(self)@.tried_in_vain(old(self)@.layout.candidates.len() as int),
        ensures
            (final(self)@, action@) == (LocatorView {
                installer: installer.deep_view(),
                ..old(self)@
            }).try_subdir(dirs.deep_view(), index as int),
    {
        proof {
            use_type_invariant(&*self);
        }
        if index < dirs.len() {
            assert(dirs.deep_view()[index as int] == dirs[index as int]@);
            let path = join_path(dirs[index].as_str(), EXECUTABLE_NAME);
            self.stage = Stage::Subdir { dirs, index };
            self.installer = installer;
            LocatorAction::Probe(path)
        } else {
            self.fall_back(installer, "Instalação concluída mas executável não encontrado".to_string())
        }
    }

    fn try_path_entry(&mut self, entries: Vec<String>, index: usize) -> (action: LocatorAction)
        requires
            old(self)@.stage is Finished,
            old(self)@.installer is None,
            old(self)@.tried_in_vain(old(self)@.layout.candidates.len() as int),
        ensures
            (final(self)@, action@) == old(self)@.try_path_entry(
                entries.deep_view(),
                index as int,
            ),
    {
        proof {
            use_type_invariant(&*self);
        }
        if index < entries.len() {
            assert(entries.deep_view()[index as int] == entries[index as int]@);
            let path = join_path(entries[index].as_str(), EXECUTABLE_NAME);
            self.stage = Stage::PathEntry { entries, index };
            LocatorAction::Probe(path)
        } else {
            self.give_up("AutoHotkey not found in PATH or other locations".to_string())
        }
    }

    /// Begins a search in `layout`.
    pub fn search(layout: Layout) -> (r: (DependencyLocator, LocatorAction))
        ensures
            (r.0@, r.1@) == search_step(layout@),
            r.0@.wf(),
    {
        let mut locator = DependencyLocator {
            layout,
            stage: Stage::Finished,
            tried: Vec::new(),
            searched: Vec::new(),
            causes: Vec::new(),
            installer: None,
            download_failure: None,
        };
        proof {
            assert(locator.tried.deep_view() =~= Seq::<CandidateProbeView>::empty());
            assert(locator.searched.deep_view() =~= Seq::<Seq<char>>::empty());
            assert(locator.causes.deep_view() =~= Seq::<Seq<char>>::empty());
        }
        let action = locator.try_candidate(0);
        proof {
            use_type_invariant(&locator);
        }
        (locator, action)
    }

    /// Begins a search below the application's resource directory, or
    /// reports why that directory is not known.
    pub fn begin(resource_dir: Result<String, String>) -> (r: (DependencyLocator, LocatorAction))
        ensures
            (r.0@, r.1@) == begin_step(text_result(resource_dir)),
            r.0@.wf(),
    {
        match resource_dir {
            Ok(dir) => Self::search(Layout::new(dir.as_str())),
            Err(e) => {
                let text = concat2("Falha ao obter diretório de recursos: ", e.as_str());
                let mut causes: Vec<String> = Vec::new();
                causes.push(text.clone());
                let locator = DependencyLocator {
                    layout: Layout { candidates: Vec::new(), install_dir: String::new() },
                    stage: Stage::Finished,
                    tried: Vec::new(),
                    searched: Vec::new(),
                    causes,
                    installer: None,
                    download_failure: None,
                };
                proof {
                    assert(locator.layout.candidates.deep_view() =~= Seq::<Seq<char>>::empty());
                    assert(locator.tried.deep_view() =~= Seq::<CandidateProbeView>::empty());
                    assert(locator.searched.deep_view() =~= Seq::<Seq<char>>::empty());
                    assert(locator.causes.deep_view() =~= seq![resource_dir_failure(e@)]);
                }
                (locator, LocatorAction::Done(Err(text)))
            },
        }
    }

    /// Whether the search is over.
    pub fn is_finished(&self) -> (finished: bool)
        ensures
            finished == self@.stage is Finished,
    {
        match &self.stage {
            Stage::Finished => true,
            _ => false,
        }
    }

    /// Why download and install failed, once they have. It is one of the
    /// causes, and the failure of the search tells it with the others.
    pub fn download_failure(&self) -> (cause: &Option<String>)
        ensures
            cause.deep_view() == self@.download_failure,
            self@.download_failure matches Some(text) ==> self@.causes.contains(text),
    {
        proof {
            use_type_invariant(self);
        }
        &self.download_failure
    }

    /// Everything that has gone wrong so far, in order.
    pub fn causes(&self) -> (causes: &Vec<String>)
        ensures
            causes.deep_view() == self@.causes,
    {
        &self.causes
    }

    /// The places beyond the well-known ones that have been looked at so
    /// far, in order.
    pub fn searched(&self) -> (places: &Vec<String>)
        ensures
            places.deep_view() == self@.searched,
    {
        &self.searched
    }

    /// The well-known places that have been looked at so far, in order, each
    /// with what was seen there. They are the first of the search's
    /// candidates, and the interpreter was at none of them but, at most, the
    /// last.
    pub fn tried(&self) -> (probes: &Vec<CandidateProbe>)
        ensures
            probes.deep_view() == self@.tried,
            self@.tried_in_order(),
    {
        proof {
            use_type_invariant(self);
        }
        &self.tried
    }

    /// The well-known places of this search.
    pub fn candidates(&self) -> (paths: &Vec<String>)
        ensures
            paths.deep_view() == self@.layout.candidates,
    {
        &self.layout.candidates
    }

    /// Takes the host's answer to the last action and gives the next one.
    pub fn resume(&mut self, event: LocatorEvent) -> (action: LocatorAction)
        ensures
            (final(self)@, action@) == locator_step(old(self)@, event@),
            old(self)@.wf(),
            final(self)@.wf(),
    {
        proof {
            use_type_invariant(&*self);
        }
        let mut installer: Option<String> = None;
        core::mem::swap(&mut self.installer, &mut installer);
        let mut stage = Stage::Finished;
        core::mem::swap(&mut self.stage, &mut stage);
        let action = match (stage, event) {
            (Stage::Candidate { index }, LocatorEvent::Probed(exists)) => {
                assert(index < self.layout.candidates.len());
                assert(self.layout.candidates.deep_view()[index as int]
                    == self.layout.candidates[index as int]@);
                let path = self.layout.candidates[index].clone();
                let ghost before = self.tried.deep_view();
                let mut tried: Vec<CandidateProbe> = Vec::new();
                core::mem::swap(&mut self.tried, &mut tried);
                tried.push(CandidateProbe { path: path.clone(), exists });
                assert(tried.deep_view() =~= before.push(
                    CandidateProbeView { path: path@, exists },
                ));
                core::mem::swap(&mut self.tried, &mut tried);
                if exists {
                    self.found(path)
                } else {
                    self.try_candidate(index + 1)
                }
            },
            (Stage::InstallDir, LocatorEvent::DirReady(ready)) => match ready {
                Ok(_) => {
                    self.stage = Stage::Bundled;
                    LocatorAction::Probe(self.layout.target())
                },
                Err(e) => self.give_up(
                    concat2("Falha ao criar diretório de instalação: ", e.as_str()),
                ),
            },
            (Stage::Bundled, LocatorEvent::Probed(exists)) => {
                if exists {
                    let path = self.layout.target();
                    self.found(path)
                } else {
                    self.stage = Stage::TempFile;
                    LocatorAction::CreateTempFile {
                        prefix: "ahk_v2_installer".to_string(),
                        suffix: ".exe".to_string(),
                    }
                }
            },
            (Stage::TempFile, LocatorEvent::TempFileCreated(created)) => match created {
                Ok(path) => {
                    self.stage = Stage::Fetch { installer: path.clone() };
                    self.installer = Some(path);
                    LocatorAction::Fetch { url: INSTALLER_URL.to_string() }
                },
                Err(e) => self.fall_back(
                    installer,
                    concat2("Falha ao criar arquivo temporário para download: ", e.as_str()),
                ),
            },
            (Stage::Fetch { installer: path }, LocatorEvent::Fetched(fetched)) => match fetched {
                Ok(status) => {
                    if status_is_success(status.code) {
                        self.stage = Stage::Save { installer: path.clone() };
                        self.installer = installer;
                        LocatorAction::SaveBody { path }
                    } else {
                        self.fall_back(
                            installer,
                            concat2("Falha no download: Status HTTP ", status.line.as_str()),
                        )
                    }
                },
                Err(e) => self.fall_back(
                    installer,
                    concat2("Falha na requisição HTTP: ", e.as_str()),
                ),
            },
            (Stage::Save { installer: path }, LocatorEvent::BodySaved(saved)) => match saved {
                SaveOutcome::Saved => {
                    let mut args: Vec<String> = Vec::new();
                    args.push("/S".to_string());
                    args.push("/D=".to_string());
                    args.push(self.layout.install_dir.clone());
                    assert(args.deep_view() =~= installer_args(self.layout.install_dir@));
                    self.stage = Stage::Installer;
                    self.installer = installer;
                    LocatorAction::RunInstaller { program: path, args }
                },
                SaveOutcome::ReadFailed(e) => self.fall_back(
                    installer,
                    concat2("Falha ao ler dados da resposta: ", e.as_str()),
                ),
                SaveOutcome::CreateFailed(e) => self.fall_back(
                    installer,
                    concat2("Falha ao criar arquivo: ", e.as_str()),
                ),
                SaveOutcome::WriteFailed(e) => self.fall_back(
                    installer,
                    concat2("Falha ao escrever arquivo: ", e.as_str()),
                ),
            },
            (Stage::Installer, LocatorEvent::InstallerExited(exited)) => match exited {
                Ok(exit) => {
                    if exit.success {
                        self.stage = Stage::Installed;
                        self.installer = installer;
                        LocatorAction::Probe(self.layout.target())
                    } else {
                        self.fall_back(
                            installer,
                            concat2("Falha na instalação: ", exit.stderr.as_str()),
                        )
                    }
                },
                Err(e) => self.fall_back(
                    installer,
                    concat2("Falha ao executar instalador: ", e.as_str()),
                ),
            },
            (Stage::Installed, LocatorEvent::Probed(exists)) => {
                if exists {
                    self.end_download(installer, true)
                } else {
                    self.stage = Stage::Subdirs;
                    self.installer = installer;
                    LocatorAction::ListSubdirs(self.layout.install_dir.clone())
                }
            },
            (Stage::Subdirs, LocatorEvent::Listed(listed)) => match listed {
                Ok(dirs) => self.try_subdir(installer, dirs, 0),
                Err(e) => {
                    self.note(concat2("Falha ao listar diretório de instalação: ", e.as_str()));
                    self.fall_back(
                        installer,
                        "Instalação concluída mas executável não encontrado".to_string(),
                    )
                },
            },
            (Stage::Subdir { dirs, index }, LocatorEvent::Probed(exists)) => {
                assert(index < dirs.len());
                assert(dirs.deep_view()[index as int] == dirs[index as int]@);
                let place = join_path(dirs[index].as_str(), EXECUTABLE_NAME);
                self.look_at(place.clone());
                if exists {
                    let to = self.layout.target();
                    self.stage = Stage::Relocate { dirs, index };
                    self.installer = installer;
                    LocatorAction::Copy { from: place, to }
                } else {
                    self.try_subdir(installer, dirs, index + 1)
                }
            },
            (Stage::Relocate { dirs, index }, LocatorEvent::Copied(copied)) => match copied {
                Ok(_) => self.end_download(installer, true),
                Err(e) => {
                    assert(index < dirs.len());
                    assert(dirs.deep_view()[index as int] == dirs[index as int]@);
                    let from = join_path(dirs[index].as_str(), EXECUTABLE_NAME);
                    self.note(render_copy_failure(from.as_str(), e.as_str()));
                    self.try_subdir(installer, dirs, index + 1)
                },
            },
            (Stage::Discard { success }, LocatorEvent::FileRemoved(outcome)) => {
                match outcome {
                    RemoveOutcome::Failed(e) => {
                        self.note(concat2("Falha ao remover instalador temporário: ", e.as_str()));
                    },
                    _ => {},
                }
                self.proceed(success)
            },
            (Stage::Verify, LocatorEvent::Probed(exists)) => {
                if exists {
                    let path = self.layout.target();
                    self.found(path)
                } else {
                    self.fall_back(
                        installer,
                        "Instalação concluída mas executável não encontrado".to_string(),
                    )
                }
            },
            (Stage::SearchPath, LocatorEvent::SearchPath(path)) => match path {
                Some(text) => {
                    let entries = split(text.as_str(), SEARCH_PATH_SEPARATOR);
                    self.try_path_entry(entries, 0)
                },
                None => self.give_up("AutoHotkey not found in PATH or other locations".to_string()),
            },
            (Stage::PathEntry { entries, index }, LocatorEvent::Probed(exists)) => {
                assert(index < entries.len());
                assert(entries.deep_view()[index as int] == entries[index as int]@);
                let place = join_path(entries[index].as_str(), EXECUTABLE_NAME);
                self.look_at(place.clone());
                if exists {
                    let to = self.layout.target();
                    self.stage = Stage::PathCopy { entries, index };
                    LocatorAction::Copy { from: place, to }
                } else {
                    self.try_path_entry(entries, index + 1)
                }
            },
            (Stage::PathCopy { entries, index }, LocatorEvent::Copied(copied)) => match copied {
                Ok(_) => {
                    let path = self.layout.target();
                    self.found(path)
                },
                Err(e) => {
                    assert(index < entries.len());
                    assert(entries.deep_view()[index as int] == entries[index as int]@);
                    let from = join_path(entries[index].as_str(), EXECUTABLE_NAME);
                    self.note(render_copy_failure(from.as_str(), e.as_str()));
                    self.try_path_entry(entries, index + 1)
                },
            },
            (stage, event) => {
                self.stage = stage;
                self.installer = installer;
                LocatorAction::Rejected(event)
            },
        };
        proof {
            use_type_invariant(&*self);
        }
        action
    }
}

/// Whether nothing that was known at `before` is lost at `after`: what had
/// gone wrong and the places that had been looked at are the first of those
/// at `after`, in their order.
pub open spec fn causes_grow(before: LocatorView, after: LocatorView) -> bool {
    &&& before.causes.len() <= after.causes.len()
    &&& forall|j: int| 0 <= j < before.causes.len() ==> #[trigger] after.causes[j] == before.causes[j]
    &&& before.searched.len() <= after.searched.len()
    &&& forall|j: int|
        0 <= j < before.searched.len() ==> #[trigger] after.searched[j] == before.searched[j]
    &&& after.layout == before.layout
}

/// Every move leads from a well-formed search to a well-formed one, and no
/// move forgets anything that has gone wrong or any place that was looked
/// at.
pub proof fn lemma_step_preserves_wf(s: LocatorView, event: LocatorEventView)
    requires
        s.wf(),
    ensures
        locator_step(s, event).0.wf(),
        causes_grow(s, locator_step(s, event).0),
{
    if s.stage is SearchPath && event is SearchPath && event->SearchPath_0 is Some {
        crate::text::lemma_split_on_nonempty(event->SearchPath_0->0, SEARCH_PATH_SEPARATOR);
    }
    let next = locator_step(s, event).0;
    assert(causes_grow(s, next));
    if let Some(cause) = next.download_failure {
        if next.download_failure == s.download_failure {
            let j = choose|j: int| 0 <= j < s.causes.len() && s.causes[j] == cause;
            assert(next.causes[j] == cause);
        } else {
            assert(next.causes[next.causes.len() - 1] == cause);
        }
    }
}

/// Whether `event` tells a search that waits for the download or for the
/// installer that it has failed.
pub open spec fn download_fails(s: LocatorView, event: LocatorEventView) -> bool {
    match (s.stage, event) {
        (StageView::Fetch { .. }, LocatorEventView::Fetched(Err(_))) => true,
        (StageView::Fetch { .. }, LocatorEventView::Fetched(Ok(status))) => !is_success(
            status.code,
        ),
        (StageView::Installer, LocatorEventView::InstallerExited(Err(_))) => true,
        (StageView::Installer, LocatorEventView::InstallerExited(Ok(exit))) => !exit.success,
        _ => false,
    }
}

/// When download and install fail, the search does not end: what failed is
/// kept as a cause, the installer's file is deleted if there is one, and the
/// search goes on with the executable search path. This holds of a request
/// that fails, of a response whose status is not a success, and of an
/// installer that cannot be run or ends with a failure.
pub proof fn lemma_failed_download_falls_back(
    s: LocatorView,
    event: LocatorEventView,
    removed: RemoveOutcomeView,
)
    requires
        download_fails(s, event),
    ensures
        ({
            let (next, action) = locator_step(s, event);
            &&& next.download_failure matches Some(cause) && next.causes == s.causes.push(cause)
            &&& match s.installer {
                Some(path) => action == LocatorActionView::RemoveFile(path) && locator_step(
                    next,
                    LocatorEventView::FileRemoved(removed),
                ).1 == LocatorActionView::ReadSearchPath,
                None => action == LocatorActionView::ReadSearchPath,
            }
        }),
{
}

/// An aggregated failure holds each of its places behind a bullet and each
/// of its causes.
pub proof fn lemma_aggregate_holds_everything(paths: Seq<Seq<char>>, causes: Seq<Seq<char>>)
    ensures
        forall|i: int|
            0 <= i < paths.len() ==> contains_text(
                aggregate_failure(paths, causes),
                "  - "@ + #[trigger] paths[i],
            ),
        forall|j: int|
            0 <= j < causes.len() ==> contains_text(
                aggregate_failure(paths, causes),
                #[trigger] causes[j],
            ),
{
    let head =
        "AutoHotkey V2 não encontrado e falha na instalação automática.\n\nVerificados os seguintes caminhos:\n"@;
    let middle = "\n\nErro de instalação: "@;
    let tail =
        "\n\nPor favor, instale manualmente o AutoHotkey V2 ou verifique as permissões de administrador."@;
    let list = bullet_list(paths);
    let why = joined_with(causes, cause_separator());
    let whole = aggregate_failure(paths, causes);
    assert forall|i: int| 0 <= i < paths.len() implies contains_text(
        whole,
        "  - "@ + #[trigger] paths[i],
    ) by {
        lemma_bullet_list_holds_item(paths, i);
        lemma_contains_in_context(head, list, middle + why + tail, "  - "@ + paths[i]);
        assert(head + list + (middle + why + tail) =~= whole);
    }
    assert forall|j: int| 0 <= j < causes.len() implies contains_text(
        whole,
        #[trigger] causes[j],
    ) by {
        lemma_joined_holds_item(causes, cause_separator(), j);
        lemma_contains_in_context(head + list + middle, why, tail, causes[j]);
        assert(head + list + middle + why + tail =~= whole);
    }
}

/// The failure that ends a search tells everything: each well-known place
/// and each other place that was looked at stands in it behind a bullet,
/// and so does everything that went wrong, the cause for which download and
/// install failed among them.
pub proof fn lemma_failure_tells_everything(s: LocatorView, event: LocatorEventView)
    requires
        s.wf(),
        locator_step(s, event).1 matches LocatorActionView::Done(Err(_)),
    ensures
        ({
            let (end, action) = locator_step(s, event);
            let message = action->Done_0->Err_0;
            &&& message == aggregate_failure(end.paths_tried(), end.causes)
            &&& forall|i: int|
                0 <= i < end.layout.candidates.len() ==> contains_text(
                    message,
                    "  - "@ + #[trigger] end.layout.candidates[i],
                )
            &&& forall|i: int|
                0 <= i < end.searched.len() ==> contains_text(
                    message,
                    "  - "@ + #[trigger] end.searched[i],
                )
            &&& forall|j: int|
                0 <= j < end.causes.len() ==> contains_text(message, #[trigger] end.causes[j])
            &&& causes_grow(s, end)
            &&& end.download_failure == s.download_failure
            &&& end.download_failure matches Some(cause) ==> contains_text(message, cause)
        }),
{
    let (end, action) = locator_step(s, event);
    let paths = end.paths_tried();
    lemma_aggregate_holds_everything(paths, end.causes);
    assert forall|i: int| 0 <= i < end.layout.candidates.len() implies contains_text(
        action->Done_0->Err_0,
        "  - "@ + #[trigger] end.layout.candidates[i],
    ) by {
        assert(paths[i] == end.layout.candidates[i]);
    }
    assert forall|i: int| 0 <= i < end.searched.len() implies contains_text(
        action->Done_0->Err_0,
        "  - "@ + #[trigger] end.searched[i],
    ) by {
        assert(paths[end.layout.candidates.len() + i] == end.searched[i]);
    }
    lemma_step_preserves_wf(s, event);
    if let Some(cause) = end.download_failure {
        let j = choose|j: int| 0 <= j < end.causes.len() && end.causes[j] == cause;
        assert(contains_text(action->Done_0->Err_0, end.causes[j]));
    }
}

/// The installer's file does not outlast download and install: while the
/// search holds its path, download and install are under way, and the move
/// that ends them, however they end, hands the file over for deletion and
/// lets go of the path.
pub proof fn lemma_installer_is_removed(s: LocatorView, event: LocatorEventView)
    requires
        s.wf(),
        s.installer is Some,
    ensures
        s.stage.downloading(),
        ({
            let (next, action) = locator_step(s, event);
            if next.stage.downloading() {
                next.installer == s.installer
            } else {
                next.installer is None && next.stage == (StageView::Discard {
                    success: next.stage->Discard_success,
                }) && action == LocatorActionView::RemoveFile(s.installer->0)
            }
        }),
{
}

/// A search that ends without an interpreter has looked at every
/// well-known place and found none there.
pub proof fn lemma_failure_has_tried_every_candidate(s: LocatorView, event: LocatorEventView)
    requires
        s.wf(),
        locator_step(s, event).1 matches LocatorActionView::Done(Err(_)),
    ensures
        locator_step(s, event).0.tried_in_vain(s.layout.candidates.len() as int),
{
}

/// The search after the host has reported `events` one after the other,
/// and the actions that it was given in answer.
pub open spec fn locator_run(s: LocatorView, events: Seq<LocatorEventView>) -> (
    LocatorView,
    Seq<LocatorActionView>,
)
    decreases events.len(),
{
    if events.len() == 0 {
        (s, Seq::empty())
    } else {
        let (mid, actions) = locator_run(s, events.drop_last());
        let (next, action) = locator_step(mid, events.last());
        (next, actions.push(action))
    }
}

/// The reports of a host that finds nothing at the first `k` well-known
/// places.
pub open spec fn nothing_at_first(k: nat) -> Seq<LocatorEventView> {
    Seq::new(k, |i: int| LocatorEventView::Probed(false))
}

/// While the host finds nothing, the well-known places are looked at one
/// after the other, in their order.
pub proof fn lemma_candidates_are_tried_in_order(layout: LayoutView, k: nat)
    requires
        k < layout.candidates.len(),
    ensures
        ({
            let (first, action) = search_step(layout);
            let (s, actions) = locator_run(first, nothing_at_first(k));
            &&& s.stage == StageView::Candidate { index: k as int }
            &&& s.layout == layout
            &&& s.tried_in_vain(k as int)
            &&& (seq![action] + actions).len() == k + 1
            &&& forall|i: int|
                0 <= i <= k ==> (#[trigger] (seq![action] + actions)[i])
                    == LocatorActionView::Probe(layout.candidates[i])
        }),
    decreases k,
{
    if k > 0 {
        lemma_candidates_are_tried_in_order(layout, (k - 1) as nat);
        let (first, action) = search_step(layout);
        let events = nothing_at_first(k);
        assert(events.drop_last() =~= nothing_at_first((k - 1) as nat));
        let before = locator_run(first, events.drop_last()).1;
        let actions = locator_run(first, events).1;
        assert(seq![action] + actions =~= (seq![action] + before).push(
            LocatorActionView::Probe(layout.candidates[k as int]),
        ));
    }
}

/// The first well-known place that holds the interpreter is the result of
/// the search: with nothing at the `k` places before it, the search ends
/// there with that place, it has looked at no place after it, and it has
/// asked for nothing but looks at these places.
pub proof fn lemma_first_existing_candidate_wins(layout: LayoutView, k: nat)
    requires
        k < layout.candidates.len(),
    ensures
        ({
            let (first, action) = search_step(layout);
            let (s, actions) = locator_run(
                first,
                nothing_at_first(k).push(LocatorEventView::Probed(true)),
            );
            &&& actions.last() == LocatorActionView::Done(Ok(layout.candidates[k as int]))
            &&& s.stage is Finished
            &&& s.tried.len() == k + 1
            &&& s.tried.last() == CandidateProbeView {
                path: layout.candidates[k as int],
                exists: true,
            }
            &&& forall|i: int|
                0 <= i < k ==> (#[trigger] actions[i]) == LocatorActionView::Probe(
                    layout.candidates[i + 1],
                )
        }),
{
    lemma_candidates_are_tried_in_order(layout, k);
    let (first, action) = search_step(layout);
    let events = nothing_at_first(k).push(LocatorEventView::Probed(true));
    assert(events.drop_last() =~= nothing_at_first(k));
    let before = locator_run(first, nothing_at_first(k)).1;
    let actions = locator_run(first, events).1;
    assert forall|i: int| 0 <= i < k implies (#[trigger] actions[i]) == LocatorActionView::Probe(
        layout.candidates[i + 1],
    ) by {
        assert(actions[i] == (seq![action] + before)[i + 1]);
    }
}

/// How far a search is from its end: the rank of its stage, which never
/// rises, and within the stages that walk a list, what is left of the list.
pub open spec fn distance(s: LocatorView) -> (nat, nat) {
    match s.stage {
        StageView::Candidate { index } => (14, (s.layout.candidates.len() - index) as nat),
        StageView::InstallDir => (13, 0),
        StageView::Bundled => (12, 0),
        StageView::TempFile => (11, 0),
        StageView::Fetch { .. } => (10, 0),
        StageView::Save { .. } => (9, 0),
        StageView::Installer => (8, 0),
        StageView::Installed => (7, 0),
        StageView::Subdirs => (6, 0),
        StageView::Subdir { dirs, index } => (5, (2 * (dirs.len() - index) + 1) as nat),
        StageView::Relocate { dirs, index } => (5, (2 * (dirs.len() - index)) as nat),
        StageView::Discard { .. } => (4, 0),
        StageView::Verify => (3, 0),
        StageView::SearchPath => (2, 0),
        StageView::PathEntry { entries, index } => (1, (2 * (entries.len() - index) + 1) as nat),
        StageView::PathCopy { entries, index } => (1, (2 * (entries.len() - index)) as nat),
        StageView::Finished => (0, 0),
    }
}

/// Whether the distance `a` is shorter than the distance `b`.
pub open spec fn shorter(a: (nat, nat), b: (nat, nat)) -> bool {
    a.0 < b.0 || (a.0 == b.0 && a.1 < b.1)
}

/// The search is a chain without retries: every event that is taken brings
/// it closer to its end, and no stage is ever gone back to. An event that is
/// not taken is handed back and leaves the search where it was.
pub proof fn lemma_search_never_turns_back(s: LocatorView, event: LocatorEventView)
    requires
        s.wf(),
    ensures
        locator_step(s, event).1 is Rejected ==> locator_step(s, event).0 == s,
        !(locator_step(s, event).1 is Rejected) ==> shorter(
            distance(locator_step(s, event).0),
            distance(s),
        ),
        locator_step(s, event).1 is Done <==> locator_step(s, event).0.stage is Finished
            && !(s.stage is Finished),
{
    if s.stage is SearchPath && event is SearchPath && event->SearchPath_0 is Some {
        crate::text::lemma_split_on_nonempty(event->SearchPath_0->0, SEARCH_PATH_SEPARATOR);
    }
}

} // verus!
