use virtual_io_hub::locator::{
    join_path, render_aggregate_failure, status_is_success, CandidateProbe, DependencyLocator,
    HttpStatus, InstallerExit, Layout, LocatorAction, LocatorEvent, SaveOutcome,
    EXECUTABLE_NAME, INSTALLER_URL,
};
use virtual_io_hub::protocol::RemoveOutcome;

const RES: &str = "C:\\app\\res";
const INSTALL_DIR: &str = "C:\\app\\res\\AutoHotkey\\v2";
const TARGET: &str = "C:\\app\\res\\AutoHotkey\\v2\\AutoHotkey64.exe";
const CANDIDATES: [&str; 4] = [
    "C:\\app\\res\\AutoHotkey\\v2\\AutoHotkey64.exe",
    "C:\\app\\res\\resources\\AutoHotkey\\v2\\AutoHotkey64.exe",
    "C:\\Program Files\\AutoHotkey\\v2\\AutoHotkey64.exe",
    "C:\\Program Files (x86)\\AutoHotkey\\v2\\AutoHotkey64.exe",
];

fn probe(path: &str) -> LocatorAction {
    LocatorAction::Probe(path.to_string())
}

fn found(path: &str) -> LocatorAction {
    LocatorAction::Done(Ok(path.to_string()))
}

const INSTALLER: &str = "C:\\tmp\\ahk.exe";
const NOT_ON_PATH: &str = "AutoHotkey not found in PATH or other locations";
const NOT_INSTALLED: &str = "Instalação concluída mas executável não encontrado";

/// The failure of a search below `RES` that has looked at `searched` beyond
/// the well-known places and met `causes`.
fn aggregate(searched: &[&str], causes: &[&str]) -> String {
    let mut lines: Vec<String> = CANDIDATES.iter().map(|c| format!("  - {}", c)).collect();
    for place in searched {
        lines.push(format!("  - {}", place));
    }
    format!(
        "AutoHotkey V2 não encontrado e falha na instalação automática.\n\nVerificados os seguintes caminhos:\n{}\n\nErro de instalação: {}\n\nPor favor, instale manualmente o AutoHotkey V2 ou verifique as permissões de administrador.",
        lines.join("\n"),
        causes.join("; ")
    )
}

fn removed() -> LocatorEvent {
    LocatorEvent::FileRemoved(RemoveOutcome::Removed)
}

fn remove_installer() -> LocatorAction {
    LocatorAction::RemoveFile(INSTALLER.to_string())
}

/// Takes a search whose download has just failed through the removal of the
/// installer to the request for the search path.
fn to_search_path(locator: &mut DependencyLocator, after_failure: LocatorAction) {
    assert_eq!(after_failure, remove_installer());
    assert_eq!(locator.resume(removed()), LocatorAction::ReadSearchPath);
}

/// A search in which no well-known place holds the interpreter and the
/// managed directory holds no earlier copy: it stands at the request for a
/// temporary file.
fn at_download() -> DependencyLocator {
    let (mut locator, first) = DependencyLocator::begin(Ok(RES.to_string()));
    assert_eq!(first, probe(CANDIDATES[0]));
    assert_eq!(locator.resume(LocatorEvent::Probed(false)), probe(CANDIDATES[1]));
    assert_eq!(locator.resume(LocatorEvent::Probed(false)), probe(CANDIDATES[2]));
    assert_eq!(locator.resume(LocatorEvent::Probed(false)), probe(CANDIDATES[3]));
    assert_eq!(
        locator.resume(LocatorEvent::Probed(false)),
        LocatorAction::CreateDirAll(INSTALL_DIR.to_string())
    );
    assert_eq!(locator.resume(LocatorEvent::DirReady(Ok(()))), probe(TARGET));
    assert_eq!(
        locator.resume(LocatorEvent::Probed(false)),
        LocatorAction::CreateTempFile {
            prefix: "ahk_v2_installer".to_string(),
            suffix: ".exe".to_string(),
        }
    );
    locator
}

/// The same search after the installer has been saved: it stands at the run
/// of the installer.
fn at_installer() -> DependencyLocator {
    let mut locator = at_download();
    assert_eq!(
        locator.resume(LocatorEvent::TempFileCreated(Ok(INSTALLER.to_string()))),
        LocatorAction::Fetch { url: INSTALLER_URL.to_string() }
    );
    assert_eq!(
        locator.resume(LocatorEvent::Fetched(Ok(HttpStatus {
            code: 200,
            line: "200 OK".to_string(),
        }))),
        LocatorAction::SaveBody { path: INSTALLER.to_string() }
    );
    assert_eq!(
        locator.resume(LocatorEvent::BodySaved(SaveOutcome::Saved)),
        LocatorAction::RunInstaller {
            program: INSTALLER.to_string(),
            args: vec!["/S".to_string(), "/D=".to_string(), INSTALL_DIR.to_string()],
        }
    );
    locator
}

fn installer_ok() -> LocatorEvent {
    LocatorEvent::InstallerExited(Ok(InstallerExit { success: true, stderr: String::new() }))
}

#[test]
fn constants_name_the_interpreter() {
    assert_eq!(EXECUTABLE_NAME, "AutoHotkey64.exe");
    assert_eq!(INSTALLER_URL, "https://www.autohotkey.com/download/ahk-v2.exe");
}

#[test]
fn paths_are_joined_with_one_separator() {
    assert_eq!(join_path("C:\\a", "b.exe"), "C:\\a\\b.exe");
    assert_eq!(join_path("C:\\a\\", "b.exe"), "C:\\a\\b.exe");
    assert_eq!(join_path("C:/a/", "b.exe"), "C:/a/b.exe");
    assert_eq!(join_path("", "b.exe"), "b.exe");
    assert_eq!(join_path("çã", ""), "çã\\");
}

#[test]
fn layout_lists_the_well_known_places() {
    let layout = Layout::new(RES);
    assert_eq!(layout.candidates, CANDIDATES.iter().map(|c| c.to_string()).collect::<Vec<_>>());
    assert_eq!(layout.install_dir, INSTALL_DIR);
    assert_eq!(layout.target(), TARGET);
}

#[test]
fn success_is_any_status_from_200_to_299() {
    assert!(!status_is_success(199));
    assert!(status_is_success(200));
    assert!(status_is_success(204));
    assert!(status_is_success(299));
    assert!(!status_is_success(300));
    assert!(!status_is_success(404));
    assert!(!status_is_success(0));
    assert!(!status_is_success(u16::MAX));
}

#[test]
fn unknown_resource_directory_ends_the_search() {
    let (mut locator, first) = DependencyLocator::begin(Err("unknown path".to_string()));
    assert_eq!(
        first,
        LocatorAction::Done(Err("Falha ao obter diretório de recursos: unknown path".to_string()))
    );
    assert!(locator.is_finished());
    assert_eq!(
        locator.resume(LocatorEvent::Probed(true)),
        LocatorAction::Rejected(LocatorEvent::Probed(true))
    );
}

#[test]
fn first_existing_candidate_wins() {
    let (mut locator, first) = DependencyLocator::begin(Ok(RES.to_string()));
    assert_eq!(first, probe(CANDIDATES[0]));
    assert_eq!(locator.resume(LocatorEvent::Probed(true)), found(CANDIDATES[0]));
    assert!(locator.is_finished());

    let (mut locator, _) = DependencyLocator::begin(Ok(RES.to_string()));
    assert!(locator.tried().is_empty());
    locator.resume(LocatorEvent::Probed(false));
    locator.resume(LocatorEvent::Probed(false));
    assert_eq!(locator.resume(LocatorEvent::Probed(true)), found(CANDIDATES[2]));
    assert_eq!(locator.candidates().len(), 4);
    assert_eq!(locator.download_failure(), &None);
    assert_eq!(
        locator.tried(),
        &vec![
            CandidateProbe { path: CANDIDATES[0].to_string(), exists: false },
            CandidateProbe { path: CANDIDATES[1].to_string(), exists: false },
            CandidateProbe { path: CANDIDATES[2].to_string(), exists: true },
        ]
    );
}

#[test]
fn a_failed_search_has_tried_every_candidate() {
    let mut locator = at_download();
    locator.resume(LocatorEvent::TempFileCreated(Err("x".to_string())));
    assert!(matches!(
        locator.resume(LocatorEvent::SearchPath(None)),
        LocatorAction::Done(Err(_))
    ));
    assert!(locator.searched().is_empty());
    let expected: Vec<CandidateProbe> = CANDIDATES
        .iter()
        .map(|c| CandidateProbe { path: c.to_string(), exists: false })
        .collect();
    assert_eq!(locator.tried(), &expected);
}

#[test]
fn a_search_without_candidates_begins_with_the_installation() {
    let layout = Layout { candidates: vec![], install_dir: "D:\\m".to_string() };
    let (mut locator, first) = DependencyLocator::search(layout);
    assert_eq!(first, LocatorAction::CreateDirAll("D:\\m".to_string()));
    assert_eq!(
        locator.resume(LocatorEvent::DirReady(Ok(()))),
        probe("D:\\m\\AutoHotkey64.exe")
    );
    assert_eq!(locator.resume(LocatorEvent::Probed(true)), found("D:\\m\\AutoHotkey64.exe"));
}

#[test]
fn install_directory_failure_is_aggregated() {
    let (mut locator, _) = DependencyLocator::begin(Ok(RES.to_string()));
    for _ in 0..4 {
        locator.resume(LocatorEvent::Probed(false));
    }
    assert_eq!(
        locator.resume(LocatorEvent::DirReady(Err("access denied".to_string()))),
        LocatorAction::Done(Err(aggregate(
            &[],
            &["Falha ao criar diretório de instalação: access denied"]
        )))
    );
    assert!(locator.is_finished());
    assert_eq!(
        locator.causes(),
        &vec!["Falha ao criar diretório de instalação: access denied".to_string()]
    );
}

#[test]
fn installed_interpreter_is_found_and_verified() {
    let mut locator = at_installer();
    assert_eq!(locator.resume(installer_ok()), probe(TARGET));
    assert_eq!(locator.resume(LocatorEvent::Probed(true)), remove_installer());
    assert_eq!(locator.resume(removed()), probe(TARGET));
    assert_eq!(locator.resume(LocatorEvent::Probed(true)), found(TARGET));
    assert_eq!(locator.download_failure(), &None);
    assert!(locator.causes().is_empty());
}

#[test]
fn misplaced_interpreter_is_relocated() {
    let mut locator = at_installer();
    locator.resume(installer_ok());
    assert_eq!(
        locator.resume(LocatorEvent::Probed(false)),
        LocatorAction::ListSubdirs(INSTALL_DIR.to_string())
    );
    let dirs = vec![format!("{}\\docs", INSTALL_DIR), format!("{}\\bin", INSTALL_DIR)];
    assert_eq!(
        locator.resume(LocatorEvent::Listed(Ok(dirs))),
        probe("C:\\app\\res\\AutoHotkey\\v2\\docs\\AutoHotkey64.exe")
    );
    assert_eq!(
        locator.resume(LocatorEvent::Probed(false)),
        probe("C:\\app\\res\\AutoHotkey\\v2\\bin\\AutoHotkey64.exe")
    );
    assert_eq!(
        locator.resume(LocatorEvent::Probed(true)),
        LocatorAction::Copy {
            from: "C:\\app\\res\\AutoHotkey\\v2\\bin\\AutoHotkey64.exe".to_string(),
            to: TARGET.to_string(),
        }
    );
    assert_eq!(locator.resume(LocatorEvent::Copied(Ok(()))), remove_installer());
    assert_eq!(locator.resume(removed()), probe(TARGET));
    assert_eq!(locator.resume(LocatorEvent::Probed(true)), found(TARGET));
    assert_eq!(
        locator.searched(),
        &vec![
            "C:\\app\\res\\AutoHotkey\\v2\\docs\\AutoHotkey64.exe".to_string(),
            "C:\\app\\res\\AutoHotkey\\v2\\bin\\AutoHotkey64.exe".to_string(),
        ]
    );
}

#[test]
fn failed_relocation_is_kept_and_the_next_subdirectory_tried() {
    let mut locator = at_installer();
    locator.resume(installer_ok());
    locator.resume(LocatorEvent::Probed(false));
    let dirs = vec!["C:\\m\\a".to_string(), "C:\\m\\b".to_string()];
    locator.resume(LocatorEvent::Listed(Ok(dirs)));
    assert!(matches!(locator.resume(LocatorEvent::Probed(true)), LocatorAction::Copy { .. }));
    assert_eq!(
        locator.resume(LocatorEvent::Copied(Err("denied".to_string()))),
        probe("C:\\m\\b\\AutoHotkey64.exe")
    );
    let after = locator.resume(LocatorEvent::Probed(false));
    to_search_path(&mut locator, after);
    assert_eq!(locator.download_failure(), &Some(NOT_INSTALLED.to_string()));
    assert_eq!(
        locator.causes(),
        &vec![
            "Falha ao copiar C:\\m\\a\\AutoHotkey64.exe: denied".to_string(),
            NOT_INSTALLED.to_string(),
        ]
    );
    assert_eq!(
        locator.resume(LocatorEvent::SearchPath(None)),
        LocatorAction::Done(Err(aggregate(
            &["C:\\m\\a\\AutoHotkey64.exe", "C:\\m\\b\\AutoHotkey64.exe"],
            &[
                "Falha ao copiar C:\\m\\a\\AutoHotkey64.exe: denied",
                NOT_INSTALLED,
                NOT_ON_PATH,
            ]
        )))
    );
}

#[test]
fn unlistable_directory_is_kept_as_a_cause() {
    let mut locator = at_installer();
    locator.resume(installer_ok());
    locator.resume(LocatorEvent::Probed(false));
    let after = locator.resume(LocatorEvent::Listed(Err("denied".to_string())));
    to_search_path(&mut locator, after);
    assert_eq!(locator.download_failure(), &Some(NOT_INSTALLED.to_string()));
    assert_eq!(
        locator.causes(),
        &vec![
            "Falha ao listar diretório de instalação: denied".to_string(),
            NOT_INSTALLED.to_string(),
        ]
    );

    let mut locator = at_installer();
    locator.resume(installer_ok());
    locator.resume(LocatorEvent::Probed(false));
    let after = locator.resume(LocatorEvent::Listed(Ok(vec![])));
    to_search_path(&mut locator, after);
    assert_eq!(locator.causes(), &vec![NOT_INSTALLED.to_string()]);
}

#[test]
fn verification_failure_falls_back() {
    let mut locator = at_installer();
    locator.resume(installer_ok());
    assert_eq!(locator.resume(LocatorEvent::Probed(true)), remove_installer());
    assert_eq!(locator.resume(removed()), probe(TARGET));
    assert_eq!(locator.resume(LocatorEvent::Probed(false)), LocatorAction::ReadSearchPath);
    assert_eq!(locator.download_failure(), &Some(NOT_INSTALLED.to_string()));
}

#[test]
fn installer_is_removed_however_the_download_ends() {
    let mut locator = at_download();
    locator.resume(LocatorEvent::TempFileCreated(Ok(INSTALLER.to_string())));
    assert_eq!(
        locator.resume(LocatorEvent::Fetched(Err("dns error".to_string()))),
        remove_installer()
    );
    assert_eq!(
        locator.resume(LocatorEvent::Probed(true)),
        LocatorAction::Rejected(LocatorEvent::Probed(true))
    );
    assert_eq!(
        locator.resume(LocatorEvent::FileRemoved(RemoveOutcome::Missing)),
        LocatorAction::ReadSearchPath
    );

    let mut locator = at_installer();
    assert_eq!(
        locator.resume(LocatorEvent::InstallerExited(Err("not executable".to_string()))),
        remove_installer()
    );
    assert_eq!(
        locator.resume(LocatorEvent::FileRemoved(RemoveOutcome::Failed("in use".to_string()))),
        LocatorAction::ReadSearchPath
    );
    assert_eq!(
        locator.causes(),
        &vec![
            "Falha ao executar instalador: not executable".to_string(),
            "Falha ao remover instalador temporário: in use".to_string(),
        ]
    );
    assert_eq!(
        locator.download_failure(),
        &Some("Falha ao executar instalador: not executable".to_string())
    );
}

#[test]
fn every_download_failure_falls_back_to_the_search_path() {
    let mut locator = at_download();
    assert_eq!(
        locator.resume(LocatorEvent::TempFileCreated(Err("disk full".to_string()))),
        LocatorAction::ReadSearchPath
    );
    assert_eq!(
        locator.download_failure(),
        &Some("Falha ao criar arquivo temporário para download: disk full".to_string())
    );

    let mut locator = at_download();
    locator.resume(LocatorEvent::TempFileCreated(Ok(INSTALLER.to_string())));
    let after = locator.resume(LocatorEvent::Fetched(Err("dns error".to_string())));
    to_search_path(&mut locator, after);
    assert_eq!(
        locator.download_failure(),
        &Some("Falha na requisição HTTP: dns error".to_string())
    );

    for (code, line) in [(404u16, "404 Not Found"), (500, "500 Internal Server Error"), (302, "302 Found")] {
        let mut locator = at_download();
        locator.resume(LocatorEvent::TempFileCreated(Ok(INSTALLER.to_string())));
        let after =
            locator.resume(LocatorEvent::Fetched(Ok(HttpStatus { code, line: line.to_string() })));
        to_search_path(&mut locator, after);
        assert_eq!(
            locator.download_failure(),
            &Some(format!("Falha no download: Status HTTP {}", line))
        );
    }

    let saves = [
        (SaveOutcome::ReadFailed("reset".to_string()), "Falha ao ler dados da resposta: reset"),
        (SaveOutcome::CreateFailed("denied".to_string()), "Falha ao criar arquivo: denied"),
        (SaveOutcome::WriteFailed("full".to_string()), "Falha ao escrever arquivo: full"),
    ];
    for (outcome, text) in saves {
        let mut locator = at_download();
        locator.resume(LocatorEvent::TempFileCreated(Ok(INSTALLER.to_string())));
        locator.resume(LocatorEvent::Fetched(Ok(HttpStatus { code: 200, line: "200 OK".to_string() })));
        let after = locator.resume(LocatorEvent::BodySaved(outcome));
        to_search_path(&mut locator, after);
        assert_eq!(locator.download_failure(), &Some(text.to_string()));
    }

    let mut locator = at_installer();
    let after = locator.resume(LocatorEvent::InstallerExited(Err("not executable".to_string())));
    to_search_path(&mut locator, after);
    assert_eq!(
        locator.download_failure(),
        &Some("Falha ao executar instalador: not executable".to_string())
    );

    let mut locator = at_installer();
    let after = locator.resume(LocatorEvent::InstallerExited(Ok(InstallerExit {
        success: false,
        stderr: "needs admin".to_string(),
    })));
    to_search_path(&mut locator, after);
    assert_eq!(locator.download_failure(), &Some("Falha na instalação: needs admin".to_string()));
}

#[test]
fn unreachable_download_and_empty_search_path_give_the_aggregated_failure() {
    let mut locator = at_download();
    locator.resume(LocatorEvent::TempFileCreated(Ok(INSTALLER.to_string())));
    let after = locator.resume(LocatorEvent::Fetched(Err("connection refused".to_string())));
    to_search_path(&mut locator, after);
    assert_eq!(
        locator.resume(LocatorEvent::SearchPath(Some("C:\\Windows;C:\\Tools".to_string()))),
        probe("C:\\Windows\\AutoHotkey64.exe")
    );
    assert_eq!(locator.resume(LocatorEvent::Probed(false)), probe("C:\\Tools\\AutoHotkey64.exe"));
    let ended = locator.resume(LocatorEvent::Probed(false));
    assert_eq!(
        ended,
        LocatorAction::Done(Err(aggregate(
            &["C:\\Windows\\AutoHotkey64.exe", "C:\\Tools\\AutoHotkey64.exe"],
            &["Falha na requisição HTTP: connection refused", NOT_ON_PATH]
        )))
    );
    if let LocatorAction::Done(Err(message)) = ended {
        for candidate in CANDIDATES {
            assert!(message.contains(&format!("  - {}", candidate)));
        }
        assert!(message.contains("  - C:\\Windows\\AutoHotkey64.exe"));
        assert!(message.contains("  - C:\\Tools\\AutoHotkey64.exe"));
        assert!(message.contains("connection refused"));
        assert!(message.contains(NOT_ON_PATH));
        assert_ne!(message, NOT_ON_PATH);
    }
    assert!(locator.is_finished());
}

#[test]
fn unset_search_path_gives_the_aggregated_failure() {
    let mut locator = at_download();
    locator.resume(LocatorEvent::TempFileCreated(Err("x".to_string())));
    assert_eq!(
        locator.resume(LocatorEvent::SearchPath(None)),
        LocatorAction::Done(Err(aggregate(
            &[],
            &["Falha ao criar arquivo temporário para download: x", NOT_ON_PATH]
        )))
    );
}

#[test]
fn interpreter_on_the_search_path_is_copied_in() {
    let mut locator = at_download();
    locator.resume(LocatorEvent::TempFileCreated(Err("x".to_string())));
    assert_eq!(
        locator.resume(LocatorEvent::SearchPath(Some(";C:\\Tools\\;D:\\ahk".to_string()))),
        probe("AutoHotkey64.exe")
    );
    assert_eq!(locator.resume(LocatorEvent::Probed(false)), probe("C:\\Tools\\AutoHotkey64.exe"));
    assert_eq!(
        locator.resume(LocatorEvent::Probed(true)),
        LocatorAction::Copy {
            from: "C:\\Tools\\AutoHotkey64.exe".to_string(),
            to: TARGET.to_string(),
        }
    );
    assert_eq!(
        locator.resume(LocatorEvent::Copied(Err("denied".to_string()))),
        probe("D:\\ahk\\AutoHotkey64.exe")
    );
    assert!(matches!(locator.resume(LocatorEvent::Probed(true)), LocatorAction::Copy { .. }));
    assert_eq!(locator.resume(LocatorEvent::Copied(Ok(()))), found(TARGET));
    assert!(locator.is_finished());
    assert_eq!(
        locator.causes(),
        &vec![
            "Falha ao criar arquivo temporário para download: x".to_string(),
            "Falha ao copiar C:\\Tools\\AutoHotkey64.exe: denied".to_string(),
        ]
    );
}

#[test]
fn a_failed_copy_from_the_search_path_is_reported() {
    let mut locator = at_download();
    locator.resume(LocatorEvent::TempFileCreated(Err("x".to_string())));
    locator.resume(LocatorEvent::SearchPath(Some("C:\\Tools".to_string())));
    locator.resume(LocatorEvent::Probed(true));
    assert_eq!(
        locator.resume(LocatorEvent::Copied(Err("access is denied".to_string()))),
        LocatorAction::Done(Err(aggregate(
            &["C:\\Tools\\AutoHotkey64.exe"],
            &[
                "Falha ao criar arquivo temporário para download: x",
                "Falha ao copiar C:\\Tools\\AutoHotkey64.exe: access is denied",
                NOT_ON_PATH,
            ]
        )))
    );
}

#[test]
fn locator_hands_back_events_that_answer_nothing() {
    let (mut locator, _) = DependencyLocator::begin(Ok(RES.to_string()));
    assert_eq!(
        locator.resume(LocatorEvent::Copied(Ok(()))),
        LocatorAction::Rejected(LocatorEvent::Copied(Ok(())))
    );
    assert_eq!(
        locator.resume(LocatorEvent::SearchPath(None)),
        LocatorAction::Rejected(LocatorEvent::SearchPath(None))
    );
    assert_eq!(locator.resume(removed()), LocatorAction::Rejected(removed()));
    assert!(!locator.is_finished());
    assert_eq!(locator.resume(LocatorEvent::Probed(false)), probe(CANDIDATES[1]));
}

#[test]
fn aggregated_failure_is_spelled_out() {
    assert_eq!(
        render_aggregate_failure(
            &vec!["a".to_string(), "b".to_string()],
            &vec!["first".to_string(), "second".to_string()]
        ),
        "AutoHotkey V2 não encontrado e falha na instalação automática.\n\nVerificados os seguintes caminhos:\n  - a\n  - b\n\nErro de instalação: first; second\n\nPor favor, instale manualmente o AutoHotkey V2 ou verifique as permissões de administrador."
    );
    assert_eq!(
        render_aggregate_failure(&vec![], &vec![]),
        "AutoHotkey V2 não encontrado e falha na instalação automática.\n\nVerificados os seguintes caminhos:\n\n\nErro de instalação: \n\nPor favor, instale manualmente o AutoHotkey V2 ou verifique as permissões de administrador."
    );
}
