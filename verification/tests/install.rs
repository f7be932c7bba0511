use midna::aur::Aur;
use midna::errors::AurError;
use midna::errors::Stage;
use midna::pipeline::select_artifact;
use midna::pipeline::Action;
use midna::pipeline::Event;
use midna::pipeline::Pipeline;
use midna::pipeline::PipelineState;

const DATA: &str = "/home/u/.local/share";

fn start(verbose: bool) -> Pipeline {
    Aur::new().install_package(DATA, "foo", verbose)
}

#[test]
fn pipeline_starts_with_source_check() {
    let p = start(false);
    match p.next_action() {
        Some(Action::CheckSource { dir }) => assert_eq!(dir, "/home/u/.local/share/midna/foo"),
        _ => panic!("a fresh pipeline must first check the source directory"),
    }
}

#[test]
fn existing_source_skips_clone() {
    let mut p = start(false);
    p.step(Event::SourceChecked { exists: true });
    match p.next_action() {
        Some(Action::RunBuild { dir, verbose }) => {
            assert_eq!(dir, "/home/u/.local/share/midna/foo");
            assert!(!verbose);
        },
        _ => panic!("an existing source directory must go straight to the build"),
    }
}

#[test]
fn missing_source_clones_once() {
    let mut p = start(true);
    p.step(Event::SourceChecked { exists: false });
    match p.next_action() {
        Some(Action::CloneRepo { url, dest }) => {
            assert_eq!(url, "https://aur.archlinux.org/foo.git");
            assert_eq!(dest, "/home/u/.local/share/midna/foo");
        },
        _ => panic!("a missing source directory must be cloned"),
    }
}

#[test]
fn clone_decision_is_idempotent() {
    let aur = Aur::new();
    match aur.clone_package(DATA, "foo", false) {
        Some(Action::CloneRepo { url, dest }) => {
            assert_eq!(url, "https://aur.archlinux.org/foo.git");
            assert_eq!(dest, "/home/u/.local/share/midna/foo");
        },
        _ => panic!("the first fetch of an absent package must clone"),
    }
    // After the clone the directory exists: the second fetch is a no-op.
    assert!(aur.clone_package(DATA, "foo", true).is_none());
}

#[test]
fn clone_failure_stops_the_fetch() {
    let mut p = start(false);
    p.step(Event::SourceChecked { exists: false });
    p.step(Event::CloneFinished { ok: false, detail: String::from("no such repository") });
    assert!(p.next_action().is_none());
    match p.failure() {
        Some(AurError::CloneError { detail }) => assert_eq!(detail, "no such repository"),
        _ => panic!("a clone failure must be reported as CloneError"),
    }
    match &p.state {
        PipelineState::Failed { stage, .. } => assert_eq!(*stage, Stage::Fetching),
        _ => panic!("a clone failure must stop at the Fetching stage"),
    }
}

#[test]
fn happy_path_installs_the_single_match() {
    let mut p = start(false);
    p.step(Event::SourceChecked { exists: false });
    p.step(Event::CloneFinished { ok: true, detail: String::new() });
    match p.next_action() {
        Some(Action::RunBuild { dir, .. }) => assert_eq!(dir, "/home/u/.local/share/midna/foo"),
        _ => panic!("after the clone comes the build"),
    }
    p.step(Event::BuildFinished { exit_ok: true, detail: String::new() });
    match p.next_action() {
        Some(Action::FindArtifacts { pattern }) => {
            assert_eq!(pattern, "/home/u/.local/share/midna/foo/foo-*.pkg.tar.xz")
        },
        _ => panic!("after the build the artifact is located"),
    }
    let artifact = String::from("/home/u/.local/share/midna/foo/foo-1.0-1.pkg.tar.xz");
    p.step(Event::ArtifactsFound { matches: vec![artifact.clone()] });
    match p.next_action() {
        Some(Action::RunInstall { artifact: a, verbose }) => {
            // Exactly the one matched file reaches the install stage.
            assert_eq!(a, artifact);
            assert!(!verbose);
        },
        _ => panic!("a located artifact must be installed"),
    }
    p.step(Event::InstallFinished { exit_ok: true, detail: String::new() });
    assert!(p.next_action().is_none());
    assert!(p.failure().is_none());
    assert!(matches!(p.state, PipelineState::Done));
}

#[test]
fn build_failure_reports_build_error_and_blocks_install() {
    let mut p = start(false);
    p.step(Event::SourceChecked { exists: true });
    p.step(Event::BuildFinished { exit_ok: false, detail: String::from("exit status 1") });
    // The pipeline is terminal: no install action is ever asked for.
    assert!(p.next_action().is_none());
    match p.failure() {
        Some(AurError::BuildError { detail }) => assert_eq!(detail, "exit status 1"),
        _ => panic!("a failed build must be reported as BuildError"),
    }
    match &p.state {
        PipelineState::Failed { stage, .. } => assert_eq!(*stage, Stage::Building),
        _ => panic!("a failed build must stop at the Building stage"),
    }
    // Even further events move nothing: the failure is terminal.
    p.step(Event::ArtifactsFound { matches: vec![String::from("x")] });
    assert!(p.next_action().is_none());
}

#[test]
fn install_failure_reports_install_error() {
    let mut p = start(false);
    p.step(Event::SourceChecked { exists: true });
    p.step(Event::BuildFinished { exit_ok: true, detail: String::new() });
    p.step(Event::ArtifactsFound { matches: vec![String::from("foo-1.pkg.tar.xz")] });
    p.step(Event::InstallFinished { exit_ok: false, detail: String::from("exit status 2") });
    match p.failure() {
        Some(AurError::InstallError { detail }) => assert_eq!(detail, "exit status 2"),
        _ => panic!("a failed install must be reported as InstallError"),
    }
}

#[test]
fn last_match_wins_and_empty_gives_empty_path() {
    let two = vec![String::from("foo-1.pkg.tar.xz"), String::from("foo-2.pkg.tar.xz")];
    assert_eq!(select_artifact(&two), "foo-2.pkg.tar.xz");
    let none: Vec<String> = Vec::new();
    assert_eq!(select_artifact(&none), "");
}

#[test]
fn stage_judges_match_the_pipeline() {
    let aur = Aur::new();
    assert!(aur.makepkg(true, String::new()).is_ok());
    match aur.makepkg(false, String::from("boom")) {
        Err(AurError::BuildError { detail }) => assert_eq!(detail, "boom"),
        _ => panic!("a non-zero build exit must be a BuildError"),
    }
    assert!(aur.pacman_install(true, String::new()).is_ok());
    match aur.pacman_install(false, String::from("boom")) {
        Err(AurError::InstallError { detail }) => assert_eq!(detail, "boom"),
        _ => panic!("a non-zero install exit must be an InstallError"),
    }
}
