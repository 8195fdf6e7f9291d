use wh_updater_client::{
    flow_step, search_step, FlowAction, FlowEvent, FlowStage, FsPath, SearchAction, SearchEvent,
    SearchStage,
};

fn path(root: &str, parts: &[&str]) -> FsPath {
    FsPath::new(root.to_string(), parts.iter().map(|p| p.to_string()).collect())
}

fn show(p: &FsPath) -> (String, Vec<String>) {
    (p.root.clone(), p.parts.clone())
}

fn shown(root: &str, parts: &[&str]) -> (String, Vec<String>) {
    (root.to_string(), parts.iter().map(|p| p.to_string()).collect())
}

fn probe_of(a: &SearchAction) -> (String, Vec<String>) {
    match a {
        SearchAction::Probe(p) => show(p),
        _ => panic!("expected a probe"),
    }
}

fn found_of(a: &SearchAction) -> (String, Vec<String>) {
    match a {
        SearchAction::Found(p) => show(p),
        _ => panic!("expected a path"),
    }
}

#[test]
fn search_finds_the_game_next_to_the_updater() {
    let (s, a) = search_step(SearchStage::Start, SearchEvent::Begin);
    assert_eq!(probe_of(&a), shown("", &[".", "TFOC.exe"]));
    let (_, a) = search_step(s, SearchEvent::Probed(true));
    assert_eq!(found_of(&a), shown("", &[".."]));
}

#[test]
fn search_finds_the_game_below_the_updater() {
    let (s, _) = search_step(SearchStage::Start, SearchEvent::Begin);
    let (s, a) = search_step(s, SearchEvent::Probed(false));
    assert_eq!(probe_of(&a), shown("", &[".", "Binaries", "TFOC.exe"]));
    let (_, a) = search_step(s, SearchEvent::Probed(true));
    assert_eq!(found_of(&a), shown("", &["."]));
}

#[test]
fn search_uses_the_registry_then_the_user() {
    let (s, _) = search_step(SearchStage::Start, SearchEvent::Begin);
    let (s, _) = search_step(s, SearchEvent::Probed(false));
    let (s, a) = search_step(s, SearchEvent::Probed(false));
    assert!(matches!(a, SearchAction::ReadRegistry));
    let install = path("C:\\", &["Games", "TFOC"]);
    let (s2, a) = search_step(s, SearchEvent::RegistryRead(Some(install)));
    assert_eq!(probe_of(&a), shown("C:\\", &["Games", "TFOC", "Binaries", "TFOC.exe"]));
    let (_, found) = search_step(s2, SearchEvent::Probed(true));
    assert_eq!(found_of(&found), shown("C:\\", &["Games", "TFOC"]));
}

#[test]
fn search_asks_the_user_when_the_registry_is_empty() {
    let (s, _) = search_step(SearchStage::Start, SearchEvent::Begin);
    let (s, _) = search_step(s, SearchEvent::Probed(false));
    let (s, _) = search_step(s, SearchEvent::Probed(false));
    let (s, a) = search_step(s, SearchEvent::RegistryRead(None));
    assert!(matches!(a, SearchAction::AskUser));
    let picked = path("D:\\", &["TFOC", "Binaries"]);
    let (s, a) = search_step(s, SearchEvent::FolderPicked(Some(picked)));
    assert_eq!(probe_of(&a), shown("D:\\", &["TFOC", "Binaries", "TFOC.exe"]));
    let (_, a) = search_step(s, SearchEvent::Probed(true));
    assert_eq!(found_of(&a), shown("D:\\", &["TFOC"]));
}

#[test]
fn search_checks_the_picked_folder_as_the_installation() {
    let mut s = SearchStage::AskingUser;
    let (s2, _) = search_step(s, SearchEvent::FolderPicked(Some(path("D:\\", &["TFOC"]))));
    s = s2;
    let (s2, a) = search_step(s, SearchEvent::Probed(false));
    assert_eq!(probe_of(&a), shown("D:\\", &["TFOC", "Binaries", "TFOC.exe"]));
    let (_, a) = search_step(s2, SearchEvent::Probed(true));
    assert_eq!(found_of(&a), shown("D:\\", &["TFOC"]));
}

#[test]
fn search_takes_a_picked_current_dir_for_binaries() {
    let (s, _) = search_step(SearchStage::AskingUser, SearchEvent::FolderPicked(Some(path("", &["."]))));
    let (_, a) = search_step(s, SearchEvent::Probed(true));
    assert_eq!(found_of(&a), shown("", &[".."]));
}

#[test]
fn search_gives_up() {
    let (_, a) = search_step(SearchStage::AskingUser, SearchEvent::FolderPicked(None));
    assert!(matches!(a, SearchAction::NotFound));
    let (s, _) = search_step(SearchStage::AskingUser, SearchEvent::FolderPicked(Some(path("", &["x"]))));
    let (s, _) = search_step(s, SearchEvent::Probed(false));
    let (s, a) = search_step(s, SearchEvent::Probed(false));
    assert!(matches!(a, SearchAction::NotFound));
    let (_, a) = search_step(s, SearchEvent::Probed(true));
    assert!(matches!(a, SearchAction::NotFound));
}

#[test]
fn flow_runs_a_full_update() {
    let (s, a) = flow_step(FlowStage::Start, FlowEvent::Begin);
    assert!(matches!(a, FlowAction::LocateGame));
    let (s, a) = flow_step(s, FlowEvent::GameLocated(Some(path("", &["g"]))));
    match &a {
        FlowAction::CheckForUpdate(p) => assert_eq!(show(p), shown("", &["g"])),
        _ => panic!("expected the check"),
    }
    let (s, a) = flow_step(s, FlowEvent::UpdateChecked(Some(true)));
    assert!(matches!(a, FlowAction::DownloadUpdate));
    let (s, a) = flow_step(s, FlowEvent::Downloaded(Some(path("", &["t", "client_files.zip"]))));
    match &a {
        FlowAction::Unpack(p) => assert_eq!(show(p), shown("", &["t", "client_files.zip"])),
        _ => panic!("expected the unpacking"),
    }
    let (s, a) = flow_step(s, FlowEvent::Unpacked);
    assert!(matches!(a, FlowAction::Backup));
    let (s, a) = flow_step(s, FlowEvent::BackedUp);
    assert!(matches!(a, FlowAction::Apply));
    let (s, a) = flow_step(s, FlowEvent::Applied);
    assert!(matches!(a, FlowAction::Finish));
    assert_eq!(s, FlowStage::Finished);
}

#[test]
fn flow_finishes_without_update() {
    let (s, _) = flow_step(FlowStage::Start, FlowEvent::Begin);
    let (s, _) = flow_step(s, FlowEvent::GameLocated(Some(path("", &["g"]))));
    let (s, a) = flow_step(s, FlowEvent::UpdateChecked(Some(false)));
    assert!(matches!(a, FlowAction::Finish));
    let (_, a) = flow_step(s, FlowEvent::Applied);
    assert!(matches!(a, FlowAction::Finish));
}

#[test]
fn flow_exits_with_one_on_failures() {
    let (s, _) = flow_step(FlowStage::Start, FlowEvent::Begin);
    let (f, a) = flow_step(s, FlowEvent::GameLocated(None));
    assert!(matches!(a, FlowAction::Exit(1)));
    assert_eq!(f, FlowStage::Failed);
    let (_, a) = flow_step(FlowStage::CheckingUpdate, FlowEvent::UpdateChecked(None));
    assert!(matches!(a, FlowAction::Exit(1)));
    let (_, a) = flow_step(FlowStage::Downloading, FlowEvent::Downloaded(None));
    assert!(matches!(a, FlowAction::Exit(1)));
    let (_, a) = flow_step(FlowStage::BackingUp, FlowEvent::Applied);
    assert!(matches!(a, FlowAction::Exit(1)));
    let (_, a) = flow_step(FlowStage::Failed, FlowEvent::Begin);
    assert!(matches!(a, FlowAction::Exit(1)));
}
