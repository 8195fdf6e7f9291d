use wh_updater_client::{
    update_base_url, EntryKind, FsPath, WHGames, WHUpdateClient, ZipEntry,
};

fn path(root: &str, parts: &[&str]) -> FsPath {
    FsPath::new(root.to_string(), parts.iter().map(|p| p.to_string()).collect())
}

fn show(p: &FsPath) -> (String, Vec<String>) {
    (p.root.clone(), p.parts.clone())
}

fn shown(root: &str, parts: &[&str]) -> (String, Vec<String>) {
    (root.to_string(), parts.iter().map(|p| p.to_string()).collect())
}

const FOC_URL: &str = "https://aiwarehouse.fra1.cdn.digitaloceanspaces.com/wh/foc";

fn client() -> WHUpdateClient {
    WHUpdateClient::new(path("/", &["games", "tfoc"]), path("/", &["tmp", "wh"]), WHGames::FOC)
}

#[test]
fn base_url_of_foc() {
    assert_eq!(update_base_url(WHGames::FOC), FOC_URL);
}

#[test]
fn new_client_starts_empty() {
    let c = client();
    assert_eq!(c.update_base_url, FOC_URL);
    assert_eq!(c.remote_version, "0.0.0.0");
    assert!(c.local_version.is_none());
    assert!(c.update_files.is_empty());
    assert!(c.base_updated_files.is_empty());
    assert_eq!(c.game, WHGames::FOC);
    assert_eq!(show(&c.game_path), shown("/", &["games", "tfoc"]));
}

#[test]
fn urls_are_built_on_the_base() {
    let c = client();
    assert_eq!(c.url_gen("/x"), format!("{}/x", FOC_URL));
    assert_eq!(c.remote_version_url(), format!("{}/version.ver", FOC_URL));
    assert_eq!(c.update_zip_url(), format!("{}/client_files.zip", FOC_URL));
}

#[test]
fn paths_of_the_client() {
    let c = client();
    assert_eq!(show(&c.local_version_path()), shown("/", &["games", "tfoc", "version"]));
    assert_eq!(show(&c.update_zip_path()), shown("/", &["tmp", "wh", "client_files.zip"]));
}

#[test]
fn remote_version_loses_its_line_feeds() {
    let mut c = client();
    let v = c.get_remote_version(Ok("1.2.3\n".to_string())).unwrap();
    assert_eq!(v, "1.2.3");
    assert_eq!(c.remote_version, "1.2.3");
}

#[test]
fn failed_remote_version_is_handed_back() {
    let mut c = client();
    let r = c.get_remote_version(Err("timeout".to_string()));
    assert_eq!(r, Err("timeout".to_string()));
    assert_eq!(c.remote_version, "0.0.0.0");
}

#[test]
fn update_required_when_remote_is_newer() {
    let mut c = client();
    assert_eq!(c.is_update_required(Ok("1.0.1\n".to_string()), Ok("1.0.0".to_string())), Ok(true));
    assert_eq!(c.remote_version, "1.0.1");
}

#[test]
fn no_update_when_versions_match() {
    let mut c = client();
    assert_eq!(c.is_update_required(Ok("1.0.1\n".to_string()), Ok("1.0.1".to_string())), Ok(false));
}

#[test]
fn no_update_when_remote_is_older() {
    let mut c = client();
    assert_eq!(c.is_update_required(Ok("1.0.0".to_string()), Ok("1.0.1".to_string())), Ok(false));
}

#[test]
fn update_required_when_local_version_is_unreadable() {
    let mut c = client();
    assert_eq!(c.is_update_required(Ok("1.0.0".to_string()), Err("no file".to_string())), Ok(true));
}

#[test]
fn update_required_when_local_version_reads_none() {
    let mut c = client();
    assert_eq!(c.is_update_required(Ok("1.0.0".to_string()), Ok("None".to_string())), Ok(true));
}

#[test]
fn failed_remote_fails_the_check() {
    let mut c = client();
    assert_eq!(
        c.is_update_required(Err("dns error".to_string()), Ok("1.0.0".to_string())),
        Err("Failed to get remote version - dns error. Aborting update".to_string())
    );
    assert_eq!(c.remote_version, "0.0.0.0");
}

#[test]
fn applied_version_is_current_on_the_next_check() {
    let mut c = client();
    assert_eq!(c.is_update_required(Ok("2.0.0\n".to_string()), Err("none".to_string())), Ok(true));
    let plan = c.apply_update(&vec![]);
    assert_eq!(show(&plan.version_file), show(&c.local_version_path()));
    assert_eq!(c.is_update_required(Ok("2.0.0\n".to_string()), Ok(plan.version)), Ok(false));
}

#[test]
fn download_outcome_gives_the_archive_path() {
    let c = client();
    let ok = c.download_update_zip(Ok(())).unwrap();
    assert_eq!(show(&ok), shown("/", &["tmp", "wh", "client_files.zip"]));
    match c.download_update_zip(Err("broken".to_string())) {
        Err(m) => assert_eq!(m, "broken"),
        Ok(_) => panic!("expected an error"),
    }
}

fn entries() -> Vec<ZipEntry> {
    vec![
        ZipEntry { name: "data/".to_string(), enclosed_name: Some(path("", &["data"])), size: 0, unix_mode: Some(0o755) },
        ZipEntry {
            name: "data/a.txt".to_string(),
            enclosed_name: Some(path("", &["data", "a.txt"])),
            size: 12,
            unix_mode: Some(0o644),
        },
        ZipEntry { name: "../evil".to_string(), enclosed_name: None, size: 3, unix_mode: None },
        ZipEntry { name: "b.bin".to_string(), enclosed_name: Some(path("", &["b.bin"])), size: 7, unix_mode: None },
    ]
}

#[test]
fn unpack_goes_next_to_the_archive() {
    let mut c = client();
    let archive = c.update_zip_path();
    let plan = c.unpack_update(archive, &entries());
    assert!(plan.extracted_files.is_empty());
    assert_eq!(plan.steps.len(), 3);
    assert_eq!(plan.steps[0].index, 0);
    assert!(plan.steps[0].directory);
    assert_eq!(show(&plan.steps[0].target), shown("/", &["tmp", "wh", "data"]));
    assert_eq!(plan.steps[1].index, 1);
    assert!(!plan.steps[1].directory);
    assert_eq!(show(&plan.steps[1].target), shown("/", &["tmp", "wh", "data", "a.txt"]));
    assert_eq!(plan.steps[0].mode, Some(0o755));
    assert_eq!(plan.steps[1].mode, Some(0o644));
    assert_eq!(plan.steps[2].mode, None);
    assert_eq!(plan.steps[2].index, 3);
    assert_eq!(show(&plan.steps[2].target), shown("/", &["tmp", "wh", "b.bin"]));
    let rel: Vec<_> = c.base_updated_files.iter().map(show).collect();
    assert_eq!(rel, vec![shown("", &["data"]), shown("", &["data", "a.txt"]), shown("", &["b.bin"])]);
    let staged: Vec<_> = c.update_files.iter().map(show).collect();
    let probes: Vec<_> = c.apply_probe_paths().iter().map(show).collect();
    assert_eq!(staged, probes);
}

#[test]
fn unpack_skips_names_that_leave_the_staging_directory() {
    let mut c = client();
    let archive = c.update_zip_path();
    let unsafe_entries = vec![
        ZipEntry { name: "/etc/x".to_string(), enclosed_name: Some(path("/", &["etc", "x"])), size: 1, unix_mode: None },
        ZipEntry { name: "a/../../x".to_string(), enclosed_name: Some(path("", &["a", "..", "..", "x"])), size: 1, unix_mode: None },
        ZipEntry { name: "a/../b".to_string(), enclosed_name: Some(path("", &["a", "..", "b"])), size: 1, unix_mode: None },
        ZipEntry { name: "./c".to_string(), enclosed_name: Some(path("", &[".", "c"])), size: 1, unix_mode: None },
    ];
    let plan = c.unpack_update(archive, &unsafe_entries);
    assert_eq!(plan.steps.len(), 2);
    assert_eq!(plan.steps[0].index, 2);
    assert_eq!(show(&plan.steps[0].target), shown("/", &["tmp", "wh", "a", "..", "b"]));
    assert_eq!(plan.steps[1].index, 3);
    assert_eq!(c.base_updated_files.len(), 2);
    assert_eq!(c.update_files.len(), 2);
}

#[test]
fn enclosed_paths() {
    assert!(path("", &["a", "b"]).is_enclosed());
    assert!(path("", &[]).is_enclosed());
    assert!(path("", &["a", ".."]).is_enclosed());
    assert!(!path("", &[".."]).is_enclosed());
    assert!(!path("", &["a", "..", "..", "b"]).is_enclosed());
    assert!(!path("/", &["a"]).is_enclosed());
}

#[test]
fn unpack_of_a_bare_archive_name_uses_the_empty_path() {
    let mut c = client();
    let plan = c.unpack_update(path("", &[]), &entries());
    assert_eq!(show(&plan.steps[1].target), shown("", &["data", "a.txt"]));
}

#[test]
fn apply_copies_only_staged_files() {
    let mut c = client();
    let archive = c.update_zip_path();
    c.unpack_update(archive, &entries());
    c.get_remote_version(Ok("3.1".to_string())).unwrap();
    let plan = c.apply_update(&vec![EntryKind::Directory, EntryKind::File, EntryKind::Missing]);
    assert_eq!(plan.copies.len(), 1);
    assert_eq!(show(&plan.copies[0].from), shown("/", &["tmp", "wh", "data", "a.txt"]));
    assert_eq!(show(&plan.copies[0].to), shown("/", &["games", "tfoc", "data", "a.txt"]));
    assert_eq!(plan.version, "3.1");
    assert_eq!(show(&plan.version_file), shown("/", &["games", "tfoc", "version"]));
}

#[test]
fn backup_moves_installed_files_aside() {
    let mut c = client();
    let archive = c.update_zip_path();
    c.unpack_update(archive, &entries());
    let probes: Vec<_> = c.backup_probe_paths().iter().map(show).collect();
    assert_eq!(probes[2], shown("/", &["games", "tfoc", "b.bin"]));
    let plan = c.create_backup(&vec![EntryKind::Missing, EntryKind::File, EntryKind::File]);
    assert_eq!(show(&plan.backup_dir), shown("/", &["games", "tfoc", ".wh_bak"]));
    assert_eq!(plan.moves.len(), 2);
    assert_eq!(show(&plan.moves[0].from), shown("/", &["games", "tfoc", "data", "a.txt"]));
    assert_eq!(show(&plan.moves[0].to), shown("/", &["games", "tfoc", ".wh_bak", "data", "a.txt"]));
    assert_eq!(show(&plan.moves[1].to), shown("/", &["games", "tfoc", ".wh_bak", "b.bin"]));
    assert_eq!(show(&plan.version_move.from), shown("/", &["games", "tfoc", "version"]));
    assert_eq!(show(&plan.version_move.to), shown("/", &["games", "tfoc", ".wh_bak", "version"]));
}
