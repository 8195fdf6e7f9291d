use wh_updater_client::{
    coalesced_path, foc_coal_update, needs_update, strip_newlines, CoalescedKind,
    DownloadError, DownloadProgress, FsPath, DEFAULT_STEAM_COAL_HASH, WH_COAL_HASH,
};

fn path(root: &str, parts: &[&str]) -> FsPath {
    FsPath::new(root.to_string(), parts.iter().map(|p| p.to_string()).collect())
}

fn show(p: &FsPath) -> (String, Vec<String>) {
    (p.root.clone(), p.parts.clone())
}

fn shown(root: &str, parts: &[&str]) -> (String, Vec<String>) {
    (root.to_string(), parts.iter().map(|p| p.to_string()).collect())
}

#[test]
fn strip_newlines_removes_every_line_feed() {
    assert_eq!(strip_newlines("1.2.3\n"), "1.2.3");
    assert_eq!(strip_newlines("a\nb\n\nc"), "abc");
    assert_eq!(strip_newlines(""), "");
    assert_eq!(strip_newlines("\n\n"), "");
    assert_eq!(strip_newlines("1.0\r\n"), "1.0\r");
    assert_eq!(strip_newlines("é\nü"), "éü");
}

#[test]
fn strip_newlines_is_idempotent() {
    let once = strip_newlines("x\ny\n");
    assert_eq!(strip_newlines(&once), once);
}

#[test]
fn needs_update_compares_versions() {
    assert!(needs_update("1.0.1", "1.0.0"));
    assert!(needs_update("1.10", "1.9"));
    assert!(!needs_update("1.0.0", "1.0.0"));
    assert!(!needs_update("1.0.0", "1.0.1"));
    assert!(needs_update("1.0.0", "None"));
    assert!(needs_update("None", "None"));
}

#[test]
fn progress_is_capped_at_the_total() {
    let mut p = DownloadProgress::new(100);
    assert_eq!(p.advance(30), 30);
    assert_eq!(p.advance(60), 90);
    assert_eq!(p.advance(50), 100);
    assert_eq!(p.advance(0), 100);
    assert_eq!(p.position, 100);
    assert_eq!(p.total, 100);
}

#[test]
fn progress_of_an_empty_download() {
    let mut p = DownloadProgress::new(0);
    assert_eq!(p.advance(10), 0);
}

#[test]
fn download_error_messages() {
    assert_eq!(
        DownloadError::Request("https://x/y".to_string()).message(),
        "Failed to GET from 'https://x/y'"
    );
    assert_eq!(
        DownloadError::CreateFile("/tmp/a.zip".to_string()).message(),
        "Failed to create file '/tmp/a.zip'"
    );
    assert_eq!(DownloadError::Receive.message(), "Error while downloading file");
    assert_eq!(DownloadError::Write.message(), "Error while writing to file");
}

#[test]
fn path_operations() {
    let mut p = path("C:\\", &["Games"]);
    let q = p.child("TFOC");
    assert_eq!(show(&q), shown("C:\\", &["Games", "TFOC"]));
    let j = q.join(&path("", &["Binaries", "TFOC.exe"]));
    assert_eq!(show(&j), shown("C:\\", &["Games", "TFOC", "Binaries", "TFOC.exe"]));
    let abs = q.join(&path("/", &["etc"]));
    assert_eq!(show(&abs), shown("/", &["etc"]));
    assert!(p.pop());
    assert!(!p.pop());
    assert_eq!(show(&p), shown("C:\\", &[]));
    assert!(p.parent().is_none());
    assert_eq!(show(&q.parent().unwrap()), shown("C:\\", &["Games"]));
    assert_eq!(show(&FsPath::relative(".")), shown("", &["."]));
    assert_eq!(show(&FsPath::empty()), shown("", &[]));
}

#[test]
fn coalesced_location() {
    let p = coalesced_path(&path("", &["game"]));
    assert_eq!(show(&p), shown("", &["game", "TransGame", "Config", "PC", "Cooked", "Coalesced.ini"]));
}

#[test]
fn custom_coalesced_is_left_alone() {
    let plan = foc_coal_update(&path("", &["game"]), b"123456789");
    assert_eq!(plan.checksum, 0xCBF4_3926);
    assert!(plan.replacement.is_none());
    assert_eq!(plan.kind, CoalescedKind::Custom);
}

#[test]
fn empty_coalesced_checksum() {
    let plan = foc_coal_update(&path("", &["game"]), b"");
    assert_eq!(plan.checksum, 0);
    assert_eq!(plan.kind, CoalescedKind::Custom);
}

// CRC32 (IEEE, reflected) of `data`, bit by bit.
fn crc32(data: &[u8]) -> u32 {
    let mut crc = 0xFFFF_FFFFu32;
    for &b in data {
        crc ^= b as u32;
        for _ in 0..8 {
            crc = if crc & 1 != 0 { (crc >> 1) ^ 0xEDB8_8320 } else { crc >> 1 };
        }
    }
    !crc
}

// Four bytes which, appended to `data`, give the CRC32 `target`.
fn forge(data: &[u8], target: u32) -> Vec<u8> {
    let mut state = !crc32(data);
    let mut goal = !target;
    // Run the register backwards from the goal for 32 bits of zeros...
    for _ in 0..32 {
        goal = if goal & 0x8000_0000 != 0 { ((goal ^ 0xEDB8_8320) << 1) | 1 } else { goal << 1 };
    }
    state ^= goal;
    let mut out = data.to_vec();
    out.extend_from_slice(&state.to_le_bytes());
    out
}

#[test]
fn forged_checksums_hit_their_targets() {
    assert_eq!(crc32(b"123456789"), 0xCBF4_3926);
    let d = forge(b"[Engine]", DEFAULT_STEAM_COAL_HASH);
    assert_eq!(crc32(&d), DEFAULT_STEAM_COAL_HASH);
}

#[test]
fn steam_default_coalesced_is_replaced() {
    let contents = forge(b"[Engine]\n", DEFAULT_STEAM_COAL_HASH);
    let plan = foc_coal_update(&path("", &["game"]), &contents);
    assert_eq!(plan.checksum, DEFAULT_STEAM_COAL_HASH);
    let r = plan.replacement.expect("the default file is replaced");
    assert_eq!(r.url, "https://wiki.aiwarehouse.xyz/guides/tfcfoc_guide_upd/coalesced.ini");
    assert_eq!(show(&r.download_to), shown("", &["game", "coalesced.ini"]));
    assert_eq!(
        show(&r.original),
        shown("", &["game", "TransGame", "Config", "PC", "Cooked", "Coalesced.ini"])
    );
    assert_eq!(
        show(&r.backup),
        shown("", &["game", "TransGame", "Config", "PC", "Cooked", "Coalesced.ini.orig.bak"])
    );
    assert_eq!(plan.kind, CoalescedKind::Custom);
}

#[test]
fn coalesced_renames_follow_a_successful_download() {
    let contents = forge(b"[Engine]\n", DEFAULT_STEAM_COAL_HASH);
    let plan = foc_coal_update(&path("", &["game"]), &contents);
    let r = plan.replacement.expect("the default file is replaced");
    let renames = r.renames_after_download(Ok(())).unwrap();
    assert_eq!(renames.len(), 2);
    assert_eq!(show(&renames[0].from), show(&r.original));
    assert_eq!(show(&renames[0].to), show(&r.backup));
    assert_eq!(show(&renames[1].from), show(&r.download_to));
    assert_eq!(show(&renames[1].to), show(&r.original));
    match r.renames_after_download(Err("404".to_string())) {
        Err(m) => assert_eq!(m, "Failed to download Coalesced.ini - 404"),
        Ok(_) => panic!("expected the failure"),
    }
}

#[test]
fn latest_warehouse_coalesced_is_kept() {
    let contents = forge(b"[Engine]\nwh=1\n", WH_COAL_HASH);
    let plan = foc_coal_update(&path("", &["game"]), &contents);
    assert_eq!(plan.checksum, WH_COAL_HASH);
    assert!(plan.replacement.is_none());
    assert_eq!(plan.kind, CoalescedKind::LatestWarehouse);
}
