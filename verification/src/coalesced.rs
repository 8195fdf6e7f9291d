use vstd::prelude::*;

use crate::client::{FileTransfer, FileTransferView};
use crate::path::{FsPath, PathView};

verus! {

/// CRC32 of the `Coalesced.ini` that the Steam release of the game ships.
pub const DEFAULT_STEAM_COAL_HASH: u32 = 0x0db5f77e;

/// CRC32 of the `Coalesced.ini` that Warehouse published on 21.03.2024.
pub const WH_COAL_HASH: u32 = 0x09571ded;

/// One shift of the CRC-32 (IEEE) register, bits taken least significant
/// first, with the reversed polynomial 0xEDB88320.
pub open spec fn crc32_shift(register: u32) -> u32 {
    if register & 1 == 1 {
        (register >> 1) ^ 0xEDB88320u32
    } else {
        register >> 1
    }
}

/// `n` shifts of the CRC-32 register.
pub open spec fn crc32_shifts(register: u32, n: nat) -> u32
    decreases n,
{
    if n == 0 {
        register
    } else {
        crc32_shifts(crc32_shift(register), (n - 1) as nat)
    }
}

/// The CRC-32 register after `data`, starting from all ones: each byte is
/// added into the low bits, then shifted through.
pub open spec fn crc32_register(data: Seq<u8>) -> u32
    decreases data.len(),
{
    if data.len() == 0 {
        0xFFFF_FFFFu32
    } else {
        crc32_shifts(crc32_register(data.drop_last()) ^ (data.last() as u32), 8)
    }
}

/// The CRC-32 (IEEE) checksum of `data`: the final register, inverted.
pub open spec fn crc32_ieee(data: Seq<u8>) -> u32 {
    !crc32_register(data)
}

/// The checksum of no data is 0.
pub proof fn lemma_crc32_of_nothing()
    ensures
        crc32_ieee(Seq::<u8>::empty()) == 0,
{
    assert(!0xFFFF_FFFFu32 == 0u32) by (bit_vector);
}

/// Calls `crc32fast::hash(data)`.
///
/// Trusted: the crate's documentation says that it computes the CRC32
/// (IEEE) checksum, which the result is stated to be.
#[verifier::external_body]
fn crc32_hash(data: &[u8]) -> (checksum: u32)
    ensures
        checksum == crc32_ieee(data@),
{
    crc32fast::hash(data)
}

/// The directory of the cooked configuration of the game.
pub open spec fn cooked_dir(game: PathView) -> PathView {
    game.child("TransGame"@).child("Config"@).child("PC"@).child("Cooked"@)
}

/// Where the Warehouse `Coalesced.ini` is published.
pub open spec fn coalesced_url() -> Seq<char> {
    "https://wiki.aiwarehouse.xyz/guides/tfcfoc_guide_upd/coalesced.ini"@
}

/// What the installed `Coalesced.ini` is found to be.
#[derive(Clone, Copy, Debug, PartialEq, Eq, Structural)]
pub enum CoalescedKind {
    /// The latest Warehouse version: nothing is to be done.
    LatestWarehouse,
    /// Anything else: it is left alone (after the replacement, if one was made).
    Custom,
}

/// How the Steam default `Coalesced.ini` is replaced: the Warehouse file is
/// downloaded from `url` to `download_to`, the original is renamed to
/// `backup`, and the download is moved to `original`.
pub struct CoalescedReplacement {
    pub url: String,
    pub download_to: FsPath,
    pub original: FsPath,
    pub backup: FsPath,
}

/// The message of a failed download of the Warehouse `Coalesced.ini`.
pub open spec fn coalesced_download_failure(reason: Seq<char>) -> Seq<char> {
    "Failed to download Coalesced.ini - "@ + reason
}

impl CoalescedReplacement {
    /// What follows the download of the Warehouse file, given how it went:
    /// when it succeeded, the original is renamed to the backup and then the
    /// download is moved in its place; when it failed, nothing is touched
    /// and the failure is reported.
    pub fn renames_after_download(&self, outcome: Result<(), String>) -> (res: Result<
        Vec<FileTransfer>,
        String,
    >)
        ensures
            match outcome {
                Ok(()) => res matches Ok(renames) && renames.deep_view() == seq![
                    FileTransferView { from: self.original@, to: self.backup@ },
                    FileTransferView { from: self.download_to@, to: self.original@ },
                ],
                Err(reason) => res matches Err(message) && message@ == coalesced_download_failure(
                    reason@,
                ),
            },
    {
        match outcome {
            Ok(()) => {
                let mut renames: Vec<FileTransfer> = Vec::new();
                renames.push(
                    FileTransfer { from: self.original.duplicate(), to: self.backup.duplicate() },
                );
                renames.push(
                    FileTransfer { from: self.download_to.duplicate(), to: self.original.duplicate() },
                );
                assert(renames.deep_view() =~= seq![
                    FileTransferView { from: self.original@, to: self.backup@ },
                    FileTransferView { from: self.download_to@, to: self.original@ },
                ]);
                Ok(renames)
            },
            Err(reason) => {
                let mut message = String::from_str("Failed to download Coalesced.ini - ");
                message.append(reason.as_str());
                Err(message)
            },
        }
    }
}

/// What to do with the installed `Coalesced.ini` of the given checksum.
pub struct CoalescedPlan {
    pub checksum: u32,
    pub replacement: Option<CoalescedReplacement>,
    pub kind: CoalescedKind,
}

/// The `Coalesced.ini` of the installation at `game`.
pub fn coalesced_path(game: &FsPath) -> (p: FsPath)
    ensures
        p@ == cooked_dir(game@).child("Coalesced.ini"@),
{
    let mut p = game.child("TransGame");
    p.push("Config");
    p.push("PC");
    p.push("Cooked");
    p.push("Coalesced.ini");
    p
}

/// Decides what to do with the `Coalesced.ini` of the installation at
/// `game_path`, whose contents are `contents`: the Steam default is replaced
/// by the Warehouse version, keeping the original beside it; the latest
/// Warehouse version is left as it is, and so is any other file, which is
/// reported as custom.
pub fn foc_coal_update(game_path: &FsPath, contents: &[u8]) -> (plan: CoalescedPlan)
    ensures
        plan.checksum == crc32_ieee(contents@),
        plan.replacement is Some <==> plan.checksum == DEFAULT_STEAM_COAL_HASH,
        plan.replacement matches Some(r) ==> {
            &&& r.url@ == coalesced_url()
            &&& r.download_to@ == game_path@.child("coalesced.ini"@)
            &&& r.original@ == cooked_dir(game_path@).child("Coalesced.ini"@)
            &&& r.backup@ == cooked_dir(game_path@).child("Coalesced.ini.orig.bak"@)
        },
        plan.kind == (if plan.checksum == WH_COAL_HASH {
            CoalescedKind::LatestWarehouse
        } else {
            CoalescedKind::Custom
        }),
{
    let checksum = crc32_hash(contents);
    let replacement = if checksum == DEFAULT_STEAM_COAL_HASH {
        let mut backup = game_path.child("TransGame");
        backup.push("Config");
        backup.push("PC");
        backup.push("Cooked");
        backup.push("Coalesced.ini.orig.bak");
        Some(
            CoalescedReplacement {
                url: String::from_str(
                    "https://wiki.aiwarehouse.xyz/guides/tfcfoc_guide_upd/coalesced.ini",
                ),
                download_to: game_path.child("coalesced.ini"),
                original: coalesced_path(game_path),
                backup,
            },
        )
    } else {
        None
    };
    let kind = if checksum == WH_COAL_HASH {
        CoalescedKind::LatestWarehouse
    } else {
        CoalescedKind::Custom
    };
    CoalescedPlan { checksum, replacement, kind }
}

} // verus!
