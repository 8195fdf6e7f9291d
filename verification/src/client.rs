use vstd::prelude::*;

use crate::games::{update_base_url, WHGames};
use crate::path::{lemma_join_enclosed_lies_below, FsPath, PathView};
use crate::text::strip_newlines;
use crate::version::needs_update;

verus! {

/// What the updater knows about one game installation: where the game and
/// the staging directory are, which files the current update brings, and
/// which version the server offers.
pub struct WHUpdateClient {
    pub temp_path: FsPath,
    pub game_path: FsPath,
    pub game: WHGames,
    /// Where each file of the update was unpacked, in archive order.
    pub update_files: Vec<FsPath>,
    /// Each file of the update, relative to the root of the game, in archive order.
    pub base_updated_files: Vec<FsPath>,
    pub remote_version: String,
    pub local_version: Option<String>,
    pub update_base_url: String,
}

/// `a` and `b` agree on everything but the lists of update files and the remote version.
pub open spec fn same_installation(a: WHUpdateClient, b: WHUpdateClient) -> bool {
    &&& a.temp_path == b.temp_path
    &&& a.game_path == b.game_path
    &&& a.game == b.game
    &&& a.local_version == b.local_version
    &&& a.update_base_url == b.update_base_url
}

/// The text that a local version file read gives: its contents, or `"None"`
/// when it could not be read.
pub open spec fn local_version_text(local: Result<String, String>) -> Seq<char> {
    match local {
        Ok(text) => text@,
        Err(_) => crate::version::unknown_version(),
    }
}

/// The message of a failed check for updates, given the reason the remote
/// version could not be fetched.
pub open spec fn remote_failure_message(reason: Seq<char>) -> Seq<char> {
    "Failed to get remote version - "@ + reason + ". Aborting update"@
}

/// One entry of an update archive, as the archive lists it.
pub struct ZipEntry {
    /// The name stored in the archive.
    pub name: String,
    /// The name as a safe relative path, or `None` when the stored name would
    /// leave the target directory.
    pub enclosed_name: Option<FsPath>,
    pub size: u64,
    /// The Unix permissions stored for the entry, if any.
    pub unix_mode: Option<u32>,
}

pub struct ZipEntryView {
    pub name: Seq<char>,
    pub enclosed_name: Option<PathView>,
    pub size: u64,
    pub unix_mode: Option<u32>,
}

impl View for ZipEntry {
    type V = ZipEntryView;

    open spec fn view(&self) -> ZipEntryView {
        ZipEntryView {
            name: self.name@,
            enclosed_name: self.enclosed_name.deep_view(),
            size: self.size,
            unix_mode: self.unix_mode,
        }
    }
}

impl DeepView for ZipEntry {
    type V = ZipEntryView;

    open spec fn deep_view(&self) -> ZipEntryView {
        self@
    }
}

/// One step of unpacking: the archive entry at `index` goes to `target`,
/// as a directory or as a file, and then gets the permissions `mode` when
/// the archive stores some.
pub struct UnpackStep {
    pub index: usize,
    pub target: FsPath,
    pub directory: bool,
    pub mode: Option<u32>,
}

pub struct UnpackStepView {
    pub index: int,
    pub target: PathView,
    pub directory: bool,
    pub mode: Option<u32>,
}

impl View for UnpackStep {
    type V = UnpackStepView;

    open spec fn view(&self) -> UnpackStepView {
        UnpackStepView {
            index: self.index as int,
            target: self.target@,
            directory: self.directory,
            mode: self.mode,
        }
    }
}

impl DeepView for UnpackStep {
    type V = UnpackStepView;

    open spec fn deep_view(&self) -> UnpackStepView {
        self@
    }
}

/// What unpacking an archive does: its steps, and the list of extracted
/// files that it reports, which is always empty.
pub struct UnpackPlan {
    pub steps: Vec<UnpackStep>,
    pub extracted_files: Vec<FsPath>,
}

/// An archive entry whose name ends with `/` stands for a directory.
pub open spec fn is_directory_name(name: Seq<char>) -> bool {
    name.len() > 0 && name.last() == '/'
}

/// The directory that the entries of the archive at `archive` go to: the
/// directory that holds the archive.
pub open spec fn unpack_base(archive: PathView) -> PathView {
    match archive.parent() {
        Some(p) => p,
        None => PathView::empty(),
    }
}

/// The relative names of `entries` that are safe, in order: entries
/// without one, or whose name has a root or would lead above the directory
/// they are unpacked to, are left out.
pub open spec fn enclosed_names(entries: Seq<ZipEntryView>) -> Seq<PathView>
    decreases entries.len(),
{
    if entries.len() == 0 {
        Seq::empty()
    } else {
        let before = enclosed_names(entries.drop_last());
        match entries.last().enclosed_name {
            Some(p) => if crate::path::is_enclosed(p) {
                before.push(p)
            } else {
                before
            },
            None => before,
        }
    }
}

/// Each path of `names` joined below `base`.
pub open spec fn joined_below(base: PathView, names: Seq<PathView>) -> Seq<PathView> {
    names.map_values(|p: PathView| base.join(p))
}

/// The steps that unpack `entries` below `base`, in archive order.
pub open spec fn unpack_steps(base: PathView, entries: Seq<ZipEntryView>) -> Seq<UnpackStepView>
    decreases entries.len(),
{
    if entries.len() == 0 {
        Seq::empty()
    } else {
        let before = unpack_steps(base, entries.drop_last());
        let last = entries.last();
        match last.enclosed_name {
            Some(p) => if crate::path::is_enclosed(p) {
                before.push(
                    UnpackStepView {
                        index: entries.len() - 1,
                        target: base.join(p),
                        directory: is_directory_name(last.name),
                        mode: last.unix_mode,
                    },
                )
            } else {
                before
            },
            None => before,
        }
    }
}

proof fn lemma_prefix_step<A>(s: Seq<A>, i: int)
    requires
        0 <= i < s.len(),
    ensures
        s.subrange(0, i + 1).drop_last() == s.subrange(0, i),
        s.subrange(0, i + 1).last() == s[i],
        s.subrange(0, i + 1).len() == i + 1,
{
    assert(s.subrange(0, i + 1).drop_last() =~= s.subrange(0, i));
}

/// What an entry of the game's file list was found to be on disk.
#[derive(Clone, Copy, Debug, PartialEq, Eq, Structural)]
pub enum EntryKind {
    /// Nothing is there, or it could not be examined.
    Missing,
    Directory,
    File,
}

/// The kind observed for the `i`-th file; a file without an observation counts as missing.
pub open spec fn kind_at(kinds: Seq<EntryKind>, i: int) -> EntryKind {
    if 0 <= i < kinds.len() {
        kinds[i]
    } else {
        EntryKind::Missing
    }
}

/// A file to be copied or moved from `from` to `to`.
pub struct FileTransfer {
    pub from: FsPath,
    pub to: FsPath,
}

pub struct FileTransferView {
    pub from: PathView,
    pub to: PathView,
}

impl View for FileTransfer {
    type V = FileTransferView;

    open spec fn view(&self) -> FileTransferView {
        FileTransferView { from: self.from@, to: self.to@ }
    }
}

impl DeepView for FileTransfer {
    type V = FileTransferView;

    open spec fn deep_view(&self) -> FileTransferView {
        self@
    }
}

/// How an update is applied: the files copied from the staging directory
/// into the game, then the version file written with the new version.
pub struct ApplyPlan {
    pub copies: Vec<FileTransfer>,
    pub version_file: FsPath,
    pub version: String,
}

/// The copies that apply an update of `files`, of which the staged ones
/// were observed to be `kinds`: each staged regular file goes from the
/// staging directory to the same place in the game.
pub open spec fn apply_copies(
    temp: PathView,
    game: PathView,
    files: Seq<PathView>,
    kinds: Seq<EntryKind>,
) -> Seq<FileTransferView>
    decreases files.len(),
{
    if files.len() == 0 {
        Seq::empty()
    } else {
        let i = files.len() - 1;
        let before = apply_copies(temp, game, files.drop_last(), kinds);
        if kind_at(kinds, i) is File {
            before.push(FileTransferView { from: temp.join(files[i]), to: game.join(files[i]) })
        } else {
            before
        }
    }
}

/// Where the files of the game are put aside before an update.
pub open spec fn backup_dir(game: PathView) -> PathView {
    game.child(".wh_bak"@)
}

/// The moves that put aside the files of `files` that are in the game,
/// observed to be `kinds`: each regular file goes to the same place below
/// the backup directory.
pub open spec fn backup_moves(game: PathView, files: Seq<PathView>, kinds: Seq<EntryKind>) -> Seq<
    FileTransferView,
>
    decreases files.len(),
{
    if files.len() == 0 {
        Seq::empty()
    } else {
        let i = files.len() - 1;
        let before = backup_moves(game, files.drop_last(), kinds);
        if kind_at(kinds, i) is File {
            before.push(
                FileTransferView { from: game.join(files[i]), to: backup_dir(game).join(files[i]) },
            )
        } else {
            before
        }
    }
}

/// How the files that an update replaces are put aside: the backup
/// directory is emptied and made again, each file is moved into it (its
/// directory made first), then the version file is moved there too.
pub struct BackupPlan {
    pub backup_dir: FsPath,
    pub moves: Vec<FileTransfer>,
    pub version_move: FileTransfer,
}

impl WHUpdateClient {
    /// A client for `game` installed at `game_path`, staging its downloads
    /// in `temp_path`. Only Fall of Cybertron has an update server so far;
    /// no other game may be given.
    pub fn new(game_path: FsPath, temp_path: FsPath, game: WHGames) -> (c: WHUpdateClient)
        requires
            game is FOC,
        ensures
            c.game_path == game_path,
            c.temp_path == temp_path,
            c.game == game,
            c.update_files@.len() == 0,
            c.base_updated_files@.len() == 0,
            c.remote_version@ == "0.0.0.0"@,
            c.local_version is None,
            c.update_base_url@ == crate::games::foc_base_url(),
    {
        let update_base_url = update_base_url(game);
        WHUpdateClient {
            temp_path,
            game_path,
            game,
            update_files: Vec::new(),
            base_updated_files: Vec::new(),
            remote_version: String::from_str("0.0.0.0"),
            local_version: None,
            update_base_url,
        }
    }

    /// The URL of `url` on the update server.
    pub fn url_gen(&self, url: &str) -> (res: String)
        ensures
            res@ == self.update_base_url@ + url@,
    {
        let mut res = self.update_base_url.clone();
        res.append(url);
        res
    }

    /// The URL of the file that names the version on the server.
    pub fn remote_version_url(&self) -> (res: String)
        ensures
            res@ == self.update_base_url@ + "/version.ver"@,
    {
        self.url_gen("/version.ver")
    }

    /// Takes the server's answer to the version request: the version is the
    /// answer's text without line feeds, and it is remembered as the remote
    /// version. A failed request is handed back unchanged.
    pub fn get_remote_version(&mut self, response: Result<String, String>) -> (res: Result<
        String,
        String,
    >)
        ensures
            match response {
                Ok(text) => {
                    &&& res matches Ok(version) && version@ == crate::text::without_newlines(text@)
                    &&& final(self).remote_version@ == crate::text::without_newlines(text@)
                    &&& same_installation(*final(self), *old(self))
                    &&& final(self).update_files == old(self).update_files
                    &&& final(self).base_updated_files == old(self).base_updated_files
                },
                Err(reason) => res == Err::<String, String>(reason) && *final(self) == *old(self),
            },
    {
        match response {
            Ok(text) => {
                let version = strip_newlines(text.as_str());
                self.remote_version = version.clone();
                Ok(version)
            },
            Err(reason) => Err(reason),
        }
    }

    /// Where the installed version of the game is written down.
    pub fn local_version_path(&self) -> (p: FsPath)
        ensures
            p@ == self.game_path@.child("version"@),
    {
        self.game_path.child("version")
    }

    /// Decides whether the game must be updated, given the server's answer
    /// to the version request and the result of reading the local version
    /// file. A failed request fails the check; an unreadable local version
    /// counts as `"None"`, which always calls for an update; otherwise an
    /// update is due when the remote version is greater than the local one.
    pub fn is_update_required(
        &mut self,
        remote: Result<String, String>,
        local: Result<String, String>,
    ) -> (res: Result<bool, String>)
        ensures
            match remote {
                Ok(text) => {
                    &&& res matches Ok(required) && required == crate::version::update_needed(
                        crate::text::without_newlines(text@),
                        local_version_text(local),
                    )
                    &&& final(self).remote_version@ == crate::text::without_newlines(text@)
                    &&& same_installation(*final(self), *old(self))
                    &&& final(self).update_files == old(self).update_files
                    &&& final(self).base_updated_files == old(self).base_updated_files
                    &&& local is Err ==> res == Ok::<bool, String>(true)
                    &&& local_version_text(local) != "None"@ ==> (res == Ok::<bool, String>(
                        crate::version::version_compare_to(
                            crate::text::without_newlines(text@),
                            local_version_text(local),
                            crate::version::VersionCmp::Gt,
                        ) == Ok::<bool, ()>(true),
                    ))
                    &&& local_version_text(local) == crate::text::without_newlines(text@) ==> res == Ok::<
                        bool,
                        String,
                    >(local_version_text(local) == crate::version::unknown_version())
                },
                Err(reason) => {
                    &&& res matches Err(message) && message@ == remote_failure_message(reason@)
                    &&& *final(self) == *old(self)
                },
            },
    {
        let version_remote = match self.get_remote_version(remote) {
            Ok(version) => version,
            Err(reason) => {
                let mut message = String::from_str("Failed to get remote version - ");
                message.append(reason.as_str());
                message.append(". Aborting update");
                return Err(message);
            },
        };
        let version_local = match local {
            Ok(text) => text,
            Err(_) => String::from_str("None"),
        };
        Ok(needs_update(version_remote.as_str(), version_local.as_str()))
    }

    /// The URL of the archive of the update files.
    pub fn update_zip_url(&self) -> (res: String)
        ensures
            res@ == self.update_base_url@ + "/client_files.zip"@,
    {
        self.url_gen("/client_files.zip")
    }

    /// Where the archive of the update files is downloaded to.
    pub fn update_zip_path(&self) -> (p: FsPath)
        ensures
            p@ == self.temp_path@.child("client_files.zip"@),
    {
        self.temp_path.child("client_files.zip")
    }

    /// The result of downloading the update archive, given how the download
    /// went: the archive's path, or the download's error message.
    pub fn download_update_zip(&self, outcome: Result<(), String>) -> (res: Result<FsPath, String>)
        ensures
            match outcome {
                Ok(()) => res matches Ok(p) && p@ == self.temp_path@.child("client_files.zip"@),
                Err(reason) => res matches Err(message) && message@ == reason@,
            },
    {
        match outcome {
            Ok(()) => Ok(self.update_zip_path()),
            Err(reason) => Err(reason),
        }
    }

    /// Unpacks the archive at `path`, whose entries are `entries` in archive
    /// order, into the directory that holds it. Each entry with a safe name
    /// (relative, never leading above that directory) is recorded as a file
    /// of the update, relative to the game and where it is unpacked, and gets
    /// a step; the others are skipped. Nothing is planned outside that
    /// directory.
    pub fn unpack_update(&mut self, path: FsPath, entries: &Vec<ZipEntry>) -> (plan: UnpackPlan)
        ensures
            plan.steps.deep_view() == unpack_steps(unpack_base(path@), entries.deep_view()),
            plan.extracted_files@.len() == 0,
            final(self).base_updated_files.deep_view() == old(self).base_updated_files.deep_view()
                + enclosed_names(entries.deep_view()),
            final(self).update_files.deep_view() == old(self).update_files.deep_view()
                + joined_below(unpack_base(path@), enclosed_names(entries.deep_view())),
            same_installation(*final(self), *old(self)),
            final(self).remote_version == old(self).remote_version,
            forall|k: int|
                0 <= k < plan.steps.deep_view().len() ==> crate::path::lies_below(
                    unpack_base(path@),
                    #[trigger] plan.steps.deep_view()[k].target,
                ),
            forall|k: int|
                old(self).update_files.deep_view().len() <= k < final(self).update_files.deep_view().len()
                    ==> crate::path::lies_below(
                    unpack_base(path@),
                    #[trigger] final(self).update_files.deep_view()[k],
                ),
    {
        let base_path = match path.parent() {
            Some(p) => p,
            None => FsPath::empty(),
        };
        let ghost base = unpack_base(path@);
        let ghost all = entries.deep_view();
        let ghost old_base_files = self.base_updated_files.deep_view();
        let ghost old_update_files = self.update_files.deep_view();
        let mut steps: Vec<UnpackStep> = Vec::new();
        let mut i: usize = 0;
        while i < entries.len()
            invariant
                i <= entries.len(),
                all == entries.deep_view(),
                base_path@ == base,
                steps.deep_view() == unpack_steps(base, all.subrange(0, i as int)),
                self.base_updated_files.deep_view() == old_base_files + enclosed_names(
                    all.subrange(0, i as int),
                ),
                self.update_files.deep_view() == old_update_files + joined_below(
                    base,
                    enclosed_names(all.subrange(0, i as int)),
                ),
                same_installation(*self, *old(self)),
                self.remote_version == old(self).remote_version,
            decreases entries.len() - i,
        {
            proof {
                lemma_prefix_step(all, i as int);
            }
            let entry = &entries[i];
            assert(all[i as int] == entry@);
            let safe = match &entry.enclosed_name {
                Some(rel) => rel.is_enclosed(),
                None => false,
            };
            match &entry.enclosed_name {
                Some(rel) if safe => {
                    let ghost names_before = enclosed_names(all.subrange(0, i as int));
                    let ghost files_before = self.base_updated_files.deep_view();
                    let ghost updates_before = self.update_files.deep_view();
                    let ghost steps_before = steps.deep_view();
                    self.base_updated_files.push(rel.duplicate());
                    let target = base_path.join(rel);
                    self.update_files.push(target.duplicate());
                    let directory = ends_with_slash(entry.name.as_str());
                    steps.push(UnpackStep { index: i, target, directory, mode: entry.unix_mode });
                    assert(self.base_updated_files.deep_view() =~= files_before.push(rel@));
                    assert(self.update_files.deep_view() =~= updates_before.push(base.join(rel@)));
                    assert(steps.deep_view() =~= steps_before.push(
                        UnpackStepView {
                            index: i as int,
                            target: base.join(rel@),
                            directory: is_directory_name(entry.name@),
                            mode: entry.unix_mode,
                        },
                    ));
                    assert(joined_below(base, names_before.push(rel@)) =~= joined_below(
                        base,
                        names_before,
                    ).push(base.join(rel@)));
                    assert(old_base_files + names_before.push(rel@) =~= (old_base_files
                        + names_before).push(rel@));
                    assert(old_update_files + joined_below(base, names_before).push(base.join(rel@))
                        =~= (old_update_files + joined_below(base, names_before)).push(
                        base.join(rel@),
                    ));
                },
                _ => {},
            }
            i = i + 1;
        }
        assert(all.subrange(0, i as int) =~= all);
        proof {
            lemma_unpack_targets_below(base, all);
            lemma_names_enclosed(all);
            assert forall|k: int|
                old_update_files.len() <= k < self.update_files.deep_view().len() implies crate::path::lies_below(
                base,
                #[trigger] self.update_files.deep_view()[k],
            ) by {
                let names = enclosed_names(all);
                assert(self.update_files.deep_view()[k] == base.join(
                    names[k - old_update_files.len()],
                ));
                lemma_join_enclosed_lies_below(base, names[k - old_update_files.len()]);
            }
        }
        UnpackPlan { steps, extracted_files: Vec::new() }
    }

    /// The places in the staging directory that `apply_update` looks at,
    /// one for each file of the update, in order.
    pub fn apply_probe_paths(&self) -> (paths: Vec<FsPath>)
        ensures
            paths.deep_view() == joined_below(self.temp_path@, self.base_updated_files.deep_view()),
    {
        joined_all(&self.temp_path, &self.base_updated_files)
    }

    /// How to apply the update, given what each place of
    /// `apply_probe_paths` was found to be: every staged regular file is
    /// copied over its counterpart in the game, then the version file of the
    /// game is written with the remote version.
    pub fn apply_update(&self, kinds: &Vec<EntryKind>) -> (plan: ApplyPlan)
        ensures
            plan.copies.deep_view() == apply_copies(
                self.temp_path@,
                self.game_path@,
                self.base_updated_files.deep_view(),
                kinds@,
            ),
            plan.version_file@ == self.game_path@.child("version"@),
            plan.version@ == self.remote_version@,
    {
        let ghost files = self.base_updated_files.deep_view();
        let mut copies: Vec<FileTransfer> = Vec::new();
        let mut i: usize = 0;
        while i < self.base_updated_files.len()
            invariant
                i <= self.base_updated_files.len(),
                files == self.base_updated_files.deep_view(),
                copies.deep_view() == apply_copies(
                    self.temp_path@,
                    self.game_path@,
                    files.subrange(0, i as int),
                    kinds@,
                ),
            decreases self.base_updated_files.len() - i,
        {
            proof {
                lemma_prefix_step(files, i as int);
            }
            let file = &self.base_updated_files[i];
            let is_file = i < kinds.len() && kinds[i] == EntryKind::File;
            if is_file {
                let ghost before = copies.deep_view();
                let from = self.temp_path.join(file);
                let to = self.game_path.join(file);
                copies.push(FileTransfer { from, to });
                assert(copies.deep_view() =~= before.push(
                    FileTransferView {
                        from: self.temp_path@.join(file@),
                        to: self.game_path@.join(file@),
                    },
                ));
            }
            i = i + 1;
        }
        assert(files.subrange(0, i as int) =~= files);
        ApplyPlan {
            copies,
            version_file: self.local_version_path(),
            version: self.remote_version.clone(),
        }
    }

    /// The places in the game that `create_backup` looks at, one for each
    /// file of the update, in order.
    pub fn backup_probe_paths(&self) -> (paths: Vec<FsPath>)
        ensures
            paths.deep_view() == joined_below(self.game_path@, self.base_updated_files.deep_view()),
    {
        joined_all(&self.game_path, &self.base_updated_files)
    }

    /// How to put aside the files that the update replaces, given what each
    /// place of `backup_probe_paths` was found to be: every regular file is
    /// moved below the backup directory, then the version file.
    pub fn create_backup(&self, kinds: &Vec<EntryKind>) -> (plan: BackupPlan)
        ensures
            plan.backup_dir@ == backup_dir(self.game_path@),
            plan.moves.deep_view() == backup_moves(
                self.game_path@,
                self.base_updated_files.deep_view(),
                kinds@,
            ),
            plan.version_move.from@ == self.game_path@.child("version"@),
            plan.version_move.to@ == backup_dir(self.game_path@).child("version"@),
    {
        let ghost files = self.base_updated_files.deep_view();
        let backup = self.game_path.child(".wh_bak");
        let mut moves: Vec<FileTransfer> = Vec::new();
        let mut i: usize = 0;
        while i < self.base_updated_files.len()
            invariant
                i <= self.base_updated_files.len(),
                files == self.base_updated_files.deep_view(),
                backup@ == backup_dir(self.game_path@),
                moves.deep_view() == backup_moves(
                    self.game_path@,
                    files.subrange(0, i as int),
                    kinds@,
                ),
            decreases self.base_updated_files.len() - i,
        {
            proof {
                lemma_prefix_step(files, i as int);
            }
            let file = &self.base_updated_files[i];
            let is_file = i < kinds.len() && kinds[i] == EntryKind::File;
            if is_file {
                let ghost before = moves.deep_view();
                let from = self.game_path.join(file);
                let to = backup.join(file);
                moves.push(FileTransfer { from, to });
                assert(moves.deep_view() =~= before.push(
                    FileTransferView {
                        from: self.game_path@.join(file@),
                        to: backup_dir(self.game_path@).join(file@),
                    },
                ));
            }
            i = i + 1;
        }
        assert(files.subrange(0, i as int) =~= files);
        let version_move = FileTransfer {
            from: self.local_version_path(),
            to: backup.child("version"),
        };
        BackupPlan { backup_dir: backup, moves, version_move }
    }
}

/// Whether `name` ends with `/`.
pub fn ends_with_slash(name: &str) -> (res: bool)
    ensures
        res == is_directory_name(name@),
        res == (name@.len() > 0 && name@.last() == '/'),
{
    let n = name.unicode_len();
    if n == 0 {
        return false;
    }
    name.get_char(n - 1) == '/'
}

/// Each path of `names` joined below `base`, in order.
pub fn joined_all(base: &FsPath, names: &Vec<FsPath>) -> (paths: Vec<FsPath>)
    ensures
        paths.deep_view() == joined_below(base@, names.deep_view()),
{
    let mut paths: Vec<FsPath> = Vec::new();
    let mut i: usize = 0;
    while i < names.len()
        invariant
            i <= names.len(),
            paths.len() == i,
            forall|j: int| 0 <= j < i ==> #[trigger] paths@[j]@ == base@.join(names@[j]@),
        decreases names.len() - i,
    {
        paths.push(base.join(&names[i]));
        i = i + 1;
    }
    assert(paths.deep_view() =~= joined_below(base@, names.deep_view()));
    paths
}

/// Every step of unpacking comes from an archive entry, in archive order,
/// with a safe relative name: it puts the entry at that name below the base,
/// as a directory exactly when the stored name ends with `/`, with the
/// entry's permissions; and every entry with a safe name gets a step.
pub proof fn lemma_unpack_step_meaning(base: PathView, entries: Seq<ZipEntryView>)
    ensures
        forall|k: int|
            #![trigger unpack_steps(base, entries)[k]]
            0 <= k < unpack_steps(base, entries).len() ==> {
                let step = unpack_steps(base, entries)[k];
                let entry = entries[step.index];
                &&& 0 <= step.index < entries.len()
                &&& entry.enclosed_name matches Some(rel) && crate::path::is_enclosed(rel)
                    && step.target == base.join(rel)
                &&& step.directory == (entry.name.len() > 0 && entry.name.last() == '/')
                &&& step.mode == entry.unix_mode
            },
        forall|k: int, l: int|
            0 <= k < l < unpack_steps(base, entries).len() ==> (#[trigger] unpack_steps(
                base,
                entries,
            )[k]).index < (#[trigger] unpack_steps(base, entries)[l]).index,
        forall|i: int|
            #![trigger entries[i]]
            0 <= i < entries.len() && (entries[i].enclosed_name matches Some(rel)
                && crate::path::is_enclosed(rel)) ==> exists|k: int|
                0 <= k < unpack_steps(base, entries).len() && (#[trigger] unpack_steps(
                    base,
                    entries,
                )[k]).index == i,
    decreases entries.len(),
{
    if entries.len() > 0 {
        let prev = entries.drop_last();
        let before = unpack_steps(base, prev);
        let steps = unpack_steps(base, entries);
        lemma_unpack_step_meaning(base, prev);
        assert forall|k: int| 0 <= k < before.len() implies #[trigger] steps[k] == before[k]
            && before[k].index < prev.len() && entries[before[k].index] == prev[before[k].index] by {
            assert(steps[k] == before[k]);
        }
        assert forall|i: int|
            #![trigger entries[i]]
            0 <= i < entries.len() && (entries[i].enclosed_name matches Some(rel)
                && crate::path::is_enclosed(rel)) implies exists|k: int|
            0 <= k < steps.len() && (#[trigger] steps[k]).index == i by {
            if i < prev.len() {
                assert(prev[i] == entries[i]);
                let k = choose|k: int| 0 <= k < before.len() && (#[trigger] before[k]).index == i;
                assert(steps[k] == before[k]);
            } else {
                assert(steps[steps.len() - 1].index == i);
            }
        }
    }
}

/// Whether a sequence of transfers moves exactly the files of `files`
/// observed to be regular files, in order: each goes from `from_dir` to
/// `to_dir`, both joined with the file's relative path.
pub open spec fn transfers_of_regular_files(
    transfers: Seq<FileTransferView>,
    files: Seq<PathView>,
    kinds: Seq<EntryKind>,
    from_dir: PathView,
    to_dir: PathView,
) -> bool {
    exists|idx: Seq<int>|
        {
            &&& idx.len() == transfers.len()
            &&& forall|k: int|
                #![trigger idx[k]]
                0 <= k < idx.len() ==> {
                    &&& 0 <= idx[k] < files.len()
                    &&& idx[k] < kinds.len() && kinds[idx[k]] == EntryKind::File
                    &&& transfers[k] == FileTransferView {
                        from: from_dir.join(files[idx[k]]),
                        to: to_dir.join(files[idx[k]]),
                    }
                }
            &&& forall|k: int, l: int| 0 <= k < l < idx.len() ==> #[trigger] idx[k] < #[trigger] idx[l]
            &&& forall|i: int|
                0 <= i < files.len() && i < kinds.len() && #[trigger] kinds[i] == EntryKind::File
                    ==> exists|k: int| 0 <= k < idx.len() && #[trigger] idx[k] == i
        }
}

/// The positions below `n` whose observed kind is a regular file, in order.
spec fn file_positions(kinds: Seq<EntryKind>, n: nat) -> Seq<int>
    decreases n,
{
    if n == 0 {
        Seq::empty()
    } else {
        let before = file_positions(kinds, (n - 1) as nat);
        if n - 1 < kinds.len() && kinds[n - 1] == EntryKind::File {
            before.push(n - 1)
        } else {
            before
        }
    }
}

proof fn lemma_file_positions(kinds: Seq<EntryKind>, n: nat)
    ensures
        forall|k: int|
            #![trigger file_positions(kinds, n)[k]]
            0 <= k < file_positions(kinds, n).len() ==> 0 <= file_positions(kinds, n)[k] < n
                && file_positions(kinds, n)[k] < kinds.len() && kinds[file_positions(kinds, n)[k]]
                == EntryKind::File,
        forall|k: int, l: int|
            0 <= k < l < file_positions(kinds, n).len() ==> #[trigger] file_positions(kinds, n)[k]
                < #[trigger] file_positions(kinds, n)[l],
        forall|i: int|
            0 <= i < n && i < kinds.len() && #[trigger] kinds[i] == EntryKind::File ==> exists|k: int|
                0 <= k < file_positions(kinds, n).len() && #[trigger] file_positions(kinds, n)[k] == i,
    decreases n,
{
    if n > 0 {
        let m = (n - 1) as nat;
        lemma_file_positions(kinds, m);
        let before = file_positions(kinds, m);
        let p = file_positions(kinds, n);
        assert forall|i: int|
            0 <= i < n && i < kinds.len() && #[trigger] kinds[i] == EntryKind::File implies exists|k: int|
            0 <= k < p.len() && #[trigger] p[k] == i by {
            if i < m {
                let k = choose|k: int| 0 <= k < before.len() && #[trigger] before[k] == i;
                assert(p[k] == before[k]);
            } else {
                assert(p[p.len() - 1] == i);
            }
        }
    }
}

/// Transfers laid out along the positions of the regular files are
/// exactly the transfers of those files.
proof fn lemma_transfers_along_positions(
    transfers: Seq<FileTransferView>,
    files: Seq<PathView>,
    kinds: Seq<EntryKind>,
    from_dir: PathView,
    to_dir: PathView,
)
    requires
        transfers.len() == file_positions(kinds, files.len()).len(),
        forall|k: int|
            #![trigger transfers[k]]
            0 <= k < transfers.len() ==> transfers[k] == (FileTransferView {
                from: from_dir.join(files[file_positions(kinds, files.len())[k]]),
                to: to_dir.join(files[file_positions(kinds, files.len())[k]]),
            }),
    ensures
        transfers_of_regular_files(transfers, files, kinds, from_dir, to_dir),
{
    let idx = file_positions(kinds, files.len());
    lemma_file_positions(kinds, files.len());
    assert forall|k: int| #![trigger idx[k]] 0 <= k < idx.len() implies {
        &&& 0 <= idx[k] < files.len()
        &&& idx[k] < kinds.len() && kinds[idx[k]] == EntryKind::File
        &&& transfers[k] == FileTransferView {
            from: from_dir.join(files[idx[k]]),
            to: to_dir.join(files[idx[k]]),
        }
    } by {
        assert(transfers[k] == FileTransferView {
            from: from_dir.join(files[idx[k]]),
            to: to_dir.join(files[idx[k]]),
        });
    }
}

proof fn lemma_apply_copies_along_positions(
    temp: PathView,
    game: PathView,
    files: Seq<PathView>,
    kinds: Seq<EntryKind>,
)
    ensures
        apply_copies(temp, game, files, kinds).len() == file_positions(kinds, files.len()).len(),
        forall|k: int|
            #![trigger apply_copies(temp, game, files, kinds)[k]]
            0 <= k < apply_copies(temp, game, files, kinds).len() ==> apply_copies(
                temp,
                game,
                files,
                kinds,
            )[k] == (FileTransferView {
                from: temp.join(files[file_positions(kinds, files.len())[k]]),
                to: game.join(files[file_positions(kinds, files.len())[k]]),
            }),
    decreases files.len(),
{
    if files.len() > 0 {
        let prev = files.drop_last();
        lemma_apply_copies_along_positions(temp, game, prev, kinds);
        lemma_file_positions(kinds, prev.len());
        let before = file_positions(kinds, prev.len());
        assert forall|k: int| 0 <= k < before.len() implies files[#[trigger] before[k]]
            == prev[before[k]] by {}
    }
}

proof fn lemma_backup_moves_along_positions(game: PathView, files: Seq<PathView>, kinds: Seq<EntryKind>)
    ensures
        backup_moves(game, files, kinds).len() == file_positions(kinds, files.len()).len(),
        forall|k: int|
            #![trigger backup_moves(game, files, kinds)[k]]
            0 <= k < backup_moves(game, files, kinds).len() ==> backup_moves(game, files, kinds)[k]
                == (FileTransferView {
                from: game.join(files[file_positions(kinds, files.len())[k]]),
                to: game.child(".wh_bak"@).join(files[file_positions(kinds, files.len())[k]]),
            }),
    decreases files.len(),
{
    if files.len() > 0 {
        let prev = files.drop_last();
        lemma_backup_moves_along_positions(game, prev, kinds);
        lemma_file_positions(kinds, prev.len());
        let before = file_positions(kinds, prev.len());
        assert forall|k: int| 0 <= k < before.len() implies files[#[trigger] before[k]]
            == prev[before[k]] by {}
    }
}

/// Applying an update copies exactly the staged files that were observed
/// to be regular files, each once, in order, from the staging directory to
/// the same place in the game; directories and missing files are not copied.
pub proof fn lemma_apply_copies_staged_files(
    temp: PathView,
    game: PathView,
    files: Seq<PathView>,
    kinds: Seq<EntryKind>,
)
    ensures
        transfers_of_regular_files(apply_copies(temp, game, files, kinds), files, kinds, temp, game),
{
    lemma_apply_copies_along_positions(temp, game, files, kinds);
    lemma_transfers_along_positions(apply_copies(temp, game, files, kinds), files, kinds, temp, game);
}

/// The backup moves exactly the installed files that were observed to be
/// regular files, each once, in order, from the game to the same place below
/// `.wh_bak`; directories and missing files are not moved.
pub proof fn lemma_backup_moves_installed_files(
    game: PathView,
    files: Seq<PathView>,
    kinds: Seq<EntryKind>,
)
    ensures
        transfers_of_regular_files(
            backup_moves(game, files, kinds),
            files,
            kinds,
            game,
            game.child(".wh_bak"@),
        ),
{
    lemma_backup_moves_along_positions(game, files, kinds);
    lemma_transfers_along_positions(
        backup_moves(game, files, kinds),
        files,
        kinds,
        game,
        game.child(".wh_bak"@),
    );
}

/// Every name kept from an archive is safe.
pub proof fn lemma_names_enclosed(entries: Seq<ZipEntryView>)
    ensures
        forall|k: int|
            0 <= k < enclosed_names(entries).len() ==> crate::path::is_enclosed(
                #[trigger] enclosed_names(entries)[k],
            ),
    decreases entries.len(),
{
    if entries.len() > 0 {
        let before = enclosed_names(entries.drop_last());
        lemma_names_enclosed(entries.drop_last());
        assert forall|k: int|
            0 <= k < enclosed_names(entries).len() implies crate::path::is_enclosed(
            #[trigger] enclosed_names(entries)[k],
        ) by {
            if k < before.len() {
                assert(enclosed_names(entries)[k] == before[k]);
            }
        }
    }
}

/// Unpacking never plans to write outside the directory it unpacks to.
pub proof fn lemma_unpack_targets_below(base: PathView, entries: Seq<ZipEntryView>)
    ensures
        forall|k: int|
            0 <= k < unpack_steps(base, entries).len() ==> crate::path::lies_below(
                base,
                #[trigger] unpack_steps(base, entries)[k].target,
            ),
    decreases entries.len(),
{
    if entries.len() > 0 {
        lemma_unpack_targets_below(base, entries.drop_last());
        if let Some(p) = entries.last().enclosed_name {
            if crate::path::is_enclosed(p) {
                lemma_join_enclosed_lies_below(base, p);
            }
        }
    }
}

/// The staging directory is the directory that holds the downloaded
/// archive, so every file of an update is unpacked exactly where applying
/// the update copies it from.
pub proof fn lemma_unpacked_where_applied(temp: PathView, entries: Seq<ZipEntryView>)
    ensures
        unpack_base(temp.child("client_files.zip"@)) == temp,
        joined_below(unpack_base(temp.child("client_files.zip"@)), enclosed_names(entries))
            == joined_below(temp, enclosed_names(entries)),
{
    assert(temp.child("client_files.zip"@).parts.drop_last() =~= temp.parts);
}

} // verus!
