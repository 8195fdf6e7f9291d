use vstd::prelude::*;

use crate::path::{FsPath, PathView};

verus! {

/// Where the search for the installation of Fall of Cybertron stands. The
/// game's executable is `TFOC.exe`, which lies in the `Binaries` directory
/// of the installation.
pub enum SearchStage {
    /// Nothing done yet.
    Start,
    /// Looking for `./TFOC.exe`, the updater being run from `Binaries`, whose
    /// parent `..` is then the installation.
    CheckingCurrentDir,
    /// Looking for `./Binaries/TFOC.exe`, the updater being run from the installation.
    CheckingBinaries,
    /// Reading the installation path from the registry.
    ReadingRegistry,
    /// Looking for the executable below the installation path of the registry.
    CheckingRegistry(FsPath),
    /// Asking the user to pick the folder.
    AskingUser,
    /// Looking for the executable in the picked folder, taken for `Binaries`.
    CheckingPickedBinaries(FsPath),
    /// Looking for the executable below the picked folder, taken for the installation.
    CheckingPickedRoot(FsPath),
    /// The search is over.
    Done,
}

/// What the caller reports back to the search.
pub enum SearchEvent {
    /// The search is to start.
    Begin,
    /// Whether the path of the last `Probe` exists.
    Probed(bool),
    /// The installation path that the registry holds, if any.
    RegistryRead(Option<FsPath>),
    /// The folder that the user picked, if any.
    FolderPicked(Option<FsPath>),
}

/// What the search asks the caller to do next.
pub enum SearchAction {
    /// Check whether the path exists.
    Probe(FsPath),
    /// Read the installation path from the registry.
    ReadRegistry,
    /// Ask the user to pick the installation folder.
    AskUser,
    /// The installation was found at the path.
    Found(FsPath),
    /// The installation could not be found.
    NotFound,
}

pub enum SearchStageView {
    Start,
    CheckingCurrentDir,
    CheckingBinaries,
    ReadingRegistry,
    CheckingRegistry(PathView),
    AskingUser,
    CheckingPickedBinaries(PathView),
    CheckingPickedRoot(PathView),
    Done,
}

pub enum SearchEventView {
    Begin,
    Probed(bool),
    RegistryRead(Option<PathView>),
    FolderPicked(Option<PathView>),
}

pub enum SearchActionView {
    Probe(PathView),
    ReadRegistry,
    AskUser,
    Found(PathView),
    NotFound,
}

impl View for SearchStage {
    type V = SearchStageView;

    open spec fn view(&self) -> SearchStageView {
        match self {
            SearchStage::Start => SearchStageView::Start,
            SearchStage::CheckingCurrentDir => SearchStageView::CheckingCurrentDir,
            SearchStage::CheckingBinaries => SearchStageView::CheckingBinaries,
            SearchStage::ReadingRegistry => SearchStageView::ReadingRegistry,
            SearchStage::CheckingRegistry(p) => SearchStageView::CheckingRegistry(p@),
            SearchStage::AskingUser => SearchStageView::AskingUser,
            SearchStage::CheckingPickedBinaries(p) => SearchStageView::CheckingPickedBinaries(p@),
            SearchStage::CheckingPickedRoot(p) => SearchStageView::CheckingPickedRoot(p@),
            SearchStage::Done => SearchStageView::Done,
        }
    }
}

impl View for SearchEvent {
    type V = SearchEventView;

    open spec fn view(&self) -> SearchEventView {
        match self {
            SearchEvent::Begin => SearchEventView::Begin,
            SearchEvent::Probed(b) => SearchEventView::Probed(*b),
            SearchEvent::RegistryRead(p) => SearchEventView::RegistryRead(p.deep_view()),
            SearchEvent::FolderPicked(p) => SearchEventView::FolderPicked(p.deep_view()),
        }
    }
}

impl View for SearchAction {
    type V = SearchActionView;

    open spec fn view(&self) -> SearchActionView {
        match self {
            SearchAction::Probe(p) => SearchActionView::Probe(p@),
            SearchAction::ReadRegistry => SearchActionView::ReadRegistry,
            SearchAction::AskUser => SearchActionView::AskUser,
            SearchAction::Found(p) => SearchActionView::Found(p@),
            SearchAction::NotFound => SearchActionView::NotFound,
        }
    }
}

/// The relative path `.`.
pub open spec fn current_dir() -> PathView {
    PathView::empty().child("."@)
}

/// The relative path `..`.
pub open spec fn parent_dir() -> PathView {
    PathView::empty().child(".."@)
}

/// The installation that holds a folder taken for `Binaries`: `..` for the
/// current directory, else the folder's parent.
pub open spec fn holding_dir(binaries: PathView) -> PathView {
    if binaries == current_dir() {
        parent_dir()
    } else {
        binaries.popped()
    }
}

/// The executable below a directory that is taken for `Binaries`.
pub open spec fn exe_in(dir: PathView) -> PathView {
    dir.child("TFOC.exe"@)
}

/// The executable below a directory that is taken for the installation.
pub open spec fn exe_below(dir: PathView) -> PathView {
    dir.child("Binaries"@).child("TFOC.exe"@)
}

/// The path that the search checks while in `stage`, if it checks one.
pub open spec fn probe_of(stage: SearchStageView) -> Option<PathView> {
    match stage {
        SearchStageView::CheckingCurrentDir => Some(exe_in(current_dir())),
        SearchStageView::CheckingBinaries => Some(exe_below(current_dir())),
        SearchStageView::CheckingRegistry(install) => Some(exe_below(install)),
        SearchStageView::CheckingPickedBinaries(picked) => Some(exe_in(picked)),
        SearchStageView::CheckingPickedRoot(picked) => Some(exe_below(picked)),
        _ => None,
    }
}

/// The stage that checks the path of `probe` next, with the action that asks for it.
pub open spec fn probing(stage: SearchStageView) -> (SearchStageView, SearchActionView) {
    (stage, SearchActionView::Probe(probe_of(stage)->0))
}

/// One step of the search: from `stage`, on `event`, to the next stage and
/// the action that the caller performs. The probes come in this order: the
/// current directory as `Binaries`, the current directory as the
/// installation, the installation path of the registry, the picked folder as
/// `Binaries`, the picked folder as the installation. An event that does not
/// answer the pending action ends the search without a path.
pub open spec fn search_next(stage: SearchStageView, event: SearchEventView) -> (
    SearchStageView,
    SearchActionView,
) {
    let done = (SearchStageView::Done, SearchActionView::NotFound);
    match (stage, event) {
        (SearchStageView::Start, SearchEventView::Begin) => probing(
            SearchStageView::CheckingCurrentDir,
        ),
        (SearchStageView::CheckingCurrentDir, SearchEventView::Probed(true)) => (
            SearchStageView::Done,
            SearchActionView::Found(holding_dir(current_dir())),
        ),
        (SearchStageView::CheckingCurrentDir, SearchEventView::Probed(false)) => probing(
            SearchStageView::CheckingBinaries,
        ),
        (SearchStageView::CheckingBinaries, SearchEventView::Probed(true)) => (
            SearchStageView::Done,
            SearchActionView::Found(current_dir()),
        ),
        (SearchStageView::CheckingBinaries, SearchEventView::Probed(false)) => (
            SearchStageView::ReadingRegistry,
            SearchActionView::ReadRegistry,
        ),
        (SearchStageView::ReadingRegistry, SearchEventView::RegistryRead(Some(install))) => probing(
            SearchStageView::CheckingRegistry(install),
        ),
        (SearchStageView::ReadingRegistry, SearchEventView::RegistryRead(None)) => (
            SearchStageView::AskingUser,
            SearchActionView::AskUser,
        ),
        (SearchStageView::CheckingRegistry(install), SearchEventView::Probed(true)) => (
            SearchStageView::Done,
            SearchActionView::Found(install),
        ),
        (SearchStageView::CheckingRegistry(_), SearchEventView::Probed(false)) => (
            SearchStageView::AskingUser,
            SearchActionView::AskUser,
        ),
        (SearchStageView::AskingUser, SearchEventView::FolderPicked(Some(picked))) => probing(
            SearchStageView::CheckingPickedBinaries(picked),
        ),
        (SearchStageView::CheckingPickedBinaries(picked), SearchEventView::Probed(true)) => (
            SearchStageView::Done,
            SearchActionView::Found(holding_dir(picked)),
        ),
        (SearchStageView::CheckingPickedBinaries(picked), SearchEventView::Probed(false)) => probing(
            SearchStageView::CheckingPickedRoot(picked),
        ),
        (SearchStageView::CheckingPickedRoot(picked), SearchEventView::Probed(true)) => (
            SearchStageView::Done,
            SearchActionView::Found(picked),
        ),
        _ => done,
    }
}

/// The path `.`.
fn current_dir_path() -> (p: FsPath)
    ensures
        p@ == current_dir(),
{
    FsPath::relative(".")
}

/// The path `dir/TFOC.exe`.
fn exe_in_path(dir: &FsPath) -> (p: FsPath)
    ensures
        p@ == exe_in(dir@),
{
    dir.child("TFOC.exe")
}

/// The path `dir/Binaries/TFOC.exe`.
fn exe_below_path(dir: &FsPath) -> (p: FsPath)
    ensures
        p@ == exe_below(dir@),
{
    let mut p = dir.child("Binaries");
    p.push("TFOC.exe");
    p
}

/// The installation that holds the folder `binaries`, taken for `Binaries`.
fn holding_dir_path(binaries: &FsPath) -> (p: FsPath)
    ensures
        p@ == holding_dir(binaries@),
{
    let is_current = binaries.root.unicode_len() == 0 && binaries.parts.len() == 1
        && binaries.parts[0] == String::from_str(".");
    if is_current {
        assert(binaries@.parts =~= current_dir().parts);
        assert(binaries@ =~= current_dir());
        FsPath::relative("..")
    } else {
        assert(binaries@ != current_dir()) by {
            if binaries@ == current_dir() {
                assert(binaries.root@.len() == 0);
                assert(binaries.parts.deep_view().len() == 1);
                assert(binaries.parts@.len() == 1);
                assert(binaries.parts.deep_view()[0] == binaries.parts@[0]@);
                assert(binaries.parts@[0]@ == "."@);
            }
        }
        let mut p = binaries.duplicate();
        p.pop();
        p
    }
}

/// The directory two levels above the executable found at `exe`.
fn installation_of(exe: FsPath) -> (p: FsPath)
    ensures
        p@ == exe@.popped().popped(),
{
    let mut p = exe;
    p.pop();
    p.pop();
    p
}

/// One step of the search for the installation of the game.
pub fn search_step(stage: SearchStage, event: SearchEvent) -> (res: (SearchStage, SearchAction))
    ensures
        (res.0@, res.1@) == search_next(stage@, event@),
{
    match (stage, event) {
        (SearchStage::Start, SearchEvent::Begin) => {
            let probe = exe_in_path(&current_dir_path());
            (SearchStage::CheckingCurrentDir, SearchAction::Probe(probe))
        },
        (SearchStage::CheckingCurrentDir, SearchEvent::Probed(true)) => {
            let found = holding_dir_path(&current_dir_path());
            (SearchStage::Done, SearchAction::Found(found))
        },
        (SearchStage::CheckingCurrentDir, SearchEvent::Probed(false)) => {
            let probe = exe_below_path(&current_dir_path());
            (SearchStage::CheckingBinaries, SearchAction::Probe(probe))
        },
        (SearchStage::CheckingBinaries, SearchEvent::Probed(true)) => {
            let found = installation_of(exe_below_path(&current_dir_path()));
            assert(found@ =~= current_dir());
            (SearchStage::Done, SearchAction::Found(found))
        },
        (SearchStage::CheckingBinaries, SearchEvent::Probed(false)) => {
            (SearchStage::ReadingRegistry, SearchAction::ReadRegistry)
        },
        (SearchStage::ReadingRegistry, SearchEvent::RegistryRead(Some(install))) => {
            let probe = exe_below_path(&install);
            (SearchStage::CheckingRegistry(install), SearchAction::Probe(probe))
        },
        (SearchStage::ReadingRegistry, SearchEvent::RegistryRead(None)) => {
            (SearchStage::AskingUser, SearchAction::AskUser)
        },
        (SearchStage::CheckingRegistry(install), SearchEvent::Probed(true)) => {
            let found = installation_of(exe_below_path(&install));
            assert(found@ =~= install@);
            (SearchStage::Done, SearchAction::Found(found))
        },
        (SearchStage::CheckingRegistry(_), SearchEvent::Probed(false)) => {
            (SearchStage::AskingUser, SearchAction::AskUser)
        },
        (SearchStage::AskingUser, SearchEvent::FolderPicked(Some(picked))) => {
            let probe = exe_in_path(&picked);
            (SearchStage::CheckingPickedBinaries(picked), SearchAction::Probe(probe))
        },
        (SearchStage::CheckingPickedBinaries(picked), SearchEvent::Probed(true)) => {
            let found = holding_dir_path(&picked);
            (SearchStage::Done, SearchAction::Found(found))
        },
        (SearchStage::CheckingPickedBinaries(picked), SearchEvent::Probed(false)) => {
            let probe = exe_below_path(&picked);
            (SearchStage::CheckingPickedRoot(picked), SearchAction::Probe(probe))
        },
        (SearchStage::CheckingPickedRoot(picked), SearchEvent::Probed(true)) => {
            let found = installation_of(exe_below_path(&picked));
            assert(found@ =~= picked@);
            (SearchStage::Done, SearchAction::Found(found))
        },
        _ => (SearchStage::Done, SearchAction::NotFound),
    }
}

/// Every installation path that the search reports is confirmed by a
/// successful check of the pending probe, and is the root of the game: the
/// probe was either the executable below it, in its `Binaries` folder, or
/// the executable in a folder taken for `Binaries` that it holds.
pub proof fn lemma_found_after_successful_probe(stage: SearchStageView, event: SearchEventView)
    ensures
        search_next(stage, event).1 matches SearchActionView::Found(p) ==> {
            &&& event == SearchEventView::Probed(true)
            &&& probe_of(stage) matches Some(exe) && {
                ||| exe == exe_below(p)
                ||| exe.parent() matches Some(binaries) && exe == exe_in(binaries) && p
                    == holding_dir(binaries)
            }
        },
{
    match stage {
        SearchStageView::CheckingCurrentDir => {
            assert(exe_in(current_dir()).parent() == Some(current_dir())) by {
                assert(exe_in(current_dir()).parts.drop_last() =~= current_dir().parts);
            }
        },
        SearchStageView::CheckingPickedBinaries(picked) => {
            assert(exe_in(picked).parent() == Some(picked)) by {
                assert(exe_in(picked).parts.drop_last() =~= picked.parts);
            }
        },
        _ => {},
    }
}

/// Whether `event` is the kind of answer that the action pending in `stage` expects.
pub open spec fn answers(stage: SearchStageView, event: SearchEventView) -> bool {
    match stage {
        SearchStageView::Start => event is Begin,
        SearchStageView::ReadingRegistry => event is RegistryRead,
        SearchStageView::AskingUser => event is FolderPicked,
        SearchStageView::Done => false,
        _ => event is Probed,
    }
}

/// The search gives up only once the user was asked: an answered step ends
/// without a path only when the user picked no folder, or when the picked
/// folder was checked both as `Binaries` and as the installation in vain.
/// Whenever the registry gives no installation, or one without the
/// executable, the user is asked next.
pub proof fn lemma_gives_up_only_after_asking(stage: SearchStageView, event: SearchEventView)
    ensures
        answers(stage, event) && search_next(stage, event).1 is NotFound ==> {
            ||| stage is AskingUser && event == SearchEventView::FolderPicked(None)
            ||| stage is CheckingPickedRoot && event == SearchEventView::Probed(false)
        },
        stage is CheckingRegistry && event == SearchEventView::Probed(false) ==> search_next(
            stage,
            event,
        ) == (SearchStageView::AskingUser, SearchActionView::AskUser),
        stage is ReadingRegistry && event == SearchEventView::RegistryRead(None) ==> search_next(
            stage,
            event,
        ) == (SearchStageView::AskingUser, SearchActionView::AskUser),
        answers(stage, event) && !(stage is AskingUser) && !(stage is CheckingPickedRoot) ==> !(
        search_next(stage, event).1 is NotFound),
{
}

/// The registry is consulted only once both places near the updater were
/// checked in vain, and the user is asked only once the registry gave no
/// confirmed installation.
pub proof fn lemma_search_order(stage: SearchStageView, event: SearchEventView)
    ensures
        search_next(stage, event).1 is ReadRegistry ==> stage is CheckingBinaries && event
            == SearchEventView::Probed(false),
        search_next(stage, event).1 is AskUser ==> (stage is ReadingRegistry && event
            == SearchEventView::RegistryRead(None)) || (stage is CheckingRegistry && event
            == SearchEventView::Probed(false)),
        stage is Done ==> search_next(stage, event) == (
            SearchStageView::Done,
            SearchActionView::NotFound,
        ),
{
}

} // verus!
