use vstd::prelude::*;

verus! {

/// The comparison operators between two version numbers.
#[derive(Clone, Copy, Debug, PartialEq, Eq, Structural)]
pub enum VersionCmp {
    Eq,
    Ne,
    Lt,
    Le,
    Ge,
    Gt,
}

/// The answer of `version_compare::compare_to` for the version strings `a`
/// and `b` and the operator `op`: `Err(())` when either string is not a
/// version number, else whether `a op b` holds.
pub uninterp spec fn version_compare_to(a: Seq<char>, b: Seq<char>, op: VersionCmp) -> Result<
    bool,
    (),
>;

/// Whether the operator holds between a version and itself.
pub open spec fn holds_on_equal(op: VersionCmp) -> bool {
    op is Eq || op is Le || op is Ge
}

/// Calls `version_compare::compare_to(a, b, op)`.
///
/// Trusted: its result is the named `version_compare_to(a, b, op)`. The one
/// fact stated besides is what the crate's source shows for two equal
/// strings: both parse to the same parts, which compare as equal, so when
/// they parse the answer is whether `op` admits equality. Whether a string
/// parses, and how two different versions compare, is left unsaid.
#[verifier::external_body]
pub(crate) fn compare_versions(a: &str, b: &str, op: VersionCmp) -> (res: Result<bool, ()>)
    ensures
        res == version_compare_to(a@, b@, op),
        res matches Ok(answer) ==> (a@ == b@ ==> answer == holds_on_equal(op)),
{
    let cmp = match op {
        VersionCmp::Eq => version_compare::Cmp::Eq,
        VersionCmp::Ne => version_compare::Cmp::Ne,
        VersionCmp::Lt => version_compare::Cmp::Lt,
        VersionCmp::Le => version_compare::Cmp::Le,
        VersionCmp::Ge => version_compare::Cmp::Ge,
        VersionCmp::Gt => version_compare::Cmp::Gt,
    };
    version_compare::compare_to(a, b, cmp)
}

/// The text that stands for a local version that could not be read.
pub open spec fn unknown_version() -> Seq<char> {
    "None"@
}

/// Whether an update is due: when the local version is unknown, or the
/// remote version is a version number greater than the local one.
pub open spec fn update_needed(remote: Seq<char>, local: Seq<char>) -> bool {
    local == unknown_version() || version_compare_to(remote, local, VersionCmp::Gt) == Ok::<
        bool,
        (),
    >(true)
}

/// An update is due exactly when the installed version is unknown (the text
/// `"None"`), or when `version_compare` answers that the remote version is
/// greater than the installed one; an answer of "not greater", or of an
/// unparsable version, means no update.
pub proof fn lemma_update_needed_meaning(remote: Seq<char>, local: Seq<char>)
    ensures
        local == "None"@ ==> update_needed(remote, local),
        local != "None"@ ==> (update_needed(remote, local) <==> version_compare_to(
            remote,
            local,
            VersionCmp::Gt,
        ) == Ok::<bool, ()>(true)),
{
}

/// Decides whether the installed version `local` must be updated to `remote`.
/// An installed version that the caller could not read is given as the text
/// `"None"`. When either text is not a version number no update is done.
pub fn needs_update(remote: &str, local: &str) -> (res: bool)
    ensures
        res == update_needed(remote@, local@),
        local@ == unknown_version() ==> res,
        remote@ == local@ ==> (res <==> local@ == unknown_version()),
        local@ == "None"@ ==> res,
        local@ != "None"@ ==> (res <==> version_compare_to(remote@, local@, VersionCmp::Gt) == Ok::<
            bool,
            (),
        >(true)),
{
    let local_string = String::from_str(local);
    let unknown = String::from_str("None");
    if local_string == unknown {
        return true;
    }
    match compare_versions(remote, local, VersionCmp::Gt) {
        Ok(greater) => greater,
        Err(()) => false,
    }
}

} // verus!
