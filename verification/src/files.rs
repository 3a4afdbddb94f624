//! Which files, directories and sockets the runtime trusts, decided on what
//! the file system says of them.
use crate::error::{fails_with, ErrorView, RuntimeError, RuntimeResult};
use crate::paths::{absolute, extension, is_absolute, path_extension, same_bytes};
use crate::text::cat;
use vstd::prelude::*;
use vstd::string::*;
use vstd::utf8::encode_utf8;

verus! {

/// What the file system says of a file.
#[derive(Clone, Copy, Debug, PartialEq, Eq)]
pub struct FileStat {
    pub is_file: bool,
    pub is_dir: bool,
    pub is_symlink: bool,
    pub is_socket: bool,
    pub mode: u32,
    pub uid: u32,
    pub gid: u32,
}

/// The user and the group that the process acts for.
#[derive(Clone, Copy, Debug, PartialEq, Eq)]
pub struct UserIds {
    pub euid: u32,
    pub egid: u32,
}

/// What is known of a file whose path was resolved: the file itself, and the
/// directories above it from the nearest one up.
#[derive(Debug)]
pub struct OwnedFile {
    pub target: Option<FileStat>,
    pub parents: Vec<Option<FileStat>>,
}

/// A path of a manifest entry cannot be used.
pub open spec fn required_path(field: Seq<char>) -> ErrorView {
    ErrorView::typed(
        "required_path_missing"@,
        "Codex app-server manifest entry is missing required path "@ + field,
    )
}

/// A path of a manifest entry cannot be used.
pub fn required_path_error(field: &str) -> (r: RuntimeError)
    ensures
        r@ == required_path(field@),
{
    RuntimeError::typed(
        "required_path_missing",
        cat("Codex app-server manifest entry is missing required path ", field).as_str(),
    )
}

/// Whether others than the user may write to a file. The user's own group may.
pub open spec fn unsafe_write(stat: FileStat, ids: UserIds) -> bool {
    ||| stat.mode & 0o002 != 0
    ||| stat.mode & 0o020 != 0 && !(stat.uid == ids.euid && stat.gid == ids.egid)
}

/// Whether others than the user may write to a file.
pub fn has_unsafe_write_permissions(stat: &FileStat, ids: &UserIds) -> (r: bool)
    ensures
        r == unsafe_write(*stat, *ids),
{
    if stat.mode & 0o002 != 0 {
        return true;
    }
    if stat.mode & 0o020 == 0 {
        return false;
    }
    stat.uid != ids.euid || stat.gid != ids.egid
}

/// Whether a file belongs to the user or to root.
pub open spec fn trusted_owner(stat: FileStat, ids: UserIds) -> bool {
    stat.uid == ids.euid || stat.uid == 0
}

/// Whether a file is a directory of the user or of root that others may not
/// write to.
pub open spec fn trusted_dir(stat: FileStat, ids: UserIds) -> bool {
    stat.is_dir && !stat.is_symlink && !unsafe_write(stat, ids) && trusted_owner(stat, ids)
}

/// Whether the nearest directory above a file is trusted.
pub open spec fn trusted_parent(parents: Seq<Option<FileStat>>, ids: UserIds) -> bool {
    parents.len() > 0 && parents[0] is Some && trusted_dir(parents[0]->Some_0, ids)
}

/// Checks the directories above a file, from the nearest one up. The nearest
/// one settles it: it is trusted, or the file is not.
pub fn validate_trusted_parent_chain(parents: &Vec<Option<FileStat>>, ids: &UserIds) -> (r:
    RuntimeResult<()>)
    ensures
        trusted_parent(parents@, *ids) ==> r is Ok,
        !trusted_parent(parents@, *ids) ==> fails_with(r, required_path("parent"@)),
{
    if parents.len() == 0 {
        return Err(required_path_error("parent"));
    }
    match parents[0] {
        Some(stat) => {
            if !stat.is_dir || stat.is_symlink || has_unsafe_write_permissions(&stat, ids) || (
            stat.uid != ids.euid && stat.uid != 0) {
                Err(required_path_error("parent"))
            } else {
                Ok(())
            }
        },
        None => Err(required_path_error("parent")),
    }
}

/// Why a file cannot be used, if it cannot: it must be given by an absolute
/// path, be a regular file of the user or of root that others may not write
/// to, be executable if it is to be run, and lie in a trusted directory.
pub open spec fn owned_file_fault(
    path: Seq<char>,
    file: OwnedFile,
    executable: bool,
    ids: UserIds,
) -> Option<ErrorView> {
    match file.target {
        Some(stat) => if !absolute(encode_utf8(path)) || !stat.is_file || unsafe_write(stat, ids)
            || !trusted_owner(stat, ids) {
            Some(required_path("file"@))
        } else if executable && stat.mode & 0o111 == 0 {
            Some(required_path("executable"@))
        } else if !trusted_parent(file.parents@, ids) {
            Some(required_path("parent"@))
        } else {
            None
        },
        None => Some(required_path("file"@)),
    }
}

/// Whether a result says that there is no fault, or which one.
pub open spec fn reports(r: RuntimeResult<()>, fault: Option<ErrorView>) -> bool {
    match fault {
        Some(e) => fails_with(r, e),
        None => r is Ok,
    }
}

/// Checks a file that the runtime is to use.
pub fn validate_owned_file(path: &str, file: &OwnedFile, executable: bool, ids: &UserIds) -> (r:
    RuntimeResult<()>)
    ensures
        reports(r, owned_file_fault(path@, *file, executable, *ids)),
{
    if !is_absolute(path.as_bytes()) {
        return Err(required_path_error("file"));
    }
    let stat = match file.target {
        Some(stat) => stat,
        None => return Err(required_path_error("file")),
    };
    if !stat.is_file || has_unsafe_write_permissions(&stat, ids) {
        return Err(required_path_error("file"));
    }
    if stat.uid != ids.euid && stat.uid != 0 {
        return Err(required_path_error("file"));
    }
    if executable && stat.mode & 0o111 == 0 {
        return Err(required_path_error("executable"));
    }
    validate_trusted_parent_chain(&file.parents, ids)
}

/// Why a directory cannot be used, if it cannot: it must be given by an
/// absolute path, be one that others may not write to, and belong to the user,
/// or to root where that is allowed.
pub open spec fn owned_dir_fault(
    path: Seq<char>,
    stat: Option<FileStat>,
    require_user_owner: bool,
    ids: UserIds,
) -> Option<ErrorView> {
    if absolute(encode_utf8(path)) && stat is Some && stat->Some_0.is_dir && !unsafe_write(
        stat->Some_0,
        ids,
    ) && (stat->Some_0.uid == ids.euid || (!require_user_owner && stat->Some_0.uid == 0)) {
        None
    } else {
        Some(required_path("directory"@))
    }
}

/// Checks a directory that the runtime is to use.
pub fn validate_owned_dir(
    path: &str,
    stat: &Option<FileStat>,
    require_user_owner: bool,
    ids: &UserIds,
) -> (r: RuntimeResult<()>)
    ensures
        reports(r, owned_dir_fault(path@, *stat, require_user_owner, *ids)),
{
    if !is_absolute(path.as_bytes()) {
        return Err(required_path_error("directory"));
    }
    let stat = match stat {
        Some(stat) => stat,
        None => return Err(required_path_error("directory")),
    };
    if !stat.is_dir || has_unsafe_write_permissions(stat, ids) {
        return Err(required_path_error("directory"));
    }
    if (require_user_owner && stat.uid != ids.euid) || (!require_user_owner && stat.uid != ids.euid
        && stat.uid != 0) {
        return Err(required_path_error("directory"));
    }
    Ok(())
}

/// What is left to do to a directory that is to be private to the user.
#[derive(Clone, Copy, Debug, PartialEq, Eq)]
pub enum PrivateDir {
    Ready,
    Restrict,
    NotADirectory,
    UnexpectedOwner,
}

/// The permissions of a private directory.
pub const PRIVATE_DIR_MODE: u32 = 0o700;

/// What is left to do to a directory that is to be private to the user.
pub open spec fn private_state(stat: FileStat, ids: UserIds) -> PrivateDir {
    if !stat.is_dir || stat.is_symlink {
        PrivateDir::NotADirectory
    } else if stat.uid != ids.euid {
        PrivateDir::UnexpectedOwner
    } else if stat.mode & 0o777 != PRIVATE_DIR_MODE {
        PrivateDir::Restrict
    } else {
        PrivateDir::Ready
    }
}

/// Judges a directory that is to be private to the user.
pub fn private_dir_state(stat: &FileStat, ids: &UserIds) -> (r: PrivateDir)
    ensures
        r == private_state(*stat, *ids),
{
    if !stat.is_dir || stat.is_symlink {
        return PrivateDir::NotADirectory;
    }
    if stat.uid != ids.euid {
        return PrivateDir::UnexpectedOwner;
    }
    if stat.mode & 0o777 != PRIVATE_DIR_MODE {
        return PrivateDir::Restrict;
    }
    PrivateDir::Ready
}

/// Why a directory cannot be made private to the user, if it cannot.
pub fn private_dir_fault(state: PrivateDir) -> (r: Option<&'static str>)
    ensures
        match state {
            PrivateDir::Ready => r is None,
            PrivateDir::Restrict => r is None,
            PrivateDir::NotADirectory => r is Some && r->Some_0@
                == "runtime path is not a directory"@,
            PrivateDir::UnexpectedOwner => r is Some && r->Some_0@
                == "runtime directory has an unexpected owner"@,
        },
{
    match state {
        PrivateDir::Ready => None,
        PrivateDir::Restrict => None,
        PrivateDir::NotADirectory => Some("runtime path is not a directory"),
        PrivateDir::UnexpectedOwner => Some("runtime directory has an unexpected owner"),
    }
}

/// Whether a file is a socket of the user.
pub open spec fn ready_socket(stat: Option<FileStat>, ids: UserIds) -> bool {
    stat is Some && stat->Some_0.is_socket && stat->Some_0.uid == ids.euid
}

/// Whether a file is a socket of the user.
pub fn socket_is_ready(stat: &Option<FileStat>, ids: &UserIds) -> (r: bool)
    ensures
        r == ready_socket(*stat, *ids),
{
    match stat {
        Some(stat) => stat.is_socket && stat.uid == ids.euid,
        None => false,
    }
}

/// Whether a file is one that can be run.
pub open spec fn runnable(stat: Option<FileStat>) -> bool {
    stat is Some && stat->Some_0.is_file && stat->Some_0.mode & 0o111 != 0
}

/// Whether one of several files can be run.
pub open spec fn some_runnable(found: Seq<Option<FileStat>>) -> bool {
    exists|i: int| 0 <= i < found.len() && runnable(#[trigger] found[i])
}

/// Whether a program that was looked for in some directories was found in one.
pub fn executable_in_path(found: &Vec<Option<FileStat>>) -> (r: bool)
    ensures
        r == some_runnable(found@),
{
    for i in 0..found.len()
        invariant
            forall|j: int| 0 <= j < i ==> !runnable(#[trigger] found@[j]),
    {
        match found[i] {
            Some(stat) => if stat.is_file && stat.mode & 0o111 != 0 {
                assert(runnable(found@[i as int]));
                return true;
            },
            None => {},
        }
    }
    false
}

/// A byte with an ASCII capital made small.
pub open spec fn small(b: u8) -> u8 {
    if 65 <= b <= 90 {
        (b + 32) as u8
    } else {
        b
    }
}

/// Bytes with ASCII capitals made small.
pub open spec fn small_bytes(s: Seq<u8>) -> Seq<u8> {
    s.map_values(|b: u8| small(b))
}

/// Whether an extension is one of files that the desktop would run.
pub open spec fn launching_extension(found: Seq<u8>) -> bool {
    let name = small_bytes(found);
    ||| name == encode_utf8("command"@)
    ||| name == encode_utf8("desktop"@)
    ||| name == encode_utf8("jar"@)
    ||| name == encode_utf8("terminal"@)
    ||| name == encode_utf8("tool"@)
}

/// Whether an extension is one of files that the desktop would run.
fn is_launching_extension(found: &[u8]) -> (r: bool)
    ensures
        r == launching_extension(found@),
{
    let mut name: Vec<u8> = Vec::new();
    for i in 0..found.len()
        invariant
            name@ == small_bytes(found@.take(i as int)),
    {
        let b: u8 = found[i];
        name.push(
            if 65 <= b && b <= 90 {
                b + 32
            } else {
                b
            },
        );
        assert(name@ =~= small_bytes(found@.take(i + 1)));
    }
    assert(found@.take(found@.len() as int) =~= found@);
    same_bytes(name.as_slice(), "command".as_bytes()) || same_bytes(
        name.as_slice(),
        "desktop".as_bytes(),
    ) || same_bytes(name.as_slice(), "jar".as_bytes()) || same_bytes(
        name.as_slice(),
        "terminal".as_bytes(),
    ) || same_bytes(name.as_slice(), "tool".as_bytes())
}

/// Why a local file is not opened, if it is not.
pub open spec fn openable_fault(path: Seq<char>, stat: Option<FileStat>) -> Option<ErrorView> {
    let found = extension(encode_utf8(path));
    if !absolute(encode_utf8(path)) {
        Some(ErrorView::invalid_params("Local file path must be absolute"@))
    } else if stat is None {
        Some(ErrorView::invalid_params("Local file does not exist"@))
    } else if stat->Some_0.is_symlink {
        Some(ErrorView::invalid_params("Opening symbolic links is not supported"@))
    } else if !stat->Some_0.is_file {
        Some(ErrorView::invalid_params("Invalid local file path"@))
    } else if stat->Some_0.mode & 0o111 != 0 || (found is Some && launching_extension(
        found->Some_0,
    )) {
        Some(ErrorView::invalid_params("Opening executable files is not supported"@))
    } else {
        None
    }
}

/// Checks a local file that is to be opened on the desktop.
pub fn validate_openable_file(path: &str, stat: &Option<FileStat>) -> (r: RuntimeResult<()>)
    ensures
        reports(r, openable_fault(path@, *stat)),
{
    if !is_absolute(path.as_bytes()) {
        return Err(RuntimeError::invalid_params("Local file path must be absolute"));
    }
    let stat = match stat {
        Some(stat) => stat,
        None => return Err(RuntimeError::invalid_params("Local file does not exist")),
    };
    if stat.is_symlink {
        return Err(RuntimeError::invalid_params("Opening symbolic links is not supported"));
    }
    if !stat.is_file {
        return Err(RuntimeError::invalid_params("Invalid local file path"));
    }
    let forbidden_extension = match path_extension(path.as_bytes()) {
        Some(found) => is_launching_extension(found.as_slice()),
        None => false,
    };
    if forbidden_extension || stat.mode & 0o111 != 0 {
        return Err(RuntimeError::invalid_params("Opening executable files is not supported"));
    }
    Ok(())
}

} // verus!
