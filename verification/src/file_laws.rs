//! What holds of the judgements on files: permissions told by the digits of a
//! mode, and what each judgement lets through.
use crate::error::RuntimeResult;
use crate::files::{
    executable_in_path, has_unsafe_write_permissions, launching_extension, openable_fault,
    owned_dir_fault, owned_file_fault, private_dir_fault, private_dir_state, private_state,
    ready_socket, runnable, small, small_bytes, socket_is_ready, some_runnable, unsafe_write,
    validate_openable_file, validate_owned_dir, validate_owned_file,
    validate_trusted_parent_chain, FileStat, OwnedFile, PrivateDir, UserIds, PRIVATE_DIR_MODE,
};
use crate::manifest::{EntryView, RuntimeEntry};
use crate::paths::{absolute, extension, SLASH};
use crate::selection::{entry_fault, module_dirs_fault, validate_runtime_entry, EntryFacts};
use crate::text::is_white_space;
use vstd::prelude::*;
use vstd::utf8::{encode_scalar, encode_utf8, is_ascii_chars, is_ascii_chars_encode_utf8};

verus! {

/// Whether a mode lets a class of users write: the second bit of its octal
/// digit.
pub open spec fn may_write(digit: int) -> bool {
    digit == 2 || digit == 3 || digit == 6 || digit == 7
}

/// Whether a mode lets a class of users run a file: the first bit of its octal
/// digit.
pub open spec fn may_run(digit: int) -> bool {
    digit == 1 || digit == 3 || digit == 5 || digit == 7
}

/// The bits of a mode and its octal digits.
proof fn lemma_mode_digits(mode: u32)
    ensures
        (mode & 0o002 != 0) == may_write(mode as int % 8),
        (mode & 0o020 != 0) == may_write(mode as int / 8 % 8),
        (mode & 0o111 != 0) == (may_run(mode as int % 8) || may_run(mode as int / 8 % 8) || may_run(
            mode as int / 64 % 8,
        )),
        (mode & 0o077 == 0) == (mode as int % 64 == 0),
        mode & 0o777 == mode % 512,
{
    let others: u32 = mode % 8;
    let group: u32 = mode / 8 % 8;
    let user: u32 = mode / 64 % 8;
    assert((mode & 0o002 != 0) == (others == 2 || others == 3 || others == 6 || others == 7))
        by (bit_vector)
        requires
            others == mode % 8,
    ;
    assert((mode & 0o020 != 0) == (group == 2 || group == 3 || group == 6 || group == 7))
        by (bit_vector)
        requires
            group == mode / 8 % 8,
    ;
    assert((mode & 0o111 != 0) == (others % 2 == 1 || group % 2 == 1 || user % 2 == 1))
        by (bit_vector)
        requires
            others == mode % 8,
            group == mode / 8 % 8,
            user == mode / 64 % 8,
    ;
    assert((mode & 0o077 == 0) == (mode % 64 == 0)) by (bit_vector);
    assert(mode & 0o777 == mode % 512) by (bit_vector);
}

/// Others than the user may write to a file where the last digit of its mode
/// says so, or the one before it does and the file is not of the user and the
/// user's own group.
pub proof fn writing_is_told_by_the_digits_of_the_mode(stat: FileStat, ids: UserIds)
    ensures
        unsafe_write(stat, ids) <==> may_write(stat.mode as int % 8) || (may_write(
            stat.mode as int / 8 % 8,
        ) && (stat.uid != ids.euid || stat.gid != ids.egid)),
{
    lemma_mode_digits(stat.mode);
}

/// A program is a regular file that somebody may run.
pub proof fn a_program_is_told_by_the_digits_of_the_mode(stat: FileStat)
    ensures
        runnable(Some(stat)) <==> stat.is_file && (may_run(stat.mode as int % 8) || may_run(
            stat.mode as int / 8 % 8,
        ) || may_run(stat.mode as int / 64 % 8)),
        !runnable(None),
{
    lemma_mode_digits(stat.mode);
}

/// A directory is private as it is where it is one, of the user, and its last
/// three digits are 700; where only the digits are others they are changed, and
/// anything else is refused.
pub proof fn a_private_directory_is_the_users_alone(stat: FileStat, ids: UserIds)
    ensures
        private_state(stat, ids) == PrivateDir::Ready <==> stat.is_dir && !stat.is_symlink
            && stat.uid == ids.euid && stat.mode as int / 64 % 8 == 7 && stat.mode as int % 64 == 0,
        private_state(stat, ids) == PrivateDir::Restrict <==> stat.is_dir && !stat.is_symlink
            && stat.uid == ids.euid && !(stat.mode as int / 64 % 8 == 7 && stat.mode as int % 64
            == 0),
        private_state(stat, ids) == PrivateDir::NotADirectory <==> !stat.is_dir || stat.is_symlink,
        private_state(stat, ids) == PrivateDir::UnexpectedOwner <==> stat.is_dir && !stat.is_symlink
            && stat.uid != ids.euid,
{
    lemma_mode_digits(stat.mode);
    let mode = stat.mode;
    assert(mode as int % 512 == 448 <==> mode as int / 64 % 8 == 7 && mode as int % 64 == 0);
}

/// A socket is ready where it is a socket of the user.
pub proof fn a_ready_socket_is_the_users(stat: FileStat, ids: UserIds)
    ensures
        ready_socket(Some(stat), ids) <==> stat.is_socket && stat.uid == ids.euid,
        !ready_socket(None, ids),
{
}

/// The first byte of a character is a slash where the character is.
proof fn lemma_first_slash(c: char)
    ensures
        encode_scalar(c as u32)[0] == SLASH <==> c == '/',
{
    let n = c as u32;
    assert(n <= 0x7f ==> (n & 0x7f) as u8 == n) by (bit_vector);
    assert((0xC0u8 | ((n >> 6) & 0x1F) as u8) >= 0x80) by (bit_vector);
    assert((0xE0u8 | ((n >> 12) & 0x0F) as u8) >= 0x80) by (bit_vector);
    assert((0xF0u8 | ((n >> 18) & 0x7) as u8) >= 0x80) by (bit_vector);
}

/// A path is absolute where its text begins with a slash.
pub proof fn an_absolute_path_begins_with_a_slash(path: Seq<char>)
    ensures
        absolute(encode_utf8(path)) <==> path.len() > 0 && path[0] == '/',
{
    if path.len() > 0 {
        lemma_first_slash(path[0]);
        assert(encode_utf8(path)[0] == encode_scalar(path[0] as u32)[0]);
    }
}

/// A file can be used where its path is absolute, it is a regular file of the
/// user or of root that others may not write to, somebody may run it if it is
/// to be run, and the directory that it is in is one of the user or of root
/// that others may not write to, and no link.
pub proof fn a_usable_file_is_in_trusted_hands(
    path: Seq<char>,
    file: OwnedFile,
    executable: bool,
    ids: UserIds,
)
    ensures
        owned_file_fault(path, file, executable, ids) is None <==> {
            &&& path.len() > 0 && path[0] == '/'
            &&& file.target matches Some(stat) && {
                &&& stat.is_file
                &&& stat.uid == ids.euid || stat.uid == 0
                &&& !may_write(stat.mode as int % 8)
                &&& may_write(stat.mode as int / 8 % 8) ==> stat.uid == ids.euid && stat.gid
                    == ids.egid
                &&& executable ==> may_run(stat.mode as int % 8) || may_run(
                    stat.mode as int / 8 % 8,
                ) || may_run(stat.mode as int / 64 % 8)
            }
            &&& file.parents@.len() > 0
            &&& file.parents@[0] matches Some(parent) && {
                &&& parent.is_dir
                &&& !parent.is_symlink
                &&& parent.uid == ids.euid || parent.uid == 0
                &&& !may_write(parent.mode as int % 8)
                &&& may_write(parent.mode as int / 8 % 8) ==> parent.uid == ids.euid && parent.gid
                    == ids.egid
            }
        },
{
    an_absolute_path_begins_with_a_slash(path);
    if let Some(stat) = file.target {
        lemma_mode_digits(stat.mode);
    }
    if file.parents@.len() > 0 {
        if let Some(parent) = file.parents@[0] {
            lemma_mode_digits(parent.mode);
        }
    }
}

/// A directory can be used where its path is absolute and it is a directory of
/// the user, or of root if that is allowed, that others may not write to.
pub proof fn a_usable_directory_is_in_trusted_hands(
    path: Seq<char>,
    stat: Option<FileStat>,
    require_user_owner: bool,
    ids: UserIds,
)
    ensures
        owned_dir_fault(path, stat, require_user_owner, ids) is None <==> {
            &&& path.len() > 0 && path[0] == '/'
            &&& stat matches Some(stat) && {
                &&& stat.is_dir
                &&& stat.uid == ids.euid || (stat.uid == 0 && !require_user_owner)
                &&& !may_write(stat.mode as int % 8)
                &&& may_write(stat.mode as int / 8 % 8) ==> stat.uid == ids.euid && stat.gid
                    == ids.egid
            }
        },
{
    an_absolute_path_begins_with_a_slash(path);
    if let Some(stat) = stat {
        lemma_mode_digits(stat.mode);
    }
}

/// Whether a byte is that small letter, small or capital.
pub open spec fn either_case(b: u8, letter: char) -> bool {
    b as int == letter as int || b as int == letter as int - 32
}

/// Whether bytes are a word of small letters, each small or capital.
pub open spec fn spells(found: Seq<u8>, word: Seq<char>) -> bool {
    found.len() == word.len() && forall|i: int|
        0 <= i < found.len() ==> either_case(#[trigger] found[i], word[i])
}

/// Bytes that become a word once capitals are made small are that word.
proof fn lemma_spells(found: Seq<u8>, word: Seq<char>)
    requires
        forall|i: int| 0 <= i < word.len() ==> 'a' <= #[trigger] word[i] <= 'z',
    ensures
        small_bytes(found) == encode_utf8(word) <==> spells(found, word),
{
    assert forall|i: int| 0 <= i < word.len() implies '\0' <= #[trigger] word[i] <= '\u{7f}' by {
        assert('a' <= word[i] <= 'z');
    }
    assert(is_ascii_chars(word));
    is_ascii_chars_encode_utf8(word);
    let made = small_bytes(found);
    let bytes = encode_utf8(word);
    assert(bytes.len() == word.len());
    if made == bytes {
        assert forall|i: int| 0 <= i < found.len() implies either_case(
            #[trigger] found[i],
            word[i],
        ) by {
            assert(made[i] == small(found[i]));
            assert(bytes[i] == word[i] as u8);
            assert('a' <= word[i] <= 'z');
        }
    }
    if spells(found, word) {
        assert forall|i: int| 0 <= i < found.len() implies made[i] == bytes[i] by {
            assert(either_case(found[i], word[i]));
            assert('a' <= word[i] <= 'z');
            assert(bytes[i] == word[i] as u8);
        }
        assert(made =~= bytes);
    }
}

/// The desktop would run files with one of five extensions, in small letters
/// or capitals.
pub proof fn five_extensions_are_run(found: Seq<u8>)
    ensures
        launching_extension(found) <==> spells(found, "command"@) || spells(found, "desktop"@)
            || spells(found, "jar"@) || spells(found, "terminal"@) || spells(found, "tool"@),
{
    reveal_strlit("command");
    reveal_strlit("desktop");
    reveal_strlit("jar");
    reveal_strlit("terminal");
    reveal_strlit("tool");
    lemma_spells(found, "command"@);
    lemma_spells(found, "desktop"@);
    lemma_spells(found, "jar"@);
    lemma_spells(found, "terminal"@);
    lemma_spells(found, "tool"@);
}

/// A local file is opened where its path is absolute, it is there, it is a
/// regular file and no link, nobody may run it, and the desktop would not run
/// it for its extension.
pub proof fn only_harmless_files_are_opened(path: Seq<char>, stat: Option<FileStat>)
    ensures
        openable_fault(path, stat) is None <==> {
            &&& path.len() > 0 && path[0] == '/'
            &&& stat matches Some(stat) && {
                &&& stat.is_file
                &&& !stat.is_symlink
                &&& !may_run(stat.mode as int % 8)
                &&& !may_run(stat.mode as int / 8 % 8)
                &&& !may_run(stat.mode as int / 64 % 8)
            }
            &&& extension(encode_utf8(path)) matches Some(found) ==> !spells(found, "command"@)
                && !spells(found, "desktop"@) && !spells(found, "jar"@) && !spells(
                found,
                "terminal"@,
            ) && !spells(found, "tool"@)
        },
{
    an_absolute_path_begins_with_a_slash(path);
    if let Some(stat) = stat {
        lemma_mode_digits(stat.mode);
    }
    if let Some(found) = extension(encode_utf8(path)) {
        five_extensions_are_run(found);
    }
}

/// A directory among several is at fault where one of them is.
proof fn lemma_module_dirs(dirs: Seq<Seq<char>>, stats: Seq<Option<FileStat>>, ids: UserIds)
    ensures
        module_dirs_fault(dirs, stats, ids) is None <==> forall|i: int|
            0 <= i < dirs.len() ==> owned_dir_fault(
                #[trigger] dirs[i],
                if i < stats.len() {
                    stats[i]
                } else {
                    None
                },
                false,
                ids,
            ) is None,
    decreases dirs.len(),
{
    if dirs.len() > 0 {
        let rest = dirs.drop_last();
        lemma_module_dirs(rest, stats, ids);
        assert forall|i: int| 0 <= i < rest.len() implies rest[i] == dirs[i] by {}
        if module_dirs_fault(dirs, stats, ids) is None {
            assert forall|i: int| 0 <= i < dirs.len() implies owned_dir_fault(
                #[trigger] dirs[i],
                if i < stats.len() {
                    stats[i]
                } else {
                    None
                },
                false,
                ids,
            ) is None by {
                if i < rest.len() {
                    assert(rest[i] == dirs[i]);
                }
            }
        }
        if forall|i: int|
            0 <= i < dirs.len() ==> owned_dir_fault(
                #[trigger] dirs[i],
                if i < stats.len() {
                    stats[i]
                } else {
                    None
                },
                false,
                ids,
            ) is None {
            assert(dirs[dirs.len() - 1] == dirs.last());
            assert forall|i: int| 0 <= i < rest.len() implies owned_dir_fault(
                #[trigger] rest[i],
                if i < stats.len() {
                    stats[i]
                } else {
                    None
                },
                false,
                ids,
            ) is None by {
                assert(rest[i] == dirs[i]);
            }
        }
    }
}

/// Whether a text says something: it holds a character that is not white space.
pub open spec fn says_something(text: Seq<char>) -> bool {
    exists|i: int| 0 <= i < text.len() && !is_white_space(#[trigger] text[i])
}

/// An entry is used only where it says what it must say, each of its paths can
/// be used for what it is for, and the host that it names is the running one;
/// and then it is.
pub proof fn a_used_entry_is_sound(e: EntryView, facts: EntryFacts)
    ensures
        entry_fault(e, facts) is None <==> {
            &&& says_something(e.entry_id)
            &&& says_something(e.install_id)
            &&& says_something(e.app_version)
            &&& says_something(e.cli_version)
            &&& says_something(e.native_host_version)
            &&& owned_dir_fault(e.paths.codex_home, facts.codex_home, true, facts.ids) is None
            &&& owned_dir_fault(e.paths.resources_path, facts.resources_path, false, facts.ids)
                is None
            &&& owned_file_fault(e.paths.codex_cli_path, facts.codex_cli_path, true, facts.ids)
                is None
            &&& owned_file_fault(
                e.paths.extension_host_path,
                facts.extension_host_path,
                true,
                facts.ids,
            ) is None
            &&& owned_file_fault(e.paths.node_path, facts.node_path, true, facts.ids) is None
            &&& e.paths.node_repl_path matches Some(path) ==> owned_file_fault(
                path,
                facts.node_repl_path,
                true,
                facts.ids,
            ) is None
            &&& e.paths.browser_client_path matches Some(path) ==> owned_file_fault(
                path,
                facts.browser_client_path,
                false,
                facts.ids,
            ) is None
            &&& forall|i: int|
                0 <= i < e.paths.node_module_dirs.len() ==> owned_dir_fault(
                    #[trigger] e.paths.node_module_dirs[i],
                    if i < facts.node_module_dirs@.len() {
                        facts.node_module_dirs@[i]
                    } else {
                        None
                    },
                    false,
                    facts.ids,
                ) is None
            &&& facts.current_host is Some
            &&& facts.configured_host == facts.current_host
        },
{
    lemma_module_dirs(e.paths.node_module_dirs, facts.node_module_dirs@, facts.ids);
}

/// Permissions are judged by the digits of the mode.
pub proof fn permissions_are_judged_by_digits(
    stat: FileStat,
    ids: UserIds,
    unsafe_to_trust: bool,
    private: PrivateDir,
)
    requires
        call_ensures(has_unsafe_write_permissions, (&stat, &ids), unsafe_to_trust),
        call_ensures(private_dir_state, (&stat, &ids), private),
    ensures
        unsafe_to_trust <==> may_write(stat.mode as int % 8) || (may_write(stat.mode as int / 8 % 8)
            && (stat.uid != ids.euid || stat.gid != ids.egid)),
        private == PrivateDir::NotADirectory <==> !stat.is_dir || stat.is_symlink,
        private == PrivateDir::UnexpectedOwner <==> stat.is_dir && !stat.is_symlink && stat.uid
            != ids.euid,
        private == PrivateDir::Ready <==> stat.is_dir && !stat.is_symlink && stat.uid == ids.euid
            && stat.mode as int / 64 % 8 == 7 && stat.mode as int % 64 == 0,
{
    writing_is_told_by_the_digits_of_the_mode(stat, ids);
    a_private_directory_is_the_users_alone(stat, ids);
}

/// A directory cannot be made private where it is none or is another user's, and
/// then it is told which.
pub proof fn a_directory_is_made_private_where_it_can_be(
    state: PrivateDir,
    r: Option<&'static str>,
)
    requires
        call_ensures(private_dir_fault, (state,), r),
    ensures
        r is None <==> state == PrivateDir::Ready || state == PrivateDir::Restrict,
        state == PrivateDir::NotADirectory ==> r->Some_0@ == "runtime path is not a directory"@,
        state == PrivateDir::UnexpectedOwner ==> r->Some_0@
            == "runtime directory has an unexpected owner"@,
        PRIVATE_DIR_MODE == 7 * 64,
{
}

/// A socket is ready where it is one of the user's, and a program is found where
/// one of the places holds a regular file that somebody may run.
pub proof fn sockets_and_programs_are_found(
    stat: Option<FileStat>,
    ids: UserIds,
    ready: bool,
    places: Vec<Option<FileStat>>,
    found: bool,
    i: int,
)
    requires
        call_ensures(socket_is_ready, (&stat, &ids), ready),
        call_ensures(executable_in_path, (&places,), found),
    ensures
        ready <==> (stat matches Some(stat) && stat.is_socket && stat.uid == ids.euid),
        0 <= i < places@.len() && (places@[i] matches Some(program) && program.is_file && (may_run(
            program.mode as int % 8,
        ) || may_run(program.mode as int / 8 % 8) || may_run(program.mode as int / 64 % 8)))
            ==> found,
        found ==> exists|k: int|
            0 <= k < places@.len() && ((#[trigger] places@[k]) matches Some(program)
                && program.is_file),
{
    if 0 <= i < places@.len() {
        if let Some(program) = places@[i] {
            a_program_is_told_by_the_digits_of_the_mode(program);
            assert(runnable(places@[i]) ==> some_runnable(places@));
        }
    }
    if found {
        let k = choose|k: int| 0 <= k < places@.len() && runnable(#[trigger] places@[k]);
        assert(places@[k] is Some);
    }
}

/// A file or a directory passes where it is in trusted hands, and only there.
pub proof fn only_what_is_in_trusted_hands_passes(
    path: &str,
    file: OwnedFile,
    executable: bool,
    stat: Option<FileStat>,
    require_user_owner: bool,
    ids: UserIds,
    as_file: RuntimeResult<()>,
    as_dir: RuntimeResult<()>,
    parents: RuntimeResult<()>,
)
    requires
        call_ensures(validate_owned_file, (path, &file, executable, &ids), as_file),
        call_ensures(validate_owned_dir, (path, &stat, require_user_owner, &ids), as_dir),
        call_ensures(validate_trusted_parent_chain, (&file.parents, &ids), parents),
    ensures
        as_file is Ok ==> {
            &&& path@.len() > 0 && path@[0] == '/'
            &&& file.target matches Some(target) && {
                &&& target.is_file
                &&& target.uid == ids.euid || target.uid == 0
                &&& !may_write(target.mode as int % 8)
                &&& may_write(target.mode as int / 8 % 8) ==> target.uid == ids.euid && target.gid
                    == ids.egid
                &&& executable ==> may_run(target.mode as int % 8) || may_run(
                    target.mode as int / 8 % 8,
                ) || may_run(target.mode as int / 64 % 8)
            }
            &&& parents is Ok
        },
        parents is Ok <==> file.parents@.len() > 0 && (file.parents@[0] matches Some(parent) && {
            &&& parent.is_dir
            &&& !parent.is_symlink
            &&& parent.uid == ids.euid || parent.uid == 0
            &&& !may_write(parent.mode as int % 8)
            &&& may_write(parent.mode as int / 8 % 8) ==> parent.uid == ids.euid && parent.gid
                == ids.egid
        }),
        as_dir is Ok <==> {
            &&& path@.len() > 0 && path@[0] == '/'
            &&& stat matches Some(stat) && {
                &&& stat.is_dir
                &&& stat.uid == ids.euid || (stat.uid == 0 && !require_user_owner)
                &&& !may_write(stat.mode as int % 8)
                &&& may_write(stat.mode as int / 8 % 8) ==> stat.uid == ids.euid && stat.gid
                    == ids.egid
            }
        },
        as_file matches Err(error) ==> error@ == owned_file_fault(
            path@,
            file,
            executable,
            ids,
        )->Some_0,
        as_dir matches Err(error) ==> error@.message
            == "Codex app-server manifest entry is missing required path "@ + "directory"@,
        parents matches Err(error) ==> error@.message
            == "Codex app-server manifest entry is missing required path "@ + "parent"@,
{
    a_usable_file_is_in_trusted_hands(path@, file, executable, ids);
    a_usable_directory_is_in_trusted_hands(path@, stat, require_user_owner, ids);
    if file.parents@.len() > 0 {
        if let Some(parent) = file.parents@[0] {
            lemma_mode_digits(parent.mode);
        }
    }
}

/// A local file passes where it is harmless, and only there; and an entry where
/// it is sound.
pub proof fn only_the_harmless_and_the_sound_pass(
    path: &str,
    stat: Option<FileStat>,
    opened: RuntimeResult<()>,
    entry: RuntimeEntry,
    facts: EntryFacts,
    used: RuntimeResult<()>,
)
    requires
        call_ensures(validate_openable_file, (path, &stat), opened),
        call_ensures(validate_runtime_entry, (&entry, &facts), used),
    ensures
        opened is Ok ==> {
            &&& path@.len() > 0 && path@[0] == '/'
            &&& stat matches Some(stat) && {
                &&& stat.is_file
                &&& !stat.is_symlink
                &&& !may_run(stat.mode as int % 8)
                &&& !may_run(stat.mode as int / 8 % 8)
                &&& !may_run(stat.mode as int / 64 % 8)
            }
        },
        opened is Ok <==> openable_fault(path@, stat) is None,
        opened matches Err(error) ==> Some(error@) == openable_fault(path@, stat),
        used is Ok ==> {
            &&& says_something(entry.entry_id@)
            &&& says_something(entry.install_id@)
            &&& says_something(entry.app_version@)
            &&& says_something(entry.cli_version@)
            &&& says_something(entry.native_host_version@)
            &&& owned_dir_fault(entry.paths.codex_home@, facts.codex_home, true, facts.ids) is None
            &&& owned_dir_fault(
                entry.paths.resources_path@,
                facts.resources_path,
                false,
                facts.ids,
            ) is None
            &&& owned_file_fault(
                entry.paths.codex_cli_path@,
                facts.codex_cli_path,
                true,
                facts.ids,
            ) is None
            &&& owned_file_fault(entry.paths.node_path@, facts.node_path, true, facts.ids) is None
            &&& facts.current_host is Some
            &&& facts.configured_host == facts.current_host
        },
        used is Ok <==> entry_fault(entry@, facts) is None,
        used matches Err(error) ==> Some(error@) == entry_fault(entry@, facts),
{
    only_harmless_files_are_opened(path@, stat);
    a_used_entry_is_sound(entry@, facts);
}

} // verus!
