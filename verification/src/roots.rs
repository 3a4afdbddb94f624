//! Where the runtime keeps its files and looks for manifests.
use crate::encode::{is_hex_digit, lemma_hex_digit, random_hex, random_text};
use crate::fields::contents;
use crate::files::FileStat;
use crate::paths::{absolute, is_absolute, join_path, path_join, same_path, same_path_as, SLASH};
use crate::text::{cat, decimal, decimal_text};
use vstd::prelude::*;
use vstd::slice::slice_to_vec;
use vstd::utf8::{encode_utf8, is_ascii_chars, is_ascii_chars_encode_utf8};

verus! {

/// The longest path of a Unix socket on Linux, in bytes.
pub const MAX_UNIX_SOCKET_PATH_BYTES: usize = 107;

/// The file name of a manifest of native hosts.
pub const MANIFEST_FILE_NAME: &'static str = "chrome-native-hosts-v2.json";

/// The environment variables that say where manifests are.
#[derive(Debug)]
pub struct ManifestEnv {
    pub manifest: Option<Vec<u8>>,
    pub xdg_state_home: Option<Vec<u8>>,
    pub codex_home: Option<Vec<u8>>,
    pub home: Option<Vec<u8>>,
}

/// `leaf` below `base`.
pub open spec fn below(base: Seq<u8>, leaf: Seq<char>) -> Seq<u8> {
    path_join(base, encode_utf8(leaf))
}

/// The manifest in the directory for state files.
pub open spec fn state_manifest(env: ManifestEnv) -> Option<Seq<u8>> {
    match (env.xdg_state_home, env.home) {
        (Some(state), _) => Some(below(below(state@, "openai-codex"@), MANIFEST_FILE_NAME@)),
        (None, Some(home)) => Some(
            below(below(home@, ".local/state/openai-codex"@), MANIFEST_FILE_NAME@),
        ),
        (None, None) => None,
    }
}

/// The manifest in the directory of Codex.
pub open spec fn codex_manifest(env: ManifestEnv) -> Option<Seq<u8>> {
    match (env.codex_home, env.home) {
        (Some(codex), _) => Some(below(codex@, MANIFEST_FILE_NAME@)),
        (None, Some(home)) => Some(below(below(home@, ".codex"@), MANIFEST_FILE_NAME@)),
        (None, None) => None,
    }
}

/// The manifests to read, in order: the one that is named outright, or else
/// those of the state directory and of the Codex directory, once if they are
/// one.
pub open spec fn manifest_list(env: ManifestEnv) -> Seq<Seq<u8>> {
    match env.manifest {
        Some(path) => seq![path@],
        None => match (state_manifest(env), codex_manifest(env)) {
            (Some(a), Some(b)) => if same_path_as(a, b) {
                seq![a]
            } else {
                seq![a, b]
            },
            (Some(a), None) => seq![a],
            (None, Some(b)) => seq![b],
            (None, None) => Seq::empty(),
        },
    }
}

/// The manifests to read, in order.
pub fn manifest_paths(env: &ManifestEnv) -> (r: Vec<Vec<u8>>)
    ensures
        contents(r@) == manifest_list(*env),
{
    let mut paths: Vec<Vec<u8>> = Vec::new();
    match &env.manifest {
        Some(path) => {
            paths.push(slice_to_vec(path.as_slice()));
            assert(contents(paths@) =~= manifest_list(*env));
            return paths;
        },
        None => {},
    }
    let state = match (&env.xdg_state_home, &env.home) {
        (Some(state), _) => Some(
            join_path(join_path(state.as_slice(), "openai-codex").as_slice(), MANIFEST_FILE_NAME),
        ),
        (None, Some(home)) => Some(
            join_path(
                join_path(home.as_slice(), ".local/state/openai-codex").as_slice(),
                MANIFEST_FILE_NAME,
            ),
        ),
        (None, None) => None,
    };
    let codex = match (&env.codex_home, &env.home) {
        (Some(codex), _) => Some(join_path(codex.as_slice(), MANIFEST_FILE_NAME)),
        (None, Some(home)) => Some(
            join_path(join_path(home.as_slice(), ".codex").as_slice(), MANIFEST_FILE_NAME),
        ),
        (None, None) => None,
    };
    match (state, codex) {
        (Some(a), Some(b)) => {
            let twice = same_path(a.as_slice(), b.as_slice());
            paths.push(a);
            if !twice {
                paths.push(b);
            }
        },
        (Some(a), None) => paths.push(a),
        (None, Some(b)) => paths.push(b),
        (None, None) => {},
    }
    assert(contents(paths@) =~= manifest_list(*env));
    paths
}

/// Whether a path is short enough for a Unix socket.
pub open spec fn fits_unix_socket(path: Seq<u8>) -> bool {
    path.len() <= MAX_UNIX_SOCKET_PATH_BYTES
}

/// Whether a path is short enough for a Unix socket.
pub fn unix_socket_path_fits(path: &[u8]) -> (r: bool)
    ensures
        r == fits_unix_socket(path@),
{
    path.len() <= MAX_UNIX_SOCKET_PATH_BYTES
}

/// A directory that the environment names, and what the file system says of
/// it without following a link.
#[derive(Debug)]
pub struct NamedDir {
    pub path: Vec<u8>,
    pub stat: Option<FileStat>,
}

/// What the choice of a runtime directory depends on.
#[derive(Debug)]
pub struct HostFacts {
    pub uid: u32,
    pub pid: u32,
    pub xdg_runtime_dir: Option<NamedDir>,
    pub home: Option<NamedDir>,
    pub nanos_since_epoch: Option<u128>,
}

/// Whether a directory belongs to the user, is given by an absolute path and
/// is no link.
pub open spec fn own_dir(dir: NamedDir, uid: u32) -> bool {
    &&& absolute(dir.path@)
    &&& dir.stat is Some
    &&& dir.stat->Some_0.is_dir
    &&& !dir.stat->Some_0.is_symlink
    &&& dir.stat->Some_0.uid == uid
}

/// Whether a directory belongs to the user.
fn is_own_dir(dir: &NamedDir, uid: u32) -> (r: bool)
    ensures
        r == own_dir(*dir, uid),
{
    match dir.stat {
        Some(stat) => is_absolute(dir.path.as_slice()) && stat.is_dir && !stat.is_symlink
            && stat.uid == uid,
        None => false,
    }
}

/// The user's directory for runtime files: the one the session provides if it
/// is the user's alone, or the cache below the home directory.
pub open spec fn user_base(facts: HostFacts) -> Option<Seq<u8>> {
    if facts.xdg_runtime_dir is Some && own_dir(facts.xdg_runtime_dir->Some_0, facts.uid)
        && facts.xdg_runtime_dir->Some_0.stat->Some_0.mode & 0o077 == 0 {
        Some(facts.xdg_runtime_dir->Some_0.path@)
    } else if facts.home is Some && own_dir(facts.home->Some_0, facts.uid) {
        Some(below(facts.home->Some_0.path@, ".cache"@))
    } else {
        None
    }
}

/// The user's directory for runtime files, if there is one.
fn find_user_base(facts: &HostFacts) -> (r: Option<Vec<u8>>)
    ensures
        match r {
            Some(base) => user_base(*facts) == Some(base@),
            None => user_base(*facts) is None,
        },
{
    match &facts.xdg_runtime_dir {
        Some(dir) => {
            if is_own_dir(dir, facts.uid) {
                match dir.stat {
                    Some(stat) => if stat.mode & 0o077 == 0 {
                        return Some(slice_to_vec(dir.path.as_slice()));
                    },
                    None => {},
                }
            }
        },
        None => {},
    }
    match &facts.home {
        Some(dir) => {
            if is_own_dir(dir, facts.uid) {
                return Some(join_path(dir.path.as_slice(), ".cache"));
            }
        },
        None => {},
    }
    None
}

/// The base that is used where the user has no directory for runtime files.
pub open spec fn shared_base(uid: u32, nonce: Seq<char>) -> Seq<u8> {
    below(
        encode_utf8("/tmp"@),
        "codex-chrome-runtime-"@ + decimal_text(uid as nat) + "-"@ + nonce,
    )
}

/// The directory that runtime directories are made in.
pub open spec fn runtime_base(facts: HostFacts, base_nonce: Seq<char>) -> Seq<u8> {
    match user_base(facts) {
        Some(base) => base,
        None => shared_base(facts.uid, base_nonce),
    }
}

/// A number for a nonce: random, or else the process id.
pub open spec fn base_nonce_of(facts: HostFacts, random: Option<Seq<char>>) -> Seq<char> {
    match random {
        Some(nonce) => nonce,
        None => decimal_text(facts.pid as nat),
    }
}

/// A nonce for the runtime directory: random, or else from the clock.
pub open spec fn nonce_of(facts: HostFacts, random: Option<Seq<char>>) -> Seq<char> {
    match (random, facts.nanos_since_epoch) {
        (Some(nonce), _) => nonce,
        (None, Some(nanos)) => decimal_text(nanos as nat),
        (None, None) => "fallback"@,
    }
}

/// The directory that runtime directories are made in, given what was drawn
/// for its name in case the user has none.
pub fn private_runtime_base(facts: &HostFacts, base_nonce: &str) -> (r: Vec<u8>)
    ensures
        r@ == runtime_base(*facts, base_nonce@),
{
    match find_user_base(facts) {
        Some(base) => base,
        None => {
            let head = cat("codex-chrome-runtime-", decimal(facts.uid as u128).as_str());
            let leaf = cat(cat(head.as_str(), "-").as_str(), base_nonce);
            join_path("/tmp".as_bytes(), leaf.as_str())
        },
    }
}

/// The name of a runtime directory.
pub open spec fn runtime_leaf(pid: u32, nonce: Seq<char>) -> Seq<char> {
    "h-"@ + decimal_text(pid as nat) + "-"@ + nonce
}

/// The runtime directory that is wanted, below the user's own base.
pub open spec fn wanted_root(facts: HostFacts, base_nonce: Seq<char>, nonce: Seq<char>) -> Seq<u8> {
    below(below(runtime_base(facts, base_nonce), "cdx-r"@), runtime_leaf(facts.pid, nonce))
}

/// The runtime directory with a short path.
pub open spec fn short_root(facts: HostFacts, nonce: Seq<char>) -> Seq<u8> {
    below(
        below(
            encode_utf8("/tmp"@),
            "cdx-r-"@ + decimal_text(facts.uid as nat) + "-"@ + nonce,
        ),
        runtime_leaf(facts.pid, nonce),
    )
}

/// The runtime directory: the wanted one if sockets fit in it, or else the
/// short one.
pub open spec fn root_for(facts: HostFacts, base_nonce: Seq<char>, nonce: Seq<char>) -> Seq<u8> {
    let wanted = wanted_root(facts, base_nonce, nonce);
    if fits_unix_socket(below(wanted, "a-0000000000000000.sock"@)) {
        wanted
    } else {
        short_root(facts, nonce)
    }
}

/// The runtime directory, given what was drawn for it.
pub fn runtime_root_for(facts: &HostFacts, base_nonce: &str, nonce: &str) -> (r: Vec<u8>)
    ensures
        r@ == root_for(*facts, base_nonce@, nonce@),
{
    let base = private_runtime_base(facts, base_nonce);
    let pid = decimal(facts.pid as u128);
    let leaf = cat(cat(cat("h-", pid.as_str()).as_str(), "-").as_str(), nonce);
    let candidate = join_path(join_path(base.as_slice(), "cdx-r").as_slice(), leaf.as_str());
    if unix_socket_path_fits(
        join_path(candidate.as_slice(), "a-0000000000000000.sock").as_slice(),
    ) {
        return candidate;
    }
    let uid = decimal(facts.uid as u128);
    let shared = cat(cat(cat("cdx-r-", uid.as_str()).as_str(), "-").as_str(), nonce);
    join_path(join_path("/tmp".as_bytes(), shared.as_str()).as_slice(), leaf.as_str())
}

/// Whether what was drawn is random text of that many bytes, if anything was.
pub open spec fn drawn(random: Option<Seq<char>>, byte_count: nat) -> bool {
    random matches Some(s) ==> random_text(s, byte_count)
}

/// Draws a runtime directory of its own.
pub fn unique_runtime_root(facts: &HostFacts) -> (r: Vec<u8>)
    ensures
        exists|base_random: Option<Seq<char>>, random: Option<Seq<char>>|
            #![trigger base_nonce_of(*facts, base_random), nonce_of(*facts, random)]
            drawn(base_random, 16) && drawn(random, 8) && r@ == root_for(
                *facts,
                base_nonce_of(*facts, base_random),
                nonce_of(*facts, random),
            ),
{
    let ghost base_random: Option<Seq<char>>;
    let ghost random: Option<Seq<char>>;
    let base_nonce = match random_hex(16) {
        Ok(nonce) => {
            proof {
                base_random = Some(nonce@);
            }
            nonce
        },
        Err(_) => {
            proof {
                base_random = None;
            }
            decimal(facts.pid as u128)
        },
    };
    let nonce = match random_hex(8) {
        Ok(nonce) => {
            proof {
                random = Some(nonce@);
            }
            nonce
        },
        Err(_) => {
            proof {
                random = None;
            }
            match facts.nanos_since_epoch {
                Some(nanos) => decimal(nanos),
                None => "fallback".to_owned(),
            }
        },
    };
    assert(base_nonce_of(*facts, base_random) == base_nonce@);
    assert(nonce_of(*facts, random) == nonce@);
    runtime_root_for(facts, base_nonce.as_str(), nonce.as_str())
}

/// The file name of a socket whose owner's id has that hash.
pub open spec fn socket_name(hash: Seq<char>) -> Seq<char> {
    "a-"@ + hash + ".sock"@
}

/// A number below a power of ten has no more digits than that power has
/// zeros.
proof fn lemma_decimal_text(n: nat, digits: nat)
    requires
        n < vstd::arithmetic::power::pow(10, digits),
        digits > 0,
    ensures
        0 < decimal_text(n).len() <= digits,
        is_ascii_chars(decimal_text(n)),
    decreases n,
{
    reveal(vstd::arithmetic::power::pow);
    lemma_hex_digit((n % 10) as int);
    if n >= 10 {
        assert(digits > 1) by {
            assert(vstd::arithmetic::power::pow(10, 1) == 10) by {
                reveal_with_fuel(vstd::arithmetic::power::pow, 3);
            }
        }
        lemma_decimal_text(n / 10, (digits - 1) as nat);
    }
}

/// An unsigned number of 32 bits has at most ten digits.
proof fn lemma_decimal_u32(n: u32)
    ensures
        0 < decimal_text(n as nat).len() <= 10,
        is_ascii_chars(decimal_text(n as nat)),
{
    assert(vstd::arithmetic::power::pow(10, 10) == 10_000_000_000) by {
        reveal_with_fuel(vstd::arithmetic::power::pow, 12);
    }
    lemma_decimal_text(n as nat, 10);
}

/// The length of a relative leaf below a base depends on their lengths alone.
proof fn lemma_below_len(base: Seq<u8>, leaf: Seq<char>)
    requires
        is_ascii_chars(leaf),
        leaf.len() > 0,
        leaf[0] != '/',
    ensures
        below(base, leaf).len() == base.len() + leaf.len() + (if base.len() == 0 || base.last()
            == SLASH {
            0int
        } else {
            1int
        }),
{
    is_ascii_chars_encode_utf8(leaf);
    let first = leaf[0];
    assert(encode_utf8(leaf)[0] == first as u8);
    assert(encode_utf8(leaf)[0] != SLASH);
}

/// Hexadecimal digits are ASCII.
proof fn lemma_hex_ascii(s: Seq<char>)
    requires
        forall|i: int| 0 <= i < s.len() ==> is_hex_digit(#[trigger] s[i]),
    ensures
        is_ascii_chars(s),
{
    assert forall|i: int| 0 <= i < s.len() implies '\0' <= #[trigger] s[i] <= '\u{7f}' by {
        assert(is_hex_digit(s[i]));
    }
}

/// A socket of one client has a path as long as that of any other in the same
/// directory, so that one of them tells whether all of them fit.
pub proof fn sockets_fit_alike(root: Seq<u8>, hash: Seq<char>)
    requires
        random_text(hash, 8),
    ensures
        below(root, socket_name(hash)).len() == below(root, "a-0000000000000000.sock"@).len(),
{
    reveal_strlit("a-");
    reveal_strlit(".sock");
    reveal_strlit("a-0000000000000000.sock");
    lemma_hex_ascii(hash);
    lemma_below_len(root, socket_name(hash));
    lemma_below_len(root, "a-0000000000000000.sock"@);
}

/// A socket of any client fits into the path of a Unix socket when it lies in
/// a runtime directory of this library, whatever the user's directories are
/// called. Where those are too long for it, the numbers and the nonce in the
/// name of the directory that takes their place must not be: a nonce of up to
/// twenty-three digits never is, and a random one has sixteen.
pub proof fn sockets_fit_below_the_runtime_root(
    facts: HostFacts,
    base_nonce: Seq<char>,
    nonce: Seq<char>,
    hash: Seq<char>,
)
    requires
        random_text(hash, 8),
        fits_unix_socket(below(wanted_root(facts, base_nonce, nonce), socket_name(hash))) || (
        is_ascii_chars(nonce) && decimal_text(facts.uid as nat).len() + decimal_text(
            facts.pid as nat,
        ).len() + 2 * nonce.len() <= 67),
    ensures
        fits_unix_socket(below(root_for(facts, base_nonce, nonce), socket_name(hash))),
{
    let wanted = wanted_root(facts, base_nonce, nonce);
    sockets_fit_alike(wanted, hash);
    if !fits_unix_socket(below(wanted, "a-0000000000000000.sock"@)) {
        reveal_strlit("a-");
        reveal_strlit(".sock");
        reveal_strlit("/tmp");
        reveal_strlit("cdx-r-");
        reveal_strlit("-");
        reveal_strlit("h-");
        lemma_hex_ascii(hash);
        lemma_decimal_u32(facts.uid);
        lemma_decimal_u32(facts.pid);
        let name = socket_name(hash);
        let shared = "cdx-r-"@ + decimal_text(facts.uid as nat) + "-"@ + nonce;
        let leaf = runtime_leaf(facts.pid, nonce);
        assert(is_ascii_chars("/tmp"@));
        is_ascii_chars_encode_utf8("/tmp"@);
        assert(is_ascii_chars(shared));
        assert(is_ascii_chars(leaf));
        let base = encode_utf8("/tmp"@);
        lemma_below_len(base, shared);
        let inner = below(base, shared);
        lemma_below_len(inner, leaf);
        lemma_below_len(below(inner, leaf), name);
    }
}

/// Sockets fit below a runtime directory with a random nonce, always, and with
/// one from the clock for as long as its digits are no more than twenty-three.
pub proof fn sockets_fit_below_a_drawn_root(
    facts: HostFacts,
    base_nonce: Seq<char>,
    random: Option<Seq<char>>,
    hash: Seq<char>,
)
    requires
        drawn(random, 8),
        random_text(hash, 8),
        random is None && facts.nanos_since_epoch is Some ==> facts.nanos_since_epoch->Some_0
            < 100_000_000_000_000_000_000_000,
    ensures
        fits_unix_socket(
            below(root_for(facts, base_nonce, nonce_of(facts, random)), socket_name(hash)),
        ),
{
    let nonce = nonce_of(facts, random);
    reveal_strlit("fallback");
    if random is Some {
        lemma_hex_ascii(nonce);
    } else if facts.nanos_since_epoch is Some {
        assert(vstd::arithmetic::power::pow(10, 23) == 100_000_000_000_000_000_000_000) by {
            reveal_with_fuel(vstd::arithmetic::power::pow, 25);
        }
        lemma_decimal_text(facts.nanos_since_epoch->Some_0 as nat, 23);
    }
    lemma_decimal_u32(facts.uid);
    lemma_decimal_u32(facts.pid);
    sockets_fit_below_the_runtime_root(facts, base_nonce, nonce, hash);
}

/// No more than two manifests are read, and not one twice.
pub proof fn manifests_are_listed_once(env: ManifestEnv)
    ensures
        manifest_list(env).len() <= 2,
        manifest_list(env).len() == 2 ==> !same_path_as(manifest_list(env)[0], manifest_list(env)[1]),
{
}

} // verus!
