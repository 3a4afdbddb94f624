//! What holds of where the runtime keeps its files and looks for manifests.
use crate::fields::{contents, fields, lemma_fields_nonempty};
use crate::file_laws::an_absolute_path_begins_with_a_slash;
use crate::manager::RuntimeManager;
use crate::paths::{
    extension, join_path, path_extension, path_parts, same_path, same_path_as,
};
use crate::roots::{
    base_nonce_of, below, drawn, fits_unix_socket, manifest_list, manifest_paths, nonce_of,
    private_runtime_base, root_for, runtime_base, runtime_root_for, unique_runtime_root,
    unix_socket_path_fits,    HostFacts, ManifestEnv, NamedDir,
};
use crate::text::decimal_text;
use crate::value_laws::a_joined_path_goes_on;
use vstd::prelude::*;
use vstd::utf8::encode_utf8;

verus! {

/// A manifest that is named outright is the only one.
pub proof fn a_named_manifest_stands_alone(env: ManifestEnv)
    requires
        env.manifest is Some,
    ensures
        manifest_list(env) == seq![env.manifest->Some_0@],
{
}

/// Where none is named outright, the manifest of the state directory comes
/// first, in the one that the environment names or else below the home
/// directory; then that of the Codex directory, in the one that the environment
/// names or else below the home directory, unless it is the same.
pub proof fn manifests_are_looked_for_in_two_places(
    env: ManifestEnv,
    state: Seq<u8>,
    codex: Seq<u8>,
)
    requires
        env.manifest is None,
        env.home is Some || (env.xdg_state_home is Some && env.codex_home is Some),
        env.xdg_state_home is Some ==> state == below(
            below(env.xdg_state_home->Some_0@, "openai-codex"@),
            "chrome-native-hosts-v2.json"@,
        ),
        env.xdg_state_home is None ==> state == below(
            below(env.home->Some_0@, ".local/state/openai-codex"@),
            "chrome-native-hosts-v2.json"@,
        ),
        env.codex_home is Some ==> codex == below(
            env.codex_home->Some_0@,
            "chrome-native-hosts-v2.json"@,
        ),
        env.codex_home is None ==> codex == below(
            below(env.home->Some_0@, ".codex"@),
            "chrome-native-hosts-v2.json"@,
        ),
    ensures
        manifest_list(env)[0] == state,
        same_path_as(state, codex) ==> manifest_list(env).len() == 1,
        !same_path_as(state, codex) ==> manifest_list(env) == seq![state, codex],
{
}

/// Without a home directory a place that the environment does not name is not
/// looked in.
pub proof fn an_unnamed_place_is_not_looked_in(env: ManifestEnv)
    requires
        env.manifest is None,
        env.home is None,
    ensures
        env.xdg_state_home is None && env.codex_home is None ==> manifest_list(env).len() == 0,
        env.xdg_state_home is Some && env.codex_home is None ==> manifest_list(env) == seq![
            below(
                below(env.xdg_state_home->Some_0@, "openai-codex"@),
                "chrome-native-hosts-v2.json"@,
            ),
        ],
        env.xdg_state_home is None && env.codex_home is Some ==> manifest_list(env) == seq![
            below(env.codex_home->Some_0@, "chrome-native-hosts-v2.json"@),
        ],
{
}

/// Whether a directory is named by an absolute path, is one, and is the user's.
pub open spec fn is_the_users(dir: Option<NamedDir>, uid: u32) -> bool {
    dir matches Some(dir) && dir.path@.len() > 0 && dir.path@[0] == 47 && (dir.stat matches Some(
        stat,
    ) && stat.is_dir && !stat.is_symlink && stat.uid == uid)
}

/// The base of runtime directories is the session's directory where it is the
/// user's and its mode lets nobody else in; or else the cache below the user's
/// home directory; or else a directory of its own for all to see.
pub proof fn the_base_is_the_users_own(facts: HostFacts, base_nonce: Seq<char>)
    ensures
        is_the_users(facts.xdg_runtime_dir, facts.uid)
            && facts.xdg_runtime_dir->Some_0.stat->Some_0.mode as int % 64 == 0 ==> runtime_base(
            facts,
            base_nonce,
        ) == facts.xdg_runtime_dir->Some_0.path@,
        !(is_the_users(facts.xdg_runtime_dir, facts.uid)
            && facts.xdg_runtime_dir->Some_0.stat->Some_0.mode as int % 64 == 0) && is_the_users(
            facts.home,
            facts.uid,
        ) ==> runtime_base(facts, base_nonce) == below(facts.home->Some_0.path@, ".cache"@),
        !(is_the_users(facts.xdg_runtime_dir, facts.uid)
            && facts.xdg_runtime_dir->Some_0.stat->Some_0.mode as int % 64 == 0) && !is_the_users(
            facts.home,
            facts.uid,
        ) ==> runtime_base(facts, base_nonce) == below(
            encode_utf8("/tmp"@),
            "codex-chrome-runtime-"@ + decimal_text(facts.uid as nat) + "-"@ + base_nonce,
        ),
{
    if facts.xdg_runtime_dir is Some && facts.xdg_runtime_dir->Some_0.stat is Some {
        let mode = facts.xdg_runtime_dir->Some_0.stat->Some_0.mode;
        assert((mode & 0o077 == 0) == (mode % 64 == 0)) by (bit_vector);
    }
}

/// A runtime directory is named after the process and a nonce, whichever
/// directory it is in: that of runtime directories below the base, or, where
/// sockets would not fit there, one for the user and the nonce.
pub proof fn a_runtime_root_is_named_after_its_process(
    facts: HostFacts,
    base_nonce: Seq<char>,
    nonce: Seq<char>,
)
    ensures
        root_for(facts, base_nonce, nonce) == below(
            below(runtime_base(facts, base_nonce), "cdx-r"@),
            "h-"@ + decimal_text(facts.pid as nat) + "-"@ + nonce,
        ) || root_for(facts, base_nonce, nonce) == below(
            below(
                encode_utf8("/tmp"@),
                "cdx-r-"@ + decimal_text(facts.uid as nat) + "-"@ + nonce,
            ),
            "h-"@ + decimal_text(facts.pid as nat) + "-"@ + nonce,
        ),
        below(
            below(
                below(runtime_base(facts, base_nonce), "cdx-r"@),
                "h-"@ + decimal_text(facts.pid as nat) + "-"@ + nonce,
            ),
            "a-0000000000000000.sock"@,
        ).len() <= 107 ==> root_for(facts, base_nonce, nonce) == below(
            below(runtime_base(facts, base_nonce), "cdx-r"@),
            "h-"@ + decimal_text(facts.pid as nat) + "-"@ + nonce,
        ),
{
}

/// A path fits into a Unix socket where it has at most 107 bytes.
pub proof fn a_socket_path_has_at_most_107_bytes(path: Seq<u8>)
    ensures
        fits_unix_socket(path) <==> path.len() <= 107,
{
}

/// A nonce is what was drawn, or else the clock's time, or else a word.
pub proof fn a_nonce_is_drawn_where_it_can_be(facts: HostFacts, random: Option<Seq<char>>)
    ensures
        random matches Some(text) ==> nonce_of(facts, random) == text,
        random is None && facts.nanos_since_epoch is Some ==> nonce_of(facts, random)
            == decimal_text(facts.nanos_since_epoch->Some_0 as nat),
        random is None && facts.nanos_since_epoch is None ==> nonce_of(facts, random)
            == "fallback"@,
{
}

/// The manifests that are read are those that the environment leads to, unless
/// the runtime was given others.
pub proof fn manifests_are_read_where_they_are(
    m: RuntimeManager,
    env: ManifestEnv,
    sources: Vec<Vec<u8>>,
    paths: Vec<Vec<u8>>,
    i: int,
)
    requires
        call_ensures(RuntimeManager::manifest_sources, (&m, &env), sources),
        call_ensures(manifest_paths, (&env,), paths),
    ensures
        m.manifest_paths_override is None ==> sources@.len() == paths@.len(),
        m.manifest_paths_override is None && 0 <= i < paths@.len() ==> sources@[i]@ == paths@[i]@,
        m.manifest_paths_override matches Some(given) ==> sources@.len() == given@.len() && (0 <= i
            < given@.len() ==> sources@[i]@ == given@[i]@),
        paths@.len() == manifest_list(env).len(),
        0 <= i < paths@.len() ==> paths@[i]@ == manifest_list(env)[i],
{
    assert(contents(sources@).len() == sources@.len());
    assert(contents(paths@).len() == paths@.len());
    if 0 <= i < paths@.len() {
        assert(contents(paths@)[i] == paths@[i]@);
    }
    if 0 <= i < sources@.len() {
        assert(contents(sources@)[i] == sources@[i]@);
    }
    if let Some(given) = m.manifest_paths_override {
        assert(contents(given@).len() == given@.len());
        if 0 <= i < given@.len() {
            assert(contents(given@)[i] == given@[i]@);
        }
    }
}

/// A runtime directory is made below the base, or below `/tmp`, under a name
/// with the number of the process and the nonce.
pub proof fn a_root_is_made_below_its_base(
    facts: HostFacts,
    base_nonce: &str,
    nonce: &str,
    base: Vec<u8>,
    root: Vec<u8>,
    path: &[u8],
    fits: bool,
)
    requires
        call_ensures(private_runtime_base, (&facts, base_nonce), base),
        call_ensures(runtime_root_for, (&facts, base_nonce, nonce), root),
        call_ensures(unix_socket_path_fits, (path,), fits),
    ensures
        base@ == runtime_base(facts, base_nonce@),
        root@ == below(
            below(base@, "cdx-r"@),
            "h-"@ + decimal_text(facts.pid as nat) + "-"@ + nonce@,
        ) || root@ == below(
            below(
                encode_utf8("/tmp"@),
                "cdx-r-"@ + decimal_text(facts.uid as nat) + "-"@ + nonce@,
            ),
            "h-"@ + decimal_text(facts.pid as nat) + "-"@ + nonce@,
        ),
        fits <==> path@.len() <= 107,
{
    a_runtime_root_is_named_after_its_process(facts, base_nonce@, nonce@);
}

/// A base nonce is what was drawn, or else the number of the process.
pub proof fn a_base_nonce_is_drawn_where_it_can_be(facts: HostFacts, random: Option<Seq<char>>)
    ensures
        random matches Some(text) ==> base_nonce_of(facts, random) == text,
        random is None ==> base_nonce_of(facts, random) == decimal_text(facts.pid as nat),
{
}

/// Two paths are the same whether or not one has a slash, or a slash and a dot,
/// at its end, and never where one is absolute and the other is not, where
/// their parts differ, or where one is relative and the other begins with a dot
/// in front of it.
pub proof fn paths_are_compared_by_their_parts(path: Seq<u8>, other: Seq<u8>)
    ensures
        same_path_as(path, path),
        path.len() > 0 ==> same_path_as(path, path.push(47)),
        path.len() > 0 ==> same_path_as(path, path.push(47).push(46)),
        same_path_as(path, other) ==> (path.len() > 0 && path[0] == 47) == (other.len() > 0
            && other[0] == 47),
        same_path_as(path, other) ==> path_parts(path) == path_parts(other),
        same_path_as(path, other) == same_path_as(other, path),
        path.len() > 0 && path[0] == 47 && other.len() > 0 && other[0] == 47 && path_parts(path)
            == path_parts(other) ==> same_path_as(path, other),
        path.len() > 0 && path[0] != 46 && path[0] != 47 ==> !same_path_as(
            path,
            seq![46u8, 47] + path,
        ),
{
    if path.len() > 0 {
        lemma_idle_end(path);
    }
    if path.len() > 0 && path[0] != 47 {
        lemma_relative_starts(path);
        lemma_relative_starts(seq![46u8, 47] + path);
    }
    if path.len() > 0 && path[0] == 47 {
        lemma_absolute_starts_empty(path);
    }
    if other.len() > 0 && other[0] == 47 {
        lemma_absolute_starts_empty(other);
    }
}

/// What stands before a slash at the start of a path is empty.
proof fn lemma_absolute_starts_empty(path: Seq<u8>)
    requires
        path.len() > 0,
        path[0] == 47,
    ensures
        fields(path, 47).len() > 1,
        fields(path, 47)[0] == Seq::<u8>::empty(),
    decreases path.len(),
{
    if path.len() > 1 {
        lemma_absolute_starts_empty(path.drop_last());
    } else {
        let rest = path.drop_last();
        assert(rest =~= Seq::empty());
        assert(fields(rest, 47u8) =~= seq![Seq::<u8>::empty()]);
    }
}

/// What stands before the first slash of a path begins as the path does, and is
/// one byte long where the slash comes second.
proof fn lemma_relative_starts(path: Seq<u8>)
    requires
        path.len() > 0,
        path[0] != 47,
    ensures
        fields(path, 47).len() > 0,
        fields(path, 47)[0].len() > 0,
        fields(path, 47)[0][0] == path[0],
        path.len() > 1 && path[1] == 47 ==> fields(path, 47).len() > 1 && fields(path, 47)[0]
            == seq![path[0]],
    decreases path.len(),
{
    let rest = path.drop_last();
    lemma_fields_nonempty(rest, 47u8);
    if path.len() > 1 {
        lemma_relative_starts(rest);
        if path.len() == 2 {
            let only = rest.drop_last();
            assert(only =~= Seq::empty());
            assert(fields(only, 47u8) =~= seq![Seq::<u8>::empty()]);
            assert(fields(rest, 47u8) =~= seq![seq![path[0]]]);
        }
    } else {
        assert(rest =~= Seq::empty());
        assert(fields(rest, 47u8) =~= seq![Seq::<u8>::empty()]);
        assert(fields(path, 47u8) =~= seq![seq![path[0]]]);
    }
}

/// A slash, or a slash and a dot, at the end of a path adds nothing to it.
proof fn lemma_idle_end(path: Seq<u8>)
    requires
        path.len() > 0,
    ensures
        path_parts(path.push(47)) == path_parts(path),
        path_parts(path.push(47).push(46)) == path_parts(path),
        fields(path.push(47), 47)[0] == fields(path, 47)[0],
        fields(path.push(47).push(46), 47)[0] == fields(path, 47)[0],
{
    lemma_fields_nonempty(path, 47u8);
    let slash = path.push(47);
    let dot = slash.push(46);
    assert(slash.drop_last() =~= path);
    assert(dot.drop_last() =~= slash);
    let parts = fields(path, 47);
    let none = Seq::<u8>::empty();
    assert(fields(slash, 47) =~= parts.push(none));
    assert(parts.push(none).drop_last() =~= parts);
    assert(none.push(46) =~= seq![46u8]);
    assert(fields(dot, 47) =~= parts.push(seq![46u8]));
    assert(parts.push(seq![46u8]).drop_last() =~= parts);
}

/// A joined path has the parts of both, unless what is joined to it stands
/// alone; paths are compared by their parts; and an extension is cut off a path
/// where it has one.
pub proof fn paths_are_handled_by_their_parts(
    a: &[u8],
    b: &[u8],
    same: bool,
    leaf: &str,
    joined: Vec<u8>,
    cut: Option<Vec<u8>>,
)
    requires
        call_ensures(same_path, (a, b), same),
        call_ensures(join_path, (a, leaf), joined),
        call_ensures(path_extension, (a,), cut),
    ensures
        same == same_path_as(a@, b@),
        !(leaf@.len() > 0 && leaf@[0] == '/') ==> path_parts(joined@) == path_parts(a@)
            + path_parts(encode_utf8(leaf@)),
        leaf@.len() > 0 && leaf@[0] == '/' ==> joined@ == encode_utf8(leaf@),
        cut is Some <==> extension(a@) is Some,
        cut matches Some(found) ==> extension(a@) == Some(found@),
{
    an_absolute_path_begins_with_a_slash(leaf@);
    a_joined_path_goes_on(a@, encode_utf8(leaf@));
}

/// A runtime directory of its own is named with eight random bytes, or else by
/// the clock; and where the user has no directory for it, its base with sixteen
/// random bytes, or else by the process.
pub proof fn a_root_of_its_own_is_drawn(facts: HostFacts, root: Vec<u8>)
    requires
        call_ensures(unique_runtime_root, (&facts,), root),
    ensures
        exists|base_nonce: Seq<char>, nonce: Seq<char>| #[trigger]
            root_for(facts, base_nonce, nonce) == root@ && (base_nonce.len() == 32 || base_nonce
                == decimal_text(facts.pid as nat)) && (nonce.len() == 16 || nonce == "fallback"@
                || (facts.nanos_since_epoch matches Some(nanos) && nonce == decimal_text(
                nanos as nat,
            ))),
{
    let (base_random, random) = choose|base_random: Option<Seq<char>>, random: Option<Seq<char>>|
        #![trigger base_nonce_of(facts, base_random), nonce_of(facts, random)]
        drawn(base_random, 16) && drawn(random, 8) && root@ == root_for(
            facts,
            base_nonce_of(facts, base_random),
            nonce_of(facts, random),
        );
    let base_nonce = base_nonce_of(facts, base_random);
    let nonce = nonce_of(facts, random);
    assert(root_for(facts, base_nonce, nonce) == root@);
}

/// A new runtime of an extension has a directory of its own, and nothing in it.
pub proof fn a_new_runtime_has_a_root_of_its_own(
    extension_id: Option<String>,
    facts: HostFacts,
    m: RuntimeManager,
    name: Seq<char>,
)
    requires
        call_ensures(RuntimeManager::new, (extension_id, &facts), m),
    ensures
        m.extension_id == extension_id,
        m.manifest_paths_override is None,
        m.proxy is None,
        !m.assets@.contains_key(name),
        !m.processes@.contains_key(name),
        exists|base_nonce: Seq<char>, nonce: Seq<char>| #[trigger]
            root_for(facts, base_nonce, nonce) == m.runtime_root@,
{
    let (base_random, random) = choose|base_random: Option<Seq<char>>, random: Option<Seq<char>>|
        #![trigger base_nonce_of(facts, base_random), nonce_of(facts, random)]
        drawn(base_random, 16) && drawn(random, 8) && m.runtime_root@ == root_for(
            facts,
            base_nonce_of(facts, base_random),
            nonce_of(facts, random),
        );
    assert(root_for(facts, base_nonce_of(facts, base_random), nonce_of(facts, random))
        == m.runtime_root@);
}

} // verus!
