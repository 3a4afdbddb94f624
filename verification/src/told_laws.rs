//! What a side panel is told, and what its app server is started with, is what
//! the manifest says.
use crate::admission::query_item;
use crate::config::{
    agent_mode_defaults, client_fault, config_json, config_view, desktop_agent_mode_defaults,
    desktop_state_path, file_defaults, hashes_of, sha256_file, text_array, ClientRead,
};
use crate::decode::{text_view, texts_view};
use crate::encode::{hex_text, sha256};
use crate::endpoint::{address_text, url_carries_the_token, SocketAddress};
use crate::error::{ErrorView, RuntimeResult};
use crate::json::{Json, JsonNumber, JsonView};
use crate::json_text::text_value;
use crate::manager::RuntimeManager;
use crate::manifest::{entry_of, paths_of, EntryView, RuntimeEntry};
use crate::manifest_laws::{an_entry_is_read_by_name, is_number, paths_are_read_by_name};
use crate::paths::{lossy_text, path_parts};
use crate::process::{
    app_server_command, envs_view, runs_app_server, server_args, server_envs, AppServerCommand,
};
use crate::serving::ensure_view;
use crate::step_laws::{
    a_refusal_tells_of_its_fault, an_answer_tells_its_result, tells, tells_fault,
};
use crate::steps::{RunJob, Step};
use crate::text::decimal_text;
use crate::value_laws::{a_joined_path_goes_on, lemma_one_part};
use vstd::prelude::*;
use vstd::utf8::{encode_utf8, is_ascii_chars, is_ascii_chars_encode_utf8};

verus! {

/// The names in what a side panel is told are all different.
proof fn lemma_told_names()
    ensures
        "appServerProtocolVersion"@ != "appVersion"@,
        "appServerProtocolVersion"@ != "channel"@,
        "appVersion"@ != "channel"@,
        "appServerProtocolVersion"@ != "cliVersion"@,
        "appVersion"@ != "cliVersion"@,
        "channel"@ != "cliVersion"@,
        "appServerProtocolVersion"@ != "connected"@,
        "appVersion"@ != "connected"@,
        "channel"@ != "connected"@,
        "cliVersion"@ != "connected"@,
        "appServerProtocolVersion"@ != "entryId"@,
        "appVersion"@ != "entryId"@,
        "channel"@ != "entryId"@,
        "cliVersion"@ != "entryId"@,
        "connected"@ != "entryId"@,
        "appServerProtocolVersion"@ != "localAppServerUrl"@,
        "appVersion"@ != "localAppServerUrl"@,
        "channel"@ != "localAppServerUrl"@,
        "cliVersion"@ != "localAppServerUrl"@,
        "connected"@ != "localAppServerUrl"@,
        "entryId"@ != "localAppServerUrl"@,
        "appServerProtocolVersion"@ != "nativeHostProtocolVersion"@,
        "appVersion"@ != "nativeHostProtocolVersion"@,
        "channel"@ != "nativeHostProtocolVersion"@,
        "cliVersion"@ != "nativeHostProtocolVersion"@,
        "connected"@ != "nativeHostProtocolVersion"@,
        "entryId"@ != "nativeHostProtocolVersion"@,
        "localAppServerUrl"@ != "nativeHostProtocolVersion"@,
        "appServerProtocolVersion"@ != "nativeHostVersion"@,
        "appVersion"@ != "nativeHostVersion"@,
        "channel"@ != "nativeHostVersion"@,
        "cliVersion"@ != "nativeHostVersion"@,
        "connected"@ != "nativeHostVersion"@,
        "entryId"@ != "nativeHostVersion"@,
        "localAppServerUrl"@ != "nativeHostVersion"@,
        "nativeHostProtocolVersion"@ != "nativeHostVersion"@,
        "appServerProtocolVersion"@ != "runtimeConfig"@,
        "appVersion"@ != "runtimeConfig"@,
        "channel"@ != "runtimeConfig"@,
        "cliVersion"@ != "runtimeConfig"@,
        "connected"@ != "runtimeConfig"@,
        "entryId"@ != "runtimeConfig"@,
        "localAppServerUrl"@ != "runtimeConfig"@,
        "nativeHostProtocolVersion"@ != "runtimeConfig"@,
        "nativeHostVersion"@ != "runtimeConfig"@,
{
    reveal_strlit("appServerProtocolVersion");
    reveal_strlit("appVersion");
    reveal_strlit("channel");
    reveal_strlit("cliVersion");
    reveal_strlit("connected");
    reveal_strlit("entryId");
    reveal_strlit("localAppServerUrl");
    reveal_strlit("nativeHostProtocolVersion");
    reveal_strlit("nativeHostVersion");
    reveal_strlit("runtimeConfig");
    assert("appServerProtocolVersion"@.len() == 24);
    assert("appVersion"@.len() == 10);
    assert("channel"@.len() == 7);
    assert("cliVersion"@.len() == 10);
    assert("appVersion"@[0] != "cliVersion"@[0]);
    assert("connected"@.len() == 9);
    assert("entryId"@.len() == 7);
    assert("channel"@[0] != "entryId"@[0]);
    assert("localAppServerUrl"@.len() == 17);
    assert("nativeHostProtocolVersion"@.len() == 25);
    assert("nativeHostVersion"@.len() == 17);
    assert("localAppServerUrl"@[0] != "nativeHostVersion"@[0]);
    assert("runtimeConfig"@.len() == 13);
}

/// The names in a runtime configuration are all different.
proof fn lemma_config_names()
    ensures
        "browserClientPath"@ != "codexCliPath"@,
        "browserClientPath"@ != "codexHome"@,
        "codexCliPath"@ != "codexHome"@,
        "browserClientPath"@ != "desktopAgentModeDefaults"@,
        "codexCliPath"@ != "desktopAgentModeDefaults"@,
        "codexHome"@ != "desktopAgentModeDefaults"@,
        "browserClientPath"@ != "nodeModuleDirs"@,
        "codexCliPath"@ != "nodeModuleDirs"@,
        "codexHome"@ != "nodeModuleDirs"@,
        "desktopAgentModeDefaults"@ != "nodeModuleDirs"@,
        "browserClientPath"@ != "nodePath"@,
        "codexCliPath"@ != "nodePath"@,
        "codexHome"@ != "nodePath"@,
        "desktopAgentModeDefaults"@ != "nodePath"@,
        "nodeModuleDirs"@ != "nodePath"@,
        "browserClientPath"@ != "nodeReplPath"@,
        "codexCliPath"@ != "nodeReplPath"@,
        "codexHome"@ != "nodeReplPath"@,
        "desktopAgentModeDefaults"@ != "nodeReplPath"@,
        "nodeModuleDirs"@ != "nodeReplPath"@,
        "nodePath"@ != "nodeReplPath"@,
        "browserClientPath"@ != "platform"@,
        "codexCliPath"@ != "platform"@,
        "codexHome"@ != "platform"@,
        "desktopAgentModeDefaults"@ != "platform"@,
        "nodeModuleDirs"@ != "platform"@,
        "nodePath"@ != "platform"@,
        "nodeReplPath"@ != "platform"@,
        "browserClientPath"@ != "trustedBrowserClientSha256s"@,
        "codexCliPath"@ != "trustedBrowserClientSha256s"@,
        "codexHome"@ != "trustedBrowserClientSha256s"@,
        "desktopAgentModeDefaults"@ != "trustedBrowserClientSha256s"@,
        "nodeModuleDirs"@ != "trustedBrowserClientSha256s"@,
        "nodePath"@ != "trustedBrowserClientSha256s"@,
        "nodeReplPath"@ != "trustedBrowserClientSha256s"@,
        "platform"@ != "trustedBrowserClientSha256s"@,
{
    reveal_strlit("browserClientPath");
    reveal_strlit("codexCliPath");
    reveal_strlit("codexHome");
    reveal_strlit("desktopAgentModeDefaults");
    reveal_strlit("nodeModuleDirs");
    reveal_strlit("nodePath");
    reveal_strlit("nodeReplPath");
    reveal_strlit("platform");
    reveal_strlit("trustedBrowserClientSha256s");
    assert("browserClientPath"@.len() == 17);
    assert("codexCliPath"@.len() == 12);
    assert("codexHome"@.len() == 9);
    assert("desktopAgentModeDefaults"@.len() == 24);
    assert("nodeModuleDirs"@.len() == 14);
    assert("nodePath"@.len() == 8);
    assert("nodeReplPath"@.len() == 12);
    assert("codexCliPath"@[0] != "nodeReplPath"@[0]);
    assert("platform"@.len() == 8);
    assert("nodePath"@[0] != "platform"@[0]);
    assert("trustedBrowserClientSha256s"@.len() == 27);
}

/// The names of an app server's variables are all different.
proof fn lemma_env_names()
    ensures
        "CODEX_HOME"@ != "CODEX_CLI_PATH"@,
        "CODEX_HOME"@ != "CODEX_EXTENSION_ID"@,
        "CODEX_CLI_PATH"@ != "CODEX_EXTENSION_ID"@,
        "CODEX_HOME"@ != "CODEX_BROWSER_USE_NODE_PATH"@,
        "CODEX_CLI_PATH"@ != "CODEX_BROWSER_USE_NODE_PATH"@,
        "CODEX_EXTENSION_ID"@ != "CODEX_BROWSER_USE_NODE_PATH"@,
        "CODEX_HOME"@ != "CODEX_APP_SERVER_PROXY_HOST"@,
        "CODEX_CLI_PATH"@ != "CODEX_APP_SERVER_PROXY_HOST"@,
        "CODEX_EXTENSION_ID"@ != "CODEX_APP_SERVER_PROXY_HOST"@,
        "CODEX_BROWSER_USE_NODE_PATH"@ != "CODEX_APP_SERVER_PROXY_HOST"@,
        "CODEX_HOME"@ != "CODEX_APP_SERVER_PROXY_PORT"@,
        "CODEX_CLI_PATH"@ != "CODEX_APP_SERVER_PROXY_PORT"@,
        "CODEX_EXTENSION_ID"@ != "CODEX_APP_SERVER_PROXY_PORT"@,
        "CODEX_BROWSER_USE_NODE_PATH"@ != "CODEX_APP_SERVER_PROXY_PORT"@,
        "CODEX_APP_SERVER_PROXY_HOST"@ != "CODEX_APP_SERVER_PROXY_PORT"@,
        "CODEX_HOME"@ != "CODEX_BROWSER_CLIENT_PATH"@,
        "CODEX_CLI_PATH"@ != "CODEX_BROWSER_CLIENT_PATH"@,
        "CODEX_EXTENSION_ID"@ != "CODEX_BROWSER_CLIENT_PATH"@,
        "CODEX_BROWSER_USE_NODE_PATH"@ != "CODEX_BROWSER_CLIENT_PATH"@,
        "CODEX_APP_SERVER_PROXY_HOST"@ != "CODEX_BROWSER_CLIENT_PATH"@,
        "CODEX_APP_SERVER_PROXY_PORT"@ != "CODEX_BROWSER_CLIENT_PATH"@,
        "CODEX_HOME"@ != "CODEX_NODE_REPL_PATH"@,
        "CODEX_CLI_PATH"@ != "CODEX_NODE_REPL_PATH"@,
        "CODEX_EXTENSION_ID"@ != "CODEX_NODE_REPL_PATH"@,
        "CODEX_BROWSER_USE_NODE_PATH"@ != "CODEX_NODE_REPL_PATH"@,
        "CODEX_APP_SERVER_PROXY_HOST"@ != "CODEX_NODE_REPL_PATH"@,
        "CODEX_APP_SERVER_PROXY_PORT"@ != "CODEX_NODE_REPL_PATH"@,
        "CODEX_BROWSER_CLIENT_PATH"@ != "CODEX_NODE_REPL_PATH"@,
{
    reveal_strlit("CODEX_HOME");
    reveal_strlit("CODEX_CLI_PATH");
    reveal_strlit("CODEX_EXTENSION_ID");
    reveal_strlit("CODEX_BROWSER_USE_NODE_PATH");
    reveal_strlit("CODEX_APP_SERVER_PROXY_HOST");
    reveal_strlit("CODEX_APP_SERVER_PROXY_PORT");
    reveal_strlit("CODEX_BROWSER_CLIENT_PATH");
    reveal_strlit("CODEX_NODE_REPL_PATH");
    assert("CODEX_HOME"@.len() == 10);
    assert("CODEX_CLI_PATH"@.len() == 14);
    assert("CODEX_EXTENSION_ID"@.len() == 18);
    assert("CODEX_BROWSER_USE_NODE_PATH"@.len() == 27);
    assert("CODEX_APP_SERVER_PROXY_HOST"@.len() == 27);
    assert("CODEX_BROWSER_USE_NODE_PATH"@[6] != "CODEX_APP_SERVER_PROXY_HOST"@[6]);
    assert("CODEX_APP_SERVER_PROXY_PORT"@.len() == 27);
    assert("CODEX_BROWSER_USE_NODE_PATH"@[6] != "CODEX_APP_SERVER_PROXY_PORT"@[6]);
    assert("CODEX_APP_SERVER_PROXY_HOST"@[23] != "CODEX_APP_SERVER_PROXY_PORT"@[23]);
    assert("CODEX_BROWSER_CLIENT_PATH"@.len() == 25);
    assert("CODEX_NODE_REPL_PATH"@.len() == 20);
}

/// What the manifest states of an installation is what a side panel is told:
/// under each name the same value. Beside it the side panel is told that it is
/// connected, the URL it is handed and its configuration, and nothing else.
pub proof fn a_side_panel_is_told_what_the_manifest_states(
    m: Map<Seq<char>, JsonView>,
    e: EntryView,
    address: SocketAddress,
    token: Seq<char>,
    config: JsonView,
)
    requires
        entry_of(JsonView::Object(m)) == Some(e),
        !(m["appServerProtocolVersion"@] matches JsonView::Number(JsonNumber::NegInt(_))),
        !(m["nativeHostProtocolVersion"@] matches JsonView::Number(JsonNumber::NegInt(_))),
    ensures
        ensure_view(e, address, token, config) matches JsonView::Object(told) && {
            &&& told["appServerProtocolVersion"@] == m["appServerProtocolVersion"@]
            &&& told["appVersion"@] == m["appVersion"@]
            &&& told["channel"@] == m["channel"@]
            &&& told["cliVersion"@] == m["cliVersion"@]
            &&& told["entryId"@] == m["entryId"@]
            &&& told["nativeHostProtocolVersion"@] == m["nativeHostProtocolVersion"@]
            &&& told["nativeHostVersion"@] == m["nativeHostVersion"@]
            &&& told["connected"@] == JsonView::Bool(true)
            &&& told["runtimeConfig"@] == config
            &&& told["localAppServerUrl"@] matches JsonView::Text(url) && "ws://"@.is_prefix_of(url)
                && url.subrange(url.len() - token.len(), url.len() as int) == token
            &&& told.dom() == set![
                "appServerProtocolVersion"@,
                "appVersion"@,
                "channel"@,
                "cliVersion"@,
                "connected"@,
                "entryId"@,
                "localAppServerUrl"@,
                "nativeHostProtocolVersion"@,
                "nativeHostVersion"@,
                "runtimeConfig"@,
            ]
        },
{
    an_entry_is_read_by_name(m, e);
    lemma_told_names();
    let told = ensure_view(e, address, token, config)->Object_0;
    assert(told.dom() =~= set![
        "appServerProtocolVersion"@,
        "appVersion"@,
        "channel"@,
        "cliVersion"@,
        "connected"@,
        "entryId"@,
        "localAppServerUrl"@,
        "nativeHostProtocolVersion"@,
        "nativeHostVersion"@,
        "runtimeConfig"@,
    ]);
    let url = told["localAppServerUrl"@]->Text_0;
    assert("ws://"@ =~= url.subrange(0, "ws://"@.len() as int));
    assert(url.subrange(url.len() - token.len(), url.len() as int) =~= token);
}

/// The paths in a runtime configuration are those of the manifest: under each
/// name the same value, null where a path is left out and an empty array where
/// the list of directories is. The platform is `linux`, and the digests and the
/// agent modes are those that are handed in.
pub proof fn a_configuration_holds_the_paths_of_the_manifest(
    m: Map<Seq<char>, JsonView>,
    e: EntryView,
    trusted_hashes: Seq<Seq<char>>,
    defaults: Option<JsonView>,
)
    requires
        paths_of(JsonView::Object(m)) == Some(e.paths),
    ensures
        config_view(e, trusted_hashes, defaults) matches JsonView::Object(config) && {
            &&& config["codexCliPath"@] == m["codexCliPath"@]
            &&& config["codexHome"@] == m["codexHome"@]
            &&& config["nodePath"@] == m["nodePath"@]
            &&& config["browserClientPath"@] == (if m.contains_key("browserClientPath"@) {
                m["browserClientPath"@]
            } else {
                JsonView::Null
            })
            &&& config["nodeReplPath"@] == (if m.contains_key("nodeReplPath"@) {
                m["nodeReplPath"@]
            } else {
                JsonView::Null
            })
            &&& config["nodeModuleDirs"@] == (if m.contains_key("nodeModuleDirs"@) {
                m["nodeModuleDirs"@]
            } else {
                JsonView::Array(Seq::empty())
            })
            &&& config["platform"@] == JsonView::Text("linux"@)
            &&& config["desktopAgentModeDefaults"@] == (match defaults {
                Some(modes) => modes,
                None => JsonView::Null,
            })
            &&& config["trustedBrowserClientSha256s"@] matches JsonView::Array(items)
                && items.len() == trusted_hashes.len() && forall|i: int|
                0 <= i < items.len() ==> #[trigger] items[i] == JsonView::Text(trusted_hashes[i])
            &&& config.dom() == set![
                "browserClientPath"@,
                "codexCliPath"@,
                "codexHome"@,
                "desktopAgentModeDefaults"@,
                "nodeModuleDirs"@,
                "nodePath"@,
                "nodeReplPath"@,
                "platform"@,
                "trustedBrowserClientSha256s"@,
            ]
        },
{
    paths_are_read_by_name(m, e.paths);
    lemma_config_names();
    let config = config_view(e, trusted_hashes, defaults)->Object_0;
    assert(config.dom() =~= set![
        "browserClientPath"@,
        "codexCliPath"@,
        "codexHome"@,
        "desktopAgentModeDefaults"@,
        "nodeModuleDirs"@,
        "nodePath"@,
        "nodeReplPath"@,
        "platform"@,
        "trustedBrowserClientSha256s"@,
    ]);
    if m.contains_key("nodeModuleDirs"@) {
        assert(config["nodeModuleDirs"@]->Array_0 =~= m["nodeModuleDirs"@]->Array_0);
    } else {
        assert(config["nodeModuleDirs"@]->Array_0 =~= Seq::empty());
    }
}

/// Whether a command sets a variable to a value.
pub open spec fn sets(command: AppServerCommand, name: Seq<char>, value: Seq<char>) -> bool {
    exists|i: int|
        0 <= i < command.envs@.len() && (#[trigger] command.envs@[i]).0@ == name
            && command.envs@[i].1@ == value
}

/// Whether a command sets a variable at all.
pub open spec fn sets_something(command: AppServerCommand, name: Seq<char>) -> bool {
    exists|i: int| 0 <= i < command.envs@.len() && (#[trigger] command.envs@[i]).0@ == name
}

/// The variable at a place of an app server's environment.
proof fn lemma_env(command: AppServerCommand, i: int)
    requires
        0 <= i < command.envs@.len(),
    ensures
        envs_view(command.envs@)[i] == (command.envs@[i].0@, command.envs@[i].1@),
        envs_view(command.envs@).len() == command.envs@.len(),
        sets(command, command.envs@[i].0@, command.envs@[i].1@),
        sets_something(command, command.envs@[i].0@),
{
}

/// An app server is started as the manifest says: its program is the command
/// line tool of the installation, which its own environment names; it runs in
/// the directory that its own environment names as Codex's home; and it is
/// told the extension, the browser's Node, and the endpoint of the proxy.
pub proof fn an_app_server_is_started_as_the_manifest_says(
    m: Map<Seq<char>, JsonView>,
    entry: RuntimeEntry,
    extension_id: Seq<char>,
    proxy_port: u16,
    socket_path: Seq<u8>,
    command: AppServerCommand,
)
    requires
        paths_of(JsonView::Object(m)) == Some(entry.paths@),
        runs_app_server(command, entry, extension_id, proxy_port, socket_path),
    ensures
        JsonView::Text(command.program@) == m["codexCliPath"@],
        JsonView::Text(command.current_dir@) == m["codexHome"@],
        sets(command, "CODEX_HOME"@, command.current_dir@),
        sets(command, "CODEX_CLI_PATH"@, command.program@),
        sets(command, "CODEX_EXTENSION_ID"@, extension_id),
        m["nodePath"@] matches JsonView::Text(node) && sets(
            command,
            "CODEX_BROWSER_USE_NODE_PATH"@,
            node,
        ),
        sets(command, "CODEX_APP_SERVER_PROXY_HOST"@, entry.proxy_host@),
        sets(command, "CODEX_APP_SERVER_PROXY_PORT"@, decimal_text(proxy_port as nat)),
        (m.contains_key("browserClientPath"@) && m["browserClientPath"@] is Text) ==> sets(
            command,
            "CODEX_BROWSER_CLIENT_PATH"@,
            m["browserClientPath"@]->Text_0,
        ),
        !(m.contains_key("browserClientPath"@) && m["browserClientPath"@] is Text)
            ==> !sets_something(command, "CODEX_BROWSER_CLIENT_PATH"@),
        (m.contains_key("nodeReplPath"@) && m["nodeReplPath"@] is Text) ==> sets(
            command,
            "CODEX_NODE_REPL_PATH"@,
            m["nodeReplPath"@]->Text_0,
        ),
        !(m.contains_key("nodeReplPath"@) && m["nodeReplPath"@] is Text) ==> !sets_something(
            command,
            "CODEX_NODE_REPL_PATH"@,
        ),
        forall|i: int, j: int|
            0 <= i < j < command.envs@.len() ==> (#[trigger] command.envs@[i]).0@ != (
            #[trigger] command.envs@[j]).0@,
        6 <= command.envs@.len() <= 8,
        command.args@.len() == 4,
        command.args@[0]@ == "app-server"@,
        command.args@[1]@ == "--listen"@,
        command.args@[2]@ == "unix://"@ + lossy_text(socket_path),
        command.args@[3]@ == "--analytics-default-enabled"@,
{
    paths_are_read_by_name(m, entry.paths@);
    lemma_env_names();
    let envs = envs_view(command.envs@);
    assert(envs == server_envs(entry, extension_id, proxy_port));
    assert(envs.len() == command.envs@.len());
    assert forall|i: int| 0 <= i < command.envs@.len() implies #[trigger] command.envs@[i].0@
        == envs[i].0 && command.envs@[i].1@ == envs[i].1 by {
        lemma_env(command, i);
    }
    lemma_env(command, 0);
    lemma_env(command, 1);
    lemma_env(command, 2);
    lemma_env(command, 3);
    lemma_env(command, 4);
    lemma_env(command, 5);
    if envs.len() > 6 {
        lemma_env(command, 6);
    }
    if envs.len() > 7 {
        lemma_env(command, 7);
    }
    let args = texts_view(command.args@);
    assert(args == server_args(socket_path));
    assert(args.len() == command.args@.len());
    assert forall|i: int| 0 <= i < 4 implies args[i] == #[trigger] command.args@[i]@ by {}
}

/// Two installations that differ in their resources, their versions or what
/// they serve, but not in what an app server is started with, have it started
/// by the same commands.
pub proof fn a_command_depends_on_what_it_runs_alone(
    a: RuntimeEntry,
    b: RuntimeEntry,
    extension_id: Seq<char>,
    proxy_port: u16,
    socket_path: Seq<u8>,
    command: AppServerCommand,
)
    requires
        a.paths.codex_home@ == b.paths.codex_home@,
        a.paths.codex_cli_path@ == b.paths.codex_cli_path@,
        a.paths.node_path@ == b.paths.node_path@,
        a.paths.browser_client_path == b.paths.browser_client_path,
        a.paths.node_repl_path == b.paths.node_repl_path,
        a.proxy_host@ == b.proxy_host@,
    ensures
        runs_app_server(command, a, extension_id, proxy_port, socket_path) == runs_app_server(
            command,
            b,
            extension_id,
            proxy_port,
            socket_path,
        ),
{
}

/// The program that an app server is started with is the one that the
/// configuration names, and so is the directory it runs in.
pub proof fn a_configuration_names_what_is_run(
    entry: RuntimeEntry,
    extension_id: Seq<char>,
    proxy_port: u16,
    socket_path: Seq<u8>,
    command: AppServerCommand,
    trusted_hashes: Seq<Seq<char>>,
    defaults: Option<JsonView>,
)
    requires
        runs_app_server(command, entry, extension_id, proxy_port, socket_path),
    ensures
        config_view(entry@, trusted_hashes, defaults) matches JsonView::Object(config) && {
            &&& config["codexCliPath"@] == JsonView::Text(command.program@)
            &&& config["codexHome"@] == JsonView::Text(command.current_dir@)
        },
{
    lemma_config_names();
}

/// A command that runs an app server runs the command line tool in the home
/// directory of its installation, and tells it both, the extension and the
/// endpoint of the proxy.
pub proof fn a_command_runs_in_the_home_of_its_entry(
    entry: RuntimeEntry,
    extension_id: Seq<char>,
    proxy_port: u16,
    socket_path: Seq<u8>,
    command: AppServerCommand,
)
    requires
        runs_app_server(command, entry, extension_id, proxy_port, socket_path),
    ensures
        command.program@ == entry.paths.codex_cli_path@,
        command.current_dir@ == entry.paths.codex_home@,
        sets(command, "CODEX_HOME"@, entry.paths.codex_home@),
        sets(command, "CODEX_CLI_PATH"@, entry.paths.codex_cli_path@),
        sets(command, "CODEX_EXTENSION_ID"@, extension_id),
        sets(command, "CODEX_BROWSER_USE_NODE_PATH"@, entry.paths.node_path@),
        sets(command, "CODEX_APP_SERVER_PROXY_HOST"@, entry.proxy_host@),
        sets(command, "CODEX_APP_SERVER_PROXY_PORT"@, decimal_text(proxy_port as nat)),
        command.args@.len() == 4,
        command.args@[2]@ == "unix://"@ + lossy_text(socket_path),
{
    let envs = envs_view(command.envs@);
    assert(envs == server_envs(entry, extension_id, proxy_port));
    assert(envs.len() == command.envs@.len());
    lemma_env(command, 0);
    lemma_env(command, 1);
    lemma_env(command, 2);
    lemma_env(command, 3);
    lemma_env(command, 4);
    lemma_env(command, 5);
    let args = texts_view(command.args@);
    assert(args == server_args(socket_path));
    assert(args.len() == command.args@.len());
    assert(args[2] == command.args@[2]@);
}

/// The command that is made for an entry, an extension, a port of the proxy and
/// a socket runs an app server with them.
pub proof fn an_app_server_runs_in_its_home(
    entry: RuntimeEntry,
    extension_id: &str,
    proxy_port: u16,
    socket_path: &[u8],
    command: AppServerCommand,
)
    requires
        call_ensures(app_server_command, (&entry, extension_id, proxy_port, socket_path), command),
    ensures
        command.program@ == entry.paths.codex_cli_path@,
        command.current_dir@ == entry.paths.codex_home@,
        sets(command, "CODEX_HOME"@, entry.paths.codex_home@),
        sets(command, "CODEX_CLI_PATH"@, entry.paths.codex_cli_path@),
        sets(command, "CODEX_EXTENSION_ID"@, extension_id@),
        sets(command, "CODEX_BROWSER_USE_NODE_PATH"@, entry.paths.node_path@),
        sets(command, "CODEX_APP_SERVER_PROXY_HOST"@, entry.proxy_host@),
        sets(command, "CODEX_APP_SERVER_PROXY_PORT"@, decimal_text(proxy_port as nat)),
        command.args@.len() == 4,
        command.args@[2]@ == "unix://"@ + lossy_text(socket_path@),
{
    a_command_runs_in_the_home_of_its_entry(
        entry,
        extension_id@,
        proxy_port,
        socket_path@,
        command,
    );
}

/// A configuration is written by name: each path of the installation, the agent
/// modes and the digests stand under their own.
pub proof fn a_configuration_is_written_by_name(
    entry: RuntimeEntry,
    hashes: Vec<String>,
    defaults: Option<Json>,
    r: Json,
)
    requires
        call_ensures(config_json, (&entry, &hashes, defaults), r),
    ensures
        r@ matches JsonView::Object(config) && {
            &&& config["codexCliPath"@] == JsonView::Text(entry.paths.codex_cli_path@)
            &&& config["codexHome"@] == JsonView::Text(entry.paths.codex_home@)
            &&& config["nodePath"@] == JsonView::Text(entry.paths.node_path@)
            &&& config["browserClientPath"@] == (match entry.paths.browser_client_path {
                Some(path) => JsonView::Text(path@),
                None => JsonView::Null,
            })
            &&& config["nodeReplPath"@] == (match entry.paths.node_repl_path {
                Some(path) => JsonView::Text(path@),
                None => JsonView::Null,
            })
            &&& config["desktopAgentModeDefaults"@] == (match defaults {
                Some(modes) => modes@,
                None => JsonView::Null,
            })
            &&& config["platform"@] == JsonView::Text("linux"@)
            &&& config["nodeModuleDirs"@] matches JsonView::Array(items) && items.len()
                == entry.paths.node_module_dirs@.len() && forall|i: int|
                0 <= i < items.len() ==> #[trigger] items[i] == JsonView::Text(
                    entry.paths.node_module_dirs@[i]@,
                )
            &&& config["trustedBrowserClientSha256s"@] matches JsonView::Array(items) && items.len()
                == hashes@.len() && forall|i: int|
                0 <= i < items.len() ==> #[trigger] items[i] == JsonView::Text(hashes@[i]@)
        },
{
    lemma_config_names();
    let config = r@->Object_0;
    let dirs = config["nodeModuleDirs"@]->Array_0;
    assert forall|i: int| 0 <= i < dirs.len() implies #[trigger] dirs[i] == JsonView::Text(
        entry.paths.node_module_dirs@[i]@,
    ) by {
        assert(texts_view(entry.paths.node_module_dirs@)[i] == entry.paths.node_module_dirs@[i]@);
    }
    let told = config["trustedBrowserClientSha256s"@]->Array_0;
    assert forall|i: int| 0 <= i < told.len() implies #[trigger] told[i] == JsonView::Text(
        hashes@[i]@,
    ) by {
        assert(texts_view(hashes@)[i] == hashes@[i]@);
    }
}

/// A side panel is told of its app server by name: each version and id of the
/// entry under its own, the URL of the proxy with the token, and the paths of
/// the installation.
pub proof fn a_side_panel_is_told_by_name(
    m: RuntimeManager,
    job: RunJob,
    client: ClientRead,
    state_text: Option<String>,
    r: Step,
)
    requires
        call_ensures(RuntimeManager::config_read, (&m, job, &client, &state_text), r),
    ensures
        client_fault(job.serve.entry@, client) is None ==> exists|told: Map<Seq<char>, JsonView>|
            #[trigger] tells(r, job.serve.id@, JsonView::Object(told)) && {
                &&& told["appVersion"@] == JsonView::Text(job.serve.entry.app_version@)
                &&& told["cliVersion"@] == JsonView::Text(job.serve.entry.cli_version@)
                &&& told["channel"@] == JsonView::Text(job.serve.entry.channel@)
                &&& told["entryId"@] == JsonView::Text(job.serve.entry.entry_id@)
                &&& told["nativeHostVersion"@] == JsonView::Text(
                    job.serve.entry.native_host_version@,
                )
                &&& is_number(
                    told["appServerProtocolVersion"@],
                    job.serve.entry.app_server_protocol_version as int,
                )
                &&& is_number(
                    told["nativeHostProtocolVersion"@],
                    job.serve.entry.native_host_protocol_version as int,
                )
                &&& told["connected"@] == JsonView::Bool(true)
                &&& told["localAppServerUrl"@] == JsonView::Text(
                    "ws://"@ + address_text(job.address) + "/?"@ + query_item(
                        "token"@,
                        job.token@,
                    ),
                )
                &&& told["runtimeConfig"@] matches JsonView::Object(config) && {
                    &&& config["codexHome"@] == JsonView::Text(
                        job.serve.entry.paths.codex_home@,
                    )
                    &&& config["codexCliPath"@] == JsonView::Text(
                        job.serve.entry.paths.codex_cli_path@,
                    )
                    &&& config["nodePath"@] == JsonView::Text(job.serve.entry.paths.node_path@)
                    &&& config["desktopAgentModeDefaults"@] == (match state_text {
                        Some(text) => match file_defaults(Some(text@)) {
                            Some(modes) => modes,
                            None => JsonView::Null,
                        },
                        None => JsonView::Null,
                    })
                    &&& config["trustedBrowserClientSha256s"@] == text_array(
                        hashes_of(job.serve.entry@, client),
                    )
                }
            },
        client_fault(job.serve.entry@, client) matches Some(fault) ==> tells_fault(
            r,
            job.serve.id@,
            1,
            fault.kind,
            fault.message,
        ),
{
    match client_fault(job.serve.entry@, client) {
        Some(fault) => {
            a_refusal_tells_of_its_fault(r, job.serve.id@, fault);
        },
        None => {
            let e = job.serve.entry@;
            let config = config_view(e, hashes_of(e, client), file_defaults(text_view(state_text)));
            let view = ensure_view(e, job.address, job.token@, config);
            lemma_told_names();
            lemma_config_names();
            url_carries_the_token(job.address, job.token@);
            an_answer_tells_its_result(r, job.serve.id@, view);
            assert(tells(r, job.serve.id@, JsonView::Object(view->Object_0)));
        },
    }
}

/// A browser client is hashed where it was read, and otherwise told to be
/// missing, or why it was not read.
pub proof fn a_browser_client_is_hashed_where_it_was_read(
    read: ClientRead,
    r: RuntimeResult<String>,
)
    requires
        call_ensures(sha256_file, (&read,), r),
    ensures
        r is Ok <==> read is Read,
        r matches Ok(hash) ==> hash@ == hex_text(sha256(read->Read_0@)),
        read is NotOpened ==> r->Err_0@ == (ErrorView {
            code: 1,
            kind: Some("required_path_missing"@),
            message: "Codex app-server manifest entry is missing required path "@
                + "browserClientPath"@,
        }),
        read matches ClientRead::Failed(reason) ==> r->Err_0@ == (ErrorView {
            code: 1,
            kind: Some("app_server_runtime_error"@),
            message: "Failed to hash Browser Use client: "@ + reason@,
        }),
{
}

/// The desktop app's state is read from one file in the home directory of Codex.
pub proof fn the_state_is_read_from_the_home_directory(codex_home: &str, r: Vec<u8>)
    requires
        call_ensures(desktop_state_path, (codex_home,), r),
    ensures
        path_parts(r@) == path_parts(encode_utf8(codex_home@)).push(
            encode_utf8(".codex-global-state.json"@),
        ),
{
    reveal_strlit(".codex-global-state.json");
    let name = ".codex-global-state.json"@;
    assert(is_ascii_chars(name));
    is_ascii_chars_encode_utf8(name);
    let bytes = encode_utf8(name);
    assert forall|i: int| 0 <= i < bytes.len() implies bytes[i] != 47 by {
        assert(bytes[i] == name[i] as u8);
    }
    let home = encode_utf8(codex_home@);
    a_joined_path_goes_on(home, bytes);
    lemma_one_part(bytes);
    assert(path_parts(home) + path_parts(bytes) =~= path_parts(home).push(bytes));
}

/// Of a state that was read, the modes that are told are those of the value
/// that it stands for.
pub proof fn modes_are_told_of_the_state_that_was_read(
    state: Json,
    told: Option<Json>,
    text: Option<String>,
    read: Option<Json>,
)
    requires
        call_ensures(agent_mode_defaults, (&state,), told),
        call_ensures(desktop_agent_mode_defaults, (&text,), read),
        text matches Some(text) && text_value(text@) == Some(state@),
    ensures
        told is Some <==> read is Some,
        told is Some ==> told->Some_0@ == read->Some_0@,
        told is Some <==> (state@ matches JsonView::Object(members) && members.contains_key(
            "electron-persisted-atom-state"@,
        ) && members["electron-persisted-atom-state"@] is Object),
{
}

} // verus!
