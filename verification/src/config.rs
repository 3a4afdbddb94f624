//! What the side panel is told of an installation.
use crate::decode::{text_view, texts_view};
use crate::encode::{hex_text, sha256, sha256_hex};
use crate::error::{fails_with, ErrorView, RuntimeError, RuntimeResult};
use crate::files::{required_path, required_path_error};
use crate::json::{items_view, optional_view, Json, JsonView, Members};
use crate::json_text::{parse_json, text_value};
use crate::manifest::{EntryView, RuntimeEntry};
use crate::paths::join_path;
use crate::roots::below;
use crate::text::cat;
use vstd::prelude::*;
use vstd::string::*;
use vstd::utf8::encode_utf8;

verus! {

/// The member of an object under its name, or else under its former name, or
/// else an empty object.
pub open spec fn renamed_member(j: JsonView, name: Seq<char>, former: Seq<char>) -> JsonView {
    match (j.member(name), j.member(former)) {
        (Some(v), _) => v,
        (None, Some(v)) => v,
        (None, None) => JsonView::Object(Map::empty()),
    }
}

/// The agent modes that the desktop app has stored, if its state has the part
/// they are stored in.
pub open spec fn agent_defaults(state: JsonView) -> Option<JsonView> {
    match state.member("electron-persisted-atom-state"@) {
        Some(JsonView::Object(persisted)) => Some(
            JsonView::Object(
                map![
                    "agentModesByHostId"@ => renamed_member(
                        JsonView::Object(persisted),
                        "agentModesByHostId"@,
                        "agent-mode-by-host-id"@,
                    ),
                    "preferredNonFullAccessModesByHostId"@ => renamed_member(
                        JsonView::Object(persisted),
                        "preferredNonFullAccessModesByHostId"@,
                        "preferred-non-full-access-agent-mode-by-host-id"@,
                    ),
                ],
            ),
        ),
        _ => None,
    }
}

/// Copies a member that may stand under its former name.
fn copy_renamed(j: &Json, name: &str, former: &str) -> (r: Json)
    ensures
        r@ == renamed_member(j@, name@, former@),
{
    match j.get(name) {
        Some(v) => v.copy(),
        None => match j.get(former) {
            Some(v) => v.copy(),
            None => Members::new().object(),
        },
    }
}

/// The agent modes that the desktop app has stored.
pub fn agent_mode_defaults(state: &Json) -> (r: Option<Json>)
    ensures
        match r {
            Some(defaults) => agent_defaults(state@) == Some(defaults@),
            None => agent_defaults(state@) is None,
        },
{
    match state.get("electron-persisted-atom-state") {
        Some(persisted) => match persisted {
            Json::Object(_) => {
                let mut defaults = Members::new();
                defaults.put(
                    "agentModesByHostId",
                    copy_renamed(persisted, "agentModesByHostId", "agent-mode-by-host-id"),
                );
                defaults.put(
                    "preferredNonFullAccessModesByHostId",
                    copy_renamed(
                        persisted,
                        "preferredNonFullAccessModesByHostId",
                        "preferred-non-full-access-agent-mode-by-host-id",
                    ),
                );
                Some(defaults.object())
            },
            _ => None,
        },
        None => None,
    }
}

/// The file that the desktop app keeps its state in.
pub fn desktop_state_path(codex_home: &str) -> (r: Vec<u8>)
    ensures
        r@ == below(encode_utf8(codex_home@), ".codex-global-state.json"@),
{
    join_path(codex_home.as_bytes(), ".codex-global-state.json")
}

/// The agent modes in the desktop app's state file, if it could be read.
pub open spec fn file_defaults(state_text: Option<Seq<char>>) -> Option<JsonView> {
    match state_text {
        Some(text) => match text_value(text) {
            Some(state) => agent_defaults(state),
            None => None,
        },
        None => None,
    }
}

/// The agent modes in the desktop app's state file.
pub fn desktop_agent_mode_defaults(state_text: &Option<String>) -> (r: Option<Json>)
    ensures
        match r {
            Some(defaults) => file_defaults(text_view(*state_text)) == Some(defaults@),
            None => file_defaults(text_view(*state_text)) is None,
        },
{
    match state_text {
        Some(text) => match parse_json(text.as_str()) {
            Some(state) => agent_mode_defaults(&state),
            None => None,
        },
        None => None,
    }
}

/// What came of reading the browser client.
#[derive(Debug)]
pub enum ClientRead {
    NotOpened,
    Failed(String),
    Read(Vec<u8>),
}

/// The SHA-256 digest of a file that was read, in hexadecimal.
pub fn sha256_file(read: &ClientRead) -> (r: RuntimeResult<String>)
    ensures
        match read {
            ClientRead::NotOpened => fails_with(r, required_path("browserClientPath"@)),
            ClientRead::Failed(error) => fails_with(
                r,
                ErrorView::internal("Failed to hash Browser Use client: "@ + error@),
            ),
            ClientRead::Read(bytes) => r is Ok && r->Ok_0@ == hex_text(sha256(bytes@)),
        },
{
    match read {
        ClientRead::NotOpened => Err(required_path_error("browserClientPath")),
        ClientRead::Failed(error) => Err(
            RuntimeError::internal(
                cat("Failed to hash Browser Use client: ", error.as_str()).as_str(),
            ),
        ),
        ClientRead::Read(bytes) => Ok(sha256_hex(bytes.as_slice())),
    }
}

/// Texts as a JSON array.
pub open spec fn text_array(texts: Seq<Seq<char>>) -> JsonView {
    JsonView::Array(texts.map_values(|text: Seq<char>| JsonView::Text(text)))
}

/// Makes a JSON array of texts.
pub fn texts_json(texts: &Vec<String>) -> (r: Json)
    ensures
        r@ == text_array(texts_view(texts@)),
{
    let mut out: Vec<Json> = Vec::new();
    let ghost all = texts_view(texts@);
    for i in 0..texts.len()
        invariant
            all == texts_view(texts@),
            items_view(out@) == all.take(i as int).map_values(
                |text: Seq<char>| JsonView::Text(text),
            ),
    {
        let ghost before = out@;
        assert(all[i as int] == texts@[i as int]@);
        out.push(Json::text(texts[i].as_str()));
        assert(out@.drop_last() =~= before);
        assert(all.take(i + 1).map_values(|text: Seq<char>| JsonView::Text(text)) =~= all.take(
            i as int,
        ).map_values(|text: Seq<char>| JsonView::Text(text)).push(JsonView::Text(all[i as int])));
    }
    assert(all.take(all.len() as int) =~= all);
    Json::Array(out)
}

/// A text, or null.
pub open spec fn text_or_null(text: Option<Seq<char>>) -> JsonView {
    match text {
        Some(text) => JsonView::Text(text),
        None => JsonView::Null,
    }
}

/// Makes JSON of a text or null.
pub fn text_or_null_json(text: &Option<String>) -> (r: Json)
    ensures
        r@ == text_or_null(text_view(*text)),
{
    match text {
        Some(text) => Json::text(text.as_str()),
        None => Json::Null,
    }
}

/// What the side panel is told of an installation, given the digests of the
/// browser clients it may trust and the stored agent modes.
pub open spec fn config_view(
    e: EntryView,
    trusted_hashes: Seq<Seq<char>>,
    defaults: Option<JsonView>,
) -> JsonView {
    JsonView::Object(
        map![
            "browserClientPath"@ => text_or_null(e.paths.browser_client_path),
            "codexCliPath"@ => JsonView::Text(e.paths.codex_cli_path),
            "codexHome"@ => JsonView::Text(e.paths.codex_home),
            "desktopAgentModeDefaults"@ => match defaults {
                Some(defaults) => defaults,
                None => JsonView::Null,
            },
            "nodeModuleDirs"@ => text_array(e.paths.node_module_dirs),
            "nodePath"@ => JsonView::Text(e.paths.node_path),
            "nodeReplPath"@ => text_or_null(e.paths.node_repl_path),
            "platform"@ => JsonView::Text("linux"@),
            "trustedBrowserClientSha256s"@ => text_array(trusted_hashes),
        ],
    )
}

/// What the side panel is told of an installation.
pub fn config_json(entry: &RuntimeEntry, trusted_hashes: &Vec<String>, defaults: Option<Json>) -> (r:
    Json)
    ensures
        r@ == config_view(
            entry@,
            texts_view(trusted_hashes@),
            optional_view(defaults),
        ),
{
    let paths = &entry.paths;
    let mut config = Members::new();
    config.put("browserClientPath", text_or_null_json(&paths.browser_client_path));
    config.put("codexCliPath", Json::text(paths.codex_cli_path.as_str()));
    config.put("codexHome", Json::text(paths.codex_home.as_str()));
    config.put(
        "desktopAgentModeDefaults",
        match defaults {
            Some(defaults) => defaults,
            None => Json::Null,
        },
    );
    config.put("nodeModuleDirs", texts_json(&paths.node_module_dirs));
    config.put("nodePath", Json::text(paths.node_path.as_str()));
    config.put("nodeReplPath", text_or_null_json(&paths.node_repl_path));
    config.put("platform", Json::text("linux"));
    config.put("trustedBrowserClientSha256s", texts_json(trusted_hashes));
    config.object()
}

/// The digests that the side panel may trust: that of the browser client, if
/// the installation has one.
pub open spec fn hashes_of(e: EntryView, client: ClientRead) -> Seq<Seq<char>> {
    match (e.paths.browser_client_path, client) {
        (Some(_), ClientRead::Read(bytes)) => seq![hex_text(sha256(bytes@))],
        _ => Seq::empty(),
    }
}

/// Why the browser client of an installation cannot be hashed, if it has one
/// and it cannot.
pub open spec fn client_fault(e: EntryView, client: ClientRead) -> Option<ErrorView> {
    match (e.paths.browser_client_path, client) {
        (Some(_), ClientRead::NotOpened) => Some(required_path("browserClientPath"@)),
        (Some(_), ClientRead::Failed(error)) => Some(
            ErrorView::internal("Failed to hash Browser Use client: "@ + error@),
        ),
        _ => None,
    }
}

/// What the side panel is told of an installation, given what was read of its
/// browser client and of the desktop app's state.
pub fn runtime_config(entry: &RuntimeEntry, client: &ClientRead, state_text: &Option<String>) -> (r:
    RuntimeResult<Json>)
    ensures
        match client_fault(entry@, *client) {
            Some(fault) => fails_with(r, fault),
            None => r is Ok && r->Ok_0@ == config_view(
                entry@,
                hashes_of(entry@, *client),
                file_defaults(text_view(*state_text)),
            ),
        },
{
    let mut trusted_hashes: Vec<String> = Vec::new();
    match &entry.paths.browser_client_path {
        Some(_) => {
            let hash = sha256_file(client)?;
            trusted_hashes.push(hash);
        },
        None => {},
    }
    assert(texts_view(trusted_hashes@) =~= hashes_of(entry@, *client));
    let defaults = desktop_agent_mode_defaults(state_text);
    Ok(config_json(entry, &trusted_hashes, defaults))
}

} // verus!
