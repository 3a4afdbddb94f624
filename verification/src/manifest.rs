//! Manifests of native hosts: what a caller asks for, and what an entry offers.
use crate::decode::{
    is_record, member, member_at, number_at, optional_text_at, optional_text_member, record,
    text_at, text_member, text_view, texts_at, texts_member, texts_or_none_at,
    texts_or_none_member, texts_view, u16_member, u32_member,
};
use crate::error::{fails_with, ErrorView, RuntimeError, RuntimeResult};
use crate::json::{Json, JsonView};
use crate::text::same_text;
use vstd::prelude::*;
use vstd::string::*;

verus! {

/// The version of the manifests that this library reads.
pub const MANIFEST_SCHEMA_VERSION: u32 = 2;

/// The version of the protocol between the extension and the native host.
pub const NATIVE_HOST_PROTOCOL_VERSION: u32 = 2;

/// What a caller demands of the runtime it is given.
#[derive(Debug)]
pub struct RuntimeConstraints {
    pub extension_build_channel: String,
    pub extension_id: String,
    pub extension_version: String,
    pub native_host_name: String,
    pub required_app_server_protocol_version: u32,
    pub required_native_host_protocol_version: u32,
}

/// The mathematical view of a caller's demands.
pub struct ConstraintsView {
    pub extension_build_channel: Seq<char>,
    pub extension_id: Seq<char>,
    pub extension_version: Seq<char>,
    pub native_host_name: Seq<char>,
    pub required_app_server_protocol_version: int,
    pub required_native_host_protocol_version: int,
}

impl View for RuntimeConstraints {
    type V = ConstraintsView;

    open spec fn view(&self) -> ConstraintsView {
        ConstraintsView {
            extension_build_channel: self.extension_build_channel@,
            extension_id: self.extension_id@,
            extension_version: self.extension_version@,
            native_host_name: self.native_host_name@,
            required_app_server_protocol_version: self.required_app_server_protocol_version as int,
            required_native_host_protocol_version: self.required_native_host_protocol_version
                as int,
        }
    }
}

/// The demands that a JSON value states, if it states them in full.
pub open spec fn constraints_of(j: JsonView) -> Option<ConstraintsView> {
    match (
        text_at(j, "extensionBuildChannel"@, 0),
        text_at(j, "extensionId"@, 1),
        text_at(j, "extensionVersion"@, 2),
        text_at(j, "nativeHostName"@, 3),
        number_at(j, "requiredAppServerProtocolVersion"@, 4, u32::MAX as int),
        number_at(j, "requiredNativeHostProtocolVersion"@, 5, u32::MAX as int),
    ) {
        (
            Some(extension_build_channel),
            Some(extension_id),
            Some(extension_version),
            Some(native_host_name),
            Some(required_app_server_protocol_version),
            Some(required_native_host_protocol_version),
        ) => if record(j, 6) {
            Some(
                ConstraintsView {
                    extension_build_channel,
                    extension_id,
                    extension_version,
                    native_host_name,
                    required_app_server_protocol_version,
                    required_native_host_protocol_version,
                },
            )
        } else {
            None
        },
        _ => None,
    }
}

/// Reads a caller's demands.
pub fn parse_constraints(value: &Json) -> (r: RuntimeResult<RuntimeConstraints>)
    ensures
        match constraints_of(value@) {
            Some(c) => r is Ok && r->Ok_0@ == c,
            None => fails_with(
                r,
                ErrorView::invalid_params("Invalid Codex runtime constraints"@),
            ),
        },
{
    match (
        text_member(value, "extensionBuildChannel", 0),
        text_member(value, "extensionId", 1),
        text_member(value, "extensionVersion", 2),
        text_member(value, "nativeHostName", 3),
        u32_member(value, "requiredAppServerProtocolVersion", 4),
        u32_member(value, "requiredNativeHostProtocolVersion", 5),
    ) {
        (
            Some(extension_build_channel),
            Some(extension_id),
            Some(extension_version),
            Some(native_host_name),
            Some(required_app_server_protocol_version),
            Some(required_native_host_protocol_version),
        ) => if is_record(value, 6) {
            Ok(
                RuntimeConstraints {
                    extension_build_channel,
                    extension_id,
                    extension_version,
                    native_host_name,
                    required_app_server_protocol_version,
                    required_native_host_protocol_version,
                },
            )
        } else {
            Err(RuntimeError::invalid_params("Invalid Codex runtime constraints"))
        },
        _ => Err(RuntimeError::invalid_params("Invalid Codex runtime constraints")),
    }
}

/// Where the parts of an installation are.
#[derive(Debug)]
pub struct RuntimePaths {
    pub browser_client_path: Option<String>,
    pub codex_cli_path: String,
    pub codex_home: String,
    pub extension_host_path: String,
    pub node_path: String,
    pub node_module_dirs: Vec<String>,
    pub node_repl_path: Option<String>,
    pub resources_path: String,
}

/// The mathematical view of an installation's paths.
pub struct PathsView {
    pub browser_client_path: Option<Seq<char>>,
    pub codex_cli_path: Seq<char>,
    pub codex_home: Seq<char>,
    pub extension_host_path: Seq<char>,
    pub node_path: Seq<char>,
    pub node_module_dirs: Seq<Seq<char>>,
    pub node_repl_path: Option<Seq<char>>,
    pub resources_path: Seq<char>,
}

impl View for RuntimePaths {
    type V = PathsView;

    open spec fn view(&self) -> PathsView {
        PathsView {
            browser_client_path: text_view(self.browser_client_path),
            codex_cli_path: self.codex_cli_path@,
            codex_home: self.codex_home@,
            extension_host_path: self.extension_host_path@,
            node_path: self.node_path@,
            node_module_dirs: texts_view(self.node_module_dirs@),
            node_repl_path: text_view(self.node_repl_path),
            resources_path: self.resources_path@,
        }
    }
}

/// The paths that a JSON value states, if it states those that are needed.
pub open spec fn paths_of(j: JsonView) -> Option<PathsView> {
    match (
        optional_text_at(j, "browserClientPath"@, 0),
        text_at(j, "codexCliPath"@, 1),
        text_at(j, "codexHome"@, 2),
        text_at(j, "extensionHostPath"@, 3),
        text_at(j, "nodePath"@, 4),
        texts_or_none_at(j, "nodeModuleDirs"@, 5),
        optional_text_at(j, "nodeReplPath"@, 6),
        text_at(j, "resourcesPath"@, 7),
    ) {
        (
            Some(browser_client_path),
            Some(codex_cli_path),
            Some(codex_home),
            Some(extension_host_path),
            Some(node_path),
            Some(node_module_dirs),
            Some(node_repl_path),
            Some(resources_path),
        ) => if record(j, 8) {
            Some(
                PathsView {
                    browser_client_path,
                    codex_cli_path,
                    codex_home,
                    extension_host_path,
                    node_path,
                    node_module_dirs,
                    node_repl_path,
                    resources_path,
                },
            )
        } else {
            None
        },
        _ => None,
    }
}

/// Reads an installation's paths.
pub fn decode_paths(j: &Json) -> (r: Option<RuntimePaths>)
    ensures
        match r {
            Some(paths) => paths_of(j@) == Some(paths@),
            None => paths_of(j@) is None,
        },
{
    match (
        optional_text_member(j, "browserClientPath", 0),
        text_member(j, "codexCliPath", 1),
        text_member(j, "codexHome", 2),
        text_member(j, "extensionHostPath", 3),
        text_member(j, "nodePath", 4),
        texts_or_none_member(j, "nodeModuleDirs", 5),
        optional_text_member(j, "nodeReplPath", 6),
        text_member(j, "resourcesPath", 7),
    ) {
        (
            Some(browser_client_path),
            Some(codex_cli_path),
            Some(codex_home),
            Some(extension_host_path),
            Some(node_path),
            Some(node_module_dirs),
            Some(node_repl_path),
            Some(resources_path),
        ) => if is_record(j, 8) {
            Some(
                RuntimePaths {
                    browser_client_path,
                    codex_cli_path,
                    codex_home,
                    extension_host_path,
                    node_path,
                    node_module_dirs,
                    node_repl_path,
                    resources_path,
                },
            )
        } else {
            None
        },
        _ => None,
    }
}

/// An installation that a manifest lists.
#[derive(Debug)]
pub struct RuntimeEntry {
    pub schema_version: u32,
    pub app_server_protocol_version: u32,
    pub app_version: String,
    pub channel: String,
    pub cli_version: String,
    pub entry_id: String,
    pub extension_build_channels: Vec<String>,
    pub extension_ids: Vec<String>,
    pub install_id: String,
    pub native_host_names: Vec<String>,
    pub native_host_protocol_version: u32,
    pub native_host_version: String,
    pub paths: RuntimePaths,
    pub proxy_host: String,
    pub proxy_port: u16,
    pub updated_at: String,
}

/// The mathematical view of an entry.
pub struct EntryView {
    pub schema_version: int,
    pub app_server_protocol_version: int,
    pub app_version: Seq<char>,
    pub channel: Seq<char>,
    pub cli_version: Seq<char>,
    pub entry_id: Seq<char>,
    pub extension_build_channels: Seq<Seq<char>>,
    pub extension_ids: Seq<Seq<char>>,
    pub install_id: Seq<char>,
    pub native_host_names: Seq<Seq<char>>,
    pub native_host_protocol_version: int,
    pub native_host_version: Seq<char>,
    pub paths: PathsView,
    pub proxy_host: Seq<char>,
    pub proxy_port: int,
    pub updated_at: Seq<char>,
}

impl View for RuntimeEntry {
    type V = EntryView;

    open spec fn view(&self) -> EntryView {
        EntryView {
            schema_version: self.schema_version as int,
            app_server_protocol_version: self.app_server_protocol_version as int,
            app_version: self.app_version@,
            channel: self.channel@,
            cli_version: self.cli_version@,
            entry_id: self.entry_id@,
            extension_build_channels: texts_view(self.extension_build_channels@),
            extension_ids: texts_view(self.extension_ids@),
            install_id: self.install_id@,
            native_host_names: texts_view(self.native_host_names@),
            native_host_protocol_version: self.native_host_protocol_version as int,
            native_host_version: self.native_host_version@,
            paths: self.paths@,
            proxy_host: self.proxy_host@,
            proxy_port: self.proxy_port as int,
            updated_at: self.updated_at@,
        }
    }
}

/// The `paths` member of an entry.
pub open spec fn entry_paths_of(j: JsonView) -> Option<PathsView> {
    match member_at(j, "paths"@, 12) {
        Some(paths) => paths_of(paths),
        None => None,
    }
}

/// The entry that a JSON value states, if it states one in full.
pub open spec fn entry_of(j: JsonView) -> Option<EntryView> {
    match (
        (
            number_at(j, "schemaVersion"@, 0, u32::MAX as int),
            number_at(j, "appServerProtocolVersion"@, 1, u32::MAX as int),
            text_at(j, "appVersion"@, 2),
            text_at(j, "channel"@, 3),
            text_at(j, "cliVersion"@, 4),
            text_at(j, "entryId"@, 5),
            texts_at(j, "extensionBuildChannels"@, 6),
            texts_at(j, "extensionIds"@, 7),
        ),
        (
            text_at(j, "installId"@, 8),
            texts_at(j, "nativeHostNames"@, 9),
            number_at(j, "nativeHostProtocolVersion"@, 10, u32::MAX as int),
            text_at(j, "nativeHostVersion"@, 11),
            entry_paths_of(j),
            text_at(j, "proxyHost"@, 13),
            number_at(j, "proxyPort"@, 14, u16::MAX as int),
            text_at(j, "updatedAt"@, 15),
        ),
    ) {
        (
            (
                Some(schema_version),
                Some(app_server_protocol_version),
                Some(app_version),
                Some(channel),
                Some(cli_version),
                Some(entry_id),
                Some(extension_build_channels),
                Some(extension_ids),
            ),
            (
                Some(install_id),
                Some(native_host_names),
                Some(native_host_protocol_version),
                Some(native_host_version),
                Some(paths),
                Some(proxy_host),
                Some(proxy_port),
                Some(updated_at),
            ),
        ) => if record(j, 16) {
            Some(
                EntryView {
                    schema_version,
                    app_server_protocol_version,
                    app_version,
                    channel,
                    cli_version,
                    entry_id,
                    extension_build_channels,
                    extension_ids,
                    install_id,
                    native_host_names,
                    native_host_protocol_version,
                    native_host_version,
                    paths,
                    proxy_host,
                    proxy_port,
                    updated_at,
                },
            )
        } else {
            None
        },
        _ => None,
    }
}

/// Reads an entry.
pub fn decode_entry(j: &Json) -> (r: Option<RuntimeEntry>)
    ensures
        match r {
            Some(entry) => entry_of(j@) == Some(entry@),
            None => entry_of(j@) is None,
        },
{
    let paths = match member(j, "paths", 12) {
        Some(paths) => decode_paths(paths),
        None => None,
    };
    match (
        (
            u32_member(j, "schemaVersion", 0),
            u32_member(j, "appServerProtocolVersion", 1),
            text_member(j, "appVersion", 2),
            text_member(j, "channel", 3),
            text_member(j, "cliVersion", 4),
            text_member(j, "entryId", 5),
            texts_member(j, "extensionBuildChannels", 6),
            texts_member(j, "extensionIds", 7),
        ),
        (
            text_member(j, "installId", 8),
            texts_member(j, "nativeHostNames", 9),
            u32_member(j, "nativeHostProtocolVersion", 10),
            text_member(j, "nativeHostVersion", 11),
            paths,
            text_member(j, "proxyHost", 13),
            u16_member(j, "proxyPort", 14),
            text_member(j, "updatedAt", 15),
        ),
    ) {
        (
            (
                Some(schema_version),
                Some(app_server_protocol_version),
                Some(app_version),
                Some(channel),
                Some(cli_version),
                Some(entry_id),
                Some(extension_build_channels),
                Some(extension_ids),
            ),
            (
                Some(install_id),
                Some(native_host_names),
                Some(native_host_protocol_version),
                Some(native_host_version),
                Some(paths),
                Some(proxy_host),
                Some(proxy_port),
                Some(updated_at),
            ),
        ) => if is_record(j, 16) {
            Some(
                RuntimeEntry {
                    schema_version,
                    app_server_protocol_version,
                    app_version,
                    channel,
                    cli_version,
                    entry_id,
                    extension_build_channels,
                    extension_ids,
                    install_id,
                    native_host_names,
                    native_host_protocol_version,
                    native_host_version,
                    paths,
                    proxy_host,
                    proxy_port,
                    updated_at,
                },
            )
        } else {
            None
        },
        _ => None,
    }
}

/// Whether a text is in a list.
fn lists(texts: &Vec<String>, wanted: &str) -> (r: bool)
    ensures
        r == texts_view(texts@).contains(wanted@),
{
    for i in 0..texts.len()
        invariant
            forall|j: int| 0 <= j < i ==> #[trigger] texts@[j]@ != wanted@,
    {
        if same_text(texts[i].as_str(), wanted) {
            assert(texts_view(texts@)[i as int] == wanted@);
            return true;
        }
    }
    assert forall|j: int| 0 <= j < texts_view(texts@).len() implies texts_view(texts@)[j]
        != wanted@ by {
        assert(texts_view(texts@)[j] == texts@[j]@);
    }
    false
}

/// Whether an entry meets all demands: the versions are those demanded, and the
/// caller's channel, extension and host name are among those it serves.
pub open spec fn entry_matches(e: EntryView, c: ConstraintsView) -> bool {
    &&& e.schema_version == MANIFEST_SCHEMA_VERSION
    &&& e.app_server_protocol_version == c.required_app_server_protocol_version
    &&& e.native_host_protocol_version == c.required_native_host_protocol_version
    &&& e.extension_build_channels.contains(c.extension_build_channel)
    &&& e.extension_ids.contains(c.extension_id)
    &&& e.native_host_names.contains(c.native_host_name)
}

impl RuntimeEntry {
    /// Whether this entry meets all demands.
    pub fn matches(&self, constraints: &RuntimeConstraints) -> (r: bool)
        ensures
            r == entry_matches(self@, constraints@),
    {
        self.schema_version == MANIFEST_SCHEMA_VERSION && self.app_server_protocol_version
            == constraints.required_app_server_protocol_version && self.native_host_protocol_version
            == constraints.required_native_host_protocol_version && lists(
            &self.extension_build_channels,
            constraints.extension_build_channel.as_str(),
        ) && lists(&self.extension_ids, constraints.extension_id.as_str()) && lists(
            &self.native_host_names,
            constraints.native_host_name.as_str(),
        )
    }
}

} // verus!
