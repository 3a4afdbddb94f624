//! What manifests and demands say is what is read of them: which member of a
//! JSON record becomes which part of an entry, of its paths, or of a demand.
use crate::decode::{texts_in, texts_view};
use crate::error::{ErrorView, RuntimeResult};
use crate::json::{Json, JsonNumber, JsonView};
use crate::manifest::{
    constraints_of, decode_entry, decode_paths, entry_matches, entry_of, parse_constraints,
    paths_of, ConstraintsView, EntryView, PathsView, RuntimeConstraints, RuntimeEntry,
    RuntimePaths,
};
use vstd::prelude::*;

verus! {

/// Whether a JSON number is that whole number. `serde_json` holds one that is
/// not negative as such.
pub open spec fn is_number(j: JsonView, n: int) -> bool {
    match j {
        JsonView::Number(JsonNumber::PosInt(k)) => k == n,
        JsonView::Number(JsonNumber::NegInt(k)) => k == n,
        _ => false,
    }
}

/// Whether the items of a JSON array are those texts.
pub open spec fn is_list_of(items: Seq<JsonView>, texts: Seq<Seq<char>>) -> bool {
    items.len() == texts.len() && forall|i: int|
        0 <= i < items.len() ==> #[trigger] items[i] == JsonView::Text(texts[i])
}

/// Texts in a JSON array are the texts that the array is made of.
proof fn lemma_texts_in(items: Seq<JsonView>, texts: Seq<Seq<char>>)
    ensures
        texts_in(items) == Some(texts) <==> items == texts.map_values(
            |t: Seq<char>| JsonView::Text(t),
        ),
{
    let made = texts.map_values(|t: Seq<char>| JsonView::Text(t));
    if items == made {
        assert forall|i: int| 0 <= i < items.len() implies (#[trigger] items[i]) is Text by {
            assert(made[i] == JsonView::Text(texts[i]));
        }
        assert(items.map_values(|item: JsonView| item->Text_0) =~= texts);
    }
    if texts_in(items) == Some(texts) {
        assert(texts == items.map_values(|item: JsonView| item->Text_0));
        assert forall|i: int| 0 <= i < items.len() implies items[i] == made[i] by {
            assert(items[i] is Text);
            assert(texts[i] == items[i]->Text_0);
        }
        assert(items =~= made);
    }
}

/// The paths of an installation are read by name: each is what stands under its
/// own name, and those that may be left out are missing or null.
pub proof fn paths_are_read_by_name(m: Map<Seq<char>, JsonView>, p: PathsView)
    ensures
        paths_of(JsonView::Object(m)) == Some(p) <==> {
            &&& match p.browser_client_path {
                Some(t) => m.contains_key("browserClientPath"@)
                    && m["browserClientPath"@] == JsonView::Text(t),
                None => !m.contains_key("browserClientPath"@)
                    || m["browserClientPath"@] == JsonView::Null,
            }
            &&& m.contains_key("codexCliPath"@)
            &&& m["codexCliPath"@] == JsonView::Text(p.codex_cli_path)
            &&& m.contains_key("codexHome"@)
            &&& m["codexHome"@] == JsonView::Text(p.codex_home)
            &&& m.contains_key("extensionHostPath"@)
            &&& m["extensionHostPath"@] == JsonView::Text(p.extension_host_path)
            &&& m.contains_key("nodePath"@)
            &&& m["nodePath"@] == JsonView::Text(p.node_path)
            &&& if m.contains_key("nodeModuleDirs"@) {
                m["nodeModuleDirs"@] == JsonView::Array(
                    p.node_module_dirs.map_values(|t: Seq<char>| JsonView::Text(t)),
                )
            } else {
                p.node_module_dirs.len() == 0
            }
            &&& match p.node_repl_path {
                Some(t) => m.contains_key("nodeReplPath"@)
                    && m["nodeReplPath"@] == JsonView::Text(t),
                None => !m.contains_key("nodeReplPath"@)
                    || m["nodeReplPath"@] == JsonView::Null,
            }
            &&& m.contains_key("resourcesPath"@)
            &&& m["resourcesPath"@] == JsonView::Text(p.resources_path)
        },
{
    if m.contains_key("nodeModuleDirs"@) && m["nodeModuleDirs"@] is Array {
        lemma_texts_in(m["nodeModuleDirs"@]->Array_0, p.node_module_dirs);
    }
    if p.node_module_dirs.len() == 0 {
        assert(p.node_module_dirs =~= Seq::empty());
    }
}

/// In an array the paths stand in the order of their declaration.
pub proof fn paths_are_read_in_order(items: Seq<JsonView>, p: PathsView)
    ensures
        paths_of(JsonView::Array(items)) == Some(p) <==> {
            &&& items.len() == 8
            &&& match p.browser_client_path {
                Some(t) => items[0] == JsonView::Text(t),
                None => items[0] == JsonView::Null,
            }
            &&& items[1] == JsonView::Text(p.codex_cli_path)
            &&& items[2] == JsonView::Text(p.codex_home)
            &&& items[3] == JsonView::Text(p.extension_host_path)
            &&& items[4] == JsonView::Text(p.node_path)
            &&& items[5] == JsonView::Array(
                p.node_module_dirs.map_values(|t: Seq<char>| JsonView::Text(t)),
            )
            &&& match p.node_repl_path {
                Some(t) => items[6] == JsonView::Text(t),
                None => items[6] == JsonView::Null,
            }
            &&& items[7] == JsonView::Text(p.resources_path)
        },
{
    if items.len() == 8 && items[5] is Array {
        lemma_texts_in(items[5]->Array_0, p.node_module_dirs);
    }
    if p.node_module_dirs.len() == 0 {
        assert(p.node_module_dirs =~= Seq::empty());
    }
}

/// An entry is read by name: each part of it is what stands under its own name.
pub proof fn an_entry_is_read_by_name(m: Map<Seq<char>, JsonView>, e: EntryView)
    ensures
        entry_of(JsonView::Object(m)) == Some(e) <==> {
            &&& m.contains_key("schemaVersion"@)
            &&& 0 <= e.schema_version <= u32::MAX
            &&& is_number(m["schemaVersion"@], e.schema_version)
            &&& m.contains_key("appServerProtocolVersion"@)
            &&& 0 <= e.app_server_protocol_version <= u32::MAX
            &&& is_number(m["appServerProtocolVersion"@], e.app_server_protocol_version)
            &&& m.contains_key("appVersion"@)
            &&& m["appVersion"@] == JsonView::Text(e.app_version)
            &&& m.contains_key("channel"@)
            &&& m["channel"@] == JsonView::Text(e.channel)
            &&& m.contains_key("cliVersion"@)
            &&& m["cliVersion"@] == JsonView::Text(e.cli_version)
            &&& m.contains_key("entryId"@)
            &&& m["entryId"@] == JsonView::Text(e.entry_id)
            &&& m.contains_key("extensionBuildChannels"@)
            &&& m["extensionBuildChannels"@] == JsonView::Array(
                e.extension_build_channels.map_values(|t: Seq<char>| JsonView::Text(t)),
            )
            &&& m.contains_key("extensionIds"@)
            &&& m["extensionIds"@] == JsonView::Array(
                e.extension_ids.map_values(|t: Seq<char>| JsonView::Text(t)),
            )
            &&& m.contains_key("installId"@)
            &&& m["installId"@] == JsonView::Text(e.install_id)
            &&& m.contains_key("nativeHostNames"@)
            &&& m["nativeHostNames"@] == JsonView::Array(
                e.native_host_names.map_values(|t: Seq<char>| JsonView::Text(t)),
            )
            &&& m.contains_key("nativeHostProtocolVersion"@)
            &&& 0 <= e.native_host_protocol_version <= u32::MAX
            &&& is_number(m["nativeHostProtocolVersion"@], e.native_host_protocol_version)
            &&& m.contains_key("nativeHostVersion"@)
            &&& m["nativeHostVersion"@] == JsonView::Text(e.native_host_version)
            &&& m.contains_key("paths"@)
            &&& paths_of(m["paths"@]) == Some(e.paths)
            &&& m.contains_key("proxyHost"@)
            &&& m["proxyHost"@] == JsonView::Text(e.proxy_host)
            &&& m.contains_key("proxyPort"@)
            &&& 0 <= e.proxy_port <= u16::MAX
            &&& is_number(m["proxyPort"@], e.proxy_port)
            &&& m.contains_key("updatedAt"@)
            &&& m["updatedAt"@] == JsonView::Text(e.updated_at)
        },
{
    if m.contains_key("extensionBuildChannels"@) && m["extensionBuildChannels"@] is Array {
        lemma_texts_in(m["extensionBuildChannels"@]->Array_0, e.extension_build_channels);
    }
    if m.contains_key("extensionIds"@) && m["extensionIds"@] is Array {
        lemma_texts_in(m["extensionIds"@]->Array_0, e.extension_ids);
    }
    if m.contains_key("nativeHostNames"@) && m["nativeHostNames"@] is Array {
        lemma_texts_in(m["nativeHostNames"@]->Array_0, e.native_host_names);
    }
}

/// In an array the parts of an entry stand in the order of their declaration.
pub proof fn an_entry_is_read_in_order(items: Seq<JsonView>, e: EntryView)
    ensures
        entry_of(JsonView::Array(items)) == Some(e) <==> {
            &&& items.len() == 16
            &&& 0 <= e.schema_version <= u32::MAX
            &&& is_number(items[0], e.schema_version)
            &&& 0 <= e.app_server_protocol_version <= u32::MAX
            &&& is_number(items[1], e.app_server_protocol_version)
            &&& items[2] == JsonView::Text(e.app_version)
            &&& items[3] == JsonView::Text(e.channel)
            &&& items[4] == JsonView::Text(e.cli_version)
            &&& items[5] == JsonView::Text(e.entry_id)
            &&& items[6] == JsonView::Array(
                e.extension_build_channels.map_values(|t: Seq<char>| JsonView::Text(t)),
            )
            &&& items[7] == JsonView::Array(
                e.extension_ids.map_values(|t: Seq<char>| JsonView::Text(t)),
            )
            &&& items[8] == JsonView::Text(e.install_id)
            &&& items[9] == JsonView::Array(
                e.native_host_names.map_values(|t: Seq<char>| JsonView::Text(t)),
            )
            &&& 0 <= e.native_host_protocol_version <= u32::MAX
            &&& is_number(items[10], e.native_host_protocol_version)
            &&& items[11] == JsonView::Text(e.native_host_version)
            &&& paths_of(items[12]) == Some(e.paths)
            &&& items[13] == JsonView::Text(e.proxy_host)
            &&& 0 <= e.proxy_port <= u16::MAX
            &&& is_number(items[14], e.proxy_port)
            &&& items[15] == JsonView::Text(e.updated_at)
        },
{
    if items.len() == 16 && items[6] is Array {
        lemma_texts_in(items[6]->Array_0, e.extension_build_channels);
    }
    if items.len() == 16 && items[7] is Array {
        lemma_texts_in(items[7]->Array_0, e.extension_ids);
    }
    if items.len() == 16 && items[9] is Array {
        lemma_texts_in(items[9]->Array_0, e.native_host_names);
    }
}

/// A demand is read by name: each part of it is what stands under its own name.
pub proof fn a_demand_is_read_by_name(m: Map<Seq<char>, JsonView>, c: ConstraintsView)
    ensures
        constraints_of(JsonView::Object(m)) == Some(c) <==> {
            &&& m.contains_key("extensionBuildChannel"@)
            &&& m["extensionBuildChannel"@] == JsonView::Text(c.extension_build_channel)
            &&& m.contains_key("extensionId"@)
            &&& m["extensionId"@] == JsonView::Text(c.extension_id)
            &&& m.contains_key("extensionVersion"@)
            &&& m["extensionVersion"@] == JsonView::Text(c.extension_version)
            &&& m.contains_key("nativeHostName"@)
            &&& m["nativeHostName"@] == JsonView::Text(c.native_host_name)
            &&& m.contains_key("requiredAppServerProtocolVersion"@)
            &&& 0 <= c.required_app_server_protocol_version <= u32::MAX
            &&& is_number(
                m["requiredAppServerProtocolVersion"@],
                c.required_app_server_protocol_version,
            )
            &&& m.contains_key("requiredNativeHostProtocolVersion"@)
            &&& 0 <= c.required_native_host_protocol_version <= u32::MAX
            &&& is_number(
                m["requiredNativeHostProtocolVersion"@],
                c.required_native_host_protocol_version,
            )
        },
{
}

/// In an array the parts of a demand stand in the order of their declaration.
pub proof fn a_demand_is_read_in_order(items: Seq<JsonView>, c: ConstraintsView)
    ensures
        constraints_of(JsonView::Array(items)) == Some(c) <==> {
            &&& items.len() == 6
            &&& items[0] == JsonView::Text(c.extension_build_channel)
            &&& items[1] == JsonView::Text(c.extension_id)
            &&& items[2] == JsonView::Text(c.extension_version)
            &&& items[3] == JsonView::Text(c.native_host_name)
            &&& 0 <= c.required_app_server_protocol_version <= u32::MAX
            &&& is_number(items[4], c.required_app_server_protocol_version)
            &&& 0 <= c.required_native_host_protocol_version <= u32::MAX
            &&& is_number(items[5], c.required_native_host_protocol_version)
        },
{
}

/// Reading the paths of an installation undoes writing them down by name.
pub proof fn reading_undoes_writing_paths(p: PathsView, node_module_dirs: Seq<JsonView>)
    requires
        is_list_of(node_module_dirs, p.node_module_dirs),
    ensures
        paths_of(
            JsonView::Object(
                map![
                    "browserClientPath"@ => match p.browser_client_path {
                        Some(t) => JsonView::Text(t),
                        None => JsonView::Null,
                    },
                    "codexCliPath"@ => JsonView::Text(p.codex_cli_path),
                    "codexHome"@ => JsonView::Text(p.codex_home),
                    "extensionHostPath"@ => JsonView::Text(p.extension_host_path),
                    "nodePath"@ => JsonView::Text(p.node_path),
                    "nodeModuleDirs"@ => JsonView::Array(node_module_dirs),
                    "nodeReplPath"@ => match p.node_repl_path {
                        Some(t) => JsonView::Text(t),
                        None => JsonView::Null,
                    },
                    "resourcesPath"@ => JsonView::Text(p.resources_path),
                ],
            ),
        ) == Some(p),
{
    reveal_strlit("browserClientPath");
    reveal_strlit("codexCliPath");
    reveal_strlit("codexHome");
    reveal_strlit("extensionHostPath");
    reveal_strlit("nodePath");
    reveal_strlit("nodeModuleDirs");
    reveal_strlit("nodeReplPath");
    reveal_strlit("resourcesPath");
    assert("browserClientPath"@.len() == 17);
    assert("codexCliPath"@.len() == 12);
    assert("codexHome"@.len() == 9);
    assert("extensionHostPath"@.len() == 17);
    assert("browserClientPath"@[0] != "extensionHostPath"@[0]);
    assert("nodePath"@.len() == 8);
    assert("nodeModuleDirs"@.len() == 14);
    assert("nodeReplPath"@.len() == 12);
    assert("codexCliPath"@[0] != "nodeReplPath"@[0]);
    assert("resourcesPath"@.len() == 13);
    let m = map![
        "browserClientPath"@ => match p.browser_client_path {
            Some(t) => JsonView::Text(t),
            None => JsonView::Null,
        },
        "codexCliPath"@ => JsonView::Text(p.codex_cli_path),
        "codexHome"@ => JsonView::Text(p.codex_home),
        "extensionHostPath"@ => JsonView::Text(p.extension_host_path),
        "nodePath"@ => JsonView::Text(p.node_path),
        "nodeModuleDirs"@ => JsonView::Array(node_module_dirs),
        "nodeReplPath"@ => match p.node_repl_path {
            Some(t) => JsonView::Text(t),
            None => JsonView::Null,
        },
        "resourcesPath"@ => JsonView::Text(p.resources_path),
    ];
    assert(node_module_dirs =~= p.node_module_dirs.map_values(|t: Seq<char>| JsonView::Text(t)));
    paths_are_read_by_name(m, p);
}

/// Reading an entry undoes writing it down by name.
pub proof fn reading_undoes_writing_an_entry(
    e: EntryView,
    extension_build_channels: Seq<JsonView>,
    extension_ids: Seq<JsonView>,
    native_host_names: Seq<JsonView>,
    paths: JsonView,
)
    requires
        0 <= e.schema_version <= u32::MAX,
        0 <= e.app_server_protocol_version <= u32::MAX,
        0 <= e.native_host_protocol_version <= u32::MAX,
        0 <= e.proxy_port <= u16::MAX,
        is_list_of(extension_build_channels, e.extension_build_channels),
        is_list_of(extension_ids, e.extension_ids),
        is_list_of(native_host_names, e.native_host_names),
        paths_of(paths) == Some(e.paths),
    ensures
        entry_of(
            JsonView::Object(
                map![
                    "schemaVersion"@ => JsonView::Number(
                        JsonNumber::PosInt(e.schema_version as u64),
                    ),
                    "appServerProtocolVersion"@ => JsonView::Number(
                        JsonNumber::PosInt(e.app_server_protocol_version as u64),
                    ),
                    "appVersion"@ => JsonView::Text(e.app_version),
                    "channel"@ => JsonView::Text(e.channel),
                    "cliVersion"@ => JsonView::Text(e.cli_version),
                    "entryId"@ => JsonView::Text(e.entry_id),
                    "extensionBuildChannels"@ => JsonView::Array(extension_build_channels),
                    "extensionIds"@ => JsonView::Array(extension_ids),
                    "installId"@ => JsonView::Text(e.install_id),
                    "nativeHostNames"@ => JsonView::Array(native_host_names),
                    "nativeHostProtocolVersion"@ => JsonView::Number(
                        JsonNumber::PosInt(e.native_host_protocol_version as u64),
                    ),
                    "nativeHostVersion"@ => JsonView::Text(e.native_host_version),
                    "paths"@ => paths,
                    "proxyHost"@ => JsonView::Text(e.proxy_host),
                    "proxyPort"@ => JsonView::Number(
                        JsonNumber::PosInt(e.proxy_port as u64),
                    ),
                    "updatedAt"@ => JsonView::Text(e.updated_at),
                ],
            ),
        ) == Some(e),
{
    reveal_strlit("schemaVersion");
    reveal_strlit("appServerProtocolVersion");
    reveal_strlit("appVersion");
    reveal_strlit("channel");
    reveal_strlit("cliVersion");
    reveal_strlit("entryId");
    reveal_strlit("extensionBuildChannels");
    reveal_strlit("extensionIds");
    reveal_strlit("installId");
    reveal_strlit("nativeHostNames");
    reveal_strlit("nativeHostProtocolVersion");
    reveal_strlit("nativeHostVersion");
    reveal_strlit("paths");
    reveal_strlit("proxyHost");
    reveal_strlit("proxyPort");
    reveal_strlit("updatedAt");
    assert("schemaVersion"@.len() == 13);
    assert("appServerProtocolVersion"@.len() == 24);
    assert("appVersion"@.len() == 10);
    assert("channel"@.len() == 7);
    assert("cliVersion"@.len() == 10);
    assert("appVersion"@[0] != "cliVersion"@[0]);
    assert("entryId"@.len() == 7);
    assert("channel"@[0] != "entryId"@[0]);
    assert("extensionBuildChannels"@.len() == 22);
    assert("extensionIds"@.len() == 12);
    assert("installId"@.len() == 9);
    assert("nativeHostNames"@.len() == 15);
    assert("nativeHostProtocolVersion"@.len() == 25);
    assert("nativeHostVersion"@.len() == 17);
    assert("paths"@.len() == 5);
    assert("proxyHost"@.len() == 9);
    assert("installId"@[0] != "proxyHost"@[0]);
    assert("proxyPort"@.len() == 9);
    assert("installId"@[0] != "proxyPort"@[0]);
    assert("proxyHost"@[5] != "proxyPort"@[5]);
    assert("updatedAt"@.len() == 9);
    assert("installId"@[0] != "updatedAt"@[0]);
    assert("proxyHost"@[0] != "updatedAt"@[0]);
    assert("proxyPort"@[0] != "updatedAt"@[0]);
    let m = map![
        "schemaVersion"@ => JsonView::Number(
            JsonNumber::PosInt(e.schema_version as u64),
        ),
        "appServerProtocolVersion"@ => JsonView::Number(
            JsonNumber::PosInt(e.app_server_protocol_version as u64),
        ),
        "appVersion"@ => JsonView::Text(e.app_version),
        "channel"@ => JsonView::Text(e.channel),
        "cliVersion"@ => JsonView::Text(e.cli_version),
        "entryId"@ => JsonView::Text(e.entry_id),
        "extensionBuildChannels"@ => JsonView::Array(extension_build_channels),
        "extensionIds"@ => JsonView::Array(extension_ids),
        "installId"@ => JsonView::Text(e.install_id),
        "nativeHostNames"@ => JsonView::Array(native_host_names),
        "nativeHostProtocolVersion"@ => JsonView::Number(
            JsonNumber::PosInt(e.native_host_protocol_version as u64),
        ),
        "nativeHostVersion"@ => JsonView::Text(e.native_host_version),
        "paths"@ => paths,
        "proxyHost"@ => JsonView::Text(e.proxy_host),
        "proxyPort"@ => JsonView::Number(
            JsonNumber::PosInt(e.proxy_port as u64),
        ),
        "updatedAt"@ => JsonView::Text(e.updated_at),
    ];
    assert(extension_build_channels =~= e.extension_build_channels.map_values(
        |t: Seq<char>| JsonView::Text(t),
    ));
    assert(extension_ids =~= e.extension_ids.map_values(|t: Seq<char>| JsonView::Text(t)));
    assert(native_host_names =~= e.native_host_names.map_values(|t: Seq<char>| JsonView::Text(t)));
    an_entry_is_read_by_name(m, e);
}

/// Reading a demand undoes writing it down by name.
pub proof fn reading_undoes_writing_a_demand(c: ConstraintsView)
    requires
        0 <= c.required_app_server_protocol_version <= u32::MAX,
        0 <= c.required_native_host_protocol_version <= u32::MAX,
    ensures
        constraints_of(
            JsonView::Object(
                map![
                    "extensionBuildChannel"@ => JsonView::Text(c.extension_build_channel),
                    "extensionId"@ => JsonView::Text(c.extension_id),
                    "extensionVersion"@ => JsonView::Text(c.extension_version),
                    "nativeHostName"@ => JsonView::Text(c.native_host_name),
                    "requiredAppServerProtocolVersion"@ => JsonView::Number(
                        JsonNumber::PosInt(c.required_app_server_protocol_version as u64),
                    ),
                    "requiredNativeHostProtocolVersion"@ => JsonView::Number(
                        JsonNumber::PosInt(c.required_native_host_protocol_version as u64),
                    ),
                ],
            ),
        ) == Some(c),
{
    reveal_strlit("extensionBuildChannel");
    reveal_strlit("extensionId");
    reveal_strlit("extensionVersion");
    reveal_strlit("nativeHostName");
    reveal_strlit("requiredAppServerProtocolVersion");
    reveal_strlit("requiredNativeHostProtocolVersion");
    assert("extensionBuildChannel"@.len() == 21);
    assert("extensionId"@.len() == 11);
    assert("extensionVersion"@.len() == 16);
    assert("nativeHostName"@.len() == 14);
    assert("requiredAppServerProtocolVersion"@.len() == 32);
    assert("requiredNativeHostProtocolVersion"@.len() == 33);
    let m = map![
        "extensionBuildChannel"@ => JsonView::Text(c.extension_build_channel),
        "extensionId"@ => JsonView::Text(c.extension_id),
        "extensionVersion"@ => JsonView::Text(c.extension_version),
        "nativeHostName"@ => JsonView::Text(c.native_host_name),
        "requiredAppServerProtocolVersion"@ => JsonView::Number(
            JsonNumber::PosInt(c.required_app_server_protocol_version as u64),
        ),
        "requiredNativeHostProtocolVersion"@ => JsonView::Number(
            JsonNumber::PosInt(c.required_native_host_protocol_version as u64),
        ),
    ];
    a_demand_is_read_by_name(m, c);
}

/// Nothing but an object or an array is read as a record.
pub proof fn other_values_are_no_records(j: JsonView)
    requires
        !(j is Object),
        !(j is Array),
    ensures
        paths_of(j) is None,
        entry_of(j) is None,
        constraints_of(j) is None,
{
}

/// An entry meets a demand where the manifest says so: its schema is the second,
/// its protocols are those that the demand asks for, and the lists of channels,
/// extensions and hosts that it serves hold what the demand names.
pub proof fn an_entry_matches_what_is_demanded(
    m: Map<Seq<char>, JsonView>,
    e: EntryView,
    q: Map<Seq<char>, JsonView>,
    c: ConstraintsView,
)
    requires
        entry_of(JsonView::Object(m)) == Some(e),
        constraints_of(JsonView::Object(q)) == Some(c),
        !(m["schemaVersion"@] matches JsonView::Number(JsonNumber::NegInt(_))),
        !(m["appServerProtocolVersion"@] matches JsonView::Number(JsonNumber::NegInt(_))),
        !(m["nativeHostProtocolVersion"@] matches JsonView::Number(JsonNumber::NegInt(_))),
        !(q["requiredAppServerProtocolVersion"@] matches JsonView::Number(JsonNumber::NegInt(_))),
        !(q["requiredNativeHostProtocolVersion"@] matches JsonView::Number(JsonNumber::NegInt(_))),
    ensures
        entry_matches(e, c) <==> {
            &&& m["schemaVersion"@] == JsonView::Number(JsonNumber::PosInt(2))
            &&& m["appServerProtocolVersion"@] == q["requiredAppServerProtocolVersion"@]
            &&& m["nativeHostProtocolVersion"@] == q["requiredNativeHostProtocolVersion"@]
            &&& m["extensionBuildChannels"@]->Array_0.contains(q["extensionBuildChannel"@])
            &&& m["extensionIds"@]->Array_0.contains(q["extensionId"@])
            &&& m["nativeHostNames"@]->Array_0.contains(q["nativeHostName"@])
        },
{
    an_entry_is_read_by_name(m, e);
    a_demand_is_read_by_name(q, c);
    lemma_listed(e.extension_build_channels, c.extension_build_channel);
    lemma_listed(e.extension_ids, c.extension_id);
    lemma_listed(e.native_host_names, c.native_host_name);
}

/// A text is in a list where its JSON is in the list's.
proof fn lemma_listed(texts: Seq<Seq<char>>, text: Seq<char>)
    ensures
        texts.contains(text) <==> texts.map_values(|t: Seq<char>| JsonView::Text(t)).contains(
            JsonView::Text(text),
        ),
{
    let made = texts.map_values(|t: Seq<char>| JsonView::Text(t));
    if texts.contains(text) {
        let i = choose|i: int| 0 <= i < texts.len() && texts[i] == text;
        assert(made[i] == JsonView::Text(text));
    }
    if made.contains(JsonView::Text(text)) {
        let i = choose|i: int| 0 <= i < made.len() && made[i] == JsonView::Text(text);
        assert(texts[i] == text);
    }
}

/// Whether an object has a text under a name.
pub open spec fn has_text(m: Map<Seq<char>, JsonView>, name: Seq<char>) -> bool {
    m.contains_key(name) && m[name] is Text
}

/// The paths that are decoded are those that were written: under the name of
/// each field stands what the field holds. Nothing is decoded where a path is
/// missing or no text.
pub proof fn decoded_paths_are_those_written(
    j: Json,
    m: Map<Seq<char>, JsonView>,
    r: Option<RuntimePaths>,
)
    requires
        call_ensures(decode_paths, (&j,), r),
        j@ == JsonView::Object(m),
    ensures
        r matches Some(paths) ==> {
            &&& match paths.browser_client_path {
                Some(text) => m["browserClientPath"@] == JsonView::Text(text@),
                None => !m.contains_key("browserClientPath"@) || m["browserClientPath"@] is Null,
            }
            &&& m["codexCliPath"@] == JsonView::Text(paths.codex_cli_path@)
            &&& m["codexHome"@] == JsonView::Text(paths.codex_home@)
            &&& m["extensionHostPath"@] == JsonView::Text(paths.extension_host_path@)
            &&& m["nodePath"@] == JsonView::Text(paths.node_path@)
            &&& m.contains_key("nodeModuleDirs"@) ==> (m["nodeModuleDirs"@] matches JsonView::Array(
                items,
            ) && items.len() == paths.node_module_dirs@.len() && forall|i: int|
                0 <= i < items.len() ==> #[trigger] items[i] == JsonView::Text(
                    paths.node_module_dirs@[i]@,
                ))
            &&& !m.contains_key("nodeModuleDirs"@) ==> paths.node_module_dirs@.len() == 0
            &&& match paths.node_repl_path {
                Some(text) => m["nodeReplPath"@] == JsonView::Text(text@),
                None => !m.contains_key("nodeReplPath"@) || m["nodeReplPath"@] is Null,
            }
            &&& m["resourcesPath"@] == JsonView::Text(paths.resources_path@)
        },
        r is None ==> !has_text(m, "codexCliPath"@) || !has_text(m, "codexHome"@) || !has_text(
            m,
            "extensionHostPath"@,
        ) || !has_text(m, "nodePath"@) || !has_text(m, "resourcesPath"@) || m.contains_key(
            "nodeModuleDirs"@,
        ) || m.contains_key("browserClientPath"@) || m.contains_key("nodeReplPath"@),
{
    match r {
        Some(paths) => {
            paths_are_read_by_name(m, paths@);
            if m.contains_key("nodeModuleDirs"@) {
                let items = m["nodeModuleDirs"@]->Array_0;
                lemma_texts_in(items, texts_view(paths.node_module_dirs@));
                assert forall|i: int| 0 <= i < items.len() implies #[trigger] items[i]
                    == JsonView::Text(paths.node_module_dirs@[i]@) by {
                    assert(texts_view(paths.node_module_dirs@)[i] == paths.node_module_dirs@[i]@);
                }
            } else {
                assert(texts_view(paths.node_module_dirs@).len() == paths.node_module_dirs@.len());
            }
        },
        None => {
            if has_text(m, "codexCliPath"@) && has_text(m, "codexHome"@) && has_text(
                m,
                "extensionHostPath"@,
            ) && has_text(m, "nodePath"@) && has_text(m, "resourcesPath"@) && !m.contains_key(
                "nodeModuleDirs"@,
            ) && !m.contains_key("browserClientPath"@) && !m.contains_key("nodeReplPath"@) {
                let p = PathsView {
                    browser_client_path: None,
                    codex_cli_path: m["codexCliPath"@]->Text_0,
                    codex_home: m["codexHome"@]->Text_0,
                    extension_host_path: m["extensionHostPath"@]->Text_0,
                    node_path: m["nodePath"@]->Text_0,
                    node_module_dirs: Seq::empty(),
                    node_repl_path: None,
                    resources_path: m["resourcesPath"@]->Text_0,
                };
                paths_are_read_by_name(m, p);
            }
        },
    }
}

/// The entry that is decoded is the one that was written: under the name of
/// each field stands what the field holds.
pub proof fn a_decoded_entry_is_the_one_written(
    j: Json,
    m: Map<Seq<char>, JsonView>,
    q: Map<Seq<char>, JsonView>,
    r: Option<RuntimeEntry>,
)
    requires
        call_ensures(decode_entry, (&j,), r),
        j@ == JsonView::Object(m),
        m["paths"@] == JsonView::Object(q),
    ensures
        r matches Some(entry) ==> {
            &&& is_number(m["schemaVersion"@], entry.schema_version as int)
            &&& is_number(m["appServerProtocolVersion"@], entry.app_server_protocol_version as int)
            &&& m["appVersion"@] == JsonView::Text(entry.app_version@)
            &&& m["channel"@] == JsonView::Text(entry.channel@)
            &&& m["cliVersion"@] == JsonView::Text(entry.cli_version@)
            &&& m["entryId"@] == JsonView::Text(entry.entry_id@)
            &&& m["extensionBuildChannels"@] matches JsonView::Array(items) && items.len()
                == entry.extension_build_channels@.len() && forall|i: int|
                0 <= i < items.len() ==> #[trigger] items[i] == JsonView::Text(
                    entry.extension_build_channels@[i]@,
                )
            &&& m["extensionIds"@] matches JsonView::Array(items) && items.len()
                == entry.extension_ids@.len() && forall|i: int|
                0 <= i < items.len() ==> #[trigger] items[i] == JsonView::Text(
                    entry.extension_ids@[i]@,
                )
            &&& m["installId"@] == JsonView::Text(entry.install_id@)
            &&& m["nativeHostNames"@] matches JsonView::Array(items) && items.len()
                == entry.native_host_names@.len() && forall|i: int|
                0 <= i < items.len() ==> #[trigger] items[i] == JsonView::Text(
                    entry.native_host_names@[i]@,
                )
            &&& is_number(
                m["nativeHostProtocolVersion"@],
                entry.native_host_protocol_version as int,
            )
            &&& m["nativeHostVersion"@] == JsonView::Text(entry.native_host_version@)
            &&& m["proxyHost"@] == JsonView::Text(entry.proxy_host@)
            &&& is_number(m["proxyPort"@], entry.proxy_port as int)
            &&& m["updatedAt"@] == JsonView::Text(entry.updated_at@)
            &&& q["codexCliPath"@] == JsonView::Text(entry.paths.codex_cli_path@)
            &&& q["codexHome"@] == JsonView::Text(entry.paths.codex_home@)
            &&& q["extensionHostPath"@] == JsonView::Text(entry.paths.extension_host_path@)
            &&& q["nodePath"@] == JsonView::Text(entry.paths.node_path@)
            &&& q["resourcesPath"@] == JsonView::Text(entry.paths.resources_path@)
        },
{
    if let Some(entry) = r {
        an_entry_is_read_by_name(m, entry@);
        paths_are_read_by_name(q, entry.paths@);
        lemma_list_field(m["extensionBuildChannels"@]->Array_0, entry.extension_build_channels@);
        lemma_list_field(m["extensionIds"@]->Array_0, entry.extension_ids@);
        lemma_list_field(m["nativeHostNames"@]->Array_0, entry.native_host_names@);
    }
}

/// An array made of the views of texts holds them, item by item.
proof fn lemma_list_field(items: Seq<JsonView>, texts: Seq<String>)
    requires
        items == texts_view(texts).map_values(|t: Seq<char>| JsonView::Text(t)),
    ensures
        items.len() == texts.len(),
        forall|i: int| 0 <= i < items.len() ==> #[trigger] items[i] == JsonView::Text(texts[i]@),
{
    assert forall|i: int| 0 <= i < items.len() implies #[trigger] items[i] == JsonView::Text(
        texts[i]@,
    ) by {
        assert(texts_view(texts)[i] == texts[i]@);
    }
}

/// The demand that is parsed is the one that was written: under the name of
/// each field stands what the field holds. One that cannot be parsed is a
/// misuse.
pub proof fn a_parsed_demand_is_the_one_written(
    j: Json,
    m: Map<Seq<char>, JsonView>,
    r: RuntimeResult<RuntimeConstraints>,
)
    requires
        call_ensures(parse_constraints, (&j,), r),
        j@ == JsonView::Object(m),
    ensures
        r matches Ok(demand) ==> {
            &&& m["extensionBuildChannel"@] == JsonView::Text(demand.extension_build_channel@)
            &&& m["extensionId"@] == JsonView::Text(demand.extension_id@)
            &&& m["extensionVersion"@] == JsonView::Text(demand.extension_version@)
            &&& m["nativeHostName"@] == JsonView::Text(demand.native_host_name@)
            &&& is_number(
                m["requiredAppServerProtocolVersion"@],
                demand.required_app_server_protocol_version as int,
            )
            &&& is_number(
                m["requiredNativeHostProtocolVersion"@],
                demand.required_native_host_protocol_version as int,
            )
        },
        r matches Err(error) ==> error@ == (ErrorView {
            code: -32602,
            message: "Invalid Codex runtime constraints"@,
            kind: None,
        }),
        (forall|name: Seq<char>| #[trigger] is_demand_name(name) ==> m.contains_key(name))
            && m["extensionBuildChannel"@] is Text && m["extensionId"@] is Text
            && m["extensionVersion"@] is Text && m["nativeHostName"@] is Text && (
        m["requiredAppServerProtocolVersion"@] matches JsonView::Number(JsonNumber::PosInt(n)) && n
            <= u32::MAX) && (m["requiredNativeHostProtocolVersion"@] matches JsonView::Number(
            JsonNumber::PosInt(n),
        ) && n <= u32::MAX) ==> r is Ok,
{
    match r {
        Ok(demand) => {
            a_demand_is_read_by_name(m, demand@);
        },
        Err(_) => {
            if (forall|name: Seq<char>| #[trigger] is_demand_name(name) ==> m.contains_key(name))
                && m["requiredAppServerProtocolVersion"@] is Number
                && m["requiredNativeHostProtocolVersion"@] is Number {
                assert(is_demand_name("extensionBuildChannel"@));
                assert(is_demand_name("extensionId"@));
                assert(is_demand_name("extensionVersion"@));
                assert(is_demand_name("nativeHostName"@));
                assert(is_demand_name("requiredAppServerProtocolVersion"@));
                assert(is_demand_name("requiredNativeHostProtocolVersion"@));
                if let JsonView::Number(JsonNumber::PosInt(app_server)) =
                    m["requiredAppServerProtocolVersion"@] {
                    if let JsonView::Number(JsonNumber::PosInt(native_host)) =
                        m["requiredNativeHostProtocolVersion"@] {
                        let c = ConstraintsView {
                            extension_build_channel: m["extensionBuildChannel"@]->Text_0,
                            extension_id: m["extensionId"@]->Text_0,
                            extension_version: m["extensionVersion"@]->Text_0,
                            native_host_name: m["nativeHostName"@]->Text_0,
                            required_app_server_protocol_version: app_server as int,
                            required_native_host_protocol_version: native_host as int,
                        };
                        a_demand_is_read_by_name(m, c);
                    }
                }
            }
        },
    }
}

/// Whether a name is that of a part of a demand.
pub open spec fn is_demand_name(name: Seq<char>) -> bool {
    name == "extensionBuildChannel"@ || name == "extensionId"@ || name == "extensionVersion"@
        || name == "nativeHostName"@ || name == "requiredAppServerProtocolVersion"@ || name
        == "requiredNativeHostProtocolVersion"@
}

/// An entry meets a demand where it is of the second version, speaks both of
/// the protocols that are asked for, and lists the channel, the extension and
/// the host that ask.
pub proof fn an_entry_meets_a_demand(entry: RuntimeEntry, demand: RuntimeConstraints, r: bool)
    requires
        call_ensures(RuntimeEntry::matches, (&entry, &demand), r),
    ensures
        r <==> {
            &&& entry.schema_version == 2
            &&& entry.app_server_protocol_version == demand.required_app_server_protocol_version
            &&& entry.native_host_protocol_version == demand.required_native_host_protocol_version
            &&& exists|i: int|
                0 <= i < entry.extension_build_channels@.len()
                    && (#[trigger] entry.extension_build_channels@[i])@
                    == demand.extension_build_channel@
            &&& exists|i: int|
                0 <= i < entry.extension_ids@.len() && (#[trigger] entry.extension_ids@[i])@
                    == demand.extension_id@
            &&& exists|i: int|
                0 <= i < entry.native_host_names@.len() && (#[trigger] entry.native_host_names@[i])@
                    == demand.native_host_name@
        },
{
    lemma_among(entry.extension_build_channels@, demand.extension_build_channel@);
    lemma_among(entry.extension_ids@, demand.extension_id@);
    lemma_among(entry.native_host_names@, demand.native_host_name@);
}

/// Texts contain a text where one of them is it.
proof fn lemma_among(texts: Seq<String>, text: Seq<char>)
    ensures
        texts_view(texts).contains(text) <==> exists|i: int|
            0 <= i < texts.len() && (#[trigger] texts[i])@ == text,
{
    let views = texts_view(texts);
    if views.contains(text) {
        let i = choose|i: int| 0 <= i < views.len() && views[i] == text;
        assert(texts[i]@ == text);
    }
    if exists|i: int| 0 <= i < texts.len() && (#[trigger] texts[i])@ == text {
        let i = choose|i: int| 0 <= i < texts.len() && (#[trigger] texts[i])@ == text;
        assert(views[i] == text);
    }
}

} // verus!
