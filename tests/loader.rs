use tauri_plugin_deno::{MediaKind, ModuleKind, ModulePlan, TsModuleLoader};

#[test]
fn json_loads_as_json() {
    assert_eq!(
        TsModuleLoader::plan(MediaKind::Json),
        Some(ModulePlan { module_type: ModuleKind::Json, transpile: false })
    );
}

#[test]
fn plain_javascript_is_not_transpiled() {
    for m in [MediaKind::JavaScript, MediaKind::Mjs, MediaKind::Cjs] {
        assert_eq!(
            TsModuleLoader::plan(m),
            Some(ModulePlan { module_type: ModuleKind::JavaScript, transpile: false })
        );
    }
}

#[test]
fn typescript_and_jsx_are_transpiled() {
    for m in [
        MediaKind::TypeScript,
        MediaKind::Mts,
        MediaKind::Cts,
        MediaKind::Dts,
        MediaKind::Dmts,
        MediaKind::Dcts,
        MediaKind::Tsx,
        MediaKind::Jsx,
    ] {
        assert_eq!(
            TsModuleLoader::plan(m),
            Some(ModulePlan { module_type: ModuleKind::JavaScript, transpile: true })
        );
    }
}

#[test]
fn other_media_is_refused() {
    assert_eq!(TsModuleLoader::plan(MediaKind::Other), None);
}
