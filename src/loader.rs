use vstd::prelude::*;

verus! {

/// The kind of source file a module specifier points at, as the host's media
/// type detection reports it.
#[derive(Debug, Clone, Copy, PartialEq, Eq, Structural)]
pub enum MediaKind {
    JavaScript,
    Jsx,
    Mjs,
    Cjs,
    TypeScript,
    Mts,
    Cts,
    Dts,
    Dmts,
    Dcts,
    Tsx,
    Json,
    /// Anything else: style sheets, markup, binaries, unknown extensions.
    Other,
}

/// How the engine is to treat a loaded module.
#[derive(Debug, Clone, Copy, PartialEq, Eq, Structural)]
pub enum ModuleKind {
    JavaScript,
    Json,
}

/// How a module is loaded: the kind it is handed to the engine as, and
/// whether its source must be transpiled to JavaScript first.
#[derive(Debug, Clone, Copy, PartialEq, Eq, Structural)]
pub struct ModulePlan {
    pub module_type: ModuleKind,
    pub transpile: bool,
}

/// Loads modules from disk, transpiling TypeScript and JSX on the way.
#[derive(Debug, Clone, Copy)]
pub struct TsModuleLoader;

/// The plan for a module of kind `media`; `None` for kinds that cannot be
/// loaded.
pub open spec fn plan_of(media: MediaKind) -> Option<ModulePlan> {
    match media {
        MediaKind::Json => Some(ModulePlan { module_type: ModuleKind::Json, transpile: false }),
        MediaKind::JavaScript | MediaKind::Mjs | MediaKind::Cjs => Some(
            ModulePlan { module_type: ModuleKind::JavaScript, transpile: false },
        ),
        MediaKind::Other => None,
        _ => Some(ModulePlan { module_type: ModuleKind::JavaScript, transpile: true }),
    }
}

impl TsModuleLoader {
    /// How a module of kind `media` is loaded: JSON as JSON, plain JavaScript
    /// as it is, the TypeScript and JSX kinds as JavaScript after
    /// transpiling; any other kind is refused.
    pub fn plan(media: MediaKind) -> (r: Option<ModulePlan>)
        ensures
            r == plan_of(media),
    {
        match media {
            MediaKind::Json => Some(ModulePlan { module_type: ModuleKind::Json, transpile: false }),
            MediaKind::JavaScript | MediaKind::Mjs | MediaKind::Cjs => Some(
                ModulePlan { module_type: ModuleKind::JavaScript, transpile: false },
            ),
            MediaKind::TypeScript | MediaKind::Cts | MediaKind::Dcts | MediaKind::Dmts
            | MediaKind::Dts | MediaKind::Jsx | MediaKind::Mts | MediaKind::Tsx => Some(
                ModulePlan { module_type: ModuleKind::JavaScript, transpile: true },
            ),
            MediaKind::Other => None,
        }
    }
}

} // verus!
