use crate::error::{Error, ErrorView};
use vstd::prelude::*;

verus! {

/// The format of a loaded module. It decides how exports are reconciled and invoked.
#[derive(Debug, Clone, Copy, PartialEq, Eq, Structural)]
pub enum JsModuleType {
    /// Legacy format: the whole export surface is one object behind `default`.
    Cjs,
    /// Standard format: each top-level binding is exported on its own.
    Esm,
}

} // verus!

verus! {

/// What is needed to load the main module: its format and its location text.
#[derive(Debug, Clone)]
pub struct ModuleInitializer {
    pub mod_type: JsModuleType,
    pub url: String,
}

} // verus!

verus! {

/// The name under which a legacy module's export object is reachable.
pub const DEFAULT_EXPORT: &'static str = "default";

pub open spec fn names_view(names: Seq<String>) -> Seq<Seq<char>> {
    names.map_values(|s: String| s@)
}

pub open spec fn opt_names_view(names: Option<Vec<String>>) -> Option<Seq<Seq<char>>> {
    match names {
        Some(v) => Some(names_view(v@)),
        None => None,
    }
}

/// The export catalog of a module, from the property names the engine reports:
/// of the namespace for the standard format, of the default object for the
/// legacy one. `None` means that no catalog can be built.
pub open spec fn catalog_of(mod_type: JsModuleType, names: Option<Seq<Seq<char>>>) -> Option<
    Seq<Seq<char>>,
> {
    match mod_type {
        JsModuleType::Esm => Some(
            match names {
                Some(n) => n,
                None => seq![],
            },
        ),
        JsModuleType::Cjs => match names {
            Some(n) => Some(seq![DEFAULT_EXPORT@] + n),
            None => None,
        },
    }
}

/// Builds the export catalog. For the standard format the reported names are
/// the catalog, and a failed enumeration gives an empty one. For the legacy
/// format the catalog is `default` followed by the default object's names, and
/// a failed enumeration is an error.
pub fn reconcile_exports(mod_type: JsModuleType, names: Option<Vec<String>>) -> (r: Result<
    Vec<String>,
    Error,
>)
    ensures
        catalog_of(mod_type, opt_names_view(names)) matches Some(c) ==> (r matches Ok(v)
            && names_view(v@) == c),
        catalog_of(mod_type, opt_names_view(names)) is None ==> r == Err::<Vec<String>, Error>(
            Error::FailedToGetV8Value,
        ),
{
    match mod_type {
        JsModuleType::Esm => match names {
            Some(n) => Ok(n),
            None => {
                let empty: Vec<String> = Vec::new();
                assert(names_view(empty@) =~= seq![]);
                Ok(empty)
            },
        },
        JsModuleType::Cjs => match names {
            Some(n) => {
                let mut all: Vec<String> = Vec::new();
                all.push(String::from_str(DEFAULT_EXPORT));
                let mut i: usize = 0;
                while i < n.len()
                    invariant
                        0 <= i <= n.len(),
                        names_view(all@) == seq![DEFAULT_EXPORT@] + names_view(n@).take(i as int),
                    decreases n.len() - i,
                {
                    let ghost before = all@;
                    all.push(n[i].clone());
                    assert(names_view(all@) =~= names_view(before).push(n@[i as int]@));
                    assert(names_view(n@).take(i as int + 1) =~= names_view(n@).take(i as int).push(
                        n@[i as int]@,
                    ));
                    i = i + 1;
                }
                assert(names_view(n@).take(n.len() as int) =~= names_view(n@));
                Ok(all)
            },
            None => Err(Error::FailedToGetV8Value),
        },
    }
}

/// Where the value of an export is read.
#[derive(Debug, Clone, PartialEq, Eq)]
pub enum ExportPath {
    /// A binding of the module namespace.
    Namespace(String),
    /// A property of the legacy module's default object.
    DefaultProperty(String),
}

/// The mathematical form of an [`ExportPath`]: whether the default object is read, and the key.
pub open spec fn export_path_view(p: ExportPath) -> (bool, Seq<char>) {
    match p {
        ExportPath::Namespace(k) => (false, k@),
        ExportPath::DefaultProperty(k) => (true, k@),
    }
}

/// Where a name of the catalog is read; `None` for a name outside the catalog.
pub open spec fn export_path_of(
    mod_type: JsModuleType,
    exports: Seq<Seq<char>>,
    name: Seq<char>,
) -> Option<(bool, Seq<char>)> {
    if !exports.contains(name) {
        None
    } else if mod_type == JsModuleType::Cjs && name != DEFAULT_EXPORT@ {
        Some((true, name))
    } else {
        Some((false, name))
    }
}

/// A loaded main module: engine id, format, catalog of exports, and location.
#[derive(Debug, Clone)]
pub struct JsModule {
    pub id: usize,
    pub mod_type: JsModuleType,
    pub exports: Vec<String>,
    pub url: String,
}

impl JsModule {
    pub open spec fn exports_view(&self) -> Seq<Seq<char>> {
        names_view(self.exports@)
    }

    /// Whether `key` is in the catalog computed at load time.
    pub fn export_exists(&self, key: &str) -> (r: bool)
        ensures
            r == self.exports_view().contains(key@),
    {
        let wanted = String::from_str(key);
        let mut i: usize = 0;
        while i < self.exports.len()
            invariant
                0 <= i <= self.exports.len(),
                wanted@ == key@,
                forall|k: int| 0 <= k < i ==> self.exports_view()[k] != key@,
            decreases self.exports.len() - i,
        {
            assert(self.exports_view()[i as int] == self.exports@[i as int]@);
            if self.exports[i] == wanted {
                assert(self.exports_view()[i as int] == key@);
                return true;
            }
            i = i + 1;
        }
        false
    }

    /// Resolves an export name against the catalog. For a legacy module every
    /// name but `default` is read from the default object.
    pub fn resolve_export(&self, name: &str) -> (r: Result<ExportPath, Error>)
        ensures
            export_path_of(self.mod_type, self.exports_view(), name@) matches Some(p) ==> (r matches Ok(
                q,
            ) && export_path_view(q) == p),
            export_path_of(self.mod_type, self.exports_view(), name@) is None ==> r
                == Err::<ExportPath, Error>(Error::UndefinedExport),
    {
        if !self.export_exists(name) {
            return Err(Error::UndefinedExport);
        }
        let key = String::from_str(name);
        let is_default = key == String::from_str(DEFAULT_EXPORT);
        match self.mod_type {
            JsModuleType::Cjs => if is_default {
                Ok(ExportPath::Namespace(key))
            } else {
                Ok(ExportPath::DefaultProperty(key))
            },
            JsModuleType::Esm => Ok(ExportPath::Namespace(key)),
        }
    }
}


/// The catalog of a standard-format module is the reported names, in their
/// order; no `default` entry is added.
pub proof fn lemma_standard_catalog_is_verbatim(names: Seq<Seq<char>>)
    ensures
        catalog_of(JsModuleType::Esm, Some(names)) == Some(names),
{
}

/// The catalog of a legacy module is `default` followed by the names of its
/// default object, and every such name other than `default` is read from the
/// default object under that same key.
pub proof fn lemma_legacy_catalog_reads_default_object(names: Seq<Seq<char>>, name: Seq<char>)
    requires
        names.contains(name),
        name != DEFAULT_EXPORT@,
    ensures
        catalog_of(JsModuleType::Cjs, Some(names)) == Some(seq![DEFAULT_EXPORT@] + names),
        export_path_of(JsModuleType::Cjs, seq![DEFAULT_EXPORT@] + names, name) == Some(
            (true, name),
        ),
{
    let c = seq![DEFAULT_EXPORT@] + names;
    let k = choose|k: int| 0 <= k < names.len() && names[k] == name;
    assert(c[k + 1] == name);
}

/// Resolving a name depends on the module's format and its load-time catalog
/// alone, so repeated lookups of one name in one module reach the same export.
pub proof fn lemma_export_lookup_is_stable(a: JsModule, b: JsModule, name: Seq<char>)
    requires
        a.mod_type == b.mod_type,
        a.exports_view() == b.exports_view(),
    ensures
        export_path_of(a.mod_type, a.exports_view(), name) == export_path_of(
            b.mod_type,
            b.exports_view(),
            name,
        ),
{
}

} // verus!
