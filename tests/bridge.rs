use js_worker::bootstrap::{
    bootstrap_plan, exporter_shim_code, require_shim_code, BootStep, JsWorkerInitOptions,
    EXPORTER_SHIM_SPECIFIER, REQUIRE_SHIM_SPECIFIER,
};
use js_worker::error::Error;
use js_worker::invoke::{catch_exception, finish_async_call, finish_call, PendingException, EXCEPTION_FALLBACK};
use js_worker::module::{reconcile_exports, ExportPath, JsModule, JsModuleType, ModuleInitializer};

fn strings(v: &[&str]) -> Vec<String> {
    v.iter().map(|s| s.to_string()).collect()
}

fn module(mod_type: JsModuleType, exports: &[&str]) -> JsModule {
    JsModule {
        id: 7,
        mod_type,
        exports: strings(exports),
        url: "file:///app/main.js".to_string(),
    }
}

fn options(mod_type: JsModuleType, url: &str, root: Option<&str>, side: &[(&str, &str)]) -> JsWorkerInitOptions {
    JsWorkerInitOptions {
        main_module_initializer: ModuleInitializer {
            mod_type,
            url: url.to_string(),
        },
        node_modules_url: root.map(|r| r.to_string()),
        side_modules: side.iter().map(|(n, u)| (n.to_string(), u.to_string())).collect(),
    }
}

#[test]
fn standard_catalog_keeps_reported_names() {
    let c = reconcile_exports(JsModuleType::Esm, Some(strings(&["f", "g"]))).unwrap();
    assert_eq!(c, strings(&["f", "g"]));
    assert!(!c.contains(&"default".to_string()));
}

#[test]
fn standard_catalog_without_names_is_empty() {
    let c = reconcile_exports(JsModuleType::Esm, None).unwrap();
    assert!(c.is_empty());
}

#[test]
fn legacy_catalog_leads_with_default() {
    let c = reconcile_exports(JsModuleType::Cjs, Some(strings(&["a", "b"]))).unwrap();
    assert_eq!(c, strings(&["default", "a", "b"]));
}

#[test]
fn legacy_catalog_needs_default_object() {
    assert_eq!(
        reconcile_exports(JsModuleType::Cjs, None),
        Err(Error::FailedToGetV8Value)
    );
}

#[test]
fn legacy_names_are_read_from_default_object() {
    let m = module(JsModuleType::Cjs, &["default", "a", "b"]);
    assert_eq!(m.resolve_export("a"), Ok(ExportPath::DefaultProperty("a".to_string())));
    assert_eq!(m.resolve_export("default"), Ok(ExportPath::Namespace("default".to_string())));
}

#[test]
fn standard_names_are_read_from_namespace() {
    let m = module(JsModuleType::Esm, &["f", "g"]);
    assert_eq!(m.resolve_export("g"), Ok(ExportPath::Namespace("g".to_string())));
    assert_eq!(m.resolve_export("default"), Err(Error::UndefinedExport));
}

#[test]
fn unknown_export_is_undefined() {
    let m = module(JsModuleType::Cjs, &["default", "a"]);
    assert_eq!(m.resolve_export("missing"), Err(Error::UndefinedExport));
    assert!(!m.export_exists("missing"));
    assert!(m.export_exists("a"));
    let empty = module(JsModuleType::Esm, &[]);
    assert!(!empty.export_exists(""));
}

#[test]
fn repeated_lookup_reaches_the_same_export() {
    let m = module(JsModuleType::Cjs, &["default", "inc"]);
    let first = m.resolve_export("inc");
    let second = m.resolve_export("inc");
    assert_eq!(first, second);
    assert_eq!(first, Ok(ExportPath::DefaultProperty("inc".to_string())));
}

#[test]
fn call_with_value_returns_it() {
    assert_eq!(finish_call(Some(6u32), None), Ok(6));
}

#[test]
fn thrown_call_is_a_sync_exception() {
    let pending = PendingException {
        stack: Some("Error: boom\n    at f".to_string()),
        display: Some("Error: boom".to_string()),
    };
    assert_eq!(
        finish_call::<u32>(None, Some(pending)),
        Err(Error::JsException("Error: boom\n    at f".to_string()))
    );
}

#[test]
fn exception_message_falls_back_in_order() {
    let display_only = PendingException {
        stack: None,
        display: Some("boom".to_string()),
    };
    assert_eq!(catch_exception(Some(display_only)), Error::JsException("boom".to_string()));
    let neither = PendingException {
        stack: None,
        display: None,
    };
    assert_eq!(
        catch_exception(Some(neither)),
        Error::JsException(EXCEPTION_FALLBACK.to_string())
    );
    assert_eq!(catch_exception(None), Error::UnexpectedState);
}

#[test]
fn settled_promise_gives_its_value() {
    assert_eq!(finish_async_call(Ok::<u32, String>(5)), Ok(5));
}

#[test]
fn rejected_promise_is_an_async_failure() {
    let r = finish_async_call::<u32>(Err("rejected".to_string()));
    assert_eq!(r, Err(Error::DenoError("rejected".to_string())));
    assert!(!matches!(r, Err(Error::JsException(_))));
}

#[test]
fn standard_plan_loads_main_directly() {
    let plan = bootstrap_plan(&options(JsModuleType::Esm, "file:///app/main.js", None, &[])).unwrap();
    assert_eq!(plan.package_root, "file:///app/packages/");
    assert_eq!(
        plan.steps,
        vec![
            BootStep::PreloadMainModule {
                url: "file:///app/main.js".to_string()
            },
            BootStep::EvaluateLastLoaded,
            BootStep::RunEventLoop,
        ]
    );
}

#[test]
fn legacy_plan_goes_through_shims() {
    let plan = bootstrap_plan(&options(
        JsModuleType::Cjs,
        "FILE:///app/lib/main.js",
        Some("file:///pkgs/"),
        &[("shared", "file:///app/shared.js")],
    ))
    .unwrap();
    assert_eq!(plan.package_root, "file:///pkgs/");
    assert_eq!(
        plan.steps,
        vec![
            BootStep::LoadSideModuleFromCode {
                specifier: REQUIRE_SHIM_SPECIFIER.to_string(),
                code: require_shim_code("file:///app/lib/main.js"),
            },
            BootStep::EvaluateLastLoaded,
            BootStep::RunEventLoop,
            BootStep::LoadSideModule {
                name: "shared".to_string(),
                url: "file:///app/shared.js".to_string(),
            },
            BootStep::EvaluateLastLoaded,
            BootStep::RunEventLoop,
            BootStep::LoadSideModuleFromCode {
                specifier: EXPORTER_SHIM_SPECIFIER.to_string(),
                code: exporter_shim_code("/app/lib/main.js"),
            },
            BootStep::EvaluateLastLoaded,
            BootStep::RunEventLoop,
        ]
    );
}

#[test]
fn shim_sources_embed_the_main_module() {
    assert_eq!(
        require_shim_code("file:///a/m.js"),
        "import { createRequire as __internalCreateRequire____ } from \"node:module\";\nglobalThis.require = __internalCreateRequire____(\"file:///a/m.js\");"
    );
    assert_eq!(
        exporter_shim_code("/a/m.js"),
        "const __moduleExports____ = require(\"/a/m.js\"); export default __moduleExports____;"
    );
}

#[test]
fn duplicate_side_module_fails_before_any_load() {
    let r = bootstrap_plan(&options(
        JsModuleType::Esm,
        "file:///app/main.js",
        None,
        &[("shared", "file:///app/a.js"), ("shared", "file:///app/b.js")],
    ));
    assert_eq!(r.unwrap_err(), Error::DuplicateSideModule("shared".to_string()));
}

#[test]
fn side_modules_load_in_given_order() {
    let plan = bootstrap_plan(&options(
        JsModuleType::Esm,
        "file:///app/main.js",
        None,
        &[("b", "file:///app/b.js"), ("a", "file:///app/a.js")],
    ))
    .unwrap();
    let names: Vec<String> = plan
        .steps
        .iter()
        .filter_map(|s| match s {
            BootStep::LoadSideModule { name, .. } => Some(name.clone()),
            _ => None,
        })
        .collect();
    assert_eq!(names, strings(&["b", "a"]));
    assert_eq!(plan.steps.len(), 9);
}

#[test]
fn relative_locations_are_refused() {
    assert_eq!(
        bootstrap_plan(&options(JsModuleType::Esm, "main.js", None, &[])).unwrap_err(),
        Error::FailedToParseFilePathToUrl("main.js".to_string())
    );
    assert_eq!(
        bootstrap_plan(&options(JsModuleType::Esm, "file:///app/main.js", Some("pkgs"), &[])).unwrap_err(),
        Error::FailedToParseFilePathToUrl("pkgs".to_string())
    );
    assert_eq!(
        bootstrap_plan(&options(
            JsModuleType::Cjs,
            "file:///app/main.js",
            None,
            &[("x", "not a url")]
        ))
        .unwrap_err(),
        Error::FailedToParseFilePathToUrl("not a url".to_string())
    );
}
