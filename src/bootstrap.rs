//! The load sequence of a worker: which modules are loaded, evaluated and
//! drained, in which order, decided before the engine is touched.
use crate::error::{Error, ErrorView};
use crate::location::{join_url, parse_url, path_of_url, joined_url, parsed_url, url_path};
use crate::module::{JsModuleType, ModuleInitializer};
use vstd::prelude::*;

verus! {

/// Specifier of the shim that installs a `require` function in the global scope.
pub const REQUIRE_SHIM_SPECIFIER: &'static str = "ext:__requireLoader____";

/// Specifier of the shim that re-exports a legacy module as a default export.
pub const EXPORTER_SHIM_SPECIFIER: &'static str = "ext:__cjsMainModuleExporter____";

/// Source text of the `require` shim before the main location.
pub const REQUIRE_SHIM_HEAD: &'static str = "import { createRequire as __internalCreateRequire____ } from \"node:module\";\nglobalThis.require = __internalCreateRequire____(\"";

/// Source text of the `require` shim after the main location.
pub const REQUIRE_SHIM_TAIL: &'static str = "\");";

/// Source text of the exporter shim before the main path.
pub const EXPORTER_SHIM_HEAD: &'static str = "const __moduleExports____ = require(\"";

/// Source text of the exporter shim after the main path.
pub const EXPORTER_SHIM_TAIL: &'static str = "\"); export default __moduleExports____;";

/// The package root used when none is given, relative to the main module's location.
pub const DEFAULT_PACKAGE_DIR: &'static str = "packages/";

/// Options for creating a worker.
#[derive(Debug, Clone)]
pub struct JsWorkerInitOptions {
    pub main_module_initializer: ModuleInitializer,
    /// Location of the package root; when absent, `packages/` beside the main module.
    pub node_modules_url: Option<String>,
    /// Auxiliary modules, as (logical name, location), loaded in this order.
    pub side_modules: Vec<(String, String)>,
}

/// One step of the load sequence, carried out by the engine's owner.
#[derive(Debug, Clone, PartialEq, Eq)]
pub enum BootStep {
    /// Load a side module from source text under a specifier.
    LoadSideModuleFromCode { specifier: String, code: String },
    /// Load an auxiliary module, kept under its logical name.
    LoadSideModule { name: String, url: String },
    /// Load the main module from its location.
    PreloadMainModule { url: String },
    /// Evaluate the module loaded by the latest load step.
    EvaluateLastLoaded,
    /// Drain the event loop to quiescence.
    RunEventLoop,
}

/// The mathematical form of a [`BootStep`].
pub enum StepView {
    FromCode(Seq<char>, Seq<char>),
    Side(Seq<char>, Seq<char>),
    PreloadMain(Seq<char>),
    Evaluate,
    Drain,
}

impl View for BootStep {
    type V = StepView;

    open spec fn view(&self) -> StepView {
        match self {
            BootStep::LoadSideModuleFromCode { specifier, code } => StepView::FromCode(
                specifier@,
                code@,
            ),
            BootStep::LoadSideModule { name, url } => StepView::Side(name@, url@),
            BootStep::PreloadMainModule { url } => StepView::PreloadMain(url@),
            BootStep::EvaluateLastLoaded => StepView::Evaluate,
            BootStep::RunEventLoop => StepView::Drain,
        }
    }
}

/// The outcome of planning: the effective package root and the steps in order.
/// The module loaded by the last load step is the main module.
#[derive(Debug, Clone)]
pub struct BootPlan {
    pub package_root: String,
    pub steps: Vec<BootStep>,
}

pub open spec fn steps_view(steps: Seq<BootStep>) -> Seq<StepView> {
    steps.map_values(|s: BootStep| s@)
}

pub open spec fn side_view(side: Seq<(String, String)>) -> Seq<(Seq<char>, Seq<char>)> {
    side.map_values(|p: (String, String)| (p.0@, p.1@))
}

/// Source of the shim that binds `require` for modules under the main module's location.
pub open spec fn require_shim(main_url: Seq<char>) -> Seq<char> {
    REQUIRE_SHIM_HEAD@ + main_url + REQUIRE_SHIM_TAIL@
}

/// Source of the shim that loads the legacy main module and exports it as `default`.
pub open spec fn exporter_shim(main_path: Seq<char>) -> Seq<char> {
    EXPORTER_SHIM_HEAD@ + main_path + EXPORTER_SHIM_TAIL@
}

/// A load, then its evaluation, then a drain of the event loop.
pub open spec fn load_steps(load: StepView) -> Seq<StepView> {
    seq![load, StepView::Evaluate, StepView::Drain]
}

/// The steps that load the auxiliary modules, one after the other.
pub open spec fn side_steps(side: Seq<(Seq<char>, Seq<char>)>) -> Seq<StepView>
    decreases side.len(),
{
    if side.len() == 0 {
        seq![]
    } else {
        side_steps(side.drop_last()) + load_steps(
            StepView::Side(side.last().0, parsed_url(side.last().1)->Some_0),
        )
    }
}

/// Entry `i` reuses a logical name of an earlier entry.
pub open spec fn name_repeats(side: Seq<(Seq<char>, Seq<char>)>, i: int) -> bool {
    exists|j: int| 0 <= j < i && #[trigger] side[j].0 == side[i].0
}

/// Entry `i` cannot be loaded: a repeated name or a location that does not parse.
pub open spec fn entry_fails(side: Seq<(Seq<char>, Seq<char>)>, i: int) -> bool {
    name_repeats(side, i) || parsed_url(side[i].1) is None
}

/// The failure of entry `i`: a repeated name is reported before its location.
pub open spec fn entry_error(side: Seq<(Seq<char>, Seq<char>)>, i: int) -> ErrorView {
    if name_repeats(side, i) {
        ErrorView::DuplicateSideModule(side[i].0)
    } else {
        ErrorView::ParseLocation(side[i].1)
    }
}

/// The failure of the first failing entry among the first `n`, if any.
pub open spec fn side_failure(side: Seq<(Seq<char>, Seq<char>)>, n: int) -> Option<ErrorView>
    decreases n,
{
    if n <= 0 {
        None
    } else {
        match side_failure(side, n - 1) {
            Some(e) => Some(e),
            None => if entry_fails(side, n - 1) {
                Some(entry_error(side, n - 1))
            } else {
                None
            },
        }
    }
}

/// The effective package root for a normalized main location.
pub open spec fn package_root_of(main_url: Seq<char>, given: Option<Seq<char>>) -> Option<
    Seq<char>,
> {
    match given {
        Some(g) => parsed_url(g),
        None => joined_url(main_url, DEFAULT_PACKAGE_DIR@),
    }
}

/// The whole outcome of planning, over plain values.
pub open spec fn plan_outcome(
    mod_type: JsModuleType,
    main: Seq<char>,
    root: Option<Seq<char>>,
    side: Seq<(Seq<char>, Seq<char>)>,
) -> Result<(Seq<char>, Seq<StepView>), ErrorView> {
    match parsed_url(main) {
        None => Err(ErrorView::ParseLocation(main)),
        Some(m) => match package_root_of(m, root) {
            None => Err(
                ErrorView::ParseLocation(
                    match root {
                        Some(g) => g,
                        None => main,
                    },
                ),
            ),
            Some(pr) => match side_failure(side, side.len() as int) {
                Some(e) => Err(e),
                None => match mod_type {
                    JsModuleType::Esm => Ok(
                        (pr, side_steps(side) + load_steps(StepView::PreloadMain(m))),
                    ),
                    JsModuleType::Cjs => match url_path(m) {
                        None => Err(ErrorView::ParseLocation(main)),
                        Some(p) => Ok(
                            (
                                pr,
                                load_steps(
                                    StepView::FromCode(REQUIRE_SHIM_SPECIFIER@, require_shim(m)),
                                ) + side_steps(side) + load_steps(
                                    StepView::FromCode(EXPORTER_SHIM_SPECIFIER@, exporter_shim(p)),
                                ),
                            ),
                        ),
                    },
                },
            },
        },
    }
}

pub open spec fn plan_view(r: Result<BootPlan, Error>) -> Result<
    (Seq<char>, Seq<StepView>),
    ErrorView,
> {
    match r {
        Ok(p) => Ok((p.package_root@, steps_view(p.steps@))),
        Err(e) => Err(e@),
    }
}

impl JsWorkerInitOptions {
    pub open spec fn root_view(&self) -> Option<Seq<char>> {
        match self.node_modules_url {
            Some(s) => Some(s@),
            None => None,
        }
    }
}

fn push_load(steps: &mut Vec<BootStep>, load: BootStep)
    ensures
        steps_view(final(steps)@) == steps_view(old(steps)@) + load_steps(load@),
{
    let ghost before = steps@;
    steps.push(load);
    steps.push(BootStep::EvaluateLastLoaded);
    steps.push(BootStep::RunEventLoop);
    assert(steps_view(steps@) =~= steps_view(before) + load_steps(load@));
}

/// The source of the `require` shim for a main location.
pub fn require_shim_code(main_url: &str) -> (r: String)
    ensures
        r@ == require_shim(main_url@),
{
    let mut code = String::from_str(REQUIRE_SHIM_HEAD);
    code.append(main_url);
    code.append(REQUIRE_SHIM_TAIL);
    code
}

/// The source of the shim that re-exports a legacy main module as `default`.
pub fn exporter_shim_code(main_path: &str) -> (r: String)
    ensures
        r@ == exporter_shim(main_path@),
{
    let mut code = String::from_str(EXPORTER_SHIM_HEAD);
    code.append(main_path);
    code.append(EXPORTER_SHIM_TAIL);
    code
}

/// The package root to use: the given one, else `packages/` beside the main module.
pub fn effective_package_root(main_url: &str, given: &Option<String>) -> (r: Option<String>)
    ensures
        r is Some <==> package_root_of(
            main_url@,
            match given {
                Some(g) => Some(g@),
                None => None,
            },
        ) is Some,
        r matches Some(p) ==> p@ == package_root_of(
            main_url@,
            match given {
                Some(g) => Some(g@),
                None => None,
            },
        )->Some_0,
{
    match given {
        Some(g) => parse_url(g.as_str()),
        None => join_url(main_url, DEFAULT_PACKAGE_DIR),
    }
}

/// Whether entry `i` reuses the logical name of an earlier entry.
fn name_used_before(side: &Vec<(String, String)>, i: usize) -> (r: bool)
    requires
        i < side.len(),
    ensures
        r == name_repeats(side_view(side@), i as int),
{
    let ghost sv = side_view(side@);
    let name = &side[i].0;
    assert(sv[i as int] == (side@[i as int].0@, side@[i as int].1@));
    let mut j: usize = 0;
    while j < i
        invariant
            0 <= j <= i < side.len(),
            sv == side_view(side@),
            name@ == sv[i as int].0,
            forall|k: int| 0 <= k < j ==> sv[k].0 != sv[i as int].0,
        decreases i - j,
    {
        assert(sv[j as int] == (side@[j as int].0@, side@[j as int].1@));
        if side[j].0 == *name {
            assert(sv[j as int].0 == sv[i as int].0);
            return true;
        }
        j = j + 1;
    }
    false
}

proof fn lemma_side_failure_step(side: Seq<(Seq<char>, Seq<char>)>, i: int)
    requires
        0 <= i,
    ensures
        side_failure(side, i + 1) == match side_failure(side, i) {
            Some(e) => Some(e),
            None => if entry_fails(side, i) {
                Some(entry_error(side, i))
            } else {
                None
            },
        },
{
}

/// Decides the load sequence of a worker, or the failure that stops it before
/// any engine work: a location that does not parse, or a repeated logical name.
pub fn bootstrap_plan(options: &JsWorkerInitOptions) -> (r: Result<BootPlan, Error>)
    ensures
        plan_view(r) == plan_outcome(
            options.main_module_initializer.mod_type,
            options.main_module_initializer.url@,
            options.root_view(),
            side_view(options.side_modules@),
        ),
{
    let main_text = &options.main_module_initializer.url;
    let main_url = match parse_url(main_text.as_str()) {
        Some(u) => u,
        None => {
            return Err(Error::FailedToParseFilePathToUrl(main_text.clone()));
        },
    };
    let package_root = match effective_package_root(main_url.as_str(), &options.node_modules_url) {
        Some(p) => p,
        None => {
            let failed = match &options.node_modules_url {
                Some(g) => g.clone(),
                None => main_text.clone(),
            };
            return Err(Error::FailedToParseFilePathToUrl(failed));
        },
    };
    let mut steps: Vec<BootStep> = Vec::new();
    let is_cjs = match options.main_module_initializer.mod_type {
        JsModuleType::Cjs => true,
        JsModuleType::Esm => false,
    };
    if is_cjs {
        let code = require_shim_code(main_url.as_str());
        push_load(
            &mut steps,
            BootStep::LoadSideModuleFromCode {
                specifier: String::from_str(REQUIRE_SHIM_SPECIFIER),
                code,
            },
        );
    }
    let ghost prefix = steps_view(steps@);
    let side = &options.side_modules;
    let ghost sv = side_view(side@);
    let mut i: usize = 0;
    while i < side.len()
        invariant
            0 <= i <= side.len(),
            sv == side_view(side@),
            side == &options.side_modules,
            main_text == &options.main_module_initializer.url,
            parsed_url(main_text@) == Some(main_url@),
            package_root_of(main_url@, options.root_view()) == Some(package_root@),
            side_failure(sv, i as int) is None,
            steps_view(steps@) == prefix + side_steps(sv.take(i as int)),
        decreases side.len() - i,
    {
        let name = &side[i].0;
        assert(sv[i as int] == (side@[i as int].0@, side@[i as int].1@));
        if name_used_before(side, i) {
            proof {
                lemma_side_failure_step(sv, i as int);
                lemma_side_failure_settled(sv, i as int + 1, sv.len() as int);
            }
            return Err(Error::DuplicateSideModule(name.clone()));
        }
        assert(!name_repeats(sv, i as int));
        let url = match parse_url(side[i].1.as_str()) {
            Some(u) => u,
            None => {
                proof {
                    lemma_side_failure_step(sv, i as int);
                    lemma_side_failure_settled(sv, i as int + 1, sv.len() as int);
                }
                return Err(Error::FailedToParseFilePathToUrl(side[i].1.clone()));
            },
        };
        push_load(&mut steps, BootStep::LoadSideModule { name: name.clone(), url });
        proof {
            lemma_side_failure_step(sv, i as int);
            assert(sv.take(i as int + 1).drop_last() =~= sv.take(i as int));
        }
        i = i + 1;
    }
    assert(sv.take(sv.len() as int) =~= sv);
    if is_cjs {
        let main_path = match path_of_url(main_url.as_str()) {
            Some(p) => p,
            None => {
                return Err(Error::FailedToParseFilePathToUrl(main_text.clone()));
            },
        };
        let code = exporter_shim_code(main_path.as_str());
        push_load(
            &mut steps,
            BootStep::LoadSideModuleFromCode {
                specifier: String::from_str(EXPORTER_SHIM_SPECIFIER),
                code,
            },
        );
    } else {
        push_load(&mut steps, BootStep::PreloadMainModule { url: main_url });
    }
    Ok(BootPlan { package_root, steps })
}

/// Once some entry among the first `i` fails, the first failure stays the same.
pub proof fn lemma_side_failure_settled(side: Seq<(Seq<char>, Seq<char>)>, i: int, n: int)
    requires
        0 <= i <= n,
        side_failure(side, i) is Some,
    ensures
        side_failure(side, n) == side_failure(side, i),
    decreases n - i,
{
    if i < n {
        lemma_side_failure_settled(side, i, n - 1);
    }
}

/// No failing entry among the first `n` means no recorded failure there.
proof fn lemma_no_side_failure(side: Seq<(Seq<char>, Seq<char>)>, n: int)
    requires
        0 <= n,
        forall|k: int| 0 <= k < n ==> !entry_fails(side, k),
    ensures
        side_failure(side, n) is None,
    decreases n,
{
    if n > 0 {
        lemma_no_side_failure(side, n - 1);
    }
}

/// Two auxiliary modules with one logical name make the whole bootstrap fail
/// before any step is planned, so neither entry is ever loaded. When every
/// location parses and no earlier entry fails, the failure names the repeated
/// logical name.
pub proof fn lemma_duplicate_side_module_refused(
    mod_type: JsModuleType,
    main: Seq<char>,
    root: Option<Seq<char>>,
    side: Seq<(Seq<char>, Seq<char>)>,
    i: int,
    j: int,
)
    requires
        0 <= i < j < side.len(),
        side[i].0 == side[j].0,
    ensures
        plan_outcome(mod_type, main, root, side) is Err,
        (parsed_url(main) matches Some(m) && package_root_of(m, root) is Some && forall|k: int|
            0 <= k < j ==> !entry_fails(side, k)) ==> plan_outcome(mod_type, main, root, side)
            == Err::<(Seq<char>, Seq<StepView>), ErrorView>(
            ErrorView::DuplicateSideModule(side[j].0),
        ),
{
    assert(name_repeats(side, j));
    if side_failure(side, j) is None {
        lemma_side_failure_step(side, j);
    }
    lemma_side_failure_settled(side, if side_failure(side, j) is Some { j } else { j + 1 }, side.len() as int);
    if forall|k: int| 0 <= k < j ==> !entry_fails(side, k) {
        lemma_no_side_failure(side, j);
        lemma_side_failure_step(side, j);
        lemma_side_failure_settled(side, j + 1, side.len() as int);
    }
}

} // verus!
