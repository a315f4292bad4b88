use lint_harness::deps::{DepRecord, inject_dependencies};
use lint_harness::harness::{
    CompilerConfig, Harness, HarnessError, HookSlot, ModelCompiler, RunFate, RunOutcome,
    run_result, with_lints,
};
use lint_harness::hooks::{CombinedHook, LintHook, NamedLints};
use lint_harness::registry::LintRegistry;

fn names(list: &[&str]) -> Vec<String> {
    list.iter().map(|s| String::from(*s)).collect()
}

fn compiler_with(
    previous: Option<NamedLints>,
    config_requests: usize,
    fate: RunFate,
) -> ModelCompiler<NamedLints> {
    ModelCompiler {
        args: Vec::new(),
        previous_hook: previous,
        dep_record: DepRecord::new(),
        registry: LintRegistry::new(),
        config_requests,
        fate,
    }
}

#[test]
fn registry_registers_in_order() {
    let mut registry = LintRegistry::new();
    assert_eq!(registry.len(), 0);
    registry.register(String::from("first"));
    registry.register(String::from("second"));
    assert_eq!(registry.len(), 2);
    assert_eq!(registry.get(0).as_str(), "first");
    assert_eq!(registry.get(1).as_str(), "second");
    assert!(registry.contains_name(&String::from("first")));
    assert!(!registry.contains_name(&String::from("third")));
}

#[test]
fn dep_record_insert_is_idempotent() {
    let mut record = DepRecord::new();
    assert_eq!(record.len(), 0);
    assert!(record.insert(String::from("rules.toml")));
    assert!(!record.insert(String::from("rules.toml")));
    assert_eq!(record.len(), 1);
    assert!(record.contains(&String::from("rules.toml")));
    assert!(!record.contains(&String::from("other.toml")));
}

#[test]
fn empty_tracked_set_inserts_nothing() {
    let mut record = DepRecord::new();
    record.insert(String::from("seed.txt"));
    let insertions = inject_dependencies(&mut record, &Vec::new());
    assert_eq!(insertions, 0);
    assert_eq!(record.len(), 1);
}

#[test]
fn inject_tolerates_duplicates_and_existing_paths() {
    let mut record = DepRecord::new();
    record.insert(String::from("a.toml"));
    let tracked_files = names(&["a.toml", "b.toml", "b.toml"]);
    let insertions = inject_dependencies(&mut record, &tracked_files);
    assert_eq!(insertions, 1);
    assert_eq!(record.len(), 2);
    assert!(record.contains(&String::from("a.toml")));
    assert!(record.contains(&String::from("b.toml")));
}

#[test]
fn chained_hook_runs_previous_then_callback() {
    let previous = NamedLints { names: names(&["builtin-1"]) };
    let callback = NamedLints { names: names(&["custom-1"]) };
    let combined = CombinedHook::combine(Some(previous), callback);
    let mut registry = LintRegistry::new();
    combined.register(&mut registry);
    assert_eq!(registry.len(), 2);
    assert_eq!(registry.get(0).as_str(), "builtin-1");
    assert_eq!(registry.get(1).as_str(), "custom-1");
}

#[test]
fn unchained_hook_runs_callback_alone() {
    let callback = NamedLints { names: names(&["custom-1"]) };
    let combined = CombinedHook::<NamedLints, NamedLints>::combine(None, callback);
    let mut registry = LintRegistry::new();
    combined.register(&mut registry);
    assert_eq!(registry.len(), 1);
    assert_eq!(registry.get(0).as_str(), "custom-1");
}

#[test]
fn config_installs_the_callback_once() {
    let mut harness = Harness::new(
        names(&["watch.me"]),
        NamedLints { names: names(&["once"]) },
    );
    let mut config: CompilerConfig<NamedLints, NamedLints> = CompilerConfig {
        register_lints: HookSlot::Empty,
        extra_dependencies: Vec::new(),
    };
    harness.config(&mut config);
    harness.config(&mut config);
    assert_eq!(config.extra_dependencies, names(&["watch.me"]));
    let mut registry = LintRegistry::new();
    config.register_lints.run_registration(&mut registry);
    assert_eq!(registry.len(), 1);
    assert_eq!(registry.get(0).as_str(), "once");
}

#[test]
fn callback_runs_once_despite_config_reentry() {
    let mut compiler = compiler_with(None, 3, RunFate::Completes);
    let callback = NamedLints { names: names(&["once"]) };
    let result = with_lints(Vec::new(), Vec::new(), callback, &mut compiler);
    assert_eq!(result, Ok(()));
    assert_eq!(compiler.registry.len(), 1);
    assert_eq!(compiler.registry.get(0).as_str(), "once");
}

#[test]
fn completed_run_is_success() {
    let mut compiler = compiler_with(None, 1, RunFate::Completes);
    let callback = NamedLints { names: Vec::new() };
    let result = with_lints(Vec::new(), Vec::new(), callback, &mut compiler);
    assert_eq!(result, Ok(()));
}

#[test]
fn fatal_abort_during_analysis_is_a_typed_error() {
    let mut compiler = compiler_with(None, 1, RunFate::AbortsDuringAnalysis);
    let callback = NamedLints { names: names(&["custom-1"]) };
    let result = with_lints(Vec::new(), names(&["rules.toml"]), callback, &mut compiler);
    assert_eq!(result, Err(HarnessError::FatalCompilerAbort));
    // Control returned here instead of aborting the process, and the
    // injection points had already run when the abort struck.
    assert!(result.is_err());
    assert!(compiler.registry.contains_name(&String::from("custom-1")));
    assert!(compiler.dep_record.contains(&String::from("rules.toml")));
}

#[test]
fn setup_abort_reaches_no_injection_point() {
    let previous = NamedLints { names: names(&["builtin-1"]) };
    let mut compiler = compiler_with(Some(previous), 1, RunFate::AbortsDuringSetup);
    let callback = NamedLints { names: names(&["custom-1"]) };
    let result = with_lints(Vec::new(), names(&["rules.toml"]), callback, &mut compiler);
    assert_eq!(result, Err(HarnessError::FatalCompilerAbort));
    // The run died before the parse session and the registry existed: no
    // dependency was merged and no hook, the callback included, was invoked.
    assert_eq!(compiler.registry.len(), 0);
    assert_eq!(compiler.dep_record.len(), 0);
}

#[test]
fn outcome_conversion() {
    assert_eq!(run_result(RunOutcome::Completed), Ok(()));
    assert_eq!(
        run_result(RunOutcome::FatalAborted),
        Err(HarnessError::FatalCompilerAbort)
    );
}

#[test]
fn run_with_tracked_file_and_lint() {
    let mut compiler = compiler_with(None, 1, RunFate::Completes);
    let callback = NamedLints { names: names(&["no-todo"]) };
    let result = with_lints(
        names(&["--edition=2021"]),
        names(&["rules.toml"]),
        callback,
        &mut compiler,
    );
    assert_eq!(result, Ok(()));
    assert!(compiler.dep_record.contains(&String::from("rules.toml")));
    assert!(compiler.registry.contains_name(&String::from("no-todo")));
    assert_eq!(compiler.args, names(&["--edition=2021"]));
}

#[test]
fn run_with_previous_hook_and_empty_tracked_set() {
    let previous = NamedLints { names: names(&["builtin-1"]) };
    let mut compiler = compiler_with(Some(previous), 1, RunFate::Completes);
    compiler.dep_record.insert(String::from("seed.txt"));
    let callback = NamedLints { names: names(&["custom-1"]) };
    let result = with_lints(Vec::new(), Vec::new(), callback, &mut compiler);
    assert_eq!(result, Ok(()));
    assert_eq!(compiler.registry.len(), 2);
    assert_eq!(compiler.registry.get(0).as_str(), "builtin-1");
    assert_eq!(compiler.registry.get(1).as_str(), "custom-1");
    assert_eq!(compiler.dep_record.len(), 1);
    assert!(compiler.dep_record.contains(&String::from("seed.txt")));
}

#[test]
fn previous_hook_is_preserved_not_replaced() {
    let previous = NamedLints { names: names(&["builtin-1", "builtin-2"]) };
    let mut compiler = compiler_with(Some(previous), 2, RunFate::Completes);
    let callback = NamedLints { names: names(&["custom-1"]) };
    let result = with_lints(Vec::new(), Vec::new(), callback, &mut compiler);
    assert_eq!(result, Ok(()));
    assert_eq!(compiler.registry.len(), 3);
    assert_eq!(compiler.registry.get(0).as_str(), "builtin-1");
    assert_eq!(compiler.registry.get(1).as_str(), "builtin-2");
    assert_eq!(compiler.registry.get(2).as_str(), "custom-1");
}
