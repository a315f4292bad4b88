//! The interception harness and one modeled compiler run.
//!
//! The harness holds the caller's Registration Callback and Tracked File Set
//! until the compiler asks for its configuration. At that point it installs,
//! exactly once, a combined registration hook (the pre-existing hook first,
//! the callback second) and the tracked files to merge into the dependency
//! record. The run then proceeds: unless it dies during setup — in which case
//! neither injection point is ever reached — the compiler creates its parse
//! session (dependency injection point) and invokes the registration hook;
//! the run then completes or raises a fatal abort during analysis. A fatal
//! abort, wherever it strikes, is converted into a typed result instead of
//! unwinding into the caller.

use vstd::prelude::*;

use crate::deps::DepRecord;
use crate::deps::inject_dependencies;
use crate::hooks::CombinedHook;
use crate::hooks::LintHook;
use crate::registry::LintRegistry;

verus! {

/// The lint-registration hook slot of the compiler's configuration.
pub enum HookSlot<H, C> {
    /// No registration hook at all.
    Empty,
    /// The hook the configuration carried before this system ran.
    Previous(H),
    /// The combined hook this system installed.
    Installed(CombinedHook<H, C>),
}

impl<H: LintHook, C: LintHook> HookSlot<H, C> {
    /// The registry mutation performed when the compiler invokes whatever
    /// hook the slot carries; an empty slot mutates nothing.
    pub open spec fn effect(&self, before: Seq<Seq<char>>) -> Seq<Seq<char>> {
        match self {
            HookSlot::Empty => before,
            HookSlot::Previous(h) => h.effect(before),
            HookSlot::Installed(hook) => hook.effect(before),
        }
    }

    /// Whether the slot already carries the hook this system installs.
    pub fn is_installed(&self) -> (installed: bool)
        ensures
            installed == (self is Installed),
    {
        match self {
            HookSlot::Installed(_) => true,
            _ => false,
        }
    }

    /// The compiler's invocation of its registration hook: run whatever hook
    /// the slot carries against the registry.
    pub fn run_registration(&self, registry: &mut LintRegistry)
        ensures
            final(registry)@ == self.effect(old(registry)@),
    {
        match self {
            HookSlot::Empty => {},
            HookSlot::Previous(h) => h.register(registry),
            HookSlot::Installed(hook) => hook.register(registry),
        }
    }
}

/// The compiler's configuration, as far as this system reads or writes it.
pub struct CompilerConfig<H, C> {
    /// The lint-registration hook slot.
    pub register_lints: HookSlot<H, C>,
    /// The extra dependency paths to merge into the dependency record when
    /// the parse session is created.
    pub extra_dependencies: Vec<String>,
}

/// The combined hook that configuring installs into a slot: the callback
/// alone when the slot was empty, the pre-existing hook chained before the
/// callback otherwise.
pub open spec fn installed_hook<H: LintHook, C: LintHook>(
    slot: HookSlot<H, C>,
    callback: C,
) -> CombinedHook<H, C> {
    match slot {
        HookSlot::Previous(h) => CombinedHook::Chained(h, callback),
        _ => CombinedHook::Unchained(callback),
    }
}

/// The interception harness for one run: holds the Registration Callback and
/// the Tracked File Set until the compiler's configuration phase takes them.
pub struct Harness<C> {
    pending: Option<(C, Vec<String>)>,
}

impl<C: LintHook> Harness<C> {
    /// The callback and tracked files still waiting to be installed; `None`
    /// once a configuration request has taken them.
    pub closed spec fn pending(&self) -> Option<(C, Vec<String>)> {
        self.pending
    }

    /// A harness ready for one run, holding the caller's tracked files and
    /// callback.
    pub fn new(tracked_files: Vec<String>, callback: C) -> (harness: Harness<C>)
        ensures
            harness.pending() == Some((callback, tracked_files)),
    {
        Harness { pending: Some((callback, tracked_files)) }
    }

    /// The configuration step, entered when the compiler asks for its
    /// configuration: install the combined registration hook — the
    /// pre-existing hook, if any, strictly before the callback — and the
    /// tracked files, exactly once. A re-entered configuration phase, or a
    /// slot that already carries an installed hook, changes nothing.
    pub fn config<H: LintHook>(&mut self, config: &mut CompilerConfig<H, C>)
        ensures
            (old(self).pending() is Some && !(old(config).register_lints is Installed)) ==> {
                &&& final(self).pending() is None
                &&& final(config).register_lints == HookSlot::Installed(
                    installed_hook(old(config).register_lints, old(self).pending()->Some_0.0),
                )
                &&& final(config).extra_dependencies == old(self).pending()->Some_0.1
            },
            (old(self).pending() is None || old(config).register_lints is Installed) ==> {
                &&& *final(self) == *old(self)
                &&& *final(config) == *old(config)
            },
    {
        if config.register_lints.is_installed() {
            return ;
        }
        if self.pending.is_none() {
            return ;
        }
        let taken = self.pending.take();
        let (callback, tracked_files) = taken.unwrap();
        let mut slot = HookSlot::Empty;
        std::mem::swap(&mut slot, &mut config.register_lints);
        config.register_lints = match slot {
            HookSlot::Empty => HookSlot::Installed(CombinedHook::combine(None, callback)),
            HookSlot::Previous(h) => HookSlot::Installed(
                CombinedHook::combine(Some(h), callback),
            ),
            HookSlot::Installed(_) => vstd::pervasive::unreached(),
        };
        config.extra_dependencies = tracked_files;
    }
}

/// The typed errors of this system: exactly one kind.
#[derive(Clone, Copy, Debug, PartialEq, Eq, Structural)]
pub enum HarnessError {
    /// The driven compiler could not complete the run.
    FatalCompilerAbort,
}

/// The outcome of the driver's blocking run-to-completion call.
#[derive(Clone, Copy, Debug, PartialEq, Eq, Structural)]
pub enum RunOutcome {
    /// The compiler finished; ordinary diagnostics it emitted along the way
    /// are not this system's concern.
    Completed,
    /// The compiler raised an unrecoverable condition.
    FatalAborted,
}

/// When, if at all, the modeled run raises its fatal abort. The compiler
/// decides this; the harness only observes it.
#[derive(Clone, Copy, Debug, PartialEq, Eq, Structural)]
pub enum RunFate {
    /// The run completes; ordinary diagnostics are not this system's concern.
    Completes,
    /// The run dies during setup, before the parse session and the lint
    /// registry exist: neither injection point is reached, so no dependency
    /// is merged and no registration hook — the caller's callback included —
    /// is ever invoked.
    AbortsDuringSetup,
    /// The run dies during analysis, after both injection points ran.
    AbortsDuringAnalysis,
}

/// Convert the outcome of a run into the caller's result: completion is
/// success with no payload, a fatal abort is the one typed error. The abort
/// is caught at this boundary; it never unwinds into the caller.
pub fn run_result(outcome: RunOutcome) -> (result: Result<(), HarnessError>)
    ensures
        (result == Ok::<(), HarnessError>(())) <==> (outcome == RunOutcome::Completed),
        (result == Err::<(), HarnessError>(HarnessError::FatalCompilerAbort)) <==> (outcome
            == RunOutcome::FatalAborted),
{
    match outcome {
        RunOutcome::Completed => Ok(()),
        RunOutcome::FatalAborted => Err(HarnessError::FatalCompilerAbort),
    }
}

/// The registry mutation of an optional pre-existing hook: the hook's own
/// mutation if one is present, nothing otherwise.
pub open spec fn previous_effect<H: LintHook>(
    previous: Option<H>,
    before: Seq<Seq<char>>,
) -> Seq<Seq<char>> {
    match previous {
        Some(h) => h.effect(before),
        None => before,
    }
}

/// One run of the driven compiler, as this system observes it: the
/// registration hook its configuration already carries, the session state the
/// two injection points reach, how many times it enters its configuration
/// phase, and when, if at all, the run raises its fatal abort. The concrete
/// compiler lives outside this crate; a driver binds these fields to it and
/// performs the actual blocking run.
pub struct ModelCompiler<H> {
    /// The invocation arguments the compiler receives: an opaque
    /// pass-through, never inspected by this system.
    pub args: Vec<String>,
    /// The registration hook already present in the configuration.
    pub previous_hook: Option<H>,
    /// The file-dependency record of the run.
    pub dep_record: DepRecord,
    /// The lint registry of the run.
    pub registry: LintRegistry,
    /// How many times the configuration phase is entered; at least once, and
    /// possibly re-entered.
    pub config_requests: usize,
    /// When, if at all, this run raises its fatal abort.
    pub fate: RunFate,
}

/// Run the compiler once with the caller's lints injected.
///
/// * `args` is handed to the compiler unmodified.
/// * `tracked_files` are merged into the compiler's dependency record, so a
///   change to any of them makes the build system re-run the analysis.
/// * `callback` registers the caller's lints; it runs at most once, after
///   whatever registration hook the configuration already carried, and not at
///   all when the run dies during setup, before the compiler reaches its
///   injection points.
///
/// The result is success when the run completes, and the one typed error when
/// the compiler raises a fatal abort; control always returns to the caller.
pub fn with_lints<H: LintHook, C: LintHook>(
    args: Vec<String>,
    tracked_files: Vec<String>,
    callback: C,
    compiler: &mut ModelCompiler<H>,
) -> (result: Result<(), HarnessError>)
    requires
        old(compiler).config_requests >= 1,
    ensures
        // Once setup reaches the injection points, both run: the record is
        // merged and the hooks fire, previous first, the callback exactly
        // once — whether or not the analysis afterwards aborts.
        !(old(compiler).fate is AbortsDuringSetup) ==> final(compiler).dep_record@ == old(
            compiler,
        ).dep_record@.union(tracked_files.deep_view().to_set()),
        !(old(compiler).fate is AbortsDuringSetup) ==> (forall|p: Seq<char>| #[trigger]
            tracked_files.deep_view().contains(p) ==> final(compiler).dep_record@.contains(p)),
        !(old(compiler).fate is AbortsDuringSetup) ==> final(compiler).registry@
            == callback.effect(
            previous_effect(old(compiler).previous_hook, old(compiler).registry@),
        ),
        // A run that dies during setup never reaches the injection points:
        // nothing is merged and no hook — the callback included — is invoked.
        old(compiler).fate is AbortsDuringSetup ==> final(compiler).dep_record == old(
            compiler,
        ).dep_record && final(compiler).registry@ == old(compiler).registry@,
        tracked_files@.len() == 0 ==> final(compiler).dep_record == old(compiler).dep_record,
        old(compiler).registry@.is_prefix_of(final(compiler).registry@),
        (result == Ok::<(), HarnessError>(())) <==> old(compiler).fate is Completes,
        !(old(compiler).fate is Completes) ==> result == Err::<(), HarnessError>(
            HarnessError::FatalCompilerAbort,
        ),
        final(compiler).args == args,
        final(compiler).previous_hook is None,
        final(compiler).config_requests == old(compiler).config_requests,
        final(compiler).fate == old(compiler).fate,
{
    compiler.args = args;
    let mut harness = Harness::new(tracked_files, callback);
    let previous = compiler.previous_hook.take();
    let mut config = CompilerConfig::<H, C> {
        register_lints: match previous {
            Some(h) => HookSlot::Previous(h),
            None => HookSlot::Empty,
        },
        extra_dependencies: Vec::new(),
    };
    let ghost initial_slot = config.register_lints;
    let ghost combined = installed_hook(initial_slot, callback);
    // The compiler enters its configuration phase, possibly more than once;
    // the harness installs on the first request and ignores the rest.
    let mut i: usize = 0;
    while i < compiler.config_requests
        invariant
            i <= compiler.config_requests,
            compiler.config_requests >= 1,
            combined == installed_hook(initial_slot, callback),
            i == 0 ==> harness.pending() == Some((callback, tracked_files))
                && config.register_lints == initial_slot && !(initial_slot is Installed),
            i >= 1 ==> harness.pending() is None && config.register_lints == HookSlot::Installed(
                combined,
            ) && config.extra_dependencies == tracked_files,
        decreases compiler.config_requests - i,
    {
        harness.config(&mut config);
        i += 1;
    }
    if compiler.fate == RunFate::AbortsDuringSetup {
        // The run dies before the parse session and the lint registry exist:
        // neither injection point is reached.
        proof {
            assert(compiler.registry@ =~= compiler.registry@.subrange(
                0,
                compiler.registry@.len() as int,
            ));
        }
        return run_result(RunOutcome::FatalAborted);
    }
    // Parse session creation: the dependency-record injection point.
    inject_dependencies(&mut compiler.dep_record, &config.extra_dependencies);
    // Analysis setup: the compiler invokes its registration hook.
    config.register_lints.run_registration(&mut compiler.registry);
    proof {
        combined.effect_appends(old(compiler).registry@);
    }
    // The blocking driver call returns, and its outcome becomes the caller's
    // result.
    let outcome = if compiler.fate == RunFate::Completes {
        RunOutcome::Completed
    } else {
        RunOutcome::FatalAborted
    };
    run_result(outcome)
}

} // verus!
