use vstd::prelude::*;

use crate::args::BuildRequest;
use crate::skip::SkipBuildFilter;

verus! {

/// The slice of the resolved configuration the build sequencing reads:
/// whether installing a dependency may change remappings, and whether the
/// layer-2 backend is enabled.
#[derive(Clone, Copy, PartialEq, Eq, Structural, Debug)]
pub struct CompilerConfig {
    /// Reload the configuration after a dependency install, since the
    /// install can introduce new import remappings.
    pub auto_detect_remappings: bool,
    /// Run the secondary, layer-2-targeted compilation pass.
    pub zk_enabled: bool,
}

/// How one compiler-pipeline invocation is configured.
#[derive(Clone, Debug)]
pub struct PipelineSettings {
    /// Report contract names.
    pub print_names: bool,
    /// Report contract sizes.
    pub print_sizes: bool,
    /// Emit no incremental human-readable output.
    pub quiet: bool,
    /// Stop at the first error instead of collecting diagnostics.
    pub bail: bool,
    /// The skip filters; constructed only when the filter list is
    /// non-empty.
    pub skip: Option<Vec<SkipBuildFilter>>,
}

impl PipelineSettings {
    /// How pipeline settings follow from a request: reporting flags are
    /// forwarded; JSON output makes the pipeline quiet and makes it
    /// collect diagnostics instead of bailing, so a complete JSON report
    /// exists even on partial failure; an absent or empty filter list
    /// leaves the filtering stage out.
    pub open spec fn models(self, req: BuildRequest) -> bool {
        &&& self.print_names == req.print_names
        &&& self.print_sizes == req.print_sizes
        &&& self.quiet == req.format_json
        &&& self.bail == !req.format_json
        &&& match (self.skip, req.skip_filters) {
            (None, None) => true,
            (None, Some(v)) => v@.len() == 0,
            (Some(s), Some(v)) => v@.len() > 0 && s@ == v@,
            (Some(_), None) => false,
        }
    }
}

/// Copies a filter list.
fn copy_filters(v: &Vec<SkipBuildFilter>) -> (r: Vec<SkipBuildFilter>)
    ensures
        r@ == v@,
{
    let mut r: Vec<SkipBuildFilter> = Vec::new();
    let mut i: usize = 0;
    while i < v.len()
        invariant
            i <= v@.len(),
            r@ == v@.take(i as int),
        decreases v@.len() - i,
    {
        r.push(v[i]);
        proof {
            assert(r@ =~= v@.take(i + 1));
        }
        i += 1;
    }
    proof {
        assert(v@.take(v@.len() as int) =~= v@);
    }
    r
}

/// Builds the pipeline settings one compilation pass runs with.
pub fn pipeline_settings(req: &BuildRequest) -> (r: PipelineSettings)
    ensures
        r.models(*req),
{
    let skip = match &req.skip_filters {
        None => None,
        Some(v) => if v.len() == 0 {
            None
        } else {
            Some(copy_filters(v))
        },
    };
    PipelineSettings {
        print_names: req.print_names,
        print_sizes: req.print_sizes,
        quiet: req.format_json,
        bail: !req.format_json,
        skip,
    }
}

/// Where a build run stands. Each run starts at `Resolving` and ends at
/// `Done`, which carries whether the whole run succeeded.
#[derive(Clone, Copy, PartialEq, Eq, Structural, Debug)]
pub enum BuildPhase {
    /// Waiting for the configuration to be resolved.
    Resolving,
    /// Waiting for the dependency installer.
    CheckingDeps(CompilerConfig),
    /// Waiting for the configuration to be reloaded after an install.
    Reloading(CompilerConfig),
    /// Waiting for the primary compilation pass.
    CompilingPrimary(CompilerConfig),
    /// Waiting for the secondary, layer-2 compilation pass.
    CompilingSecondary(CompilerConfig),
    /// The run is over.
    Done(bool),
}

/// What an external collaborator reports back.
#[derive(Clone, Copy, PartialEq, Eq, Structural, Debug)]
pub enum BuildEvent {
    /// The configuration was resolved.
    ConfigResolved(CompilerConfig),
    /// The installer ran; true when it installed anything.
    DependenciesInstalled(bool),
    /// The configuration was reloaded.
    ConfigReloaded(CompilerConfig),
    /// The primary pass finished; true on success.
    PrimaryDone(bool),
    /// The secondary pass finished; true on success.
    SecondaryDone(bool),
}

/// What the driver must do next.
#[derive(Clone, Debug)]
pub enum BuildAction {
    /// Ask the installer to install whatever is missing.
    CheckDependencies,
    /// Reload the configuration and re-materialize the project.
    ReloadConfig,
    /// Run the primary pipeline over the given configuration.
    CompilePrimary(CompilerConfig, PipelineSettings),
    /// Run the secondary pipeline over the given configuration.
    CompileSecondary(CompilerConfig, PipelineSettings),
    /// The run is over; report the overall outcome.
    Finish(bool),
}

/// The phase an event moves a run to, or nothing when the event is not
/// the one the phase waits for.
///
/// The sequencing rules: configuration is reloaded exactly when the
/// installer changed something and remapping auto-detection is on; a
/// failed primary pass ends the run at once, before any secondary pass;
/// the secondary pass runs exactly when the configuration in force
/// enables the layer-2 backend; a secondary failure fails the run even
/// though the primary result was already emitted.
pub open spec fn phase_after(phase: BuildPhase, event: BuildEvent) -> Option<BuildPhase> {
    match (phase, event) {
        (BuildPhase::Resolving, BuildEvent::ConfigResolved(cfg)) => Some(
            BuildPhase::CheckingDeps(cfg),
        ),
        (BuildPhase::CheckingDeps(cfg), BuildEvent::DependenciesInstalled(changed)) => Some(
            if changed && cfg.auto_detect_remappings {
                BuildPhase::Reloading(cfg)
            } else {
                BuildPhase::CompilingPrimary(cfg)
            },
        ),
        (BuildPhase::Reloading(_), BuildEvent::ConfigReloaded(cfg)) => Some(
            BuildPhase::CompilingPrimary(cfg),
        ),
        (BuildPhase::CompilingPrimary(cfg), BuildEvent::PrimaryDone(ok)) => Some(
            if !ok {
                BuildPhase::Done(false)
            } else if cfg.zk_enabled {
                BuildPhase::CompilingSecondary(cfg)
            } else {
                BuildPhase::Done(true)
            },
        ),
        (BuildPhase::CompilingSecondary(_), BuildEvent::SecondaryDone(ok)) => Some(
            BuildPhase::Done(ok),
        ),
        _ => None,
    }
}

/// The action that belongs to a phase: what the driver performs while the
/// run waits there.
pub open spec fn action_models(a: BuildAction, req: BuildRequest, next: BuildPhase) -> bool {
    match next {
        BuildPhase::Resolving => false,
        BuildPhase::CheckingDeps(_) => a is CheckDependencies,
        BuildPhase::Reloading(_) => a is ReloadConfig,
        BuildPhase::CompilingPrimary(cfg) => a matches BuildAction::CompilePrimary(c, s) && c
            == cfg && s.models(req),
        BuildPhase::CompilingSecondary(cfg) => a matches BuildAction::CompileSecondary(c, s) && c
            == cfg && s.models(req),
        BuildPhase::Done(ok) => a matches BuildAction::Finish(b) && b == ok,
    }
}

/// The phase a build run starts in: waiting for the resolved
/// configuration.
pub fn initial_phase() -> (r: BuildPhase)
    ensures
        r == BuildPhase::Resolving,
{
    BuildPhase::Resolving
}

/// Feeds one collaborator report into the run: returns the next phase and
/// the action to perform there, or nothing when the event is not the one
/// the phase waits for.
pub fn next_step(req: &BuildRequest, phase: &BuildPhase, event: &BuildEvent) -> (r: Option<
    (BuildPhase, BuildAction),
>)
    ensures
        match r {
            None => phase_after(*phase, *event) is None,
            Some((p, a)) => phase_after(*phase, *event) == Some(p) && action_models(a, *req, p),
        },
{
    match (phase, event) {
        (BuildPhase::Resolving, BuildEvent::ConfigResolved(cfg)) => Some(
            (BuildPhase::CheckingDeps(*cfg), BuildAction::CheckDependencies),
        ),
        (BuildPhase::CheckingDeps(cfg), BuildEvent::DependenciesInstalled(changed)) => {
            if *changed && cfg.auto_detect_remappings {
                Some((BuildPhase::Reloading(*cfg), BuildAction::ReloadConfig))
            } else {
                Some(
                    (
                        BuildPhase::CompilingPrimary(*cfg),
                        BuildAction::CompilePrimary(*cfg, pipeline_settings(req)),
                    ),
                )
            }
        },
        (BuildPhase::Reloading(_), BuildEvent::ConfigReloaded(cfg)) => Some(
            (
                BuildPhase::CompilingPrimary(*cfg),
                BuildAction::CompilePrimary(*cfg, pipeline_settings(req)),
            ),
        ),
        (BuildPhase::CompilingPrimary(cfg), BuildEvent::PrimaryDone(ok)) => {
            if !*ok {
                Some((BuildPhase::Done(false), BuildAction::Finish(false)))
            } else if cfg.zk_enabled {
                Some(
                    (
                        BuildPhase::CompilingSecondary(*cfg),
                        BuildAction::CompileSecondary(*cfg, pipeline_settings(req)),
                    ),
                )
            } else {
                Some((BuildPhase::Done(true), BuildAction::Finish(true)))
            }
        },
        (BuildPhase::CompilingSecondary(_), BuildEvent::SecondaryDone(ok)) => Some(
            (BuildPhase::Done(*ok), BuildAction::Finish(*ok)),
        ),
        _ => None,
    }
}

/// Law: after the dependency check, the configuration is reloaded exactly
/// when the installer changed something and remapping auto-detection is
/// enabled; otherwise the run compiles against the configuration it
/// already holds.
pub proof fn lemma_reload_iff(cfg: CompilerConfig, changed: bool)
    ensures
        phase_after(BuildPhase::CheckingDeps(cfg), BuildEvent::DependenciesInstalled(changed))
            == Some(BuildPhase::Reloading(cfg)) <==> (changed && cfg.auto_detect_remappings),
        !(changed && cfg.auto_detect_remappings) ==> phase_after(
            BuildPhase::CheckingDeps(cfg),
            BuildEvent::DependenciesInstalled(changed),
        ) == Some(BuildPhase::CompilingPrimary(cfg)),
{
}

/// Law: after a reload, the run compiles against the reloaded
/// configuration, never the stale snapshot.
pub proof fn lemma_reload_uses_new_config(stale: CompilerConfig, reloaded: CompilerConfig)
    ensures
        phase_after(BuildPhase::Reloading(stale), BuildEvent::ConfigReloaded(reloaded)) == Some(
            BuildPhase::CompilingPrimary(reloaded),
        ),
{
}

/// Law: a run that resolves a configuration with remapping auto-detection
/// enabled, installs a dependency, and reloads, compiles against the
/// reloaded configuration — never against the stale snapshot taken before
/// the install.
pub proof fn lemma_install_reload_compile_trace(stale: CompilerConfig, reloaded: CompilerConfig)
    requires
        stale.auto_detect_remappings,
    ensures
        ({
            let p1 = phase_after(BuildPhase::Resolving, BuildEvent::ConfigResolved(stale));
            let p2 = phase_after(p1.unwrap(), BuildEvent::DependenciesInstalled(true));
            let p3 = phase_after(p2.unwrap(), BuildEvent::ConfigReloaded(reloaded));
            &&& p1 == Some(BuildPhase::CheckingDeps(stale))
            &&& p2 == Some(BuildPhase::Reloading(stale))
            &&& p3 == Some(BuildPhase::CompilingPrimary(reloaded))
        }),
{
}

/// Law: the secondary pass runs exactly when the primary pass succeeded
/// and the configuration in force enables the layer-2 backend; a primary
/// failure ends the run at once, with failure.
pub proof fn lemma_secondary_iff(cfg: CompilerConfig, ok: bool)
    ensures
        phase_after(BuildPhase::CompilingPrimary(cfg), BuildEvent::PrimaryDone(ok)) == Some(
            BuildPhase::CompilingSecondary(cfg),
        ) <==> (ok && cfg.zk_enabled),
        !ok ==> phase_after(BuildPhase::CompilingPrimary(cfg), BuildEvent::PrimaryDone(ok))
            == Some(BuildPhase::Done(false)),
{
}

} // verus!
