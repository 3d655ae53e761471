//! The composition plan: which layers the bootstrap stacks into the global
//! subscriber, in which order, under which flags.
//!
//! Rather than reasoning about the enumerated combinations of optional sinks,
//! each concern is an entry in an ordered collection of active layers, and the
//! install step folds that collection into the subscriber.

use vstd::prelude::*;

verus! {

/// One concern of the logging pipeline, as an entry of the composition plan.
#[derive(Clone, Copy, PartialEq, Eq, Structural, Debug)]
pub enum LayerKind {
    /// The severity filter resolved from the environment (default otherwise).
    SeverityFilter,
    /// The error-context capture that enriches error reports with span data.
    ErrorContext,
    /// The rolling-file sink behind the non-blocking writer.
    FileSink,
    /// The pretty printer on the process's standard error stream.
    ConsoleSink,
}

/// The layers the bootstrap activates, innermost first: the severity filter,
/// then error-context capture, then the file sink — all unconditional — and
/// the console sink exactly when it is enabled.
pub open spec fn composition_plan(enable_console: bool) -> Seq<LayerKind> {
    if enable_console {
        seq![
            LayerKind::SeverityFilter,
            LayerKind::ErrorContext,
            LayerKind::FileSink,
            LayerKind::ConsoleSink,
        ]
    } else {
        seq![LayerKind::SeverityFilter, LayerKind::ErrorContext, LayerKind::FileSink]
    }
}

/// Builds the ordered collection of layers that the bootstrap will activate
/// for the given console flag.
pub fn plan_layers(enable_console: bool) -> (v: Vec<LayerKind>)
    ensures
        v@ == composition_plan(enable_console),
{
    let mut v: Vec<LayerKind> = Vec::new();
    v.push(LayerKind::SeverityFilter);
    v.push(LayerKind::ErrorContext);
    v.push(LayerKind::FileSink);
    if enable_console {
        v.push(LayerKind::ConsoleSink);
    }
    proof {
        assert(v@ =~= composition_plan(enable_console));
    }
    v
}

/// Reports whether a plan carries the console sink.
pub fn layers_contain_console(v: &Vec<LayerKind>) -> (b: bool)
    ensures
        b == v@.contains(LayerKind::ConsoleSink),
{
    let mut i: usize = 0;
    while i < v.len()
        invariant
            i <= v.len(),
            forall|j: int| 0 <= j < i ==> v@[j] != LayerKind::ConsoleSink,
        decreases v.len() - i,
    {
        if v[i] == LayerKind::ConsoleSink {
            proof {
                assert(v@[i as int] == LayerKind::ConsoleSink);
            }
            return true;
        }
        i = i + 1;
    }
    false
}

/// The file sink is part of the plan whatever the console flag: file output
/// is unconditionally active.
pub proof fn lemma_file_sink_always_planned(enable_console: bool)
    ensures
        composition_plan(enable_console).contains(LayerKind::FileSink),
{
    assert(composition_plan(enable_console)[2] == LayerKind::FileSink);
}

/// The console sink is part of the plan exactly when the console flag is set.
pub proof fn lemma_console_sink_iff_enabled(enable_console: bool)
    ensures
        composition_plan(enable_console).contains(LayerKind::ConsoleSink) <==> enable_console,
{
    if enable_console {
        assert(composition_plan(enable_console)[3] == LayerKind::ConsoleSink);
    } else {
        assert(forall|j: int|
            0 <= j < composition_plan(enable_console).len()
                ==> composition_plan(enable_console)[j] != LayerKind::ConsoleSink);
    }
}

/// The severity filter stands first in every plan, so every record meets the
/// filter before it reaches any sink.
pub proof fn lemma_severity_filter_first(enable_console: bool)
    ensures
        composition_plan(enable_console).len() >= 3,
        composition_plan(enable_console)[0] == LayerKind::SeverityFilter,
{
}

} // verus!
