use vstd::prelude::*;

use crate::errors::Error;
use crate::model::{
    export_apply, export_location, foreign_of, found_of, loc_wf, remove_keep, TreeModel,
};
use crate::plan::{resolve, spec_from, spec_to, spec_tree_parent, LocationPaths};
use crate::protocol::{Action, Event, ExportKind, FoundState};

verus! {

/// Where an Export stands: which observation or completion report it is
/// waiting for, or the result it finished with.
#[derive(Debug, PartialEq, Eq)]
pub enum ExportPhase {
    /// Waiting for the marker-file observation that validates the source
    /// tree; nothing has been mutated yet.
    AwaitMarkers,
    /// Waiting for the observation of location `index`'s source side.
    AwaitSource { index: usize },
    /// Waiting for completion of the transform of location `index`.
    AwaitApply { index: usize },
    /// Waiting for the entry listing of location `index`'s target side.
    AwaitFiles { index: usize },
    /// Waiting for completion of the placeholder removal at `index`.
    AwaitRemove { index: usize },
    /// The operation is over, successfully or not.
    Finished { result: Result<(), Error> },
}

/// The Export operation as a decision machine. The shell constructs it,
/// then repeatedly performs the returned `Action` against the real
/// filesystem and feeds the outcome back into `step`, until `Halt`. Every
/// decision — validation, per-location transform choice, placeholder
/// handling, fail-fast ordering — is made here.
pub struct ExportMachine {
    /// The project identifier.
    pub name: String,
    /// The game-data root; must pass marker validation before any mutation.
    pub source_tree: String,
    /// The version-control root that becomes the content owner.
    pub target_tree: String,
    /// The five planned locations, in fixed processing order.
    pub locations: Vec<LocationPaths>,
    pub phase: ExportPhase,
}

impl ExportMachine {
    /// The machine's invariant: the path table is the planner's output for
    /// its identifier and trees, and any location index in play is in
    /// range.
    pub open spec fn wf(self) -> bool {
        &&& self.locations@.len() == 5
        &&& forall|i: int|
            0 <= i < 5 ==> (#[trigger] self.locations@[i]).from@ == spec_from(
                i,
                self.source_tree@,
                self.name@,
            )
        &&& forall|i: int|
            0 <= i < 5 ==> (#[trigger] self.locations@[i]).to@ == spec_to(
                i,
                self.target_tree@,
                self.name@,
            )
        &&& forall|i: int|
            0 <= i < 5 ==> (#[trigger] self.locations@[i]).to_parent@ == spec_tree_parent(
                i,
                self.target_tree@,
            )
        &&& match self.phase {
            ExportPhase::AwaitSource { index } => index < 5,
            ExportPhase::AwaitApply { index } => index < 5,
            ExportPhase::AwaitFiles { index } => index < 5,
            ExportPhase::AwaitRemove { index } => index < 5,
            _ => true,
        }
    }

    /// Which events answer the machine's current phase.
    pub open spec fn accepts(self, ev: Event) -> bool {
        match (self.phase, ev) {
            (ExportPhase::AwaitMarkers, Event::Markers { .. }) => true,
            (ExportPhase::AwaitSource { .. }, Event::Source { .. }) => true,
            (ExportPhase::AwaitApply { .. }, Event::Applied) => true,
            (ExportPhase::AwaitApply { .. }, Event::Failed { .. }) => true,
            (ExportPhase::AwaitFiles { .. }, Event::TargetFiles { .. }) => true,
            (ExportPhase::AwaitFiles { .. }, Event::Failed { .. }) => true,
            (ExportPhase::AwaitRemove { .. }, Event::Applied) => true,
            (ExportPhase::AwaitRemove { .. }, Event::Failed { .. }) => true,
            _ => false,
        }
    }

    /// Starts an Export of project `name` (a non-empty identifier) from
    /// `source_tree` into `target_tree`. The first action asks for the
    /// marker observation: nothing is mutated before validation has passed.
    pub fn new(name: String, source_tree: String, target_tree: String) -> (r: (
        ExportMachine,
        Action,
    ))
        requires
            name@.len() > 0,
        ensures
            r.0.wf(),
            r.0.name@ == name@,
            r.0.source_tree@ == source_tree@,
            r.0.target_tree@ == target_tree@,
            r.0.phase == ExportPhase::AwaitMarkers,
            r.1 == Action::ProbeMarkers,
    {
        let locations = resolve(&name, &source_tree, &target_tree);
        (
            ExportMachine {
                name,
                source_tree,
                target_tree,
                locations,
                phase: ExportPhase::AwaitMarkers,
            },
            Action::ProbeMarkers,
        )
    }

    /// Feeds one observation or completion report into the machine and
    /// returns the updated machine with its next instruction.
    pub fn step(self, ev: Event) -> (r: (ExportMachine, Action))
        requires
            self.accepts(ev),
        ensures
            r == export_step_spec(self, ev),
            self.wf() ==> r.0.wf(),
    {
        let ExportMachine { name, source_tree, target_tree, locations, phase } = self;
        let (phase2, action) = match (&phase, ev) {
            (ExportPhase::AwaitMarkers, Event::Markers { assets, gustav, dice }) => {
                if assets && gustav && dice {
                    (ExportPhase::AwaitSource { index: 0 }, Action::ProbeSource { index: 0 })
                } else {
                    (
                        ExportPhase::Finished {
                            result: Err(Error::InvalidSourceTree { tree: source_tree.clone() }),
                        },
                        Action::Halt,
                    )
                }
            },
            (ExportPhase::AwaitSource { index }, Event::Source { found, parent_exists }) => {
                let i = *index;
                let kind = match found {
                    FoundState::RealDir => ExportKind::MoveAndLink,
                    FoundState::Absent => ExportKind::CreateAndLink,
                    FoundState::AlreadyLinked => ExportKind::SkipExisting,
                };
                (
                    ExportPhase::AwaitApply { index: i },
                    Action::Apply { index: i, make_parent: !parent_exists, kind },
                )
            },
            (ExportPhase::AwaitApply { index }, Event::Applied) => {
                let i = *index;
                (ExportPhase::AwaitFiles { index: i }, Action::ProbeTargetFiles { index: i })
            },
            (ExportPhase::AwaitApply { .. }, Event::Failed { path }) => {
                (
                    ExportPhase::Finished { result: Err(Error::Filesystem { path }) },
                    Action::Halt,
                )
            },
            (ExportPhase::AwaitFiles { index }, Event::TargetFiles { foreign }) => {
                let i = *index;
                if foreign {
                    (ExportPhase::AwaitRemove { index: i }, Action::RemovePlaceholder { index: i })
                } else {
                    export_advance(i)
                }
            },
            (ExportPhase::AwaitFiles { .. }, Event::Failed { path }) => {
                (
                    ExportPhase::Finished { result: Err(Error::Filesystem { path }) },
                    Action::Halt,
                )
            },
            (ExportPhase::AwaitRemove { index }, Event::Applied) => {
                let i = *index;
                export_advance(i)
            },
            (ExportPhase::AwaitRemove { .. }, Event::Failed { path }) => {
                (
                    ExportPhase::Finished { result: Err(Error::Filesystem { path }) },
                    Action::Halt,
                )
            },
            _ => {
                proof {
                    assert(false);
                }
                (ExportPhase::AwaitMarkers, Action::Halt)
            },
        };
        (ExportMachine { name, source_tree, target_tree, locations, phase: phase2 }, action)
    }
}

fn export_advance(index: usize) -> (r: (ExportPhase, Action))
    ensures
        r == spec_export_advance(index),
{
    if index < 4 {
        (ExportPhase::AwaitSource { index: index + 1 }, Action::ProbeSource { index: index + 1 })
    } else {
        (ExportPhase::Finished { result: Ok(()) }, Action::Halt)
    }
}

/// After location `index` is done: on to the next location, or finish.
pub open spec fn spec_export_advance(index: usize) -> (ExportPhase, Action) {
    if index < 4 {
        (
            ExportPhase::AwaitSource { index: (index + 1) as usize },
            Action::ProbeSource { index: (index + 1) as usize },
        )
    } else {
        (ExportPhase::Finished { result: Ok(()) }, Action::Halt)
    }
}

/// `m` with another phase, everything else unchanged.
pub open spec fn with_phase(m: ExportMachine, phase: ExportPhase) -> ExportMachine {
    ExportMachine { phase, ..m }
}

/// The machine's whole transition function: what `step` returns.
pub open spec fn export_step_spec(m: ExportMachine, ev: Event) -> (ExportMachine, Action) {
    match (m.phase, ev) {
        (ExportPhase::AwaitMarkers, Event::Markers { assets, gustav, dice }) => {
            if assets && gustav && dice {
                (
                    with_phase(m, ExportPhase::AwaitSource { index: 0 }),
                    Action::ProbeSource { index: 0 },
                )
            } else {
                (
                    with_phase(
                        m,
                        ExportPhase::Finished {
                            result: Err(Error::InvalidSourceTree { tree: m.source_tree }),
                        },
                    ),
                    Action::Halt,
                )
            }
        },
        (ExportPhase::AwaitSource { index }, Event::Source { found, parent_exists }) => {
            let kind = match found {
                FoundState::RealDir => ExportKind::MoveAndLink,
                FoundState::Absent => ExportKind::CreateAndLink,
                FoundState::AlreadyLinked => ExportKind::SkipExisting,
            };
            (
                with_phase(m, ExportPhase::AwaitApply { index }),
                Action::Apply { index, make_parent: !parent_exists, kind },
            )
        },
        (ExportPhase::AwaitApply { index }, Event::Applied) => (
            with_phase(m, ExportPhase::AwaitFiles { index }),
            Action::ProbeTargetFiles { index },
        ),
        (ExportPhase::AwaitApply { .. }, Event::Failed { path }) => (
            with_phase(m, ExportPhase::Finished { result: Err(Error::Filesystem { path }) }),
            Action::Halt,
        ),
        (ExportPhase::AwaitFiles { index }, Event::TargetFiles { foreign }) => {
            if foreign {
                (
                    with_phase(m, ExportPhase::AwaitRemove { index }),
                    Action::RemovePlaceholder { index },
                )
            } else {
                let (phase2, action) = spec_export_advance(index);
                (with_phase(m, phase2), action)
            }
        },
        (ExportPhase::AwaitFiles { .. }, Event::Failed { path }) => (
            with_phase(m, ExportPhase::Finished { result: Err(Error::Filesystem { path }) }),
            Action::Halt,
        ),
        (ExportPhase::AwaitRemove { index }, Event::Applied) => {
            let (phase2, action) = spec_export_advance(index);
            (with_phase(m, phase2), action)
        },
        (ExportPhase::AwaitRemove { .. }, Event::Failed { path }) => (
            with_phase(m, ExportPhase::Finished { result: Err(Error::Filesystem { path }) }),
            Action::Halt,
        ),
        _ => (m, Action::Halt),
    }
}

/// How many steps an Export still has before it, at worst.
pub open spec fn export_measure(phase: ExportPhase) -> nat {
    match phase {
        ExportPhase::AwaitMarkers => 21,
        ExportPhase::AwaitSource { index } => 4 + 4 * location_rank(index),
        ExportPhase::AwaitApply { index } => 3 + 4 * location_rank(index),
        ExportPhase::AwaitFiles { index } => 2 + 4 * location_rank(index),
        ExportPhase::AwaitRemove { index } => 1 + 4 * location_rank(index),
        ExportPhase::Finished { .. } => 0,
    }
}

/// How many locations follow `index`.
pub open spec fn location_rank(index: usize) -> nat {
    if index <= 4 {
        (4 - index) as nat
    } else {
        0
    }
}

/// What a faithful shell answers in the machine's current phase against
/// the modelled trees `t`: observations report what the model holds, and
/// the transform of location `index` fails exactly when `faults[index]`
/// is set (the error-injection point of the model).
pub open spec fn export_faithful_event(t: TreeModel, m: ExportMachine, faults: Seq<bool>) -> Event {
    match m.phase {
        ExportPhase::AwaitMarkers => Event::Markers {
            assets: t.assets,
            gustav: t.gustav,
            dice: t.dice,
        },
        ExportPhase::AwaitSource { index } => Event::Source {
            found: found_of(t.locations[index as int].source),
            parent_exists: true,
        },
        ExportPhase::AwaitApply { index } => {
            if index < faults.len() && faults[index as int] {
                Event::Failed { path: m.locations@[index as int].from }
            } else {
                Event::Applied
            }
        },
        ExportPhase::AwaitFiles { index } => Event::TargetFiles {
            foreign: foreign_of(t.locations[index as int].target),
        },
        ExportPhase::AwaitRemove { .. } => Event::Applied,
        ExportPhase::Finished { .. } => Event::Applied,
    }
}

/// What the faithful shell's work in the current phase does to the
/// modelled trees: the transform of a location when it is due and no fault
/// is injected there, the placeholder removal when it is due, nothing
/// otherwise. Each location's transform is modelled as all-or-nothing: an
/// injected fault leaves that location as it was.
pub open spec fn export_effect(t: TreeModel, m: ExportMachine, faults: Seq<bool>) -> TreeModel {
    match m.phase {
        ExportPhase::AwaitApply { index } => {
            if index < faults.len() && faults[index as int] {
                t
            } else {
                TreeModel {
                    locations: t.locations.update(
                        index as int,
                        export_apply(t.locations[index as int], m.locations@[index as int].to@),
                    ),
                    ..t
                }
            }
        },
        ExportPhase::AwaitRemove { index } => TreeModel {
            locations: t.locations.update(
                index as int,
                remove_keep(t.locations[index as int]),
            ),
            ..t
        },
        _ => t,
    }
}

/// A whole Export run against the modelled trees: the faithful shell
/// performs each pending action and reports, the machine decides, until it
/// halts. Returns the trees and the finished machine.
pub open spec fn run_export(t: TreeModel, m: ExportMachine, faults: Seq<bool>) -> (
    TreeModel,
    ExportMachine,
)
    decreases export_measure(m.phase),
{
    if m.phase is Finished {
        (t, m)
    } else {
        let t2 = export_effect(t, m, faults);
        let ev = export_faithful_event(t, m, faults);
        let m2 = export_step_spec(m, ev).0;
        run_export(t2, m2, faults)
    }
}

/// The trees after a complete, fault-free Export: every location
/// transformed, the markers untouched.
pub open spec fn export_result(t: TreeModel, target_tree: Seq<char>, name: Seq<char>) -> TreeModel {
    TreeModel {
        locations: Seq::new(
            5,
            |j: int| export_location(t.locations[j], spec_to(j, target_tree, name)),
        ),
        ..t
    }
}

} // verus!
