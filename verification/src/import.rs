use vstd::prelude::*;

use crate::errors::Error;
use crate::model::{import_apply, site_of, TreeModel};
use crate::plan::{resolve, spec_from, spec_to, spec_tree_parent, LocationPaths};
use crate::protocol::{Action, Event, SiteState};

verus! {

/// Where an Import stands: which observation or completion report it is
/// waiting for, or the result it finished with.
#[derive(Debug, PartialEq, Eq)]
pub enum ImportPhase {
    /// Waiting for the marker-file observation that validates the source
    /// tree; nothing has been mutated yet.
    AwaitMarkers,
    /// Waiting for the observation of location `index`: the target-side
    /// content and the source-side link site.
    AwaitPair { index: usize },
    /// Waiting for completion of the relink of location `index`.
    AwaitLink { index: usize },
    /// The operation is over, successfully or not.
    Finished { result: Result<(), Error> },
}

/// The Import operation as a decision machine, the reverse of Export: the
/// target tree is the content owner, and each source-side location is
/// (re)created as a directory symbolic link pointing at it. The project
/// identifier is passed in explicitly; when none is known, run discovery
/// (`plan::discover_project`) first.
pub struct ImportMachine {
    /// The project identifier.
    pub name: String,
    /// The game-data root; must pass marker validation before any mutation.
    pub source_tree: String,
    /// The version-control root holding the content.
    pub target_tree: String,
    /// The five planned locations, in fixed processing order.
    pub locations: Vec<LocationPaths>,
    pub phase: ImportPhase,
}

impl ImportMachine {
    /// The machine's invariant: the path table is the planner's output for
    /// its identifier and trees, and any location index in play is in
    /// range.
    pub open spec fn wf(self) -> bool {
        &&& self.locations@.len() == 5
        &&& forall|i: int|
            0 <= i < 5 ==> (#[trigger] self.locations@[i]).from@ == spec_from(
                i,
                self.source_tree@,
                self.name@,
            )
        &&& forall|i: int|
            0 <= i < 5 ==> (#[trigger] self.locations@[i]).to@ == spec_to(
                i,
                self.target_tree@,
                self.name@,
            )
        &&& forall|i: int|
            0 <= i < 5 ==> (#[trigger] self.locations@[i]).to_parent@ == spec_tree_parent(
                i,
                self.target_tree@,
            )
        &&& match self.phase {
            ImportPhase::AwaitPair { index } => index < 5,
            ImportPhase::AwaitLink { index } => index < 5,
            _ => true,
        }
    }

    /// Which events answer the machine's current phase.
    pub open spec fn accepts(self, ev: Event) -> bool {
        match (self.phase, ev) {
            (ImportPhase::AwaitMarkers, Event::Markers { .. }) => true,
            (ImportPhase::AwaitPair { .. }, Event::Pair { .. }) => true,
            (ImportPhase::AwaitLink { .. }, Event::Applied) => true,
            (ImportPhase::AwaitLink { .. }, Event::Failed { .. }) => true,
            _ => false,
        }
    }

    /// Starts an Import of project `name` (a non-empty identifier, found by
    /// discovery when the caller knows none) from `target_tree` back under
    /// `source_tree`. The first action asks for the marker observation:
    /// nothing is mutated before validation has passed.
    pub fn new(name: String, source_tree: String, target_tree: String) -> (r: (
        ImportMachine,
        Action,
    ))
        requires
            name@.len() > 0,
        ensures
            r.0.wf(),
            r.0.name@ == name@,
            r.0.source_tree@ == source_tree@,
            r.0.target_tree@ == target_tree@,
            r.0.phase == ImportPhase::AwaitMarkers,
            r.1 == Action::ProbeMarkers,
    {
        let locations = resolve(&name, &source_tree, &target_tree);
        (
            ImportMachine {
                name,
                source_tree,
                target_tree,
                locations,
                phase: ImportPhase::AwaitMarkers,
            },
            Action::ProbeMarkers,
        )
    }

    /// Feeds one observation or completion report into the machine and
    /// returns the updated machine with its next instruction.
    pub fn step(self, ev: Event) -> (r: (ImportMachine, Action))
        requires
            self.accepts(ev),
            self.wf(),
        ensures
            r == import_step_spec(self, ev),
            r.0.wf(),
    {
        let ImportMachine { name, source_tree, target_tree, locations, phase } = self;
        let (phase2, action) = match (&phase, ev) {
            (ImportPhase::AwaitMarkers, Event::Markers { assets, gustav, dice }) => {
                if assets && gustav && dice {
                    (ImportPhase::AwaitPair { index: 0 }, Action::ProbePair { index: 0 })
                } else {
                    (
                        ImportPhase::Finished {
                            result: Err(Error::InvalidSourceTree { tree: source_tree.clone() }),
                        },
                        Action::Halt,
                    )
                }
            },
            (ImportPhase::AwaitPair { index }, Event::Pair { content_present, site }) => {
                let i = *index;
                if !content_present {
                    (
                        ImportPhase::Finished {
                            result: Err(Error::SourceMissing { path: locations[i].to.clone() }),
                        },
                        Action::Halt,
                    )
                } else {
                    match site {
                        SiteState::Occupied => (
                            ImportPhase::Finished {
                                result: Err(
                                    Error::DestinationConflict {
                                        path: locations[i].from.clone(),
                                    },
                                ),
                            },
                            Action::Halt,
                        ),
                        SiteState::Removable => (
                            ImportPhase::AwaitLink { index: i },
                            Action::Link { index: i, remove_site: true },
                        ),
                        SiteState::Absent => (
                            ImportPhase::AwaitLink { index: i },
                            Action::Link { index: i, remove_site: false },
                        ),
                    }
                }
            },
            (ImportPhase::AwaitLink { index }, Event::Applied) => {
                let i = *index;
                if i < 4 {
                    (ImportPhase::AwaitPair { index: i + 1 }, Action::ProbePair { index: i + 1 })
                } else {
                    (ImportPhase::Finished { result: Ok(()) }, Action::Halt)
                }
            },
            (ImportPhase::AwaitLink { .. }, Event::Failed { path }) => {
                (
                    ImportPhase::Finished { result: Err(Error::Filesystem { path }) },
                    Action::Halt,
                )
            },
            _ => {
                proof {
                    assert(false);
                }
                (ImportPhase::AwaitMarkers, Action::Halt)
            },
        };
        (ImportMachine { name, source_tree, target_tree, locations, phase: phase2 }, action)
    }
}

/// `m` with another phase, everything else unchanged.
pub open spec fn import_with_phase(m: ImportMachine, phase: ImportPhase) -> ImportMachine {
    ImportMachine { phase, ..m }
}

/// The machine's whole transition function: what `step` returns.
pub open spec fn import_step_spec(m: ImportMachine, ev: Event) -> (ImportMachine, Action) {
    match (m.phase, ev) {
        (ImportPhase::AwaitMarkers, Event::Markers { assets, gustav, dice }) => {
            if assets && gustav && dice {
                (
                    import_with_phase(m, ImportPhase::AwaitPair { index: 0 }),
                    Action::ProbePair { index: 0 },
                )
            } else {
                (
                    import_with_phase(
                        m,
                        ImportPhase::Finished {
                            result: Err(Error::InvalidSourceTree { tree: m.source_tree }),
                        },
                    ),
                    Action::Halt,
                )
            }
        },
        (ImportPhase::AwaitPair { index }, Event::Pair { content_present, site }) => {
            if !content_present {
                (
                    import_with_phase(
                        m,
                        ImportPhase::Finished {
                            result: Err(
                                Error::SourceMissing { path: m.locations@[index as int].to },
                            ),
                        },
                    ),
                    Action::Halt,
                )
            } else if site is Occupied {
                (
                    import_with_phase(
                        m,
                        ImportPhase::Finished {
                            result: Err(
                                Error::DestinationConflict {
                                    path: m.locations@[index as int].from,
                                },
                            ),
                        },
                    ),
                    Action::Halt,
                )
            } else {
                (
                    import_with_phase(m, ImportPhase::AwaitLink { index }),
                    Action::Link { index, remove_site: site is Removable },
                )
            }
        },
        (ImportPhase::AwaitLink { index }, Event::Applied) => {
            if index < 4 {
                (
                    import_with_phase(m, ImportPhase::AwaitPair { index: (index + 1) as usize }),
                    Action::ProbePair { index: (index + 1) as usize },
                )
            } else {
                (import_with_phase(m, ImportPhase::Finished { result: Ok(()) }), Action::Halt)
            }
        },
        (ImportPhase::AwaitLink { .. }, Event::Failed { path }) => (
            import_with_phase(m, ImportPhase::Finished { result: Err(Error::Filesystem { path }) }),
            Action::Halt,
        ),
        _ => (m, Action::Halt),
    }
}

/// How many steps an Import still has before it, at worst.
pub open spec fn import_measure(phase: ImportPhase) -> nat {
    match phase {
        ImportPhase::AwaitMarkers => 13,
        ImportPhase::AwaitPair { index } => 2 + 2 * crate::export::location_rank(index),
        ImportPhase::AwaitLink { index } => 1 + 2 * crate::export::location_rank(index),
        ImportPhase::Finished { .. } => 0,
    }
}

/// What a faithful shell answers in the machine's current phase against
/// the modelled trees `t`: observations report what the model holds, and
/// every mutation succeeds.
pub open spec fn import_faithful_event(t: TreeModel, m: ImportMachine) -> Event {
    match m.phase {
        ImportPhase::AwaitMarkers => Event::Markers {
            assets: t.assets,
            gustav: t.gustav,
            dice: t.dice,
        },
        ImportPhase::AwaitPair { index } => Event::Pair {
            content_present: t.locations[index as int].target is Dir,
            site: site_of(t.locations[index as int].source),
        },
        ImportPhase::AwaitLink { .. } => Event::Applied,
        ImportPhase::Finished { .. } => Event::Applied,
    }
}

/// What the faithful shell's work in the current phase does to the
/// modelled trees: the relink of a location when it is due, nothing
/// otherwise.
pub open spec fn import_effect(t: TreeModel, m: ImportMachine) -> TreeModel {
    match m.phase {
        ImportPhase::AwaitLink { index } => TreeModel {
            locations: t.locations.update(
                index as int,
                import_apply(t.locations[index as int], m.locations@[index as int].to@),
            ),
            ..t
        },
        _ => t,
    }
}

/// A whole Import run against the modelled trees: the faithful shell
/// performs each pending action and reports, the machine decides, until it
/// halts. Returns the trees and the finished machine.
pub open spec fn run_import(t: TreeModel, m: ImportMachine) -> (TreeModel, ImportMachine)
    decreases import_measure(m.phase),
{
    if m.phase is Finished {
        (t, m)
    } else {
        let t2 = import_effect(t, m);
        let ev = import_faithful_event(t, m);
        let m2 = import_step_spec(m, ev).0;
        run_import(t2, m2)
    }
}

} // verus!
