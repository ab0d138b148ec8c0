use vstd::prelude::*;

use crate::errors::Error;
use crate::export::{
    export_faithful_event, export_result, export_step_spec, run_export, with_phase, ExportMachine,
    ExportPhase,
};
use crate::import::{
    import_faithful_event, import_step_spec, import_with_phase, run_import, ImportMachine,
    ImportPhase,
};
use crate::model::{
    export_apply, export_location, foreign_of, import_apply, lemma_export_location_idempotent,
    lemma_export_location_shape, lemma_location_round_trip, loc_wf, remove_keep, site_of, Slot,
    TreeModel,
};
use crate::plan::spec_to;
use crate::protocol::{Event, SiteState};

verus! {

/// The steady-state invariant of the modelled trees for a project `name`
/// owned by `target_tree`: five locations, each in a well-formed state.
pub open spec fn tree_wf(t: TreeModel, target_tree: Seq<char>, name: Seq<char>) -> bool {
    &&& t.locations.len() == 5
    &&& forall|j: int|
        0 <= j < 5 ==> loc_wf(#[trigger] t.locations[j], spec_to(j, target_tree, name))
}

/// No fault is injected anywhere.
pub open spec fn fault_free(faults: Seq<bool>) -> bool {
    &&& faults.len() == 5
    &&& forall|j: int| 0 <= j < 5 ==> !faults[j]
}

/// One location of Export, unfolded: from awaiting the observation of
/// location `i`, a fault-free faithful run performs exactly the
/// per-location transform and moves on (or finishes after the last
/// location).
proof fn lemma_export_one_location(t: TreeModel, m: ExportMachine, faults: Seq<bool>, i: usize)
    requires
        m.phase == (ExportPhase::AwaitSource { index: i }),
        i <= 4,
        t.locations.len() == 5,
        i < faults.len(),
        !faults[i as int],
    ensures
        ({
            let t2 = TreeModel {
                locations: t.locations.update(
                    i as int,
                    export_location(t.locations[i as int], m.locations@[i as int].to@),
                ),
                ..t
            };
            if i < 4 {
                run_export(t, m, faults) == run_export(
                    t2,
                    with_phase(m, ExportPhase::AwaitSource { index: (i + 1) as usize }),
                    faults,
                )
            } else {
                run_export(t, m, faults) == (
                    t2,
                    with_phase(m, ExportPhase::Finished { result: Ok(()) }),
                )
            }
        }),
{
    let ii = i as int;
    let tp = m.locations@[ii].to@;
    let l0 = t.locations[ii];

    let ev0 = export_faithful_event(t, m, faults);
    let m1 = export_step_spec(m, ev0).0;
    assert(run_export(t, m, faults) == run_export(t, m1, faults));

    let t1 = TreeModel { locations: t.locations.update(ii, export_apply(l0, tp)), ..t };
    let ev1 = export_faithful_event(t, m1, faults);
    assert(ev1 == Event::Applied);
    let m2 = export_step_spec(m1, ev1).0;
    assert(run_export(t, m1, faults) == run_export(t1, m2, faults));

    let applied = export_apply(l0, tp);
    assert(t1.locations[ii] == applied);
    let fgn = foreign_of(applied.target);
    let ev2 = export_faithful_event(t1, m2, faults);
    assert(ev2 == (Event::TargetFiles { foreign: fgn }));
    let m3 = export_step_spec(m2, ev2).0;
    assert(run_export(t1, m2, faults) == run_export(t1, m3, faults));

    let t2 = TreeModel { locations: t.locations.update(ii, export_location(l0, tp)), ..t };
    if fgn {
        let t1b = TreeModel {
            locations: t1.locations.update(ii, remove_keep(t1.locations[ii])),
            ..t1
        };
        let ev3 = export_faithful_event(t1, m3, faults);
        assert(ev3 == Event::Applied);
        let m4 = export_step_spec(m3, ev3).0;
        assert(run_export(t1, m3, faults) == run_export(t1b, m4, faults));
        assert(t1b.locations =~= t2.locations);
        assert(t1b == t2);
        if i < 4 {
            assert(m4 == with_phase(m, ExportPhase::AwaitSource { index: (i + 1) as usize }));
        } else {
            assert(m4 == with_phase(m, ExportPhase::Finished { result: Ok(()) }));
            assert(run_export(t1b, m4, faults) == (t1b, m4));
        }
    } else {
        assert(t1.locations =~= t2.locations);
        assert(t1 == t2);
        if i < 4 {
            assert(m3 == with_phase(m, ExportPhase::AwaitSource { index: (i + 1) as usize }));
        } else {
            assert(m3 == with_phase(m, ExportPhase::Finished { result: Ok(()) }));
            assert(run_export(t1, m3, faults) == (t1, m3));
        }
    }
}

/// A fault-free faithful Export run, from awaiting location `i` on:
/// locations before `i` stay as they are, the rest are transformed, and
/// the run finishes successfully.
proof fn lemma_export_run_from(t: TreeModel, m: ExportMachine, faults: Seq<bool>, i: usize)
    requires
        m.wf(),
        m.phase == (ExportPhase::AwaitSource { index: i }),
        i <= 4,
        t.locations.len() == 5,
        fault_free(faults),
    ensures
        run_export(t, m, faults) == (
            TreeModel {
                locations: Seq::new(
                    5,
                    |j: int|
                        if j < i {
                            t.locations[j]
                        } else {
                            export_location(t.locations[j], spec_to(j, m.target_tree@, m.name@))
                        },
                ),
                ..t
            },
            with_phase(m, ExportPhase::Finished { result: Ok(()) }),
        ),
    decreases 4 - i,
{
    let ii = i as int;
    let tt = m.target_tree@;
    let nm = m.name@;
    let tp = spec_to(ii, tt, nm);
    assert(m.locations@[ii].to@ == tp);
    lemma_export_one_location(t, m, faults, i);
    let t2 = TreeModel {
        locations: t.locations.update(ii, export_location(t.locations[ii], tp)),
        ..t
    };
    let goal = Seq::new(
        5,
        |j: int|
            if j < ii {
                t.locations[j]
            } else {
                export_location(t.locations[j], spec_to(j, tt, nm))
            },
    );
    if i < 4 {
        let mnext = with_phase(m, ExportPhase::AwaitSource { index: (i + 1) as usize });
        lemma_export_run_from(t2, mnext, faults, (i + 1) as usize);
        let got = Seq::new(
            5,
            |j: int|
                if j < ii + 1 {
                    t2.locations[j]
                } else {
                    export_location(t2.locations[j], spec_to(j, tt, nm))
                },
        );
        assert(got =~= goal);
        assert(TreeModel { locations: got, ..t2 } == TreeModel { locations: goal, ..t });
        assert(with_phase(mnext, ExportPhase::Finished { result: Ok(()) }) == with_phase(
            m,
            ExportPhase::Finished { result: Ok(()) },
        ));
    } else {
        assert(t2.locations =~= goal);
        assert(t2 == TreeModel { locations: goal, ..t });
    }
}

/// VALIDATION GATE, Export half: against a source tree missing any one of
/// the three marker files, a faithful Export run fails with
/// `InvalidSourceTree` and performs zero filesystem mutation — the trees
/// come back exactly as they were.
pub proof fn lemma_export_validation_gate(t: TreeModel, m: ExportMachine, faults: Seq<bool>)
    requires
        m.phase == ExportPhase::AwaitMarkers,
        !(t.assets && t.gustav && t.dice),
    ensures
        run_export(t, m, faults) == (
            t,
            with_phase(
                m,
                ExportPhase::Finished {
                    result: Err(Error::InvalidSourceTree { tree: m.source_tree }),
                },
            ),
        ),
{
    let ev0 = export_faithful_event(t, m, faults);
    let m1 = export_step_spec(m, ev0).0;
    assert(run_export(t, m, faults) == run_export(t, m1, faults));
    assert(run_export(t, m1, faults) == (t, m1));
}

/// A complete, fault-free, faithful Export run from the start: it
/// validates, transforms all five locations in order, and finishes
/// successfully with the trees at `export_result`.
pub proof fn lemma_export_complete(t: TreeModel, m: ExportMachine, faults: Seq<bool>)
    requires
        m.wf(),
        m.phase == ExportPhase::AwaitMarkers,
        t.assets && t.gustav && t.dice,
        t.locations.len() == 5,
        fault_free(faults),
    ensures
        run_export(t, m, faults) == (
            export_result(t, m.target_tree@, m.name@),
            with_phase(m, ExportPhase::Finished { result: Ok(()) }),
        ),
{
    let ev0 = export_faithful_event(t, m, faults);
    let m1 = export_step_spec(m, ev0).0;
    assert(run_export(t, m, faults) == run_export(t, m1, faults));
    assert(m1 == with_phase(m, ExportPhase::AwaitSource { index: 0 }));
    lemma_export_run_from(t, m1, faults, 0);
    let got = Seq::new(
        5,
        |j: int|
            if j < 0 {
                t.locations[j]
            } else {
                export_location(t.locations[j], spec_to(j, m.target_tree@, m.name@))
            },
    );
    assert(got =~= export_result(t, m.target_tree@, m.name@).locations);
    assert(TreeModel { locations: got, ..t } == export_result(t, m.target_tree@, m.name@));
}

/// IDEMPOTENCE: after one successful Export, every location's source side
/// is a symbolic link into the target tree; running Export a second time
/// on the same identifier and trees succeeds and changes nothing — the
/// trees after the second run equal the trees after the first.
pub proof fn lemma_export_idempotent(t: TreeModel, m: ExportMachine, faults: Seq<bool>)
    requires
        m.wf(),
        m.phase == ExportPhase::AwaitMarkers,
        t.assets && t.gustav && t.dice,
        tree_wf(t, m.target_tree@, m.name@),
        fault_free(faults),
    ensures
        ({
            let (t1, m1) = run_export(t, m, faults);
            let (t2, m2) = run_export(t1, m, faults);
            &&& m1.phase == (ExportPhase::Finished { result: Ok::<(), Error>(()) })
            &&& m2.phase == (ExportPhase::Finished { result: Ok::<(), Error>(()) })
            &&& forall|j: int|
                0 <= j < 5 ==> (#[trigger] t1.locations[j]).source == (Slot::Link {
                    to: spec_to(j, m.target_tree@, m.name@),
                })
            &&& t2 == t1
        }),
{
    let tt = m.target_tree@;
    let nm = m.name@;
    lemma_export_complete(t, m, faults);
    let t1 = run_export(t, m, faults).0;
    assert(t1 == export_result(t, tt, nm));
    assert forall|j: int| 0 <= j < 5 implies {
        &&& (#[trigger] t1.locations[j]) == export_location(t.locations[j], spec_to(j, tt, nm))
        &&& t1.locations[j].source == (Slot::Link { to: spec_to(j, tt, nm) })
        &&& loc_wf(t1.locations[j], spec_to(j, tt, nm))
        &&& export_location(t1.locations[j], spec_to(j, tt, nm)) == t1.locations[j]
    } by {
        lemma_export_location_shape(t.locations[j], spec_to(j, tt, nm));
        lemma_export_location_idempotent(t.locations[j], spec_to(j, tt, nm));
    }
    lemma_export_complete(t1, m, faults);
    let t2 = run_export(t1, m, faults).0;
    assert(t2 == export_result(t1, tt, nm));
    assert(t2.locations =~= t1.locations);
    assert(t2 == t1);
}

/// A faithful Export run, from awaiting location `i` on, with the first
/// injected fault at location `k`: locations `i..k` are transformed, the
/// rest stay as they are, and the run fails with the filesystem error.
proof fn lemma_export_run_to_fault(
    t: TreeModel,
    m: ExportMachine,
    faults: Seq<bool>,
    i: usize,
    k: usize,
)
    requires
        m.wf(),
        m.phase == (ExportPhase::AwaitSource { index: i }),
        i <= k <= 4,
        t.locations.len() == 5,
        faults.len() == 5,
        faults[k as int],
        forall|j: int| i <= j < k ==> !faults[j],
    ensures
        run_export(t, m, faults) == (
            TreeModel {
                locations: Seq::new(
                    5,
                    |j: int|
                        if i <= j < k {
                            export_location(t.locations[j], spec_to(j, m.target_tree@, m.name@))
                        } else {
                            t.locations[j]
                        },
                ),
                ..t
            },
            with_phase(
                m,
                ExportPhase::Finished {
                    result: Err(Error::Filesystem { path: m.locations@[k as int].from }),
                },
            ),
        ),
    decreases k - i,
{
    let ii = i as int;
    let tt = m.target_tree@;
    let nm = m.name@;
    let goal = Seq::new(
        5,
        |j: int|
            if ii <= j < k {
                export_location(t.locations[j], spec_to(j, tt, nm))
            } else {
                t.locations[j]
            },
    );
    if i == k {
        let ev0 = export_faithful_event(t, m, faults);
        let m1 = export_step_spec(m, ev0).0;
        assert(run_export(t, m, faults) == run_export(t, m1, faults));
        let ev1 = export_faithful_event(t, m1, faults);
        assert(ev1 == (Event::Failed { path: m.locations@[k as int].from }));
        let m2 = export_step_spec(m1, ev1).0;
        assert(run_export(t, m1, faults) == run_export(t, m2, faults));
        assert(run_export(t, m2, faults) == (t, m2));
        assert(goal =~= t.locations);
        assert((TreeModel { locations: goal, ..t }) =~= t);
    } else {
        assert(m.locations@[ii].to@ == spec_to(ii, tt, nm));
        lemma_export_one_location(t, m, faults, i);
        let t2 = TreeModel {
            locations: t.locations.update(ii, export_location(t.locations[ii], spec_to(ii, tt, nm))),
            ..t
        };
        let mnext = with_phase(m, ExportPhase::AwaitSource { index: (i + 1) as usize });
        lemma_export_run_to_fault(t2, mnext, faults, (i + 1) as usize, k);
        let got = Seq::new(
            5,
            |j: int|
                if ii + 1 <= j < k {
                    export_location(t2.locations[j], spec_to(j, tt, nm))
                } else {
                    t2.locations[j]
                },
        );
        assert(got =~= goal);
        assert((TreeModel { locations: got, ..t2 }) == (TreeModel { locations: goal, ..t }));
    }
}

/// PARTIAL-FAILURE CONTAINMENT: when a filesystem fault is injected at
/// location `k` of an otherwise normal Export, the run fails with the
/// filesystem error, every location before `k` is left fully migrated —
/// source side a symbolic link into the target tree, target side the real
/// directory — and every location after `k` is left completely untouched.
/// (Location `k` itself is left in a state the operator must inspect; in
/// this model each transform is all-or-nothing.)
pub proof fn lemma_partial_failure_containment(
    t: TreeModel,
    m: ExportMachine,
    faults: Seq<bool>,
    k: usize,
)
    requires
        m.wf(),
        m.phase == ExportPhase::AwaitMarkers,
        t.assets && t.gustav && t.dice,
        tree_wf(t, m.target_tree@, m.name@),
        faults.len() == 5,
        k <= 4,
        faults[k as int],
        forall|j: int| 0 <= j < k ==> !faults[j],
    ensures
        ({
            let (t2, m2) = run_export(t, m, faults);
            &&& m2.phase == (ExportPhase::Finished {
                result: Err::<(), Error>(Error::Filesystem { path: m.locations@[k as int].from }),
            })
            &&& t2.locations.len() == 5
            &&& forall|j: int|
                0 <= j < k ==> (#[trigger] t2.locations[j]) == export_location(
                    t.locations[j],
                    spec_to(j, m.target_tree@, m.name@),
                )
            &&& forall|j: int|
                0 <= j < k ==> (#[trigger] t2.locations[j]).source == (Slot::Link {
                    to: spec_to(j, m.target_tree@, m.name@),
                }) && t2.locations[j].target is Dir
            &&& forall|j: int| k < j < 5 ==> (#[trigger] t2.locations[j]) == t.locations[j]
        }),
{
    let tt = m.target_tree@;
    let nm = m.name@;
    let ev0 = export_faithful_event(t, m, faults);
    let m1 = export_step_spec(m, ev0).0;
    assert(run_export(t, m, faults) == run_export(t, m1, faults));
    assert(m1 == with_phase(m, ExportPhase::AwaitSource { index: 0 }));
    lemma_export_run_to_fault(t, m1, faults, 0, k);
    let t2 = run_export(t, m, faults).0;
    assert forall|j: int| 0 <= j < k implies (#[trigger] t2.locations[j]).source == (Slot::Link {
        to: spec_to(j, tt, nm),
    }) && t2.locations[j].target is Dir by {
        lemma_export_location_shape(t.locations[j], spec_to(j, tt, nm));
    }
}

/// The trees after a complete Import: every source-side location a
/// symbolic link at the target-side path, everything else untouched.
pub open spec fn import_result(t: TreeModel, target_tree: Seq<char>, name: Seq<char>) -> TreeModel {
    TreeModel {
        locations: Seq::new(
            5,
            |j: int| import_apply(t.locations[j], spec_to(j, target_tree, name)),
        ),
        ..t
    }
}

/// One location of Import, unfolded: from awaiting the observation of
/// location `i`, a faithful run finds the content present and the site
/// safe, relinks, and moves on (or finishes after the last location).
proof fn lemma_import_one_location(t: TreeModel, m: ImportMachine, i: usize)
    requires
        m.phase == (ImportPhase::AwaitPair { index: i }),
        i <= 4,
        t.locations.len() == 5,
        t.locations[i as int].target is Dir,
        site_of(t.locations[i as int].source) != SiteState::Occupied,
    ensures
        ({
            let t2 = TreeModel {
                locations: t.locations.update(
                    i as int,
                    import_apply(t.locations[i as int], m.locations@[i as int].to@),
                ),
                ..t
            };
            if i < 4 {
                run_import(t, m) == run_import(
                    t2,
                    import_with_phase(m, ImportPhase::AwaitPair { index: (i + 1) as usize }),
                )
            } else {
                run_import(t, m) == (
                    t2,
                    import_with_phase(m, ImportPhase::Finished { result: Ok(()) }),
                )
            }
        }),
{
    let ii = i as int;
    let ev0 = import_faithful_event(t, m);
    let m1 = import_step_spec(m, ev0).0;
    assert(run_import(t, m) == run_import(t, m1));
    let t2 = TreeModel {
        locations: t.locations.update(ii, import_apply(t.locations[ii], m.locations@[ii].to@)),
        ..t
    };
    let ev1 = import_faithful_event(t, m1);
    assert(ev1 == Event::Applied);
    let m2 = import_step_spec(m1, ev1).0;
    assert(run_import(t, m1) == run_import(t2, m2));
    if i < 4 {
        assert(m2 == import_with_phase(m, ImportPhase::AwaitPair { index: (i + 1) as usize }));
    } else {
        assert(m2 == import_with_phase(m, ImportPhase::Finished { result: Ok(()) }));
        assert(run_import(t2, m2) == (t2, m2));
    }
}

/// A faithful Import run, from awaiting location `i` on: locations before
/// `i` stay as they are, the rest are relinked, and the run finishes
/// successfully.
proof fn lemma_import_run_from(t: TreeModel, m: ImportMachine, i: usize)
    requires
        m.wf(),
        m.phase == (ImportPhase::AwaitPair { index: i }),
        i <= 4,
        t.locations.len() == 5,
        forall|j: int| i <= j < 5 ==> (#[trigger] t.locations[j]).target is Dir,
        forall|j: int| i <= j < 5 ==> site_of((#[trigger] t.locations[j]).source)
            != SiteState::Occupied,
    ensures
        run_import(t, m) == (
            TreeModel {
                locations: Seq::new(
                    5,
                    |j: int|
                        if j < i {
                            t.locations[j]
                        } else {
                            import_apply(t.locations[j], spec_to(j, m.target_tree@, m.name@))
                        },
                ),
                ..t
            },
            import_with_phase(m, ImportPhase::Finished { result: Ok(()) }),
        ),
    decreases 4 - i,
{
    let ii = i as int;
    let tt = m.target_tree@;
    let nm = m.name@;
    assert(m.locations@[ii].to@ == spec_to(ii, tt, nm));
    lemma_import_one_location(t, m, i);
    let t2 = TreeModel {
        locations: t.locations.update(ii, import_apply(t.locations[ii], spec_to(ii, tt, nm))),
        ..t
    };
    let goal = Seq::new(
        5,
        |j: int|
            if j < ii {
                t.locations[j]
            } else {
                import_apply(t.locations[j], spec_to(j, tt, nm))
            },
    );
    if i < 4 {
        let mnext = import_with_phase(m, ImportPhase::AwaitPair { index: (i + 1) as usize });
        lemma_import_run_from(t2, mnext, (i + 1) as usize);
        let got = Seq::new(
            5,
            |j: int|
                if j < ii + 1 {
                    t2.locations[j]
                } else {
                    import_apply(t2.locations[j], spec_to(j, tt, nm))
                },
        );
        assert(got =~= goal);
        assert((TreeModel { locations: got, ..t2 }) == (TreeModel { locations: goal, ..t }));
        assert(import_with_phase(mnext, ImportPhase::Finished { result: Ok(()) })
            == import_with_phase(m, ImportPhase::Finished { result: Ok(()) }));
    } else {
        assert(t2.locations =~= goal);
        assert(t2 == (TreeModel { locations: goal, ..t }));
    }
}

/// VALIDATION GATE, Import half: against a source tree missing any one of
/// the three marker files, a faithful Import run fails with
/// `InvalidSourceTree` and performs zero filesystem mutation.
pub proof fn lemma_import_validation_gate(t: TreeModel, m: ImportMachine)
    requires
        m.phase == ImportPhase::AwaitMarkers,
        !(t.assets && t.gustav && t.dice),
    ensures
        run_import(t, m) == (
            t,
            import_with_phase(
                m,
                ImportPhase::Finished {
                    result: Err(Error::InvalidSourceTree { tree: m.source_tree }),
                },
            ),
        ),
{
    let ev0 = import_faithful_event(t, m);
    let m1 = import_step_spec(m, ev0).0;
    assert(run_import(t, m) == run_import(t, m1));
    assert(run_import(t, m1) == (t, m1));
}

/// A complete faithful Import run from the start: it validates, relinks
/// all five locations in order, and finishes successfully with the trees
/// at `import_result`.
pub proof fn lemma_import_complete(t: TreeModel, m: ImportMachine)
    requires
        m.wf(),
        m.phase == ImportPhase::AwaitMarkers,
        t.assets && t.gustav && t.dice,
        t.locations.len() == 5,
        forall|j: int| 0 <= j < 5 ==> (#[trigger] t.locations[j]).target is Dir,
        forall|j: int| 0 <= j < 5 ==> site_of((#[trigger] t.locations[j]).source)
            != SiteState::Occupied,
    ensures
        run_import(t, m) == (
            import_result(t, m.target_tree@, m.name@),
            import_with_phase(m, ImportPhase::Finished { result: Ok(()) }),
        ),
{
    let ev0 = import_faithful_event(t, m);
    let m1 = import_step_spec(m, ev0).0;
    assert(run_import(t, m) == run_import(t, m1));
    assert(m1 == import_with_phase(m, ImportPhase::AwaitPair { index: 0 }));
    lemma_import_run_from(t, m1, 0);
    let got = Seq::new(
        5,
        |j: int|
            if j < 0 {
                t.locations[j]
            } else {
                import_apply(t.locations[j], spec_to(j, m.target_tree@, m.name@))
            },
    );
    assert(got =~= import_result(t, m.target_tree@, m.name@).locations);
    assert((TreeModel { locations: got, ..t }) == import_result(t, m.target_tree@, m.name@));
}

/// ROUND TRIP: Export, then Import, then Export again, all faithful and
/// fault-free, all three succeed; Import restores exactly the state the
/// first Export produced, and the second Export changes nothing. Every
/// source-side location ends as a symbolic link pointing at the same
/// target-side real directory it pointed at after the first Export, and
/// the relocated content is unchanged throughout: whatever payload a
/// location held before the round trip, its target-side directory holds
/// at the end.
pub proof fn lemma_round_trip(
    t: TreeModel,
    me: ExportMachine,
    mi: ImportMachine,
    faults: Seq<bool>,
)
    requires
        me.wf(),
        mi.wf(),
        me.phase == ExportPhase::AwaitMarkers,
        mi.phase == ImportPhase::AwaitMarkers,
        mi.name@ == me.name@,
        mi.source_tree@ == me.source_tree@,
        mi.target_tree@ == me.target_tree@,
        t.assets && t.gustav && t.dice,
        tree_wf(t, me.target_tree@, me.name@),
        fault_free(faults),
    ensures
        ({
            let (t1, m1) = run_export(t, me, faults);
            let (t2, m2) = run_import(t1, mi);
            let (t3, m3) = run_export(t2, me, faults);
            &&& m1.phase == (ExportPhase::Finished { result: Ok::<(), Error>(()) })
            &&& m2.phase == (ImportPhase::Finished { result: Ok::<(), Error>(()) })
            &&& m3.phase == (ExportPhase::Finished { result: Ok::<(), Error>(()) })
            &&& t2 == t1
            &&& t3 == t1
            &&& forall|j: int|
                0 <= j < 5 ==> (#[trigger] t1.locations[j]).source == (Slot::Link {
                    to: spec_to(j, me.target_tree@, me.name@),
                }) && t1.locations[j].target is Dir
            &&& forall|j: int|
                0 <= j < 5 ==> ((#[trigger] t.locations[j]).source is Dir
                    ==> t1.locations[j].target->content == t.locations[j].source->content)
        }),
{
    let tt = me.target_tree@;
    let nm = me.name@;
    lemma_export_complete(t, me, faults);
    let t1 = run_export(t, me, faults).0;
    assert(t1 == export_result(t, tt, nm));
    assert forall|j: int| 0 <= j < 5 implies {
        &&& (#[trigger] t1.locations[j]) == export_location(t.locations[j], spec_to(j, tt, nm))
        &&& t1.locations[j].source == (Slot::Link { to: spec_to(j, tt, nm) })
        &&& t1.locations[j].target is Dir
        &&& site_of(t1.locations[j].source) == SiteState::Removable
        &&& import_apply(t1.locations[j], spec_to(j, tt, nm)) == t1.locations[j]
        &&& export_location(t1.locations[j], spec_to(j, tt, nm)) == t1.locations[j]
        &&& (t.locations[j].source is Dir ==> t1.locations[j].target->content
            == t.locations[j].source->content)
    } by {
        lemma_export_location_shape(t.locations[j], spec_to(j, tt, nm));
        lemma_export_location_idempotent(t.locations[j], spec_to(j, tt, nm));
        lemma_location_round_trip(t.locations[j], spec_to(j, tt, nm));
    }
    lemma_import_complete(t1, mi);
    let t2 = run_import(t1, mi).0;
    assert(t2 == import_result(t1, tt, nm));
    assert(t2.locations =~= t1.locations);
    assert(t2 == t1);
    lemma_export_complete(t2, me, faults);
    let t3 = run_export(t2, me, faults).0;
    assert(t3 == export_result(t1, tt, nm));
    assert(t3.locations =~= t1.locations);
    assert(t3 == t1);
}

} // verus!
