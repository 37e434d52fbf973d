use crate::config::{CompilerChoice, SharedCompilerConfig};
use crate::error::TransferError;
use crate::model::{spares, HandleTable, Step};
use vstd::prelude::*;

verus! {

/// Wrapping into a well-formed table with room leaves it well-formed.
pub proof fn lemma_wrap_keeps_wf(table: HandleTable, config: SharedCompilerConfig)
    requires
        table.wf(),
        table.room(),
    ensures
        table.wrap(config).wf(),
{
    let after = table.wrap(config);
    assert forall|h: usize| #[trigger] after.live.contains_key(h) implies 0 < h < after.next by {
        if h != table.fresh() {
            assert(table.live.contains_key(h));
        }
    }
}

/// Releasing from a well-formed table leaves it well-formed.
pub proof fn lemma_release_keeps_wf(table: HandleTable, handle: usize)
    requires
        table.wf(),
    ensures
        table.release(handle).wf(),
{
    let after = table.release(handle);
    assert forall|h: usize| #[trigger] after.live.contains_key(h) implies 0 < h < after.next by {
        assert(table.live.contains_key(h));
    }
}

/// Round trip: the handle that a configuration is wrapped under resolves to
/// that configuration.
pub proof fn lemma_round_trip(table: HandleTable, config: SharedCompilerConfig)
    requires
        table.wf(),
        table.room(),
    ensures
        table.wrap(config).resolve(table.fresh()) == Ok::<SharedCompilerConfig, TransferError>(config),
        table.wrap(config).select(Some(table.fresh())) == Ok::<CompilerChoice, TransferError>(
            CompilerChoice::Configured(config),
        ),
{
}

/// A live handle is not null, and resolves to the configuration it stands for.
pub proof fn lemma_live_handle_resolves(table: HandleTable, handle: usize, config: SharedCompilerConfig)
    requires
        table.wf(),
        table.holds(handle, config),
    ensures
        handle != 0,
        table.resolve(handle) == Ok::<SharedCompilerConfig, TransferError>(config),
{
}

/// The null handle never resolves, whatever the table holds, and no engine is
/// built from it.
pub proof fn lemma_null_handle_rejected(table: HandleTable)
    ensures
        table.resolve(0) == Err::<SharedCompilerConfig, TransferError>(TransferError::NullHandle),
        table.select(Some(0usize)) == Err::<CompilerChoice, TransferError>(TransferError::NullHandle),
{
}

/// Without a handle the choice is the headless engine, whatever the table holds.
pub proof fn lemma_headless_default(table: HandleTable)
    ensures
        table.select(None) == Ok::<CompilerChoice, TransferError>(CompilerChoice::Headless),
{
}

/// Isolation, one step: a configuration wrapped while `handle` is live gets
/// another handle, and both are live afterwards, each with its own configuration.
pub proof fn lemma_wrap_is_isolated(
    table: HandleTable,
    handle: usize,
    config: SharedCompilerConfig,
    other: SharedCompilerConfig,
)
    requires
        table.wf(),
        table.room(),
        table.holds(handle, config),
    ensures
        table.fresh() != handle,
        table.wrap(other).holds(handle, config),
        table.wrap(other).holds(table.fresh(), other),
{
}

/// Releasing one carrier leaves every other live handle as it was.
pub proof fn lemma_release_spares_others(
    table: HandleTable,
    released: usize,
    handle: usize,
    config: SharedCompilerConfig,
)
    requires
        table.holds(handle, config),
        released != handle,
    ensures
        table.release(released).holds(handle, config),
{
}

/// Releasing a handle that is not live changes nothing.
pub proof fn lemma_release_of_dead_handle(table: HandleTable, handle: usize)
    requires
        !table.live.contains_key(handle),
    ensures
        table.release(handle) == table,
{
    assert(table.live.remove(handle) =~= table.live);
}

/// The handle of a released carrier is retired: it resolves no longer.
pub proof fn lemma_released_is_retired(table: HandleTable, handle: usize)
    requires
        table.wf(),
        table.live.contains_key(handle),
    ensures
        table.release(handle).retired(handle),
        table.release(handle).resolve(handle) == Err::<SharedCompilerConfig, TransferError>(
            TransferError::UnknownHandle,
        ),
{
}

/// Whatever steps a registry takes, it stays well-formed and its next handle
/// does not fall.
pub proof fn lemma_run_keeps_wf(table: HandleTable, steps: Seq<Step>)
    requires
        table.wf(),
        table.admits(steps),
    ensures
        table.run(steps).wf(),
        table.run(steps).next >= table.next,
    decreases steps.len(),
{
    if steps.len() > 0 {
        let before = table.run(steps.drop_last());
        lemma_run_keeps_wf(table, steps.drop_last());
        match steps.last() {
            Step::Wrap(config) => lemma_wrap_keeps_wf(before, config),
            Step::Release(handle) => lemma_release_keeps_wf(before, handle),
        }
    }
}

/// A live handle stays live, with its configuration, through every step that
/// does not release it.
pub proof fn lemma_run_keeps_live(
    table: HandleTable,
    steps: Seq<Step>,
    handle: usize,
    config: SharedCompilerConfig,
)
    requires
        table.wf(),
        table.admits(steps),
        table.holds(handle, config),
        spares(steps, handle),
    ensures
        table.run(steps).holds(handle, config),
    decreases steps.len(),
{
    if steps.len() > 0 {
        let earlier = steps.drop_last();
        let before = table.run(earlier);
        assert forall|i: int| 0 <= i < earlier.len() implies #[trigger] earlier[i] != Step::Release(
            handle,
        ) by {
            assert(earlier[i] == steps[i]);
        }
        lemma_run_keeps_live(table, earlier, handle, config);
        lemma_run_keeps_wf(table, earlier);
        assert(steps.last() == steps[steps.len() - 1]);
        match steps.last() {
            Step::Wrap(other) => lemma_wrap_is_isolated(before, handle, config, other),
            Step::Release(released) => lemma_release_spares_others(before, released, handle, config),
        }
    }
}

/// A retired handle stays retired through every step: it is not given out
/// again, and it resolves never again.
pub proof fn lemma_run_keeps_retired(table: HandleTable, steps: Seq<Step>, handle: usize)
    requires
        table.wf(),
        table.admits(steps),
        table.retired(handle),
    ensures
        table.run(steps).retired(handle),
        table.run(steps).resolve(handle) == Err::<SharedCompilerConfig, TransferError>(
            TransferError::UnknownHandle,
        ),
    decreases steps.len(),
{
    if steps.len() > 0 {
        lemma_run_keeps_retired(table, steps.drop_last(), handle);
        lemma_run_keeps_wf(table, steps.drop_last());
    }
}

/// Isolation: two configurations wrapped one after the other, with any steps
/// between them that leave the first alive, get different handles, and each
/// handle resolves to its own configuration.
pub proof fn lemma_isolation(
    table: HandleTable,
    first: SharedCompilerConfig,
    steps: Seq<Step>,
    second: SharedCompilerConfig,
)
    requires
        table.wf(),
        table.room(),
        table.wrap(first).admits(steps),
        spares(steps, table.fresh()),
        table.wrap(first).run(steps).room(),
    ensures
        ({
            let between = table.wrap(first).run(steps);
            let after = between.wrap(second);
            &&& between.fresh() != table.fresh()
            &&& after.resolve(table.fresh()) == Ok::<SharedCompilerConfig, TransferError>(first)
            &&& after.resolve(between.fresh()) == Ok::<SharedCompilerConfig, TransferError>(second)
        }),
{
    let start = table.wrap(first);
    let between = start.run(steps);
    lemma_wrap_keeps_wf(table, first);
    lemma_run_keeps_wf(start, steps);
    lemma_run_keeps_live(start, steps, table.fresh(), first);
    lemma_wrap_is_isolated(between, table.fresh(), first, second);
}

} // verus!
