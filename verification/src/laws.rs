//! What holds of every run of the loader.
//!
//! A run is any sequence of requests and reports, in any order and of any
//! length, fed to one loader. The laws here speak of the state the loader is
//! in after part of a run and of the answers it gave along the way.

use crate::loader::{begin, step, ActionView, EventView, Failure, Model, Phase};
use crate::locate::{spec_sibling_path, Strategy};
use crate::operation::{
    law_index_round_trip, law_places_are_the_operations, Operation, OPERATION_COUNT,
};
use crate::table::complete;
use vstd::prelude::*;

verus! {

/// One thing that can happen to a loader: somebody asks for the shim to be
/// made ready, or the outcome of some outside work is reported.
pub enum Input {
    Request,
    Report(EventView),
}

/// The loader's reaction to one input: its next state and its answer.
pub open spec fn react(m: Model, input: Input) -> (Model, ActionView) {
    match input {
        Input::Request => begin(m),
        Input::Report(event) => step(m, event),
    }
}

/// The state of a loader that started as `m`, after the first `n` inputs.
pub open spec fn state_after(m: Model, inputs: Seq<Input>, n: nat) -> Model
    decreases n,
{
    if n == 0 {
        m
    } else {
        react(state_after(m, inputs, (n - 1) as nat), inputs[n - 1]).0
    }
}

/// The answer a loader that started as `m` gave to input number `i`.
pub open spec fn answer_to(m: Model, inputs: Seq<Input>, i: int) -> ActionView {
    react(state_after(m, inputs, i as nat), inputs[i]).1
}

/// How far a loader has come, as a number that only ever grows.
pub open spec fn progress(m: Model) -> nat {
    match m.phase {
        Phase::Idle => 0,
        Phase::Locating => 1,
        Phase::Canonicalizing => 2,
        Phase::Loading => 3,
        Phase::Binding => 4 + m.bound.len(),
        Phase::Ready => 4 + OPERATION_COUNT as nat,
        Phase::Failed(_) => 5 + OPERATION_COUNT as nat,
    }
}

/// Whether an answer asks for outside work.
pub open spec fn asks_for_work(a: ActionView) -> bool {
    a is FindSelf || a is Canonicalize || a is LoadFile || a is LoadNamed || a is Resolve
}

/// Whether an answer asks for the library to be loaded.
pub open spec fn asks_to_load(a: ActionView) -> bool {
    a is LoadFile || a is LoadNamed
}

/// The progress a loader has made when it gives an answer that asks for
/// outside work.
pub open spec fn stage(a: ActionView) -> nat {
    match a {
        ActionView::FindSelf => 1,
        ActionView::Canonicalize(_) => 2,
        ActionView::LoadFile => 3,
        ActionView::LoadNamed(_) => 3,
        ActionView::Resolve(operation) => 4 + operation.spec_index(),
        _ => 0,
    }
}

/// A reaction leaves the loader in one of the states a loader can be in.
pub proof fn law_reaction_keeps_well_formed(m: Model, input: Input)
    requires
        m.wf(),
    ensures
        react(m, input).0.wf(),
{
    law_places_are_the_operations(m.bound.len() as int);
    law_places_are_the_operations(m.bound.len() as int + 1);
}

/// A loader never goes back, and whenever it asks for outside work it has
/// just moved forward to the stage of that work.
pub proof fn law_reaction_moves_forward(m: Model, input: Input)
    requires
        m.wf(),
    ensures
        progress(m) <= progress(react(m, input).0),
        asks_for_work(react(m, input).1) ==> progress(m) < stage(react(m, input).1) && stage(
            react(m, input).1,
        ) == progress(react(m, input).0),
{
    law_places_are_the_operations(m.bound.len() as int);
    law_places_are_the_operations(m.bound.len() as int + 1);
}

/// When the loader asks for a symbol, it is the symbol of the operation
/// whose address is the next to be stored.
pub proof fn law_asked_symbol_is_next(m: Model, input: Input)
    requires
        m.wf(),
    ensures
        react(m, input).1 matches ActionView::Resolve(operation) ==> react(m, input).0.phase
            == Phase::Binding && operation.spec_index() == react(m, input).0.bound.len(),
{
    law_reaction_moves_forward(m, input);
}

/// Every state of a run that starts well-formed is well-formed.
pub proof fn law_run_keeps_well_formed(m: Model, inputs: Seq<Input>, n: nat)
    requires
        m.wf(),
    ensures
        state_after(m, inputs, n).wf(),
    decreases n,
{
    if n > 0 {
        law_run_keeps_well_formed(m, inputs, (n - 1) as nat);
        law_reaction_keeps_well_formed(state_after(m, inputs, (n - 1) as nat), inputs[n - 1]);
    }
}

/// Along a run a loader never goes back.
pub proof fn law_run_moves_forward(m: Model, inputs: Seq<Input>, earlier: nat, later: nat)
    requires
        m.wf(),
        earlier <= later,
    ensures
        progress(state_after(m, inputs, earlier)) <= progress(state_after(m, inputs, later)),
    decreases later,
{
    if earlier < later {
        let before = (later - 1) as nat;
        law_run_moves_forward(m, inputs, earlier, before);
        law_run_keeps_well_formed(m, inputs, before);
        law_reaction_moves_forward(state_after(m, inputs, before), inputs[later - 1]);
    }
}

/// No outside work is asked for twice.
///
/// Of any two answers of one run that ask for outside work, the later one
/// belongs to a later stage. So however many requests and reports arrive,
/// and in whatever order, the shim's own place is looked up at most once,
/// the path is resolved at most once, the library is loaded at most once and
/// each symbol is resolved at most once.
pub proof fn law_work_is_asked_once(strategy: Strategy, inputs: Seq<Input>, i: int, j: int)
    requires
        0 <= i < j < inputs.len(),
    ensures
        ({
            let first = answer_to(Model::fresh(strategy), inputs, i);
            let second = answer_to(Model::fresh(strategy), inputs, j);
            &&& asks_for_work(first) && asks_for_work(second) ==> stage(first) < stage(second)
            &&& asks_to_load(first) ==> !asks_to_load(second)
            &&& first is Resolve && second is Resolve ==> first != second
        }),
{
    let m = Model::fresh(strategy);
    law_run_keeps_well_formed(m, inputs, i as nat);
    law_run_keeps_well_formed(m, inputs, j as nat);
    law_reaction_moves_forward(state_after(m, inputs, i as nat), inputs[i]);
    law_reaction_moves_forward(state_after(m, inputs, j as nat), inputs[j]);
    assert(state_after(m, inputs, (i + 1) as nat) == react(
        state_after(m, inputs, i as nat),
        inputs[i],
    ).0);
    law_run_moves_forward(m, inputs, (i + 1) as nat, j as nat);
}

/// A failure is final.
///
/// Whatever is asked of a failed loader and whatever is reported to it, it
/// stays as it is and answers every time that the process cannot go on, with
/// the failure it first met. Nothing is tried again and no table ever comes
/// of it.
pub proof fn law_failure_is_final(m: Model, inputs: Seq<Input>, n: nat)
    requires
        m.phase is Failed,
        n <= inputs.len(),
    ensures
        state_after(m, inputs, n) == m,
        forall|i: int| 0 <= i < n ==> answer_to(m, inputs, i) == ActionView::Abort(m.phase->0),
    decreases n,
{
    if n > 0 {
        law_failure_is_final(m, inputs, (n - 1) as nat);
        assert forall|i: int| 0 <= i < n implies answer_to(m, inputs, i) == ActionView::Abort(
            m.phase->0,
        ) by {
            law_failure_is_final(m, inputs, i as nat);
        }
    }
}

/// A ready loader stays ready.
///
/// Whatever is asked of it and whatever is reported to it, it keeps its
/// table and answers every time that calls can be forwarded. Being asked
/// again costs nothing and holds no call back: each call that follows is
/// forwarded in its own right.
pub proof fn law_ready_is_stable(m: Model, inputs: Seq<Input>, n: nat)
    requires
        m.phase == Phase::Ready,
        n <= inputs.len(),
    ensures
        state_after(m, inputs, n) == m,
        forall|i: int| 0 <= i < n ==> answer_to(m, inputs, i) == ActionView::Done,
    decreases n,
{
    if n > 0 {
        law_ready_is_stable(m, inputs, (n - 1) as nat);
        assert forall|i: int| 0 <= i < n implies answer_to(m, inputs, i) == ActionView::Done by {
            law_ready_is_stable(m, inputs, i as nat);
        }
    }
}

/// A library that cannot be found or loaded is fatal.
///
/// When the expected path resolves to no file, or the dynamic loader refuses
/// the library, the loader fails at once, and by [`law_failure_is_final`] it
/// then answers every later request and report with the same failure: it
/// never becomes ready.
pub proof fn law_absent_library_is_fatal(m: Model, inputs: Seq<Input>, n: nat)
    requires
        m.phase == Phase::Canonicalizing || m.phase == Phase::Loading,
        n <= inputs.len(),
    ensures
        ({
            let why = if m.phase == Phase::Canonicalizing {
                Failure::PathUnresolved
            } else {
                Failure::LoadFailed
            };
            let report = if m.phase == Phase::Canonicalizing {
                EventView::Canonical(false)
            } else {
                EventView::Loaded(false)
            };
            let (failed, answer) = step(m, report);
            &&& answer == ActionView::Abort(why)
            &&& failed.phase == Phase::Failed(why)
            &&& failed.bound.len() == 0
            &&& state_after(failed, inputs, n) == failed
            &&& forall|i: int| 0 <= i < n ==> answer_to(failed, inputs, i) == ActionView::Abort(why)
        }),
{
    let report = if m.phase == Phase::Canonicalizing {
        EventView::Canonical(false)
    } else {
        EventView::Loaded(false)
    };
    law_failure_is_final(step(m, report).0, inputs, n);
}

/// One missing symbol is fatal, whichever it is.
///
/// When the symbol that was asked for is reported missing, or resolves to
/// the null address, the loader fails at once and names the operation. What
/// had been resolved before is dropped, so no table exists, not even for the
/// operations whose symbols were found. By [`law_failure_is_final`] the
/// loader never becomes ready afterwards.
pub proof fn law_missing_symbol_is_fatal(
    m: Model,
    found: Option<usize>,
    inputs: Seq<Input>,
    n: nat,
)
    requires
        m.wf(),
        m.phase == Phase::Binding,
        found is None || found == Some(0usize),
        n <= inputs.len(),
    ensures
        ({
            let (failed, answer) = step(m, EventView::Symbol(found));
            &&& Operation::spec_from_index(m.bound.len() as int) matches Some(asked)
            &&& answer == ActionView::Abort(Failure::MissingSymbol(asked))
            &&& failed.phase == Phase::Failed(Failure::MissingSymbol(asked))
            &&& failed.bound.len() == 0
            &&& state_after(failed, inputs, n) == failed
            &&& forall|i: int|
                0 <= i < n ==> answer_to(failed, inputs, i) == ActionView::Abort(
                    Failure::MissingSymbol(asked),
                )
        }),
{
    law_places_are_the_operations(m.bound.len() as int);
    law_failure_is_final(step(m, EventView::Symbol(found)).0, inputs, n);
}

/// A loader is ready only with the complete table.
///
/// In every state of every run from a fresh loader: if the loader is ready,
/// it holds one address for each operation and none of them is null; and if
/// it is not ready and not resolving symbols, it holds no address at all.
pub proof fn law_ready_means_complete(strategy: Strategy, inputs: Seq<Input>, n: nat)
    ensures
        ({
            let m = state_after(Model::fresh(strategy), inputs, n);
            &&& m.phase == Phase::Ready ==> complete(m.bound)
            &&& m.phase != Phase::Ready && m.phase != Phase::Binding ==> m.bound.len() == 0
        }),
{
    law_run_keeps_well_formed(Model::fresh(strategy), inputs, n);
}

/// An address, once stored, stays where it is for as long as the loader
/// does not fail.
pub proof fn law_addresses_are_kept(m: Model, inputs: Seq<Input>, n: nat, k: int)
    requires
        m.wf(),
        0 <= k < m.bound.len(),
        !(state_after(m, inputs, n).phase is Failed),
    ensures
        k < state_after(m, inputs, n).bound.len(),
        state_after(m, inputs, n).bound[k] == m.bound[k],
    decreases n,
{
    if n > 0 {
        let before = state_after(m, inputs, (n - 1) as nat);
        law_run_keeps_well_formed(m, inputs, (n - 1) as nat);
        law_places_are_the_operations(before.bound.len() as int);
        law_addresses_are_kept(m, inputs, (n - 1) as nat, k);
    }
}

/// A run can be cut in two: the state after `n` inputs is the state reached
/// from the state after the first `cut` of them by the inputs that follow.
pub proof fn lemma_run_splits(m: Model, inputs: Seq<Input>, cut: nat, n: nat)
    requires
        cut <= n <= inputs.len(),
    ensures
        state_after(m, inputs, n) == state_after(
            state_after(m, inputs, cut),
            inputs.subrange(cut as int, inputs.len() as int),
            (n - cut) as nat,
        ),
    decreases n,
{
    if cut < n {
        lemma_run_splits(m, inputs, cut, (n - 1) as nat);
        let rest = inputs.subrange(cut as int, inputs.len() as int);
        assert(rest[n - cut - 1] == inputs[n - 1]);
    }
}

/// The table holds for each operation the address that was reported for its
/// symbol.
///
/// Take a run from a fresh loader in which the loader asks for the symbol of
/// an operation, the next input reports an address for it, and the loader is
/// ready some time later. Then the table holds exactly that address for
/// exactly that operation.
pub proof fn law_table_holds_what_was_reported(
    strategy: Strategy,
    inputs: Seq<Input>,
    i: int,
    n: nat,
    operation: Operation,
    address: usize,
)
    requires
        0 <= i,
        i + 1 < n <= inputs.len(),
        answer_to(Model::fresh(strategy), inputs, i) == ActionView::Resolve(operation),
        inputs[i + 1] == Input::Report(EventView::Symbol(Some(address))),
        state_after(Model::fresh(strategy), inputs, n).phase == Phase::Ready,
    ensures
        operation.spec_index() < state_after(Model::fresh(strategy), inputs, n).bound.len(),
        state_after(Model::fresh(strategy), inputs, n).bound[operation.spec_index() as int]
            == address,
{
    let start = Model::fresh(strategy);
    let asking = state_after(start, inputs, (i + 1) as nat);
    let told = state_after(start, inputs, (i + 2) as nat);
    let place = operation.spec_index() as int;
    let rest = inputs.subrange(i + 2, inputs.len() as int);

    // When it asks, the loader is resolving symbols and `operation` is next.
    law_run_keeps_well_formed(start, inputs, i as nat);
    law_asked_symbol_is_next(state_after(start, inputs, i as nat), inputs[i]);
    assert(asking == react(state_after(start, inputs, i as nat), inputs[i]).0);
    law_run_keeps_well_formed(start, inputs, (i + 1) as nat);
    law_index_round_trip(operation);

    // The report either stores the address at that place or fails the
    // loader; a failed loader would not be ready later.
    assert(told == react(asking, inputs[i + 1]).0);
    law_run_keeps_well_formed(start, inputs, (i + 2) as nat);
    lemma_run_splits(start, inputs, (i + 2) as nat, n);
    if told.phase is Failed {
        law_failure_is_final(told, rest, (n - (i + 2)) as nat);
    }
    assert(told.bound == asking.bound.push(address));

    // What is stored stays.
    law_addresses_are_kept(told, rest, (n - (i + 2)) as nat, place);
}

/// The inputs of a run in which everything goes well: one request, then a
/// favourable report for everything the loader asks for, with `addresses`
/// as the addresses of the symbols in the order in which they are asked for.
pub open spec fn favourable_run(
    strategy: Strategy,
    own_path: Seq<char>,
    addresses: Seq<usize>,
) -> Seq<Input> {
    let reports = Seq::new(
        addresses.len(),
        |k: int| Input::Report(EventView::Symbol(Some(addresses[k]))),
    );
    match strategy {
        Strategy::BesideShim => seq![
            Input::Request,
            Input::Report(EventView::OwnPath(Some(own_path))),
            Input::Report(EventView::Canonical(true)),
            Input::Report(EventView::Loaded(true)),
        ] + reports,
        Strategy::SearchPath => seq![Input::Request, Input::Report(EventView::Loaded(true))]
            + reports,
    }
}

/// Whether the place of the real library can be told in a favourable run:
/// always when it is found by name, and when it lies beside the shim, if the
/// path of the shim's own binary has a parent directory.
pub open spec fn place_is_known(strategy: Strategy, own_path: Seq<char>) -> bool {
    strategy == Strategy::SearchPath || spec_sibling_path(own_path) is Some
}

/// Where a favourable run stands after the library is loaded and the first
/// `k` symbols are reported.
proof fn lemma_favourable_run_binds(
    strategy: Strategy,
    own_path: Seq<char>,
    addresses: Seq<usize>,
    k: nat,
)
    requires
        complete(addresses),
        place_is_known(strategy, own_path),
        k <= OPERATION_COUNT,
    ensures
        ({
            let inputs = favourable_run(strategy, own_path, addresses);
            let lead: nat = if strategy == Strategy::BesideShim {
                4
            } else {
                2
            };
            state_after(Model::fresh(strategy), inputs, lead + k) == (Model {
                strategy,
                phase: if k < OPERATION_COUNT {
                    Phase::Binding
                } else {
                    Phase::Ready
                },
                bound: addresses.take(k as int),
            })
        }),
    decreases k,
{
    let inputs = favourable_run(strategy, own_path, addresses);
    let lead: nat = if strategy == Strategy::BesideShim {
        4
    } else {
        2
    };
    if k == 0 {
        reveal_with_fuel(state_after, 5);
        assert(addresses.take(0) == Seq::<usize>::empty());
    } else {
        let before = (k - 1) as nat;
        lemma_favourable_run_binds(strategy, own_path, addresses, before);
        law_places_are_the_operations(before as int);
        law_places_are_the_operations(k as int);
        assert(inputs[(lead + before) as int] == Input::Report(
            EventView::Symbol(Some(addresses[before as int])),
        ));
        assert(addresses.take(before as int).push(addresses[before as int]) == addresses.take(
            k as int,
        ));
    }
}

/// A run in which everything goes well ends ready, with exactly the reported
/// addresses as its table.
///
/// This holds for both ways of finding the library and for every choice of
/// fourteen addresses none of which is null. The one thing that can still
/// stand in the way is a path of the shim's own binary that has no parent
/// directory: then the run ends failed, with no table.
pub proof fn law_favourable_run_ends_ready(
    strategy: Strategy,
    own_path: Seq<char>,
    addresses: Seq<usize>,
)
    requires
        complete(addresses),
    ensures
        ({
            let inputs = favourable_run(strategy, own_path, addresses);
            let end = state_after(Model::fresh(strategy), inputs, inputs.len());
            if place_is_known(strategy, own_path) {
                end == (Model { strategy, phase: Phase::Ready, bound: addresses })
            } else {
                end == (Model {
                    strategy,
                    phase: Phase::Failed(Failure::OwnPathUnknown),
                    bound: Seq::empty(),
                })
            }
        }),
{
    let inputs = favourable_run(strategy, own_path, addresses);
    if place_is_known(strategy, own_path) {
        lemma_favourable_run_binds(strategy, own_path, addresses, OPERATION_COUNT as nat);
        assert(addresses.take(OPERATION_COUNT as int) == addresses);
    } else {
        let start = Model::fresh(strategy);
        let failed = Model {
            strategy,
            phase: Phase::Failed(Failure::OwnPathUnknown),
            bound: Seq::empty(),
        };
        // The report of the shim's own path fails the loader ...
        assert(state_after(start, inputs, 2) == failed) by {
            reveal_with_fuel(state_after, 3);
        }
        // ... and nothing that follows changes that.
        lemma_run_splits(start, inputs, 2, inputs.len());
        law_failure_is_final(
            failed,
            inputs.subrange(2, inputs.len() as int),
            (inputs.len() - 2) as nat,
        );
    }
}

} // verus!
