//! Lazy loading of the real library, as a state machine.
//!
//! The loader never touches the operating system. It is told what happened
//! (an [`Event`]) and answers with what is to be done next (an [`Action`]).
//! The caller carries the action out and reports back, until the loader says
//! [`Action::Done`] or [`Action::Abort`].

use crate::locate::{sibling_path, spec_sibling_path, Strategy, LIBRARY_NAME};
use crate::operation::{Operation, OPERATION_COUNT};
use crate::table::{complete, SymbolTable};
use vstd::prelude::*;

verus! {

/// Why loading failed. Every failure is final.
#[derive(Clone, Copy, Debug, PartialEq, Eq, Structural)]
pub enum Failure {
    /// The platform could not name the file that backs the shim, or that
    /// file's path has no parent directory.
    OwnPathUnknown,
    /// The expected path of the real library does not resolve to a file.
    PathUnresolved,
    /// The dynamic loader refused the library.
    LoadFailed,
    /// The library does not export this entry point.
    MissingSymbol(Operation),
    /// A report arrived that answers no request the loader had made.
    OutOfTurn,
}

/// How far loading has come.
#[derive(Clone, Copy, Debug, PartialEq, Eq, Structural)]
pub enum Phase {
    /// Nothing has been asked for yet.
    Idle,
    /// Waiting to learn where the shim's own binary lies.
    Locating,
    /// Waiting to learn whether the expected path resolves to a file.
    Canonicalizing,
    /// Waiting for the dynamic loader.
    Loading,
    /// The library is loaded; its symbols are being resolved in order.
    Binding,
    /// Every symbol is resolved.
    Ready,
    /// Loading failed and will not be tried again.
    Failed(Failure),
}

/// What the caller reports to the loader.
#[derive(Debug, PartialEq, Eq)]
pub enum Event {
    /// The path of the file that backs the shim, if the platform could tell.
    OwnPath(Option<String>),
    /// Whether the expected path resolved to an existing file.
    Canonical(bool),
    /// Whether the dynamic loader accepted the library.
    Loaded(bool),
    /// The address a symbol resolved to, if the library exports it.
    Symbol(Option<usize>),
}

/// What the loader asks the caller to do.
#[derive(Debug, PartialEq, Eq)]
pub enum Action {
    /// Find the file that backs the shim and report [`Event::OwnPath`].
    FindSelf,
    /// Resolve this path to its canonical form and report
    /// [`Event::Canonical`].
    Canonicalize(String),
    /// Load the file at the canonical path just found and report
    /// [`Event::Loaded`].
    LoadFile,
    /// Load the library of this name through the platform's search order and
    /// report [`Event::Loaded`].
    LoadNamed(String),
    /// Resolve this operation's symbol in the loaded library and report
    /// [`Event::Symbol`].
    Resolve(Operation),
    /// Loading is under way; block until it has finished.
    Wait,
    /// The table is complete; calls can be forwarded.
    Done,
    /// Loading failed for good; the process cannot go on.
    Abort(Failure),
}

/// [`Event`] over mathematical values.
pub enum EventView {
    OwnPath(Option<Seq<char>>),
    Canonical(bool),
    Loaded(bool),
    Symbol(Option<usize>),
}

/// [`Action`] over mathematical values.
pub enum ActionView {
    FindSelf,
    Canonicalize(Seq<char>),
    LoadFile,
    LoadNamed(Seq<char>),
    Resolve(Operation),
    Wait,
    Done,
    Abort(Failure),
}

impl View for Event {
    type V = EventView;

    open spec fn view(&self) -> EventView {
        match self {
            Event::OwnPath(Some(path)) => EventView::OwnPath(Some(path@)),
            Event::OwnPath(None) => EventView::OwnPath(None),
            Event::Canonical(found) => EventView::Canonical(*found),
            Event::Loaded(accepted) => EventView::Loaded(*accepted),
            Event::Symbol(address) => EventView::Symbol(*address),
        }
    }
}

impl View for Action {
    type V = ActionView;

    open spec fn view(&self) -> ActionView {
        match self {
            Action::FindSelf => ActionView::FindSelf,
            Action::Canonicalize(path) => ActionView::Canonicalize(path@),
            Action::LoadFile => ActionView::LoadFile,
            Action::LoadNamed(name) => ActionView::LoadNamed(name@),
            Action::Resolve(operation) => ActionView::Resolve(*operation),
            Action::Wait => ActionView::Wait,
            Action::Done => ActionView::Done,
            Action::Abort(why) => ActionView::Abort(*why),
        }
    }
}

/// The loader as a mathematical value.
pub struct Model {
    pub strategy: Strategy,
    pub phase: Phase,
    /// Addresses of the symbols resolved so far, in resolution order.
    pub bound: Seq<usize>,
}

impl Model {
    /// A loader that has not been asked for anything.
    pub open spec fn fresh(strategy: Strategy) -> Model {
        Model { strategy, phase: Phase::Idle, bound: Seq::empty() }
    }

    /// The states a loader can be in. Addresses are held only while symbols
    /// are being resolved and after; none of them is null; and a ready
    /// loader holds the complete table. In particular a failed loader holds
    /// nothing: there is no partly resolved table.
    pub open spec fn wf(self) -> bool {
        &&& forall|i: int| 0 <= i < self.bound.len() ==> self.bound[i] != 0
        &&& match self.phase {
            Phase::Binding => self.bound.len() < OPERATION_COUNT,
            Phase::Ready => self.bound.len() == OPERATION_COUNT,
            _ => self.bound.len() == 0,
        }
    }

    /// This loader, failed.
    pub open spec fn failed(self, why: Failure) -> (Model, ActionView) {
        (
            Model { strategy: self.strategy, phase: Phase::Failed(why), bound: Seq::empty() },
            ActionView::Abort(why),
        )
    }

    /// This loader in another phase, holding nothing.
    pub open spec fn entering(self, phase: Phase) -> Model {
        Model { strategy: self.strategy, phase, bound: Seq::empty() }
    }
}

/// What a request to make the shim ready does.
///
/// Only the first request starts anything. While loading is under way a
/// request is told to wait; after it, the same answer is given every time.
pub open spec fn begin(m: Model) -> (Model, ActionView) {
    match m.phase {
        Phase::Idle => match m.strategy {
            Strategy::BesideShim => (m.entering(Phase::Locating), ActionView::FindSelf),
            Strategy::SearchPath => (
                m.entering(Phase::Loading),
                ActionView::LoadNamed(LIBRARY_NAME@),
            ),
        },
        Phase::Ready => (m, ActionView::Done),
        Phase::Failed(why) => (m, ActionView::Abort(why)),
        _ => (m, ActionView::Wait),
    }
}

/// What the loader does once it knows where the real library is expected,
/// or that its own place could not be told.
pub open spec fn settle(m: Model, sibling: Option<Seq<char>>) -> (Model, ActionView) {
    match m.phase {
        Phase::Ready => (m, ActionView::Done),
        Phase::Failed(why) => (m, ActionView::Abort(why)),
        Phase::Locating => match sibling {
            Some(path) => (m.entering(Phase::Canonicalizing), ActionView::Canonicalize(path)),
            None => m.failed(Failure::OwnPathUnknown),
        },
        _ => m.failed(Failure::OutOfTurn),
    }
}

/// What the loader does with the answer for the symbol it asked for.
///
/// An address that is null counts as missing: there is nothing to forward
/// to. The first missing symbol fails the loader and what had been resolved
/// is dropped.
pub open spec fn bind(m: Model, found: Option<usize>) -> (Model, ActionView) {
    match Operation::spec_from_index(m.bound.len() as int) {
        Some(asked) => {
            if found is Some && found->0 != 0 {
                let bound = m.bound.push(found->0);
                match Operation::spec_from_index(bound.len() as int) {
                    Some(next) => (
                        Model { strategy: m.strategy, phase: Phase::Binding, bound },
                        ActionView::Resolve(next),
                    ),
                    None => (
                        Model { strategy: m.strategy, phase: Phase::Ready, bound },
                        ActionView::Done,
                    ),
                }
            } else {
                m.failed(Failure::MissingSymbol(asked))
            }
        },
        None => m.failed(Failure::OutOfTurn),
    }
}

/// What the loader does with a report.
///
/// A report is accepted only in the phase that asked for it. A ready or
/// failed loader ignores every report and repeats its verdict; in any other
/// phase a report that was not asked for fails the loader.
pub open spec fn step(m: Model, e: EventView) -> (Model, ActionView) {
    match (m.phase, e) {
        (Phase::Ready, _) => (m, ActionView::Done),
        (Phase::Failed(why), _) => (m, ActionView::Abort(why)),
        (_, EventView::OwnPath(Some(own_path))) => settle(m, spec_sibling_path(own_path)),
        (_, EventView::OwnPath(None)) => settle(m, None),
        (Phase::Canonicalizing, EventView::Canonical(true)) => (
            m.entering(Phase::Loading),
            ActionView::LoadFile,
        ),
        (Phase::Canonicalizing, EventView::Canonical(false)) => m.failed(
            Failure::PathUnresolved,
        ),
        (Phase::Loading, EventView::Loaded(true)) => (
            m.entering(Phase::Binding),
            ActionView::Resolve(Operation::Create),
        ),
        (Phase::Loading, EventView::Loaded(false)) => m.failed(Failure::LoadFailed),
        (Phase::Binding, EventView::Symbol(found)) => bind(m, found),
        _ => m.failed(Failure::OutOfTurn),
    }
}

/// The state of lazy loading.
pub struct Loader {
    strategy: Strategy,
    phase: Phase,
    bound: Vec<usize>,
}

impl View for Loader {
    type V = Model;

    closed spec fn view(&self) -> Model {
        Model { strategy: self.strategy, phase: self.phase, bound: self.bound@ }
    }
}

impl Loader {
    #[verifier::type_invariant]
    spec fn well_formed(self) -> bool {
        self@.wf()
    }

    /// A loader that has not been asked for anything.
    pub fn new(strategy: Strategy) -> (loader: Loader)
        ensures
            loader@ == Model::fresh(strategy),
            loader@.wf(),
    {
        Loader { strategy, phase: Phase::Idle, bound: Vec::new() }
    }

    /// How far loading has come.
    pub fn phase(&self) -> (phase: Phase)
        ensures
            phase == self@.phase,
            self@.wf(),
    {
        proof {
            use_type_invariant(self);
        }
        self.phase
    }

    fn fail(strategy: Strategy, why: Failure) -> (out: (Loader, Action))
        ensures
            out.0@ == (Model { strategy, phase: Phase::Failed(why), bound: Seq::empty() }),
            out.1@ == ActionView::Abort(why),
    {
        (Loader { strategy, phase: Phase::Failed(why), bound: Vec::new() }, Action::Abort(why))
    }

    fn enter(strategy: Strategy, phase: Phase) -> (loader: Loader)
        requires
            phase !is Ready,
        ensures
            loader@ == (Model { strategy, phase, bound: Seq::empty() }),
    {
        Loader { strategy, phase, bound: Vec::new() }
    }

    /// Continues once the place of the real library is known: `sibling` is
    /// the path at which it is expected, or nothing if the shim's own place
    /// could not be told.
    pub fn expect_at(self, sibling: Option<String>) -> (out: (Loader, Action))
        ensures
            sibling matches Some(path) ==> (out.0@, out.1@) == settle(self@, Some(path@)),
            sibling is None ==> (out.0@, out.1@) == settle(self@, None),
            out.0@.wf(),
    {
        proof {
            use_type_invariant(&self);
        }
        match self.phase {
            Phase::Ready => (self, Action::Done),
            Phase::Failed(why) => (self, Action::Abort(why)),
            Phase::Locating => match sibling {
                Some(path) => (
                    Self::enter(self.strategy, Phase::Canonicalizing),
                    Action::Canonicalize(path),
                ),
                None => Self::fail(self.strategy, Failure::OwnPathUnknown),
            },
            _ => Self::fail(self.strategy, Failure::OutOfTurn),
        }
    }

    /// Takes the answer for the symbol that was asked for.
    fn bind_next(self, found: Option<usize>) -> (out: (Loader, Action))
        requires
            self@.phase == Phase::Binding,
        ensures
            (out.0@, out.1@) == bind(self@, found),
            out.0@.wf(),
    {
        proof {
            use_type_invariant(&self);
        }
        let Loader { strategy, phase, bound } = self;
        let mut bound = bound;
        let address: usize = match found {
            Some(address) => address,
            None => 0,
        };
        match Operation::from_index(bound.len()) {
            Some(asked) => {
                if address != 0 {
                    bound.push(address);
                    match Operation::from_index(bound.len()) {
                        Some(next) => (
                            Loader { strategy, phase: Phase::Binding, bound },
                            Action::Resolve(next),
                        ),
                        None => (Loader { strategy, phase: Phase::Ready, bound }, Action::Done),
                    }
                } else {
                    Self::fail(strategy, Failure::MissingSymbol(asked))
                }
            },
            None => Self::fail(strategy, Failure::OutOfTurn),
        }
    }

    /// Takes a report and says what is to be done next.
    pub fn advance(self, event: Event) -> (out: (Loader, Action))
        ensures
            (out.0@, out.1@) == step(self@, event@),
            out.0@.wf(),
    {
        proof {
            use_type_invariant(&self);
        }
        match self.phase {
            Phase::Ready => (self, Action::Done),
            Phase::Failed(why) => (self, Action::Abort(why)),
            _ => match event {
                Event::OwnPath(Some(own_path)) => {
                    let sibling = sibling_path(own_path.as_str());
                    self.expect_at(sibling)
                },
                Event::OwnPath(None) => self.expect_at(None),
                Event::Canonical(found) => match self.phase {
                    Phase::Canonicalizing => {
                        if found {
                            (Self::enter(self.strategy, Phase::Loading), Action::LoadFile)
                        } else {
                            Self::fail(self.strategy, Failure::PathUnresolved)
                        }
                    },
                    _ => Self::fail(self.strategy, Failure::OutOfTurn),
                },
                Event::Loaded(accepted) => match self.phase {
                    Phase::Loading => {
                        if accepted {
                            (
                                Self::enter(self.strategy, Phase::Binding),
                                Action::Resolve(Operation::Create),
                            )
                        } else {
                            Self::fail(self.strategy, Failure::LoadFailed)
                        }
                    },
                    _ => Self::fail(self.strategy, Failure::OutOfTurn),
                },
                Event::Symbol(found) => match self.phase {
                    Phase::Binding => self.bind_next(found),
                    _ => Self::fail(self.strategy, Failure::OutOfTurn),
                },
            },
        }
    }

    /// The complete table, once the loader is ready. A loader in any other
    /// phase yields nothing.
    pub fn into_table(self) -> (table: Option<SymbolTable>)
        ensures
            table is Some <==> self@.phase == Phase::Ready,
            table matches Some(t) ==> t@ == self@.bound && complete(t@),
    {
        proof {
            use_type_invariant(&self);
        }
        let Loader { strategy, phase, bound } = self;
        match phase {
            Phase::Ready => Some(SymbolTable::assemble(bound)),
            _ => None,
        }
    }
}

/// Asks for the shim to be made ready.
///
/// On a loader that has not started, this starts loading and says what is
/// to be done first. On any other loader it changes nothing: it says
/// [`Action::Done`] when the table is complete, [`Action::Abort`] when
/// loading has failed, and [`Action::Wait`] while loading is under way.
pub fn initialize(loader: Loader) -> (out: (Loader, Action))
    ensures
        (out.0@, out.1@) == begin(loader@),
        out.0@.wf(),
{
    proof {
        use_type_invariant(&loader);
    }
    match loader.phase {
        Phase::Idle => match loader.strategy {
            Strategy::BesideShim => (
                Loader::enter(loader.strategy, Phase::Locating),
                Action::FindSelf,
            ),
            Strategy::SearchPath => (
                Loader::enter(loader.strategy, Phase::Loading),
                Action::LoadNamed(LIBRARY_NAME.to_owned()),
            ),
        },
        Phase::Ready => (loader, Action::Done),
        Phase::Failed(why) => (loader, Action::Abort(why)),
        _ => (loader, Action::Wait),
    }
}

} // verus!
