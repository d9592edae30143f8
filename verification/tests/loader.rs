use rex_shim::{
    initialize, Action, Event, Failure, Loader, Operation, Phase, Strategy, OPERATION_COUNT,
};

const OWN_PATH: &str = "/opt/host/plugins/libshim.so";
const SIBLING: &str = "/opt/host/plugins/Rex Shared Library-original";

/// Where the make-believe library keeps the entry point at a place.
fn fake_address(place: usize) -> usize {
    0x7f00_0000 + 0x40 * place
}

/// A loader whose library has just been loaded, and what it asked for then.
fn loaded(strategy: Strategy) -> (Loader, Action) {
    let (loader, action) = initialize(Loader::new(strategy));
    let loader = match strategy {
        Strategy::SearchPath => loader,
        Strategy::BesideShim => {
            assert_eq!(action, Action::FindSelf);
            let (loader, action) = loader.advance(Event::OwnPath(Some(OWN_PATH.to_string())));
            assert_eq!(action, Action::Canonicalize(SIBLING.to_string()));
            let (loader, action) = loader.advance(Event::Canonical(true));
            assert_eq!(action, Action::LoadFile);
            loader
        }
    };
    loader.advance(Event::Loaded(true))
}

/// A loader that has been told the addresses of the first `count` symbols.
fn bound(strategy: Strategy, count: usize) -> (Loader, Action) {
    let (mut loader, mut action) = loaded(strategy);
    for place in 0..count {
        assert_eq!(action, Action::Resolve(Operation::from_index(place).unwrap()));
        (loader, action) = loader.advance(Event::Symbol(Some(fake_address(place))));
    }
    (loader, action)
}

fn every_event() -> Vec<Event> {
    vec![
        Event::OwnPath(None),
        Event::OwnPath(Some(OWN_PATH.to_string())),
        Event::Canonical(true),
        Event::Canonical(false),
        Event::Loaded(true),
        Event::Loaded(false),
        Event::Symbol(None),
        Event::Symbol(Some(0)),
        Event::Symbol(Some(fake_address(0))),
    ]
}

#[test]
fn fresh_loader_is_idle() {
    assert_eq!(Loader::new(Strategy::BesideShim).phase(), Phase::Idle);
    assert_eq!(Loader::new(Strategy::SearchPath).phase(), Phase::Idle);
    assert!(Loader::new(Strategy::BesideShim).into_table().is_none());
}

#[test]
fn beside_shim_starts_by_finding_itself() {
    let (loader, action) = initialize(Loader::new(Strategy::BesideShim));
    assert_eq!(action, Action::FindSelf);
    assert_eq!(loader.phase(), Phase::Locating);
}

#[test]
fn search_path_starts_by_loading_the_fixed_name() {
    let (loader, action) = initialize(Loader::new(Strategy::SearchPath));
    assert_eq!(action, Action::LoadNamed("Rex Shared Library-original".to_string()));
    assert_eq!(loader.phase(), Phase::Loading);
}

#[test]
fn beside_shim_runs_to_ready() {
    let (loader, action) = initialize(Loader::new(Strategy::BesideShim));
    assert_eq!(action, Action::FindSelf);
    let (loader, action) = loader.advance(Event::OwnPath(Some(OWN_PATH.to_string())));
    assert_eq!(action, Action::Canonicalize(SIBLING.to_string()));
    assert_eq!(loader.phase(), Phase::Canonicalizing);
    let (loader, action) = loader.advance(Event::Canonical(true));
    assert_eq!(action, Action::LoadFile);
    assert_eq!(loader.phase(), Phase::Loading);
    let (mut loader, mut action) = loader.advance(Event::Loaded(true));
    for place in 0..OPERATION_COUNT {
        assert_eq!(loader.phase(), Phase::Binding);
        assert_eq!(action, Action::Resolve(Operation::from_index(place).unwrap()));
        (loader, action) = loader.advance(Event::Symbol(Some(fake_address(place))));
    }
    assert_eq!(action, Action::Done);
    assert_eq!(loader.phase(), Phase::Ready);
    let table = loader.into_table().unwrap();
    for place in 0..OPERATION_COUNT {
        assert_eq!(table.address(Operation::from_index(place).unwrap()), fake_address(place));
    }
}

#[test]
fn search_path_runs_to_ready() {
    let (loader, action) = bound(Strategy::SearchPath, OPERATION_COUNT);
    assert_eq!(action, Action::Done);
    assert_eq!(loader.phase(), Phase::Ready);
    let table = loader.into_table().unwrap();
    assert_eq!(table.address(Operation::Create), fake_address(0));
    assert_eq!(table.address(Operation::InitializeDLL), fake_address(6));
    assert_eq!(table.address(Operation::UninitializeDLL), fake_address(13));
}

#[test]
fn symbols_are_asked_for_in_order() {
    let expected = [
        "REXCreate",
        "REXDelete",
        "REXGetCreatorInfo",
        "REXGetInfo",
        "REXGetInfoFromBuffer",
        "REXGetSliceInfo",
        "REXInitializeDLL",
        "REXRenderPreviewBatch",
        "REXRenderSlice",
        "REXSetOutputSampleRate",
        "REXSetPreviewTempo",
        "REXStartPreview",
        "REXStopPreview",
        "REXUninitializeDLL",
    ];
    let (mut loader, mut action) = loaded(Strategy::SearchPath);
    let mut asked = Vec::new();
    while let Action::Resolve(operation) = action {
        asked.push(operation.symbol());
        (loader, action) = loader.advance(Event::Symbol(Some(fake_address(asked.len()))));
    }
    assert_eq!(asked, expected);
    assert_eq!(action, Action::Done);
    assert_eq!(loader.phase(), Phase::Ready);
}

#[test]
fn no_table_before_the_last_symbol() {
    for count in 0..OPERATION_COUNT {
        let (loader, action) = bound(Strategy::SearchPath, count);
        assert_eq!(action, Action::Resolve(Operation::from_index(count).unwrap()));
        assert_eq!(loader.phase(), Phase::Binding);
        assert!(loader.into_table().is_none());
    }
}

#[test]
fn unknown_own_path_is_fatal() {
    let (loader, _) = initialize(Loader::new(Strategy::BesideShim));
    let (loader, action) = loader.advance(Event::OwnPath(None));
    assert_eq!(action, Action::Abort(Failure::OwnPathUnknown));
    assert_eq!(loader.phase(), Phase::Failed(Failure::OwnPathUnknown));
    assert!(loader.into_table().is_none());
}

#[test]
fn own_path_without_a_directory_is_fatal() {
    for own_path in ["", "/"] {
        let (loader, _) = initialize(Loader::new(Strategy::BesideShim));
        let (loader, action) = loader.advance(Event::OwnPath(Some(own_path.to_string())));
        assert_eq!(action, Action::Abort(Failure::OwnPathUnknown));
        assert_eq!(loader.phase(), Phase::Failed(Failure::OwnPathUnknown));
    }
}

#[test]
fn expected_place_is_taken_as_given() {
    let (loader, _) = initialize(Loader::new(Strategy::BesideShim));
    let (loader, action) = loader.expect_at(Some("/somewhere/else".to_string()));
    assert_eq!(action, Action::Canonicalize("/somewhere/else".to_string()));
    assert_eq!(loader.phase(), Phase::Canonicalizing);

    let (loader, _) = initialize(Loader::new(Strategy::BesideShim));
    let (loader, action) = loader.expect_at(None);
    assert_eq!(action, Action::Abort(Failure::OwnPathUnknown));
    assert_eq!(loader.phase(), Phase::Failed(Failure::OwnPathUnknown));
}

#[test]
fn expected_place_out_of_turn_is_fatal() {
    let (loader, action) = Loader::new(Strategy::BesideShim).expect_at(Some(SIBLING.to_string()));
    assert_eq!(action, Action::Abort(Failure::OutOfTurn));
    assert_eq!(loader.phase(), Phase::Failed(Failure::OutOfTurn));

    let (loader, _) = bound(Strategy::SearchPath, OPERATION_COUNT);
    let (loader, action) = loader.expect_at(Some(SIBLING.to_string()));
    assert_eq!(action, Action::Done);
    assert_eq!(loader.phase(), Phase::Ready);
}

#[test]
fn absent_library_is_fatal() {
    let (loader, _) = initialize(Loader::new(Strategy::BesideShim));
    let (loader, _) = loader.advance(Event::OwnPath(Some(OWN_PATH.to_string())));
    let (loader, action) = loader.advance(Event::Canonical(false));
    assert_eq!(action, Action::Abort(Failure::PathUnresolved));
    assert_eq!(loader.phase(), Phase::Failed(Failure::PathUnresolved));
    let (loader, action) = initialize(loader);
    assert_eq!(action, Action::Abort(Failure::PathUnresolved));
    assert!(loader.into_table().is_none());
}

#[test]
fn refused_library_is_fatal() {
    for strategy in [Strategy::BesideShim, Strategy::SearchPath] {
        let (loader, _) = initialize(Loader::new(strategy));
        let loader = match strategy {
            Strategy::SearchPath => loader,
            Strategy::BesideShim => {
                let (loader, _) = loader.advance(Event::OwnPath(Some(OWN_PATH.to_string())));
                loader.advance(Event::Canonical(true)).0
            }
        };
        let (loader, action) = loader.advance(Event::Loaded(false));
        assert_eq!(action, Action::Abort(Failure::LoadFailed));
        assert_eq!(loader.phase(), Phase::Failed(Failure::LoadFailed));
        assert!(loader.into_table().is_none());
    }
}

#[test]
fn any_missing_symbol_is_fatal() {
    for place in 0..OPERATION_COUNT {
        let missing = Operation::from_index(place).unwrap();
        let (loader, _) = bound(Strategy::SearchPath, place);
        let (loader, action) = loader.advance(Event::Symbol(None));
        assert_eq!(action, Action::Abort(Failure::MissingSymbol(missing)));
        assert_eq!(loader.phase(), Phase::Failed(Failure::MissingSymbol(missing)));
        assert!(loader.into_table().is_none());
    }
}

#[test]
fn null_address_counts_as_missing() {
    for place in [0, 6, 13] {
        let missing = Operation::from_index(place).unwrap();
        let (loader, _) = bound(Strategy::BesideShim, place);
        let (loader, action) = loader.advance(Event::Symbol(Some(0)));
        assert_eq!(action, Action::Abort(Failure::MissingSymbol(missing)));
        assert_eq!(loader.phase(), Phase::Failed(Failure::MissingSymbol(missing)));
    }
}

#[test]
fn last_symbol_missing_leaves_no_table() {
    let (loader, action) = bound(Strategy::SearchPath, OPERATION_COUNT - 1);
    assert_eq!(action, Action::Resolve(Operation::UninitializeDLL));
    let (loader, action) = loader.advance(Event::Symbol(None));
    assert_eq!(action, Action::Abort(Failure::MissingSymbol(Operation::UninitializeDLL)));
    let (loader, action) = initialize(loader);
    assert_eq!(action, Action::Abort(Failure::MissingSymbol(Operation::UninitializeDLL)));
    assert!(loader.into_table().is_none());
}

#[test]
fn report_before_any_request_is_fatal() {
    for event in every_event() {
        let (loader, action) = Loader::new(Strategy::SearchPath).advance(event);
        assert_eq!(action, Action::Abort(Failure::OutOfTurn));
        assert_eq!(loader.phase(), Phase::Failed(Failure::OutOfTurn));
    }
}

#[test]
fn report_that_was_not_asked_for_is_fatal() {
    let (loader, _) = initialize(Loader::new(Strategy::BesideShim));
    let (loader, action) = loader.advance(Event::Loaded(true));
    assert_eq!(action, Action::Abort(Failure::OutOfTurn));
    assert_eq!(loader.phase(), Phase::Failed(Failure::OutOfTurn));

    let (loader, _) = initialize(Loader::new(Strategy::SearchPath));
    let (loader, action) = loader.advance(Event::Symbol(Some(fake_address(0))));
    assert_eq!(action, Action::Abort(Failure::OutOfTurn));
    assert_eq!(loader.phase(), Phase::Failed(Failure::OutOfTurn));

    let (loader, _) = bound(Strategy::SearchPath, 3);
    let (loader, action) = loader.advance(Event::Canonical(true));
    assert_eq!(action, Action::Abort(Failure::OutOfTurn));
    assert!(loader.into_table().is_none());
}

#[test]
fn failure_is_final() {
    let (loader, _) = initialize(Loader::new(Strategy::SearchPath));
    let (mut loader, _) = loader.advance(Event::Loaded(false));
    for event in every_event() {
        let (next, action) = loader.advance(event);
        assert_eq!(action, Action::Abort(Failure::LoadFailed));
        assert_eq!(next.phase(), Phase::Failed(Failure::LoadFailed));
        let (next, action) = initialize(next);
        assert_eq!(action, Action::Abort(Failure::LoadFailed));
        assert_eq!(next.phase(), Phase::Failed(Failure::LoadFailed));
        loader = next;
    }
    assert!(loader.into_table().is_none());
}

#[test]
fn ready_is_stable() {
    let (mut loader, _) = bound(Strategy::BesideShim, OPERATION_COUNT);
    for event in every_event() {
        let (next, action) = loader.advance(event);
        assert_eq!(action, Action::Done);
        let (next, action) = initialize(next);
        assert_eq!(action, Action::Done);
        assert_eq!(next.phase(), Phase::Ready);
        loader = next;
    }
    let table = loader.into_table().unwrap();
    for place in 0..OPERATION_COUNT {
        assert_eq!(table.address(Operation::from_index(place).unwrap()), fake_address(place));
    }
}

#[test]
fn initialize_while_loading_says_wait() {
    let (loader, _) = initialize(Loader::new(Strategy::BesideShim));
    let (loader, action) = initialize(loader);
    assert_eq!(action, Action::Wait);
    assert_eq!(loader.phase(), Phase::Locating);

    let (loader, _) = bound(Strategy::SearchPath, 5);
    let (loader, action) = initialize(loader);
    assert_eq!(action, Action::Wait);
    assert_eq!(loader.phase(), Phase::Binding);
    let (loader, action) = loader.advance(Event::Symbol(Some(fake_address(5))));
    assert_eq!(action, Action::Resolve(Operation::InitializeDLL));
    assert_eq!(loader.phase(), Phase::Binding);
}

/// Counts what the loader asks for over a whole run in which somebody asks
/// for the shim `callers` times before every single report.
fn count_work(strategy: Strategy, callers: usize) -> (usize, usize, usize, Vec<usize>) {
    let mut finds = 0;
    let mut canonicalizations = 0;
    let mut loads = 0;
    let mut resolutions = vec![0; OPERATION_COUNT];
    let mut loader = Loader::new(strategy);
    let mut pending = Vec::new();
    loop {
        for _ in 0..callers {
            let (next, action) = initialize(loader);
            loader = next;
            pending.push(action);
        }
        let mut event = None;
        for action in pending.drain(..) {
            match action {
                Action::FindSelf => {
                    finds += 1;
                    event = Some(Event::OwnPath(Some(OWN_PATH.to_string())));
                }
                Action::Canonicalize(_) => {
                    canonicalizations += 1;
                    event = Some(Event::Canonical(true));
                }
                Action::LoadFile | Action::LoadNamed(_) => {
                    loads += 1;
                    event = Some(Event::Loaded(true));
                }
                Action::Resolve(operation) => {
                    resolutions[operation.index()] += 1;
                    event = Some(Event::Symbol(Some(fake_address(operation.index()))));
                }
                Action::Wait | Action::Done => {}
                Action::Abort(why) => panic!("the run failed: {:?}", why),
            }
        }
        match event {
            Some(event) => {
                let (next, action) = loader.advance(event);
                loader = next;
                pending.push(action);
            }
            None => break,
        }
    }
    assert_eq!(loader.phase(), Phase::Ready);
    (finds, canonicalizations, loads, resolutions)
}

#[test]
fn library_is_loaded_once_whatever_the_number_of_callers() {
    for callers in [1, 2, 7, 64] {
        let (finds, canonicalizations, loads, resolutions) =
            count_work(Strategy::BesideShim, callers);
        assert_eq!(finds, 1);
        assert_eq!(canonicalizations, 1);
        assert_eq!(loads, 1);
        assert_eq!(resolutions, vec![1; OPERATION_COUNT]);

        let (finds, canonicalizations, loads, resolutions) =
            count_work(Strategy::SearchPath, callers);
        assert_eq!(finds, 0);
        assert_eq!(canonicalizations, 0);
        assert_eq!(loads, 1);
        assert_eq!(resolutions, vec![1; OPERATION_COUNT]);
    }
}

/// One caller of a shared loader. It asks for the shim and carries out
/// whatever it is told, one step at each turn, so that the other callers get
/// their turns in the middle of loading.
struct Caller {
    owes: Option<Event>,
    done: bool,
}

/// Lets `count` callers take turns on one loader until each has been told
/// that the shim is ready. Gives back how often the library was loaded, how
/// often a caller was told to wait, and the loader.
fn take_turns(strategy: Strategy, count: usize) -> (usize, usize, Loader) {
    let mut loads = 0;
    let mut waits = 0;
    let mut loader = Loader::new(strategy);
    let mut callers: Vec<Caller> = (0..count).map(|_| Caller { owes: None, done: false }).collect();
    while callers.iter().any(|caller| !caller.done) {
        for caller in callers.iter_mut().filter(|caller| !caller.done) {
            let (next, action) = match caller.owes.take() {
                Some(event) => loader.advance(event),
                None => initialize(loader),
            };
            loader = next;
            match action {
                Action::FindSelf => caller.owes = Some(Event::OwnPath(Some(OWN_PATH.to_string()))),
                Action::Canonicalize(_) => caller.owes = Some(Event::Canonical(true)),
                Action::LoadFile | Action::LoadNamed(_) => {
                    loads += 1;
                    caller.owes = Some(Event::Loaded(true));
                }
                Action::Resolve(operation) => {
                    caller.owes = Some(Event::Symbol(Some(fake_address(operation.index()))));
                }
                Action::Wait => waits += 1,
                Action::Done => caller.done = true,
                Action::Abort(why) => panic!("the run failed: {:?}", why),
            }
        }
    }
    (loads, waits, loader)
}

#[test]
fn callers_taking_turns_load_the_library_once() {
    for strategy in [Strategy::BesideShim, Strategy::SearchPath] {
        for count in [1, 2, 16] {
            let (loads, waits, loader) = take_turns(strategy, count);
            assert_eq!(loads, 1);
            assert_eq!(waits > 0, count > 1);
            assert_eq!(loader.phase(), Phase::Ready);
            let table = loader.into_table().unwrap();
            assert_eq!(table.address(Operation::RenderSlice), fake_address(8));
        }
    }
}
