use rokoko::window::builder::WindowBuilder;
use rokoko::window::config::{BuildError, Effect};
use rokoko::window::data::UserEvent;
use rokoko::window::{Action, Event, Session};

type SizeVec = rokoko::math::vec::vec<u32, 2>;

#[test]
fn empty_builder_yields_the_default_configuration() {
    let config = WindowBuilder::empty().create().unwrap();
    assert_eq!(config.effects, vec![Effect::Title("rokoko window".to_owned())]);
    assert_eq!(config.on_close, None);
    assert_eq!(config.on_init, None);
    assert_eq!(config.on_exit, None);
}

#[test]
fn title_is_applied_and_later_calls_shadow_earlier_ones() {
    let config = WindowBuilder::empty()
        .title("first".to_owned())
        .title("second".to_owned())
        .create()
        .unwrap();
    assert_eq!(config.effects, vec![Effect::Title("second".to_owned())]);
}

#[test]
fn size_alone_yields_a_physical_size_effect() {
    let config = WindowBuilder::empty()
        .size(SizeVec::from_array([1000, 800]))
        .create()
        .unwrap();
    assert_eq!(
        config.effects,
        vec![
            Effect::Title("rokoko window".to_owned()),
            Effect::PhysicalSize(1000, 800),
        ]
    );
}

#[test]
fn size_with_size_is_logical_yields_a_logical_size_effect() {
    let config = WindowBuilder::empty()
        .size(SizeVec::from_array([640, 480]))
        .size_is_logical()
        .create()
        .unwrap();
    assert_eq!(
        config.effects,
        vec![
            Effect::Title("rokoko window".to_owned()),
            Effect::LogicalSize(640, 480),
        ]
    );
}

#[test]
fn maximized_alone_succeeds() {
    let config = WindowBuilder::empty().maximized().create().unwrap();
    assert_eq!(
        config.effects,
        vec![Effect::Title("rokoko window".to_owned()), Effect::Maximized]
    );
}

#[test]
fn size_and_maximized_conflict_names_both_fields() {
    let r = WindowBuilder::empty()
        .size(SizeVec::from_array([100, 100]))
        .maximized()
        .create();
    assert_eq!(
        r.unwrap_err(),
        BuildError::Conflict("size".to_owned(), "maximized".to_owned())
    );
}

#[test]
fn size_is_logical_without_size_is_a_missing_requirement() {
    let r = WindowBuilder::empty().size_is_logical().create();
    assert_eq!(
        r.unwrap_err(),
        BuildError::MissingRequirement("size_is_logical".to_owned(), "size".to_owned())
    );
}

#[test]
fn callbacks_are_resolved_and_the_last_registration_wins() {
    let config = WindowBuilder::empty()
        .on_close(1)
        .on_init(2)
        .on_exit(3)
        .on_close(4)
        .create()
        .unwrap();
    assert_eq!(config.on_close, Some(4));
    assert_eq!(config.on_init, Some(2));
    assert_eq!(config.on_exit, Some(3));
}

#[test]
fn init_runs_exactly_once_before_the_close_trigger() {
    let config = WindowBuilder::empty().on_init(7).on_close(9).create().unwrap();
    let mut session = Session::new(&config);
    let mut log: Vec<(&str, u64)> = Vec::new();
    match session.start() {
        Action::RunCallback(cb) => log.push(("init", cb)),
        other => panic!("expected the init callback, got {:?}", other),
    }
    match session.step(Event::CloseRequested) {
        Action::RunCallback(cb) => log.push(("close", cb)),
        other => panic!("expected the close callback, got {:?}", other),
    }
    assert_eq!(log, vec![("init", 7), ("close", 9)]);
}

#[test]
fn start_without_an_init_callback_does_nothing() {
    let config = WindowBuilder::empty().create().unwrap();
    let mut session = Session::new(&config);
    assert_eq!(session.start(), Action::Nothing);
}

#[test]
fn close_request_without_a_callback_closes_the_window() {
    let config = WindowBuilder::empty().create().unwrap();
    let mut session = Session::new(&config);
    session.start();
    assert_eq!(session.step(Event::CloseRequested), Action::CloseWindow);
}

#[test]
fn the_close_event_runs_the_exit_callback_and_halts_for_good() {
    let config = WindowBuilder::empty().on_exit(5).on_close(6).create().unwrap();
    let mut session = Session::new(&config);
    session.start();
    assert_eq!(
        session.step(Event::User(UserEvent::Close)),
        Action::RunCallback(5)
    );
    assert_eq!(session.step(Event::CloseRequested), Action::Nothing);
    assert_eq!(session.step(Event::User(UserEvent::Close)), Action::Nothing);
    assert_eq!(session.step(Event::Other), Action::Nothing);
}

#[test]
fn other_events_are_ignored_while_running() {
    let config = WindowBuilder::empty().on_close(1).create().unwrap();
    let mut session = Session::new(&config);
    session.start();
    assert_eq!(session.step(Event::Other), Action::Nothing);
    assert_eq!(session.step(Event::CloseRequested), Action::RunCallback(1));
}

#[test]
fn a_session_reports_whether_it_was_started() {
    let config = WindowBuilder::empty().create().unwrap();
    let mut session = Session::new(&config);
    assert!(!session.started());
    session.start();
    assert!(session.started());
}

#[test]
fn on_event_registers_under_the_marker_event() {
    let config = WindowBuilder::empty()
        .on_event::<rokoko::window::builder::OnExit>(11)
        .create()
        .unwrap();
    assert_eq!(config.on_exit, Some(11));
    assert_eq!(config.on_close, None);
}

#[test]
fn winit_ref_round_trips_its_handle() {
    let r = rokoko::window::data::WinitRef::new(42);
    assert_eq!(r.get(), 42);
}
