use std::cell::{Cell, RefCell};
use std::rc::Rc;

use vstd::seq::Seq;

use tela::session::{
    frame_rebuild_needed, AppCall, AppDispatchOutcome, AppPublication, AppStatus, ApplicationSession,
    CursorKind, SessionDriver,
    SessionError, WindowCommand,
};

#[derive(Clone, Copy, Debug)]
enum MockEvent {
    Viewport { width: f32, height: f32 },
}

#[derive(Clone, Copy, Debug)]
enum MockInput {
    InputEnter,
}

#[derive(Clone, Debug)]
struct MockFrame {
    width: f32,
}

struct MockSession {
    log: Rc<RefCell<Vec<String>>>,
    fail_publish: Rc<Cell<bool>>,
    window_effects: Rc<Cell<bool>>,
}

impl MockSession {
    fn new() -> (Self, Rc<RefCell<Vec<String>>>) {
        let log = Rc::new(RefCell::new(Vec::new()));
        (
            MockSession {
                log: Rc::clone(&log),
                fail_publish: Rc::new(Cell::new(false)),
                window_effects: Rc::new(Cell::new(false)),
            },
            log,
        )
    }

    fn publication(token: u64, with_window_effect: bool) -> AppPublication<MockFrame> {
        AppPublication {
            token,
            frame: MockFrame { width: 16.0 },
            status: AppStatus {
                frame_token: Some(token),
                cursor: CursorKind::Default,
                input_focused: false,
                input_value: String::new(),
                animation_active: false,
                next_deadline_ms: None,
            },
            effects: if with_window_effect { vec![WindowCommand::Minimize] } else { Vec::new() },
        }
    }
}

impl ApplicationSession for MockSession {
    type Event = MockEvent;
    type FrameInput = MockInput;
    type Frame = MockFrame;

    fn calls(&self) -> Seq<AppCall<MockEvent, MockInput>> {
        unreachable!("the call history is a proof-only observer; the log above records calls at run time")
    }

    fn initialize(&mut self) -> Result<AppDispatchOutcome, SessionError> {
        self.log.borrow_mut().push("init".to_owned());
        Ok(AppDispatchOutcome { handled: true, publish_requested: true })
    }

    fn dispatch(&mut self, event: MockEvent) -> Result<AppDispatchOutcome, SessionError> {
        let MockEvent::Viewport { width, height } = event;
        assert!(width > 0.0 && height > 0.0);
        self.log.borrow_mut().push("viewport".to_owned());
        Ok(AppDispatchOutcome { handled: true, publish_requested: true })
    }

    fn dispatch_frame_input(
        &mut self,
        _source_frame_token: u64,
        input: MockInput,
    ) -> Result<AppDispatchOutcome, SessionError> {
        let MockInput::InputEnter = input;
        self.log.borrow_mut().push("frame-input".to_owned());
        Ok(AppDispatchOutcome { handled: true, publish_requested: true })
    }

    fn publish(&mut self) -> Result<AppPublication<MockFrame>, SessionError> {
        self.log.borrow_mut().push("publish".to_owned());
        if self.fail_publish.replace(false) {
            return Err(SessionError { message: "mock publish failure".to_owned() });
        }
        Ok(Self::publication(7, self.window_effects.get()))
    }

    fn presented(&mut self, token: u64) -> Result<AppDispatchOutcome, SessionError> {
        self.log.borrow_mut().push(format!("presented:{token}"));
        Ok(AppDispatchOutcome::idle())
    }

    fn rejected(&mut self, token: u64) {
        self.log.borrow_mut().push(format!("rejected:{token}"));
    }

    fn close(&mut self) {
        self.log.borrow_mut().push("close".to_owned());
    }
}

fn mock_driver() -> (SessionDriver<MockSession>, Rc<RefCell<Vec<String>>>) {
    let (mock, log) = MockSession::new();
    let driver = SessionDriver::new(mock).ok().expect("mock driver");
    (driver, log)
}

fn dispatch_viewport(driver: &mut SessionDriver<MockSession>) {
    driver.dispatch(MockEvent::Viewport { width: 100.0, height: 80.0 });
}

#[test]
fn new_initializes_and_eagerly_publishes_the_first_frame() {
    let (driver, log) = mock_driver();
    assert_eq!(*log.borrow(), vec!["init", "publish"]);
    assert_eq!(driver.frame().width, 16.0, "the first frame is ready");
}

#[test]
fn dispatch_publishes_a_new_candidate_immediately() {
    let (mut driver, log) = mock_driver();
    log.borrow_mut().clear();
    dispatch_viewport(&mut driver);
    assert_eq!(
        *log.borrow(),
        vec!["viewport", "rejected:7", "publish"],
        "a dispatch that requests publication rejects the old candidate and publishes at once"
    );
}

#[test]
fn presented_moves_candidate_and_drains_window_commands() {
    let (mock, _log) = MockSession::new();
    mock.window_effects.set(true);
    let mut driver = SessionDriver::new(mock).ok().expect("mock driver");
    assert_eq!(driver.take_window_command(), None, "no effect runs before presentation");
    assert!(!driver.frame_presented());
    dispatch_viewport(&mut driver);
    assert!(!driver.frame_presented());
    assert_eq!(
        driver.take_window_command(),
        Some(WindowCommand::Minimize),
        "window commands drain with presentation"
    );
    assert!(driver.status().is_some());
}

#[test]
fn frame_input_is_dropped_until_a_frame_is_presented() {
    let (mut driver, log) = mock_driver();
    log.borrow_mut().clear();
    let outcome = driver.dispatch_frame_input(MockInput::InputEnter);
    assert!(!outcome.handled, "input without a presented frame is dropped");
    assert_eq!(*log.borrow(), Vec::<String>::new());

    dispatch_viewport(&mut driver);
    driver.frame_presented();
    log.borrow_mut().clear();
    let outcome = driver.dispatch_frame_input(MockInput::InputEnter);
    assert!(outcome.handled, "input after presentation is routed by its token");
    assert_eq!(
        *log.borrow(),
        vec!["frame-input", "publish"],
        "a presented candidate is not rejected; a new one is published directly"
    );
}

#[test]
fn invalidate_presented_blocks_input_routing_again() {
    let (mut driver, _log) = mock_driver();
    driver.frame_presented();
    driver.invalidate_presented();
    let outcome = driver.dispatch_frame_input(MockInput::InputEnter);
    assert!(!outcome.handled, "after a geometry change the old frame routes no input");
}

#[test]
fn rejected_candidate_is_republished_on_the_next_dispatch() {
    let (mut driver, log) = mock_driver();
    log.borrow_mut().clear();
    driver.frame_rejected();
    assert_eq!(*log.borrow(), vec!["rejected:7"], "a rejected candidate waits for republication");
    dispatch_viewport(&mut driver);
    assert_eq!(driver.frame().width, 16.0, "the next dispatch restores a candidate frame");
}

#[test]
fn publish_failure_is_retried_at_the_next_opportunity() {
    let (mock, _log) = MockSession::new();
    mock.fail_publish.set(true);
    let mut driver = SessionDriver::new(mock).ok().expect("mock driver");
    dispatch_viewport(&mut driver);
    assert_eq!(driver.frame().width, 16.0, "a failed first publication is retried at the next dispatch");
}

#[test]
fn close_forwards_to_the_session() {
    let (mut driver, log) = mock_driver();
    driver.close();
    assert!(log.borrow().contains(&"close".to_owned()));
}

#[test]
fn presentation_acknowledges_the_token_once() {
    let (mut driver, log) = mock_driver();
    log.borrow_mut().clear();
    assert!(!driver.frame_presented());
    assert_eq!(*log.borrow(), vec!["presented:7"]);
    assert!(driver.has_frame());
    assert!(!driver.input_focused());
    assert_eq!(driver.input_value(), "");
    assert_eq!(driver.cursor(), CursorKind::Default);
}

#[test]
fn start_returns_an_initialization_error_unchanged() {
    let (mock, log) = MockSession::new();
    let result = SessionDriver::start(mock, Err(SessionError { message: "boom".to_owned() }));
    assert_eq!(result.err().map(|error| error.message), Some("boom".to_owned()));
    assert!(log.borrow().is_empty(), "no publication follows a failed initialization");
    let (mock, log) = MockSession::new();
    let driver = SessionDriver::start(mock, Ok(AppDispatchOutcome { handled: true, publish_requested: false }))
        .ok()
        .expect("driver");
    assert!(!driver.has_frame());
    assert!(log.borrow().is_empty());
}

#[test]
fn settle_dispatch_follows_the_application_answer() {
    let (mut driver, log) = mock_driver();
    log.borrow_mut().clear();
    let failed = driver.settle_dispatch(Err(SessionError { message: "x".to_owned() }));
    assert_eq!(failed, AppDispatchOutcome::idle());
    assert!(log.borrow().is_empty());
    let answered = AppDispatchOutcome { handled: true, publish_requested: true };
    assert_eq!(driver.settle_dispatch(Ok(answered)), answered);
    assert_eq!(*log.borrow(), vec!["rejected:7", "publish"]);
}

#[test]
fn settle_presented_commits_only_on_success() {
    let (mut driver, log) = mock_driver();
    driver.frame_presented();
    log.borrow_mut().clear();
    let rejected = MockSession::publication(9, true);
    assert!(!driver.settle_presented(rejected, Err(SessionError { message: "lost".to_owned() })));
    assert_eq!(*log.borrow(), vec!["rejected:9"]);
    assert_eq!(driver.take_window_command(), None);
    let committed = MockSession::publication(11, true);
    assert!(driver.settle_presented(committed, Ok(AppDispatchOutcome { handled: true, publish_requested: true })));
    assert_eq!(driver.take_window_command(), Some(WindowCommand::Minimize));
    assert_eq!(driver.status().and_then(|status| status.frame_token), Some(11));
}

#[test]
fn a_frame_is_rebuilt_unless_it_is_current() {
    assert!(!frame_rebuild_needed(true, false, false));
    assert!(frame_rebuild_needed(false, false, false));
    assert!(frame_rebuild_needed(true, true, false));
    assert!(frame_rebuild_needed(true, false, true));
}
