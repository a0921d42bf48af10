//! Session driver: publication, presentation, frame-token and window-effect bookkeeping on top
//! of an application session.
//!
//! After each dispatch that asks for a new frame the driver publishes a candidate at once; the
//! presentation receipt arrives after a successful paint and moves the candidate to the presented
//! slot, releasing the window commands that the frame carries. Frame-owned input reaches the
//! application only while a presented frame exists.
use std::collections::VecDeque;
use vstd::prelude::*;

verus! {

/// A transactional window command carried by a frame.
#[derive(Clone, Copy, Debug, PartialEq, Eq, Structural)]
pub enum WindowCommand {
    /// Minimize the window.
    Minimize,
    /// Toggle maximize / restore.
    Maximize,
    /// Close the window.
    Close,
}

/// Client-area cursor shape requested by the application.
#[derive(Clone, Copy, Debug, PartialEq, Eq, Structural)]
pub enum CursorKind {
    /// The platform arrow.
    Default,
    /// A text I-beam.
    Text,
    /// A pointing hand.
    Pointer,
}

/// Non-drawing state published together with a frame.
#[derive(Clone, Debug)]
pub struct AppStatus {
    /// Token of the frame this status belongs to.
    pub frame_token: Option<u64>,
    /// Requested client-area cursor.
    pub cursor: CursorKind,
    /// Whether the controlled text input is focused.
    pub input_focused: bool,
    /// Current controlled text value.
    pub input_value: String,
    /// Whether an animation is running.
    pub animation_active: bool,
    /// Next wake-up deadline, in milliseconds.
    pub next_deadline_ms: Option<u64>,
}

/// One published frame with its token, status and the window effects it carries.
pub struct AppPublication<F> {
    /// Non-zero frame token.
    pub token: u64,
    /// The frame to render.
    pub frame: F,
    /// Non-drawing state of the frame.
    pub status: AppStatus,
    /// Window commands executed once the frame is presented.
    pub effects: Vec<WindowCommand>,
}

/// What the application reported for one event.
#[derive(Clone, Copy, Debug, PartialEq, Eq, Structural)]
pub struct AppDispatchOutcome {
    /// The event was consumed.
    pub handled: bool,
    /// A new frame should be published.
    pub publish_requested: bool,
}

impl AppDispatchOutcome {
    /// Nothing handled, nothing to publish.
    pub open spec fn spec_idle() -> AppDispatchOutcome {
        AppDispatchOutcome { handled: false, publish_requested: false }
    }

    /// Nothing handled, nothing to publish.
    pub fn idle() -> (outcome: AppDispatchOutcome)
        ensures
            outcome == Self::spec_idle(),
    {
        AppDispatchOutcome { handled: false, publish_requested: false }
    }
}

/// An application session failure, with its diagnostic text.
#[derive(Clone, Debug)]
pub struct SessionError {
    /// Diagnostic text.
    pub message: String,
}

/// One call the driver makes into the application, with what it hands over.
pub ghost enum AppCall<E, I> {
    /// `initialize()`, with the application's answer.
    Initialize(Result<AppDispatchOutcome, SessionError>),
    /// `dispatch(event)`, with the application's answer.
    Dispatch(E, Result<AppDispatchOutcome, SessionError>),
    /// `dispatch_frame_input(source_frame_token, input)`, with the application's answer.
    DispatchFrameInput(u64, I, Result<AppDispatchOutcome, SessionError>),
    /// `publish()`.
    Publish,
    /// `presented(token)`, with the application's answer.
    Presented(u64, Result<AppDispatchOutcome, SessionError>),
    /// `rejected(token)`.
    Rejected(u64),
    /// `close()`.
    Close,
}

/// The application side of the session protocol. Each method records itself, with its
/// arguments, in the session's call history; nothing is assumed of what it returns, and the
/// driver states what it does for every result.
pub trait ApplicationSession {
    /// An application event.
    type Event;
    /// Input that belongs to a presented frame.
    type FrameInput;
    /// A renderable frame.
    type Frame;

    /// The calls received so far, oldest first.
    spec fn calls(&self) -> Seq<AppCall<Self::Event, Self::FrameInput>>;

    /// Initializes the application.
    fn initialize(&mut self) -> (answer: Result<AppDispatchOutcome, SessionError>)
        ensures
            final(self).calls() == old(self).calls().push(AppCall::Initialize(answer)),
    ;

    /// Delivers one event.
    fn dispatch(&mut self, event: Self::Event) -> (answer: Result<AppDispatchOutcome, SessionError>)
        ensures
            final(self).calls() == old(self).calls().push(AppCall::Dispatch(event, answer)),
    ;

    /// Delivers input routed through the presented frame with the given token.
    fn dispatch_frame_input(
        &mut self,
        source_frame_token: u64,
        input: Self::FrameInput,
    ) -> (answer: Result<AppDispatchOutcome, SessionError>)
        ensures
            final(self).calls() == old(self).calls().push(
                AppCall::DispatchFrameInput(source_frame_token, input, answer),
            ),
    ;

    /// Builds a candidate frame.
    fn publish(&mut self) -> (answer: Result<AppPublication<Self::Frame>, SessionError>)
        ensures
            final(self).calls() == old(self).calls().push(AppCall::Publish),
    ;

    /// Acknowledges that the frame with `token` was presented.
    fn presented(&mut self, token: u64) -> (answer: Result<AppDispatchOutcome, SessionError>)
        ensures
            final(self).calls() == old(self).calls().push(AppCall::Presented(token, answer)),
    ;

    /// Reports that the frame with `token` will never be presented.
    fn rejected(&mut self, token: u64)
        ensures
            final(self).calls() == old(self).calls().push(AppCall::Rejected(token)),
    ;

    /// The session is about to be destroyed.
    fn close(&mut self)
        ensures
            final(self).calls() == old(self).calls().push(AppCall::Close),
    ;
}

/// The outcome a driver reports for an application's answer: the answer itself, or idle for
/// an error.
pub open spec fn outcome_of(answer: Result<AppDispatchOutcome, SessionError>) -> AppDispatchOutcome {
    match answer {
        Ok(answered) => answered,
        Err(_) => AppDispatchOutcome::spec_idle(),
    }
}

/// The application's answer recorded with an initialization, a delivered event or input, or a
/// presentation acknowledgement (left unspecified for any other call).
pub open spec fn answer_of<E, I>(call: AppCall<E, I>) -> Result<AppDispatchOutcome, SessionError> {
    match call {
        AppCall::Initialize(answer) => answer,
        AppCall::Dispatch(_, answer) => answer,
        AppCall::DispatchFrameInput(_, _, answer) => answer,
        AppCall::Presented(_, answer) => answer,
        _ => arbitrary(),
    }
}

/// Whether `outcome` reports the answer recorded with a delivered event or input.
pub open spec fn reports_answer<E, I>(outcome: AppDispatchOutcome, call: AppCall<E, I>) -> bool {
    outcome == outcome_of(answer_of(call))
}

/// An event that the application answers with `answered` is reported as exactly `answered`,
/// whether or not it asks for a frame; only an application error is reported as nothing handled
/// and nothing to publish.
pub proof fn lemma_dispatch_reports_answer<E, I>(
    event: E,
    answer: Result<AppDispatchOutcome, SessionError>,
    outcome: AppDispatchOutcome,
)
    requires
        reports_answer(outcome, AppCall::<E, I>::Dispatch(event, answer)),
    ensures
        answer matches Ok(answered) ==> outcome == answered,
        answer is Err ==> !outcome.handled && !outcome.publish_requested,
        outcome.handled ==> (answer matches Ok(answered) && answered.handled),
        outcome.publish_requested ==> (answer matches Ok(answered) && answered.publish_requested),
{
}

/// Input routed through a presented frame that the application answers with `answered` is
/// reported as exactly `answered`; only an application error is reported as nothing handled and
/// nothing to publish.
pub proof fn lemma_frame_input_reports_answer<E, I>(
    source_frame_token: u64,
    input: I,
    answer: Result<AppDispatchOutcome, SessionError>,
    outcome: AppDispatchOutcome,
)
    requires
        reports_answer(outcome, AppCall::<E, I>::DispatchFrameInput(source_frame_token, input, answer)),
    ensures
        answer matches Ok(answered) ==> outcome == answered,
        answer is Err ==> !outcome.handled && !outcome.publish_requested,
        outcome.handled ==> (answer matches Ok(answered) && answered.handled),
        outcome.publish_requested ==> (answer matches Ok(answered) && answered.publish_requested),
{
}

/// Whether a static-shell session must rebuild its frame: unless a frame exists (candidate or
/// active), the projection was not invalidated and no signal is dirty, the frame is rebuilt.
pub fn frame_rebuild_needed(has_frame: bool, projection_invalidated: bool, signals_dirty: bool) -> (rebuild: bool)
    ensures
        rebuild == !(has_frame && !projection_invalidated && !signals_dirty),
{
    !(has_frame && !projection_invalidated && !signals_dirty)
}

/// Appends `commands` to `queue`, in order.
fn enqueue_commands(queue: &mut VecDeque<WindowCommand>, commands: &Vec<WindowCommand>)
    ensures
        final(queue)@ == old(queue)@ + commands@,
{
    let mut i: usize = 0;
    while i < commands.len()
        invariant
            i <= commands@.len(),
            queue@ == old(queue)@ + commands@.take(i as int),
        decreases commands@.len() - i,
    {
        queue.push_back(commands[i]);
        assert(commands@.take(i as int + 1) =~= commands@.take(i as int).push(commands@[i as int]));
        i = i + 1;
    }
    assert(commands@.take(i as int) =~= commands@);
}

/// Shell-side driving state of one session: candidate / presented frames and the queue of
/// window commands released by presentation.
pub struct SessionDriver<S: ApplicationSession> {
    app: S,
    presented: Option<AppPublication<S::Frame>>,
    candidate: Option<AppPublication<S::Frame>>,
    publish_pending: bool,
    ready_window_commands: VecDeque<WindowCommand>,
}

impl<S: ApplicationSession> SessionDriver<S> {
    /// The application session.
    pub closed spec fn app(&self) -> S {
        self.app
    }

    /// The last frame that was presented and not invalidated since.
    pub closed spec fn presented_frame(&self) -> Option<AppPublication<S::Frame>> {
        self.presented
    }

    /// The published frame waiting for presentation.
    pub closed spec fn candidate_frame(&self) -> Option<AppPublication<S::Frame>> {
        self.candidate
    }

    /// A publication failed or a new frame was requested and none is published yet.
    pub closed spec fn publish_pending(&self) -> bool {
        self.publish_pending
    }

    /// Window commands released by presentation and not yet taken, oldest first.
    pub closed spec fn window_commands(&self) -> Seq<WindowCommand> {
        self.ready_window_commands@
    }

    /// A pending publication never coexists with a candidate: every operation keeps this.
    pub open spec fn well_formed(&self) -> bool {
        self.publish_pending() ==> self.candidate_frame() is None
    }

    /// The publication that the shell renders: the candidate, else the presented frame.
    pub open spec fn current_publication(&self) -> Option<AppPublication<S::Frame>> {
        if self.candidate_frame() is Some {
            self.candidate_frame()
        } else {
            self.presented_frame()
        }
    }

    /// What a publication attempt leaves behind: a candidate and nothing pending, or no
    /// candidate and the attempt still pending.
    pub open spec fn publication_settled(&self) -> bool {
        (self.candidate_frame() is Some && !self.publish_pending()) || (
        self.candidate_frame() is None && self.publish_pending())
    }

    /// The application calls of a flush with `candidate` and `pending`: with pending work,
    /// the candidate's token is rejected (if there is one) and a frame is published; otherwise
    /// none.
    pub open spec fn publish_calls(
        candidate: Option<AppPublication<S::Frame>>,
        pending: bool,
    ) -> Seq<AppCall<S::Event, S::FrameInput>> {
        if !pending {
            Seq::empty()
        } else {
            match candidate {
                Some(publication) => seq![AppCall::Rejected(publication.token), AppCall::Publish],
                None => seq![AppCall::Publish],
            }
        }
    }

    /// The application calls of a dispatch from `before` whose delivery was recorded as
    /// `delivered` and reported as `outcome`: the delivery, then, for a successful answer, the
    /// publication of pending work.
    pub open spec fn dispatch_calls(
        before: Self,
        delivered: AppCall<S::Event, S::FrameInput>,
        outcome: AppDispatchOutcome,
    ) -> Seq<AppCall<S::Event, S::FrameInput>> {
        before.app().calls().push(delivered) + if answer_of(delivered) is Ok {
            Self::publish_calls(
                before.candidate_frame(),
                before.publish_pending() || outcome.publish_requested,
            )
        } else {
            Seq::empty()
        }
    }

    /// The frame state after a flush from `before`: without pending work nothing changes;
    /// otherwise the old candidate is gone and a publication attempt settled.
    pub open spec fn flushed_from(&self, before: Self) -> bool {
        &&& self.presented_frame() == before.presented_frame()
        &&& self.window_commands() == before.window_commands()
        &&& self.app().calls() == before.app().calls() + Self::publish_calls(
            before.candidate_frame(),
            before.publish_pending(),
        )
        &&& if before.publish_pending() {
            self.publication_settled()
        } else {
            self.candidate_frame() == before.candidate_frame() && !self.publish_pending()
                && self.app() == before.app()
        }
    }

    /// Initializes the session and eagerly publishes the first frame; an initialization
    /// failure is returned. What follows each answer of the application is [`Self::start`].
    pub fn new(app: S) -> (result: Result<Self, SessionError>)
        ensures
            result matches Ok(driver) ==> ({
                let init = driver.app().calls()[app.calls().len() as int];
                &&& driver.well_formed()
                &&& driver.presented_frame() is None
                &&& driver.window_commands() == Seq::<WindowCommand>::empty()
                &&& init == AppCall::<S::Event, S::FrameInput>::Initialize(answer_of(init))
                &&& answer_of(init) matches Ok(answered) && {
                    &&& driver.app().calls() == app.calls().push(init) + Self::publish_calls(
                        None,
                        answered.publish_requested,
                    )
                    &&& if answered.publish_requested {
                        driver.publication_settled()
                    } else {
                        driver.candidate_frame() is None && !driver.publish_pending()
                    }
                }
            }),
    {
        let mut app = app;
        let ghost before = app.calls();
        let answer = app.initialize();
        let result = Self::start(app, answer);
        proof {
            if let Ok(driver) = &result {
                assert(driver.app().calls()[before.len() as int] == AppCall::<
                    S::Event,
                    S::FrameInput,
                >::Initialize(answer));
            }
        }
        result
    }

    /// Builds the driver from the application's answer to `initialize`: an error is returned
    /// as it is; a success gives a driver with no presented frame and no queued command, which
    /// publishes the first frame at once when the application asked for one.
    pub fn start(app: S, answer: Result<AppDispatchOutcome, SessionError>) -> (result: Result<Self, SessionError>)
        ensures
            answer matches Err(error) ==> result == Err::<Self, SessionError>(error),
            answer matches Ok(outcome) ==> (result matches Ok(driver) && {
                &&& driver.well_formed()
                &&& driver.presented_frame() is None
                &&& driver.window_commands() == Seq::<WindowCommand>::empty()
                &&& driver.app().calls() == app.calls() + Self::publish_calls(
                    None,
                    outcome.publish_requested,
                )
                &&& if outcome.publish_requested {
                    driver.publication_settled()
                } else {
                    driver.candidate_frame() is None && !driver.publish_pending() && driver.app()
                        == app
                }
            }),
    {
        let outcome = match answer {
            Ok(outcome) => outcome,
            Err(error) => return Err(error),
        };
        let mut driver = SessionDriver {
            app,
            presented: None,
            candidate: None,
            publish_pending: outcome.publish_requested,
            ready_window_commands: VecDeque::new(),
        };
        driver.flush();
        Ok(driver)
    }

    /// Dispatches one event; what follows the application's answer is
    /// [`Self::settle_dispatch`].
    pub fn dispatch(&mut self, event: S::Event) -> (outcome: AppDispatchOutcome)
        requires
            old(self).well_formed(),
        ensures
            final(self).well_formed(),
            final(self).presented_frame() == old(self).presented_frame(),
            final(self).window_commands() == old(self).window_commands(),
            old(self).publish_pending() || outcome.publish_requested ==> final(self).publication_settled(),
            !(old(self).publish_pending() || outcome.publish_requested) ==> final(self).candidate_frame() == old(self).candidate_frame() && !final(self).publish_pending(),
            ({
                let delivered = final(self).app().calls()[old(self).app().calls().len() as int];
                &&& delivered == AppCall::<S::Event, S::FrameInput>::Dispatch(event, answer_of(delivered))
                &&& reports_answer(outcome, delivered)
                &&& answer_of(delivered) matches Ok(answered) ==> outcome == answered
                &&& answer_of(delivered) is Err ==> !outcome.handled && !outcome.publish_requested
                &&& final(self).app().calls() == Self::dispatch_calls(*old(self), delivered, outcome)
                &&& answer_of(delivered) is Err ==> final(self).candidate_frame() == old(
                    self,
                ).candidate_frame() && final(self).publish_pending() == old(self).publish_pending()
            }),
    {
        let ghost before = *self;
        let answer = self.app.dispatch(event);
        let ghost delivered = self.app.calls().last();
        let outcome = self.settle_dispatch(answer);
        proof {
            assert(self.app.calls()[before.app.calls().len() as int] == delivered);
        }
        outcome
    }

    /// Dispatches frame-owned input. Without a presented frame the input is dropped, the
    /// application is not called, and the outcome is idle; otherwise it is routed with the
    /// presented frame's token, and what follows the application's answer is
    /// [`Self::settle_dispatch`].
    pub fn dispatch_frame_input(&mut self, input: S::FrameInput) -> (outcome: AppDispatchOutcome)
        requires
            old(self).well_formed(),
        ensures
            final(self).well_formed(),
            old(self).presented_frame() is None ==> outcome == AppDispatchOutcome::spec_idle()
                && *final(self) == *old(self),
            old(self).presented_frame() is Some ==> {
                &&& final(self).presented_frame() == old(self).presented_frame()
                &&& final(self).window_commands() == old(self).window_commands()
                &&& if old(self).publish_pending() || outcome.publish_requested {
                    final(self).publication_settled()
                } else {
                    final(self).candidate_frame() == old(self).candidate_frame()
                        && !final(self).publish_pending()
                }
                &&& {
                    let delivered = final(self).app().calls()[old(self).app().calls().len() as int];
                    &&& delivered == AppCall::<S::Event, S::FrameInput>::DispatchFrameInput(
                        old(self).presented_frame()->0.token,
                        input,
                        answer_of(delivered),
                    )
                    &&& reports_answer(outcome, delivered)
                    &&& answer_of(delivered) matches Ok(answered) ==> outcome == answered
                    &&& answer_of(delivered) is Err ==> !outcome.handled
                        && !outcome.publish_requested
                    &&& final(self).app().calls() == Self::dispatch_calls(
                        *old(self),
                        delivered,
                        outcome,
                    )
                    &&& answer_of(delivered) is Err ==> final(self).candidate_frame() == old(
                        self,
                    ).candidate_frame() && final(self).publish_pending() == old(
                        self,
                    ).publish_pending()
                }
            },
    {
        let source_frame_token = match &self.presented {
            None => return AppDispatchOutcome::idle(),
            Some(publication) => publication.token,
        };
        let ghost before = *self;
        let answer = self.app.dispatch_frame_input(source_frame_token, input);
        let ghost delivered = self.app.calls().last();
        let outcome = self.settle_dispatch(answer);
        proof {
            assert(self.app.calls()[before.app.calls().len() as int] == delivered);
        }
        outcome
    }

    /// Follows the application's answer to a dispatched event or input: an error leaves the
    /// driver as it is and is reported as an idle outcome; a success is returned as the
    /// outcome, a requested frame becomes pending, and pending work is published at once.
    pub fn settle_dispatch(&mut self, answer: Result<AppDispatchOutcome, SessionError>) -> (outcome: AppDispatchOutcome)
        requires
            old(self).well_formed(),
        ensures
            final(self).well_formed(),
            answer is Err ==> outcome == AppDispatchOutcome::spec_idle() && *final(self) == *old(self),
            answer matches Ok(answered) ==> {
                &&& outcome == answered
                &&& final(self).app().calls() == old(self).app().calls() + Self::publish_calls(
                    old(self).candidate_frame(),
                    old(self).publish_pending() || answered.publish_requested,
                )
                &&& final(self).presented_frame() == old(self).presented_frame()
                &&& final(self).window_commands() == old(self).window_commands()
                &&& if old(self).publish_pending() || answered.publish_requested {
                    final(self).publication_settled()
                } else {
                    final(self).candidate_frame() == old(self).candidate_frame()
                        && !final(self).publish_pending() && final(self).app() == old(self).app()
                }
            },
    {
        let outcome = match answer {
            Ok(outcome) => outcome,
            Err(_) => return AppDispatchOutcome::idle(),
        };
        if outcome.publish_requested {
            self.publish_pending = true;
        }
        self.flush();
        outcome
    }

    /// Publishes when a publication is pending: the old candidate is rejected first, and what
    /// follows the application's answer is [`Self::settle_publish`].
    pub fn flush(&mut self)
        ensures
            final(self).well_formed(),
            final(self).flushed_from(*old(self)),
    {
        if !self.publish_pending {
            return;
        }
        let ghost before = self.app.calls();
        let old_candidate = self.candidate.take();
        match old_candidate {
            Some(candidate) => self.app.rejected(candidate.token),
            None => {},
        }
        let answer = self.app.publish();
        self.settle_publish(answer);
        assert(self.app.calls() =~= before + Self::publish_calls(old_candidate, true));
    }

    /// Follows the application's answer to a pending publication: a published frame becomes
    /// the candidate and nothing stays pending; a failure leaves no candidate and the
    /// publication pending for the next opportunity.
    pub fn settle_publish(&mut self, answer: Result<AppPublication<S::Frame>, SessionError>)
        requires
            old(self).candidate_frame() is None,
            old(self).publish_pending(),
        ensures
            final(self).presented_frame() == old(self).presented_frame(),
            final(self).window_commands() == old(self).window_commands(),
            final(self).app() == old(self).app(),
            answer matches Ok(publication) ==> final(self).candidate_frame() == Some(publication)
                && !final(self).publish_pending(),
            answer is Err ==> final(self).candidate_frame() is None && final(self).publish_pending(),
    {
        match answer {
            Ok(publication) => {
                self.publish_pending = false;
                self.candidate = Some(publication);
            },
            Err(_) => {},
        }
    }

    /// Acknowledges that the candidate was presented. On success it becomes the presented frame
    /// and its window commands join the queue in order; a failed acknowledgement rejects it and
    /// leaves a publication pending. Returns whether the application asked for another frame.
    pub fn frame_presented(&mut self) -> (republish: bool)
        requires
            old(self).well_formed(),
        ensures
            final(self).well_formed(),
            old(self).candidate_frame() is None ==> !republish && *final(self) == *old(self),
            old(self).candidate_frame() matches Some(publication) ==> ({
                let ack = final(self).app().calls()[old(self).app().calls().len() as int];
                &&& final(self).candidate_frame() is None
                &&& ack == AppCall::<S::Event, S::FrameInput>::Presented(
                    publication.token,
                    answer_of(ack),
                )
                &&& answer_of(ack) matches Ok(answered) ==> {
                    &&& republish == answered.publish_requested
                    &&& final(self).presented_frame() == Some(publication)
                    &&& final(self).window_commands() == old(self).window_commands()
                        + publication.effects@
                    &&& final(self).publish_pending() == (old(self).publish_pending()
                        || answered.publish_requested)
                    &&& final(self).app().calls() == old(self).app().calls().push(ack)
                }
                &&& answer_of(ack) is Err ==> {
                    &&& !republish
                    &&& final(self).presented_frame() == old(self).presented_frame()
                    &&& final(self).window_commands() == old(self).window_commands()
                    &&& final(self).publish_pending()
                    &&& final(self).app().calls() == old(self).app().calls().push(ack).push(
                        AppCall::Rejected(publication.token),
                    )
                }
            }),
    {
        let publication = match self.candidate.take() {
            None => return false,
            Some(publication) => publication,
        };
        let ghost before = self.app.calls();
        let ack = self.app.presented(publication.token);
        let ghost acknowledged = self.app.calls().last();
        let republish = self.settle_presented(publication, ack);
        proof {
            assert(self.app.calls()[before.len() as int] == acknowledged);
        }
        republish
    }

    /// Follows the application's acknowledgement of a presented candidate. A success commits
    /// it: it becomes the presented frame, its window commands join the queue in order, and
    /// the application's request for another frame is returned and becomes pending. A failure
    /// rejects its token, keeps the presented frame and the queue, and leaves a publication
    /// pending.
    pub fn settle_presented(
        &mut self,
        publication: AppPublication<S::Frame>,
        ack: Result<AppDispatchOutcome, SessionError>,
    ) -> (republish: bool)
        requires
            old(self).candidate_frame() is None,
        ensures
            final(self).well_formed(),
            final(self).candidate_frame() is None,
            ack matches Ok(outcome) ==> {
                &&& republish == outcome.publish_requested
                &&& final(self).presented_frame() == Some(publication)
                &&& final(self).window_commands() == old(self).window_commands()
                    + publication.effects@
                &&& final(self).publish_pending() == (old(self).publish_pending()
                    || outcome.publish_requested)
                &&& final(self).app() == old(self).app()
            },
            ack is Err ==> {
                &&& !republish
                &&& final(self).app().calls() == old(self).app().calls().push(
                    AppCall::Rejected(publication.token),
                )
                &&& final(self).presented_frame() == old(self).presented_frame()
                &&& final(self).window_commands() == old(self).window_commands()
                &&& final(self).publish_pending()
            },
    {
        match ack {
            Ok(outcome) => {
                enqueue_commands(&mut self.ready_window_commands, &publication.effects);
                self.presented = Some(publication);
                self.publish_pending = self.publish_pending || outcome.publish_requested;
                outcome.publish_requested
            },
            Err(_) => {
                self.app.rejected(publication.token);
                self.publish_pending = true;
                false
            },
        }
    }

    /// Drops a candidate that will not be presented (surface loss and the like); a new
    /// publication is then pending.
    pub fn frame_rejected(&mut self)
        requires
            old(self).well_formed(),
        ensures
            final(self).well_formed(),
            old(self).candidate_frame() is None ==> *final(self) == *old(self),
            old(self).candidate_frame() matches Some(candidate) ==> {
                &&& final(self).candidate_frame() is None
                &&& final(self).publish_pending()
                &&& final(self).presented_frame() == old(self).presented_frame()
                &&& final(self).window_commands() == old(self).window_commands()
                &&& final(self).app().calls() == old(self).app().calls().push(
                    AppCall::Rejected(candidate.token),
                )
            },
    {
        match self.candidate.take() {
            Some(candidate) => {
                self.app.rejected(candidate.token);
                self.publish_pending = true;
            },
            None => {},
        }
    }

    /// Invalidates the presented frame: after a geometry change it may no longer route input.
    pub fn invalidate_presented(&mut self)
        requires
            old(self).well_formed(),
        ensures
            final(self).well_formed(),
            final(self).presented_frame() is None,
            final(self).candidate_frame() == old(self).candidate_frame(),
            final(self).publish_pending() == old(self).publish_pending(),
            final(self).window_commands() == old(self).window_commands(),
            final(self).app() == old(self).app(),
    {
        self.presented = None;
    }

    /// Whether a frame has been published (candidate or presented).
    pub fn has_frame(&self) -> (available: bool)
        ensures
            available == (self.current_publication() is Some),
    {
        self.candidate.is_some() || self.presented.is_some()
    }

    /// The frame to render: the candidate, else the presented frame.
    pub fn frame(&self) -> (frame: &S::Frame)
        requires
            self.current_publication() is Some,
        ensures
            *frame == self.current_publication()->0.frame,
    {
        if self.candidate.is_some() {
            &self.candidate.as_ref().unwrap().frame
        } else {
            &self.presented.as_ref().unwrap().frame
        }
    }

    /// Non-drawing state of the candidate, else of the presented frame.
    pub fn status(&self) -> (status: Option<&AppStatus>)
        ensures
            match self.current_publication() {
                Some(publication) => status == Some(&publication.status),
                None => status is None,
            },
    {
        match &self.candidate {
            Some(publication) => Some(&publication.status),
            None => match &self.presented {
                Some(publication) => Some(&publication.status),
                None => None,
            },
        }
    }

    /// Whether the controlled text input is focused.
    pub fn input_focused(&self) -> (focused: bool)
        ensures
            focused == (self.current_publication() matches Some(publication)
                && publication.status.input_focused),
    {
        match self.status() {
            Some(status) => status.input_focused,
            None => false,
        }
    }

    /// The controlled text value (empty without a frame).
    pub fn input_value(&self) -> (value: String)
        ensures
            value@ == match self.current_publication() {
                Some(publication) => publication.status.input_value@,
                None => Seq::<char>::empty(),
            },
    {
        match self.status() {
            Some(status) => status.input_value.clone(),
            None => String::new(),
        }
    }

    /// The requested client-area cursor (the arrow without a frame).
    pub fn cursor(&self) -> (cursor: CursorKind)
        ensures
            cursor == match self.current_publication() {
                Some(publication) => publication.status.cursor,
                None => CursorKind::Default,
            },
    {
        match self.status() {
            Some(status) => status.cursor,
            None => CursorKind::Default,
        }
    }

    /// Takes the oldest window command released by presentation.
    pub fn take_window_command(&mut self) -> (command: Option<WindowCommand>)
        requires
            old(self).well_formed(),
        ensures
            final(self).well_formed(),
            old(self).window_commands().len() == 0 ==> command is None && final(self).window_commands() == old(self).window_commands(),
            old(self).window_commands().len() > 0 ==> command == Some(
                old(self).window_commands()[0],
            ) && final(self).window_commands() == old(self).window_commands().drop_first(),
            final(self).presented_frame() == old(self).presented_frame(),
            final(self).candidate_frame() == old(self).candidate_frame(),
            final(self).publish_pending() == old(self).publish_pending(),
    {
        self.ready_window_commands.pop_front()
    }

    /// The session is about to be destroyed.
    pub fn close(&mut self)
        requires
            old(self).well_formed(),
        ensures
            final(self).well_formed(),
            final(self).presented_frame() == old(self).presented_frame(),
            final(self).candidate_frame() == old(self).candidate_frame(),
            final(self).publish_pending() == old(self).publish_pending(),
            final(self).window_commands() == old(self).window_commands(),
            final(self).app().calls() == old(self).app().calls().push(AppCall::Close),
    {
        self.app.close();
    }
}

} // verus!
