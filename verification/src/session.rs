//! The session: everything the frame loop owns, and the steps of the loop.
//!
//! The caller runs the loop. In each cycle it hands the pending events to
//! [`Session::handle_event`] one by one and carries out what each asks for,
//! then calls [`Session::frame`], which says whether and how to draw.

use vstd::prelude::*;
use vstd::pervasive::unreached;
use crate::clock::monotonic_nanos;
use crate::clock::FrameClock;
use crate::config::parse_tunables;
use crate::config::ConfigEntry;
use crate::config::validate_field;
use crate::config::ConfigError;
use crate::config::Field;
use crate::input::effect_of;
use crate::input::mouse_after;
use crate::input::route;
use crate::input::Effect;
use crate::input::Event;
use crate::mouse::MouseState;
use crate::program::ProgramKind;
use crate::program::ProgramManager;
use crate::program::Programs;
use crate::scalar::Point;
use crate::scalar::Scalar;
use crate::tunables::Tunables;
use crate::view::ViewState;

verus! {

/// The state of the frame loop. `Terminating` is final.
#[derive(Clone, Copy, Debug, PartialEq, Eq, Structural)]
pub enum LoopState {
    Running,
    Terminating,
}

/// The parameters handed to the per-pixel computation for one draw call.
#[derive(Clone, Copy, Debug, PartialEq, Eq, Structural)]
pub struct UniformBundle {
    pub scale: Scalar,
    pub position: Point,
    pub max_iteration: u32,
    pub escape_threshold: Scalar,
}

/// How to draw one frame.
#[derive(Clone, Copy, Debug, PartialEq, Eq, Structural)]
pub struct FramePlan {
    /// The parameters of the draw call.
    pub uniforms: UniformBundle,
    /// The variant to draw with; the session holds a handle for it.
    pub program: ProgramKind,
    /// Extended precision was asked for and is not to be had: tell the user.
    pub warn_fallback: bool,
    /// Nanoseconds since the previous frame, unknown on the first.
    pub elapsed_nanos: Option<i128>,
}

/// What a cycle of the loop does after its events.
#[derive(Clone, Copy, Debug, PartialEq, Eq, Structural)]
pub enum FrameStep {
    /// The loop has ended: draw nothing.
    Stop,
    /// Draw and present a frame.
    Draw(FramePlan),
}

/// Why the caller has no record to hand over.
#[derive(Clone, Copy, Debug, PartialEq, Eq, Structural)]
pub enum ReadFailure {
    /// The configuration could not be read from storage.
    Storage,
    /// The configuration is not written as a record.
    Syntax,
}

/// Why the caller has no freshly compiled program to hand over.
#[derive(Clone, Copy, Debug, PartialEq, Eq, Structural)]
pub enum ProgramFailure {
    /// A shader source could not be read from storage.
    Storage,
    /// The shader sources did not compile.
    Compile,
}

/// Why a reload changed nothing.
#[derive(Clone, Copy, Debug, PartialEq, Eq, Structural)]
pub enum ReloadError {
    /// The configuration or a shader source could not be read from storage.
    Storage,
    /// The configuration is not written as a record.
    Syntax,
    /// The record does not hold a valid parameter set.
    Config(ConfigError),
    /// The shader sources did not compile.
    Compile,
}

/// What a reload would install: the parameter set of the record and the
/// freshly compiled program, or the first thing that went wrong, in the order
/// storage, syntax, record, compilation.
pub open spec fn reload_candidate<H>(
    record: Result<Vec<ConfigEntry>, ReadFailure>,
    program: Result<H, ProgramFailure>,
) -> Result<(Tunables, H), ReloadError> {
    if record == Err::<Vec<ConfigEntry>, ReadFailure>(ReadFailure::Storage) || program == Err::<
        H,
        ProgramFailure,
    >(ProgramFailure::Storage) {
        Err(ReloadError::Storage)
    } else {
        match record {
            Err(_) => Err(ReloadError::Syntax),
            Ok(entries) => match parse_tunables(entries@) {
                Err(e) => Err(ReloadError::Config(e)),
                Ok(tunables) => match program {
                    Err(_) => Err(ReloadError::Compile),
                    Ok(handle) => Ok((tunables, handle)),
                },
            },
        }
    }
}

/// The parameters of a draw call with the given view and parameter set.
pub open spec fn uniforms_of(view: ViewState, tunables: Tunables) -> UniformBundle {
    UniformBundle {
        scale: view.scale,
        position: view.position,
        max_iteration: tunables.max_iteration as u32,
        escape_threshold: tunables.escape_threshold,
    }
}

/// One step that a caller can take with a session: each stands for a call of
/// the method that its fields are the arguments of.
pub ghost enum Step<H> {
    /// [`Session::handle_event`].
    Event { event: Event, captured: bool },
    /// [`Session::prepare_frame`], or [`Session::frame`] reading `now`.
    Frame { now: u64 },
    /// [`Session::reload`].
    Reload { record: Result<Vec<ConfigEntry>, ReadFailure>, program: Result<H, ProgramFailure> },
    /// [`Session::compile`].
    Compile { kind: ProgramKind, outcome: Result<H, ()> },
    /// [`Session::set_view`].
    View { candidate: ViewState },
    /// [`Session::set_tunables`].
    Tune { candidate: Tunables },
}

/// What a session holds, as plain values.
pub ghost struct SessionModel<H> {
    pub state: LoopState,
    pub view: ViewState,
    pub tunables: Tunables,
    pub mouse: MouseState,
    pub clock: FrameClock,
    pub programs: Programs<H>,
}

impl<H> SessionModel<H> {
    /// What holds of every session: the view, the parameters, the pointer and
    /// the clock are valid, and there is a standard program to draw with.
    pub open spec fn valid(self) -> bool {
        &&& self.view.valid()
        &&& self.tunables.valid()
        &&& self.mouse.valid()
        &&& self.clock.valid()
        &&& self.programs.standard is Some
    }

    /// What an event asks for. Once the loop has ended, nothing.
    pub open spec fn effect(self, event: Event, captured: bool) -> Effect {
        match self.state {
            LoopState::Running => effect_of(self.mouse, self.tunables, event, captured),
            LoopState::Terminating => Effect::Nothing,
        }
    }

    /// The session after an event. A close event ends the loop; other events
    /// change the pointer state at most. Once the loop has ended, events
    /// change nothing.
    pub open spec fn handled(self, event: Event, captured: bool) -> SessionModel<H> {
        match self.state {
            LoopState::Running => SessionModel {
                state: if event is Close {
                    LoopState::Terminating
                } else {
                    LoopState::Running
                },
                mouse: mouse_after(self.mouse, event, captured),
                ..self
            },
            LoopState::Terminating => self,
        }
    }

    /// The session after the frame at instant `now` has been prepared: the
    /// clock has ticked and a request for extended precision that cannot be
    /// met is withdrawn. Once the loop has ended, nothing changes.
    pub open spec fn prepared(self, now: u64) -> SessionModel<H> {
        match self.state {
            LoopState::Running => SessionModel {
                clock: self.clock.ticked(now),
                tunables: self.programs.selected(self.tunables),
                ..self
            },
            LoopState::Terminating => self,
        }
    }

    /// The session after a reload: with the parameter set of the record and
    /// the freshly compiled standard program when both are good, else as it
    /// was.
    pub open spec fn reloaded(
        self,
        record: Result<Vec<ConfigEntry>, ReadFailure>,
        program: Result<H, ProgramFailure>,
    ) -> SessionModel<H> {
        match reload_candidate(record, program) {
            Ok((tunables, handle)) => SessionModel {
                tunables,
                programs: self.programs.with(ProgramKind::Standard, handle),
                ..self
            },
            Err(_) => self,
        }
    }

    /// The session after a view has been proposed: with that view if it is
    /// valid, else as it was.
    pub open spec fn viewed(self, candidate: ViewState) -> SessionModel<H> {
        SessionModel {
            view: if candidate.valid() {
                candidate
            } else {
                self.view
            },
            ..self
        }
    }

    /// The session after parameters have been proposed: with those parameters
    /// if they are valid, else as it was.
    pub open spec fn tuned(self, candidate: Tunables) -> SessionModel<H> {
        SessionModel {
            tunables: if candidate.valid() {
                candidate
            } else {
                self.tunables
            },
            ..self
        }
    }

    /// The session after the outcome of compiling the variant of `kind`.
    pub open spec fn compiled<E>(self, kind: ProgramKind, outcome: Result<H, E>) -> SessionModel<
        H,
    > {
        SessionModel { programs: self.programs.compiled(kind, outcome), ..self }
    }

    /// The session after one step of any kind.
    pub open spec fn step(self, step: Step<H>) -> SessionModel<H> {
        match step {
            Step::Event { event, captured } => self.handled(event, captured),
            Step::Frame { now } => self.prepared(now),
            Step::Reload { record, program } => self.reloaded(record, program),
            Step::Compile { kind, outcome } => self.compiled(kind, outcome),
            Step::View { candidate } => self.viewed(candidate),
            Step::Tune { candidate } => self.tuned(candidate),
        }
    }

    /// The session after a run of steps, taken in order.
    pub open spec fn run(self, steps: Seq<Step<H>>) -> SessionModel<H>
        decreases steps.len(),
    {
        if steps.len() == 0 {
            self
        } else {
            self.run(steps.drop_last()).step(steps.last())
        }
    }

    /// What the cycle at instant `now` does after its events: nothing once
    /// the loop has ended, else a draw with the current view and parameters
    /// and the selected program.
    pub open spec fn frame_step(self, now: u64) -> FrameStep {
        match self.state {
            LoopState::Running => {
                let wanted = self.tunables.use_extended_precision;
                FrameStep::Draw(
                    FramePlan {
                        uniforms: uniforms_of(self.view, self.tunables),
                        program: if wanted && self.programs.extended is Some {
                            ProgramKind::Extended
                        } else {
                            ProgramKind::Standard
                        },
                        warn_fallback: wanted && self.programs.extended is None,
                        elapsed_nanos: self.clock.ticked(now).delta,
                    },
                )
            },
            LoopState::Terminating => FrameStep::Stop,
        }
    }
}

/// The state of a viewing session.
pub struct Session<H> {
    state: LoopState,
    view: ViewState,
    tunables: Tunables,
    mouse: MouseState,
    clock: FrameClock,
    programs: ProgramManager<H>,
}

impl<H> View for Session<H> {
    type V = SessionModel<H>;

    closed spec fn view(&self) -> SessionModel<H> {
        SessionModel {
            state: self.state,
            view: self.view,
            tunables: self.tunables,
            mouse: self.mouse,
            clock: self.clock,
            programs: self.programs@,
        }
    }
}

impl<H> Session<H> {
    #[verifier::type_invariant]
    spec fn well_formed(self) -> bool {
        self@.valid()
    }

    /// A running session with the initial view and parameters. A standard
    /// program is needed to start; an extended one may be added.
    pub fn new(standard: H, extended: Option<H>) -> (s: Session<H>)
        ensures
            s@.state == LoopState::Running,
            s@.view == ViewState::initial_view(),
            s@.tunables == Tunables::default_tunables(),
            s@.mouse == MouseState::initial_mouse(),
            s@.clock.last_timestamp is None,
            s@.clock.delta is None,
            s@.programs == (Programs { standard: Some(standard), extended }),
            s@.valid(),
    {
        let mut programs = ProgramManager::new();
        let _ = programs.compile::<()>(ProgramKind::Standard, Ok(standard));
        if let Some(handle) = extended {
            let _ = programs.compile::<()>(ProgramKind::Extended, Ok(handle));
        }
        Session {
            state: LoopState::Running,
            view: ViewState::initial(),
            tunables: Tunables::initial(),
            mouse: MouseState::initial(),
            clock: FrameClock::new(),
            programs,
        }
    }

    /// Takes one input event and says what it asks of the caller. `captured`
    /// tells whether the overlay has the pointer in this frame.
    pub fn handle_event(&mut self, event: Event, captured: bool) -> (effect: Effect)
        ensures
            effect == old(self)@.effect(event, captured),
            final(self)@ == old(self)@.handled(event, captured),
            final(self)@.valid(),
    {
        proof {
            use_type_invariant(&*self);
        }
        match self.state {
            LoopState::Terminating => Effect::Nothing,
            LoopState::Running => {
                let mut mouse = self.mouse;
                let effect = route(&mut mouse, &self.tunables, event, captured);
                self.mouse = mouse;
                match event {
                    Event::Close => {
                        self.state = LoopState::Terminating;
                    },
                    _ => {},
                }
                effect
            },
        }
    }

    /// Prepares the frame at instant `now`: ticks the clock, gathers the
    /// parameters of the draw call and selects the program.
    pub fn prepare_frame(&mut self, now: u64) -> (step: FrameStep)
        ensures
            step == old(self)@.frame_step(now),
            final(self)@ == old(self)@.prepared(now),
            final(self)@.valid(),
    {
        proof {
            use_type_invariant(&*self);
        }
        match self.state {
            LoopState::Terminating => FrameStep::Stop,
            LoopState::Running => {
                let mut clock = self.clock;
                clock.tick_at(now);
                self.clock = clock;
                let uniforms = UniformBundle {
                    scale: self.view.scale,
                    position: self.view.position,
                    max_iteration: self.tunables.max_iteration as u32,
                    escape_threshold: self.tunables.escape_threshold,
                };
                let mut tunables = self.tunables;
                let selection = self.programs.select(&mut tunables);
                self.tunables = tunables;
                let program = match selection.kind {
                    Some(kind) => kind,
                    None => ProgramKind::Standard,
                };
                FrameStep::Draw(
                    FramePlan {
                        uniforms,
                        program,
                        warn_fallback: selection.fell_back,
                        elapsed_nanos: self.clock.delta,
                    },
                )
            },
        }
    }

    /// Prepares the frame at the current reading of the monotonic clock.
    /// Once the loop has ended the clock is not read.
    pub fn frame(&mut self) -> (step: FrameStep)
        ensures
            exists|now: u64|
                step == old(self)@.frame_step(now) && final(self)@ == old(self)@.prepared(now),
            final(self)@.valid(),
    {
        proof {
            use_type_invariant(&*self);
        }
        match self.state {
            LoopState::Terminating => {
                assert(FrameStep::Stop == self@.frame_step(0) && self@ == self@.prepared(0));
                FrameStep::Stop
            },
            LoopState::Running => {
                let now: u64 = monotonic_nanos();
                self.prepare_frame(now)
            },
        }
    }

    /// Applies a reload. The record and the program are what the caller got
    /// from storage and from the device. Only when the record holds a valid
    /// parameter set and the program compiled do the parameters and the
    /// standard program change, both at once; on any failure the session
    /// stays as it was.
    pub fn reload(
        &mut self,
        record: Result<Vec<ConfigEntry>, ReadFailure>,
        program: Result<H, ProgramFailure>,
    ) -> (r: Result<(), ReloadError>)
        ensures
            final(self)@ == old(self)@.reloaded(record, program),
            match reload_candidate(record, program) {
                Ok(_) => r is Ok,
                Err(e) => r == Err::<(), ReloadError>(e),
            },
            final(self)@.valid(),
    {
        proof {
            use_type_invariant(&*self);
        }
        let entries = match record {
            Ok(entries) => entries,
            Err(ReadFailure::Storage) => {
                return Err(ReloadError::Storage);
            },
            Err(ReadFailure::Syntax) => {
                return match program {
                    Err(ProgramFailure::Storage) => Err(ReloadError::Storage),
                    _ => Err(ReloadError::Syntax),
                };
            },
        };
        let compiled = match program {
            Ok(handle) => Some(handle),
            Err(ProgramFailure::Storage) => {
                return Err(ReloadError::Storage);
            },
            Err(ProgramFailure::Compile) => None,
        };
        let tunables = match Tunables::from_record(&entries) {
            Ok(tunables) => tunables,
            Err(e) => {
                return Err(ReloadError::Config(e));
            },
        };
        let handle = match compiled {
            Some(handle) => handle,
            None => {
                return Err(ReloadError::Compile);
            },
        };
        let _ = self.programs.compile::<()>(ProgramKind::Standard, Ok(handle));
        self.tunables = tunables;
        Ok(())
    }

    /// Records the outcome of compiling the variant of `kind` outside a
    /// reload. On success the new handle replaces the variant of that kind;
    /// on failure nothing changes and the failure is handed back.
    pub fn compile<E>(&mut self, kind: ProgramKind, outcome: Result<H, E>) -> (r: Result<(), E>)
        ensures
            final(self)@ == old(self)@.compiled(kind, outcome),
            match outcome {
                Ok(_) => r is Ok,
                Err(e) => r == Err::<(), E>(e),
            },
            final(self)@.valid(),
    {
        proof {
            use_type_invariant(&*self);
        }
        self.programs.compile(kind, outcome)
    }

    /// Proposes a new view, as computed from a view command. It becomes the
    /// view of the session if it is valid; else the view stays as it was.
    /// Returns whether the proposal was taken.
    pub fn set_view(&mut self, candidate: ViewState) -> (taken: bool)
        ensures
            taken == candidate.valid(),
            final(self)@ == old(self)@.viewed(candidate),
            final(self)@.valid(),
    {
        proof {
            use_type_invariant(&*self);
        }
        if candidate.is_valid() {
            self.view = candidate;
            true
        } else {
            false
        }
    }

    /// Proposes new parameters, as edited by the user. They become the live
    /// parameters if they are valid; else the live ones stay as they were.
    /// Returns whether the proposal was taken.
    pub fn set_tunables(&mut self, candidate: Tunables) -> (taken: bool)
        ensures
            taken == candidate.valid(),
            final(self)@ == old(self)@.tuned(candidate),
            final(self)@.valid(),
    {
        proof {
            use_type_invariant(&*self);
        }
        if candidate.is_valid() {
            self.tunables = candidate;
            true
        } else {
            false
        }
    }

    /// The handle of the program to draw with: the extended one when the
    /// parameters ask for it and it is held, else the standard one. Right
    /// after a frame has been prepared this is the program that the plan
    /// names.
    pub fn active_program(&self) -> (h: &H)
        ensures
            Some(*h) == self@.programs.active(self@.tunables.use_extended_precision),
    {
        proof {
            use_type_invariant(self);
        }
        match self.programs.active(self.tunables.use_extended_precision) {
            Some(handle) => handle,
            None => unreached(),
        }
    }

    /// Whether a variant of `kind` is held.
    pub fn has_program(&self, kind: ProgramKind) -> (r: bool)
        ensures
            r == (self@.programs.handle(kind) is Some),
    {
        self.programs.has(kind)
    }

    /// The state of the frame loop.
    pub fn state(&self) -> (s: LoopState)
        ensures
            s == self@.state,
    {
        self.state
    }

    /// The current view, which is valid.
    pub fn view_state(&self) -> (v: ViewState)
        ensures
            v == self@.view,
            v.valid(),
    {
        proof {
            use_type_invariant(self);
        }
        self.view
    }

    /// The live parameters, which are valid.
    pub fn tunables(&self) -> (t: Tunables)
        ensures
            t == self@.tunables,
            t.valid(),
    {
        proof {
            use_type_invariant(self);
        }
        self.tunables
    }

    /// The pointer state.
    pub fn mouse(&self) -> (m: MouseState)
        ensures
            m == self@.mouse,
            m.valid(),
    {
        proof {
            use_type_invariant(self);
        }
        self.mouse
    }

    /// The frame clock.
    pub fn clock(&self) -> (c: FrameClock)
        ensures
            c == self@.clock,
            c.valid(),
    {
        proof {
            use_type_invariant(self);
        }
        self.clock
    }
}

/// Every step keeps a session valid, and so does every run of steps. In
/// particular the scale stays a real number above zero and the position a
/// pair of real numbers however many steps are taken, a standard program
/// stays at hand, and the parameters stay valid.
pub proof fn lemma_every_run_keeps_the_session_valid<H>(
    model: SessionModel<H>,
    steps: Seq<Step<H>>,
)
    requires
        model.valid(),
    ensures
        model.run(steps).valid(),
        model.run(steps).view.scale.positive(),
    decreases steps.len(),
{
    if steps.len() > 0 {
        lemma_every_run_keeps_the_session_valid(model, steps.drop_last());
    }
}

/// No run of steps leads out of `Terminating`, and events and frames, which
/// are all that the loop itself does, change nothing there.
pub proof fn lemma_no_run_leaves_terminating<H>(model: SessionModel<H>, steps: Seq<Step<H>>)
    requires
        model.state is Terminating,
    ensures
        model.run(steps).state is Terminating,
        (forall|i: int| 0 <= i < steps.len() ==> steps[i] is Event || steps[i] is Frame)
            ==> model.run(steps) == model,
    decreases steps.len(),
{
    if steps.len() > 0 {
        let before = steps.drop_last();
        lemma_no_run_leaves_terminating(model, before);
        assert forall|i: int| 0 <= i < before.len() implies before[i] == steps[i] by {}
    }
}

/// `Terminating` is final: a close event leads there, and from there no
/// event has an effect, no frame is drawn and nothing changes.
pub proof fn lemma_terminating_is_final<H>(
    model: SessionModel<H>,
    event: Event,
    captured: bool,
    now: u64,
)
    ensures
        model.state is Running ==> model.handled(Event::Close, captured).state is Terminating,
        model.state is Terminating ==> {
            &&& model.effect(event, captured) == Effect::Nothing
            &&& model.handled(event, captured) == model
            &&& model.frame_step(now) == FrameStep::Stop
            &&& model.prepared(now) == model
        },
        model.state is Running ==> model.frame_step(now) is Draw,
{
}

/// A frame is drawn with the program that the manager selects for the
/// precision asked for, which a valid session holds, and warns exactly when
/// that selection fell back.
pub proof fn lemma_frame_draws_with_the_selected_program<H>(model: SessionModel<H>, now: u64)
    requires
        model.valid(),
        model.state is Running,
    ensures
        ({
            let selection = model.programs.selection(model.tunables.use_extended_precision);
            let plan = model.frame_step(now)->Draw_0;
            &&& selection.kind == Some(plan.program)
            &&& selection.fell_back == plan.warn_fallback
            &&& model.programs.handle(plan.program) is Some
            &&& model.programs.handle(plan.program) == model.programs.active(
                model.tunables.use_extended_precision,
            )
            &&& model.prepared(now).programs == model.programs
            &&& model.prepared(now).programs.active(
                model.prepared(now).tunables.use_extended_precision,
            ) == model.programs.handle(plan.program)
        }),
{
}

/// A reload is all or nothing: when anything fails the session stays as it
/// was, and when nothing fails the parameter set of the record and the new
/// standard program are both installed.
pub proof fn lemma_reload_is_all_or_nothing<H>(
    model: SessionModel<H>,
    record: Result<Vec<ConfigEntry>, ReadFailure>,
    program: Result<H, ProgramFailure>,
)
    ensures
        reload_candidate(record, program) is Err ==> model.reloaded(record, program) == model,
        reload_candidate(record, program) matches Ok((tunables, handle)) ==> {
            let after = model.reloaded(record, program);
            &&& after.tunables == tunables
            &&& after.programs.standard == Some(handle)
            &&& after.programs.extended == model.programs.extended
            &&& after.view == model.view
            &&& after.mouse == model.mouse
            &&& after.clock == model.clock
            &&& after.state == model.state
        },
{
}

/// A reload from a record in which some field is missing, mistyped or
/// invalid, such as a negative iteration cap, leaves the parameters and all
/// the rest of the session as they were, whatever became of the compilation.
pub proof fn lemma_bad_field_cancels_reload<H>(
    model: SessionModel<H>,
    entries: Vec<ConfigEntry>,
    program: Result<H, ProgramFailure>,
    field: Field,
)
    requires
        validate_field(entries@, field) is Err,
    ensures
        reload_candidate(Ok(entries), program) is Err,
        model.reloaded(Ok(entries), program) == model,
        model.reloaded(Ok(entries), program).tunables == model.tunables,
{
}

} // verus!
