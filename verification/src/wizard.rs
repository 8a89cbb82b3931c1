//! The wizard's whole state and the decisions of its event loop.
//!
//! The loop itself, which draws the screen, waits for a key and works on image
//! files, belongs to the program around this library. What it must do after
//! each key is decided here: [`WizardState::handle_key`] takes the key and
//! answers with an [`Action`], and [`WizardState::complete`] takes the outcome
//! of requested work.

use crate::mode::{
    decide, interpret, request_view, settle, settled, target_view, Notice, Outcome, Request,
    RequestView, WizardMode,
};
use crate::text_buffer::{Line, TextBuffer};
use vstd::prelude::*;

verus! {

/// How keys are read: as shortcuts, or as input to the text buffer.
#[derive(Clone, Copy, Debug, PartialEq, Eq, Structural)]
pub enum InteractionState {
    Normal,
    Editing,
}

/// The key of a key event, as far as the wizard tells keys apart.
#[derive(Clone, Copy, Debug, PartialEq, Eq, Structural)]
pub enum KeyCode {
    Char(char),
    Enter,
    Backspace,
    Left,
    Right,
    Esc,
    /// Any other key.
    Other,
}

/// Whether a key went down, is held down, or came up.
#[derive(Clone, Copy, Debug, PartialEq, Eq, Structural)]
pub enum KeyKind {
    Press,
    Repeat,
    Release,
}

/// One key event.
#[derive(Clone, Copy, Debug, PartialEq, Eq, Structural)]
pub struct KeyEvent {
    pub code: KeyCode,
    pub kind: KeyKind,
}

/// What the event loop does after a key.
#[derive(Clone, Debug, PartialEq, Eq)]
pub enum Action {
    /// Draw the state and wait for the next key.
    Continue,
    /// Leave the loop.
    Quit,
    /// Carry out the request and report how it ended with
    /// [`WizardState::complete`], then go on as for `Continue`.
    Perform(Request),
}

/// The mathematical value of an [`Action`].
pub enum ActionView {
    Continue,
    Quit,
    Perform(RequestView),
}

impl View for Action {
    type V = ActionView;

    open spec fn view(&self) -> ActionView {
        match *self {
            Action::Continue => ActionView::Continue,
            Action::Quit => ActionView::Quit,
            Action::Perform(request) => ActionView::Perform(request@),
        }
    }
}

/// The mathematical value of a [`WizardState`].
pub struct WizardView {
    /// The active mode.
    pub mode: WizardMode,
    /// The line being edited.
    pub buffer: Line,
    /// How keys are read.
    pub interaction: InteractionState,
    /// The text of the last submission.
    pub message: Seq<char>,
    /// The path of the image to work on, once one has been chosen.
    pub target: Option<Seq<char>>,
    /// What the user is to be told about the last submission, if anything.
    pub notice: Option<Notice>,
}

impl WizardView {
    /// The state at the start: the menu, an empty buffer, keys read as
    /// shortcuts, no submission yet, no image chosen, nothing to tell.
    pub open spec fn initial() -> WizardView {
        WizardView {
            mode: WizardMode::SelectMode,
            buffer: Line::empty(),
            interaction: InteractionState::Normal,
            message: Seq::empty(),
            target: None,
            notice: None,
        }
    }

    /// The key is one that the wizard submits the buffer on: Enter, pressed
    /// while editing.
    pub open spec fn submits_on(self, key: KeyEvent) -> bool {
        self.interaction is Editing && key.kind is Press && key.code is Enter
    }

    /// The state after the buffer has been submitted: the text becomes the last
    /// submission, the mode and the notice are as the mode's rules decide, and
    /// the buffer is empty whatever they decided.
    pub open spec fn submitted(self) -> WizardView {
        let decision = decide(self.mode, self.target, self.buffer.text);
        WizardView {
            mode: decision.next,
            buffer: Line::empty(),
            interaction: self.interaction,
            message: self.buffer.text,
            target: self.target,
            notice: decision.notice,
        }
    }

    /// The work on an image file that submitting the buffer asks for, if any.
    pub open spec fn requested(self) -> Option<RequestView> {
        decide(self.mode, self.target, self.buffer.text).request
    }

    /// The same state with another buffer.
    pub open spec fn with_buffer(self, buffer: Line) -> WizardView {
        WizardView { buffer, ..self }
    }

    /// The same state with keys read another way.
    pub open spec fn with_interaction(self, interaction: InteractionState) -> WizardView {
        WizardView { interaction, ..self }
    }

    /// The state after `key`.
    ///
    /// With keys read as shortcuts, `e` starts editing and nothing else changes
    /// the state. While editing only presses count: Enter submits the buffer;
    /// a character is inserted at the cursor; Backspace deletes before the
    /// cursor; Left and Right move it; Esc ends editing and leaves the buffer
    /// as it is.
    pub open spec fn on_key(self, key: KeyEvent) -> WizardView {
        match self.interaction {
            InteractionState::Normal => if key.code == KeyCode::Char('e') {
                self.with_interaction(InteractionState::Editing)
            } else {
                self
            },
            InteractionState::Editing => if key.kind is Press {
                match key.code {
                    KeyCode::Enter => self.submitted(),
                    KeyCode::Char(ch) => self.with_buffer(self.buffer.insert(ch)),
                    KeyCode::Backspace => self.with_buffer(self.buffer.delete_before()),
                    KeyCode::Left => self.with_buffer(self.buffer.left()),
                    KeyCode::Right => self.with_buffer(self.buffer.right()),
                    KeyCode::Esc => self.with_interaction(InteractionState::Normal),
                    KeyCode::Other => self,
                }
            } else {
                self
            },
        }
    }

    /// What the event loop does after `key`: it leaves on `q` read as a
    /// shortcut, carries out the work that a submission asks for, and in every
    /// other case goes on.
    pub open spec fn action_on(self, key: KeyEvent) -> ActionView {
        if self.interaction is Normal && key.code == KeyCode::Char('q') {
            ActionView::Quit
        } else if self.submits_on(key) {
            match self.requested() {
                Some(request) => ActionView::Perform(request),
                None => ActionView::Continue,
            }
        } else {
            ActionView::Continue
        }
    }

    /// The state after the work of `request` has ended with `outcome`: mode
    /// and notice are as the mode's rules settle them, and a path that was
    /// validated becomes the image to work on.
    pub open spec fn on_outcome(self, request: RequestView, outcome: Outcome) -> WizardView {
        let settlement = settled(self.mode, request, outcome);
        WizardView {
            mode: settlement.next,
            buffer: self.buffer,
            interaction: self.interaction,
            message: self.message,
            target: if settlement.adopt_path {
                Some(request.path())
            } else {
                self.target
            },
            notice: settlement.notice,
        }
    }
}

/// The state of the wizard, owned by the event loop for the whole run.
#[derive(Debug)]
pub struct WizardState {
    mode: WizardMode,
    buffer: TextBuffer,
    interaction: InteractionState,
    message: String,
    target: Option<String>,
    notice: Option<Notice>,
}

impl View for WizardState {
    type V = WizardView;

    closed spec fn view(&self) -> WizardView {
        WizardView {
            mode: self.mode,
            buffer: self.buffer@,
            interaction: self.interaction,
            message: self.message@,
            target: target_view(self.target),
            notice: self.notice,
        }
    }
}

impl WizardState {
    /// The state at the start of a run.
    pub fn new() -> (state: WizardState)
        ensures
            state@ == WizardView::initial(),
    {
        WizardState {
            mode: WizardMode::SelectMode,
            buffer: TextBuffer::new(),
            interaction: InteractionState::Normal,
            message: String::new(),
            target: None,
            notice: None,
        }
    }

    /// The active mode.
    pub fn mode(&self) -> (mode: WizardMode)
        ensures
            mode == self@.mode,
    {
        self.mode
    }

    /// How keys are read.
    pub fn interaction(&self) -> (interaction: InteractionState)
        ensures
            interaction == self@.interaction,
    {
        self.interaction
    }

    /// The line being edited.
    pub fn buffer(&self) -> (buffer: &TextBuffer)
        ensures
            buffer@ == self@.buffer,
            buffer@.wf(),
    {
        proof {
            use_type_invariant(&self.buffer);
        }
        &self.buffer
    }

    /// The text of the last submission.
    pub fn message(&self) -> (message: &String)
        ensures
            message@ == self@.message,
    {
        &self.message
    }

    /// The path of the image to work on, once one has been chosen.
    pub fn target(&self) -> (target: &Option<String>)
        ensures
            target_view(*target) == self@.target,
    {
        &self.target
    }

    /// What the user is to be told about the last submission, if anything.
    pub fn notice(&self) -> (notice: Option<Notice>)
        ensures
            notice == self@.notice,
    {
        self.notice
    }

    /// Submits the buffer: hands its text to the mode's rules, takes the next
    /// mode and the notice from them, and empties the buffer whatever they
    /// decided. Returns the work on an image file that the submission asks
    /// for, if any.
    pub fn submit(&mut self) -> (request: Option<Request>)
        ensures
            final(self)@ == old(self)@.submitted(),
            request_view(request) == old(self)@.requested(),
            final(self)@.buffer == Line::empty(),
            final(self)@.message == old(self)@.buffer.text,
    {
        let text = self.buffer.contents();
        let decision = interpret(self.mode, &self.target, text.as_str());
        self.message = text;
        self.mode = decision.next;
        self.notice = decision.notice;
        self.buffer.clear();
        decision.request
    }

    /// Takes one key event and says what the event loop does next.
    ///
    /// The loop ends only on `Action::Quit`, which only `q` read as a shortcut
    /// gives. On `Action::Perform` the caller carries out the request and
    /// reports its outcome with [`WizardState::complete`].
    pub fn handle_key(&mut self, key: KeyEvent) -> (action: Action)
        ensures
            final(self)@ == old(self)@.on_key(key),
            action@ == old(self)@.action_on(key),
            final(self)@.buffer.wf(),
    {
        proof {
            use_type_invariant(&self.buffer);
        }
        match self.interaction {
            InteractionState::Normal => match key.code {
                KeyCode::Char('e') => {
                    self.interaction = InteractionState::Editing;
                    Action::Continue
                },
                KeyCode::Char('q') => Action::Quit,
                _ => Action::Continue,
            },
            InteractionState::Editing => match key.kind {
                KeyKind::Press => match key.code {
                    KeyCode::Enter => match self.submit() {
                        Some(request) => Action::Perform(request),
                        None => Action::Continue,
                    },
                    KeyCode::Char(ch) => {
                        self.buffer.insert_at_cursor(ch);
                        Action::Continue
                    },
                    KeyCode::Backspace => {
                        self.buffer.delete_before_cursor();
                        Action::Continue
                    },
                    KeyCode::Left => {
                        self.buffer.move_left();
                        Action::Continue
                    },
                    KeyCode::Right => {
                        self.buffer.move_right();
                        Action::Continue
                    },
                    KeyCode::Esc => {
                        self.interaction = InteractionState::Normal;
                        Action::Continue
                    },
                    KeyCode::Other => Action::Continue,
                },
                _ => Action::Continue,
            },
        }
    }

    /// Takes the outcome of the work that `request` asked for.
    pub fn complete(&mut self, request: &Request, outcome: Outcome)
        ensures
            final(self)@ == old(self)@.on_outcome(request@, outcome),
    {
        let settlement = settle(self.mode, request, outcome);
        self.mode = settlement.next;
        self.notice = settlement.notice;
        if settlement.adopt_path {
            self.target = Some(request.path().clone());
        }
    }
}

/// What the event loop hands to the wizard: a key, or the outcome of work
/// that it was asked to carry out.
pub enum Event {
    Key(KeyEvent),
    Ended(RequestView, Outcome),
}

/// The state after `event`.
pub open spec fn after_event(state: WizardView, event: Event) -> WizardView {
    match event {
        Event::Key(key) => state.on_key(key),
        Event::Ended(request, outcome) => state.on_outcome(request, outcome),
    }
}

/// The state after the events `events`, taken in order.
pub open spec fn after_events(state: WizardView, events: Seq<Event>) -> WizardView
    decreases events.len(),
{
    if events.len() == 0 {
        state
    } else {
        after_event(after_events(state, events.drop_last()), events.last())
    }
}

/// The event loop is left on one key only: `q`, read as a shortcut.
pub proof fn lemma_quit_only_on_q(state: WizardView, key: KeyEvent)
    ensures
        state.action_on(key) is Quit <==> state.interaction is Normal && key.code == KeyCode::Char(
            'q',
        ),
{
}

/// Enter, pressed while editing, empties the buffer and records the text as
/// the last submission, whatever the mode's rules made of the text.
pub proof fn lemma_submission_empties_buffer(state: WizardView, key: KeyEvent)
    requires
        state.submits_on(key),
    ensures
        state.on_key(key).buffer == Line::empty(),
        state.on_key(key).message == state.buffer.text,
        state.on_key(key).interaction == state.interaction,
        state.on_key(key).target == state.target,
{
}

/// Neither a key nor the outcome of work moves the cursor out of the text.
pub proof fn lemma_event_keeps_cursor_in_text(state: WizardView, event: Event)
    requires
        state.buffer.wf(),
    ensures
        after_event(state, event).buffer.wf(),
{
}

/// Whatever keys and outcomes arrive, in whatever order, the cursor lies within
/// the text after each of them.
pub proof fn lemma_events_keep_cursor_in_text(state: WizardView, events: Seq<Event>, count: int)
    requires
        state.buffer.wf(),
        0 <= count <= events.len(),
    ensures
        after_events(state, events.take(count)).buffer.wf(),
    decreases count,
{
    let seen = events.take(count);
    if count > 0 {
        lemma_events_keep_cursor_in_text(state, events, count - 1);
        assert(seen.drop_last() == events.take(count - 1));
        lemma_event_keeps_cursor_in_text(after_events(state, seen.drop_last()), seen.last());
    }
}

/// Work on an image other than the chosen one is never asked for: a key asks
/// for work, if at all, on the chosen image or for the validation of a path.
pub proof fn lemma_work_is_on_the_chosen_image(state: WizardView, key: KeyEvent)
    ensures
        state.action_on(key) matches ActionView::Perform(request) ==> request is Validate
            || state.target == Some(request.path()),
{
}

/// The chosen image changes in one way only: a path that was asked to be
/// validated, and was found to hold an image, takes its place.
pub proof fn lemma_target_changes_on_validation(state: WizardView, event: Event)
    ensures
        after_event(state, event).target != state.target ==> (event matches Event::Ended(
            request,
            outcome,
        ) && request is Validate && outcome is Done && after_event(state, event).target == Some(
            request.path(),
        )),
{
}

/// Only a submission changes the mode, the last submission or the notice, and
/// no key changes the chosen image.
pub proof fn lemma_only_submission_changes_mode(state: WizardView, key: KeyEvent)
    ensures
        state.on_key(key).target == state.target,
        !state.submits_on(key) ==> state.on_key(key).mode == state.mode && state.on_key(
            key,
        ).message == state.message && state.on_key(key).notice == state.notice,
{
}

/// The way keys are read changes on two keys only: `e` read as a shortcut
/// starts editing, and Esc pressed while editing ends it.
pub proof fn lemma_interaction_changes_on_e_and_esc(state: WizardView, key: KeyEvent)
    ensures
        state.on_key(key).interaction != state.interaction <==> (state.interaction is Normal
            && key.code == KeyCode::Char('e')) || (state.interaction is Editing && key.kind
            is Press && key.code is Esc),
{
}

/// Esc, pressed while editing, returns to shortcuts and neither empties nor
/// submits the buffer.
pub proof fn lemma_esc_keeps_buffer(state: WizardView, key: KeyEvent)
    requires
        state.interaction is Editing,
        key.kind is Press,
        key.code is Esc,
    ensures
        state.on_key(key) == state.with_interaction(InteractionState::Normal),
        state.on_key(key).buffer == state.buffer,
        state.action_on(key) is Continue,
{
}

} // verus!
