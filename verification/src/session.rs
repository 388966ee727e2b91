//! Incremental selection: a keystroke buffer matched against the hint
//! labels, and the overlay state machine driven by commands, detection
//! results and keystrokes.

use crate::commands::DaemonCommand;
use crate::detection::types::DetectedElement;
use crate::hints::ElementHint;
use crate::hints::generate_hints_for_elements;
use crate::hints::generator::spec_is_prefix;
use crate::hints::generator::spec_label;
use crate::hints::layout::KeyboardLayout;
use crate::hints::layout::spec_standard_chars;
use vstd::prelude::*;
use vstd::string::StrSliceExecFns;
use vstd::string::StringExecFns;

verus! {

/// State of a hint for styling purposes.
#[derive(Clone, Copy, Debug, PartialEq, Eq, Structural)]
pub enum HintState {
    /// Normal state - hint is visible and selectable
    Normal,
    /// Highlighted - hint matches current input
    Highlighted,
    /// Dimmed - hint doesn't match current input
    Dimmed,
}

/// The classification an input buffer gives one hint label: `Normal` while
/// the buffer is empty, `Highlighted` when the label starts with the
/// buffer, `Dimmed` otherwise.
pub open spec fn spec_hint_state(label: Seq<char>, input: Seq<char>) -> HintState {
    if input.len() == 0 {
        HintState::Normal
    } else if spec_is_prefix(input, label) {
        HintState::Highlighted
    } else {
        HintState::Dimmed
    }
}

/// Classify every hint against the current input, in hint order.
pub fn classify_hints(hints: &Vec<ElementHint>, current_input: &str) -> (r: Vec<HintState>)
    ensures
        r@.len() == hints@.len(),
        forall|i: int|
            0 <= i < hints@.len() ==> r@[i] == spec_hint_state(hints@[i].label@, current_input@),
{
    let mut r: Vec<HintState> = Vec::new();
    let n = hints.len();
    let mut i: usize = 0;
    while i < n
        invariant
            i <= n,
            n == hints@.len(),
            r@.len() == i,
            forall|j: int|
                0 <= j < i ==> r@[j] == spec_hint_state(hints@[j].label@, current_input@),
        decreases n - i,
    {
        let state = if current_input.is_empty() {
            HintState::Normal
        } else if hints[i].matches(current_input) {
            HintState::Highlighted
        } else {
            HintState::Dimmed
        };
        r.push(state);
        i += 1;
    }
    r
}

/// One keystroke-level event driving a selection session.
#[derive(Clone, Copy, Debug)]
pub enum SessionEvent {
    /// A printable character was typed
    Char(char),
    /// The last character of the buffer is taken back
    Backspace,
    /// The session is dismissed
    Cancel,
}

/// Result of one session transition.
#[derive(Debug)]
pub enum SessionState {
    /// The session stays open for more input
    Open,
    /// Exactly this element was selected; the session is over
    Resolved(DetectedElement),
    /// The session was dismissed; the session is over
    Cancelled,
}

/// Index of the first hint at or after position `i` whose label equals the
/// input exactly; the number of hints when there is none.
pub open spec fn spec_first_exact_from(hints: Seq<ElementHint>, input: Seq<char>, i: int) -> int
    decreases hints.len() - i,
{
    if i < 0 || i >= hints.len() {
        hints.len() as int
    } else if hints[i].label@ == input {
        i
    } else {
        spec_first_exact_from(hints, input, i + 1)
    }
}

/// A first-match scan gives the same answer from the start as from any
/// position not past the first match.
proof fn lemma_first_exact_from(hints: Seq<ElementHint>, input: Seq<char>, i: int)
    requires
        0 <= i <= hints.len(),
        forall|j: int| 0 <= j < i ==> hints[j].label@ != input,
    ensures
        spec_first_exact_from(hints, input, 0) == spec_first_exact_from(hints, input, i),
    decreases i,
{
    if i > 0 {
        lemma_first_exact_from(hints, input, i - 1);
    }
}

/// A selection session: the hints of one detection cycle paired with the
/// keystroke buffer typed against them.
#[derive(Debug)]
pub struct SelectionSession {
    pub hints: Vec<ElementHint>,
    pub input: String,
}

impl SelectionSession {
    /// A fresh session over the given hints, with an empty buffer.
    pub fn new(hints: Vec<ElementHint>) -> (r: Self)
        ensures
            r.hints@ == hints@,
            r.input@.len() == 0,
    {
        SelectionSession { hints, input: String::new() }
    }

    /// Feed one event into the session.
    ///
    /// A character is appended to the buffer; if the first hint whose label
    /// equals the grown buffer exists, the session resolves to that hint's
    /// element and empties itself. Backspace on an empty buffer changes
    /// nothing; otherwise it takes the last character back. Cancel empties
    /// the session and ends it.
    pub fn feed(&mut self, event: SessionEvent) -> (r: SessionState)
        ensures
            (event matches SessionEvent::Char(c) ==> ({
                let new_input = old(self).input@.push(c);
                let n = old(self).hints@.len() as int;
                let k = spec_first_exact_from(old(self).hints@, new_input, 0);
                &&& (k < n ==> r == SessionState::Resolved(old(self).hints@[k].element)
                    && final(self).input@.len() == 0 && final(self).hints@.len() == 0)
                &&& (k == n ==> r == SessionState::Open && final(self).input@ == new_input
                    && final(self).hints@ == old(self).hints@)
            })),
            event matches SessionEvent::Backspace ==> {
                &&& r == SessionState::Open
                &&& final(self).hints@ == old(self).hints@
                &&& (old(self).input@.len() == 0 ==> final(self).input@ == old(self).input@)
                &&& (old(self).input@.len() > 0 ==> final(self).input@
                    == old(self).input@.drop_last())
            },
            event matches SessionEvent::Cancel ==> {
                &&& r == SessionState::Cancelled
                &&& final(self).input@.len() == 0
                &&& final(self).hints@.len() == 0
            },
    {
        match event {
            SessionEvent::Char(c) => {
                self.input.push(c);
                let n = self.hints.len();
                let mut i: usize = 0;
                while i < n
                    invariant
                        event == SessionEvent::Char(c),
                        i <= n,
                        n == self.hints@.len(),
                        self.hints@ == old(self).hints@,
                        self.input@ == old(self).input@.push(c),
                        forall|j: int| 0 <= j < i ==> self.hints@[j].label@ != self.input@,
                    decreases n - i,
                {
                    if self.hints[i].is_exact_match(self.input.as_str()) {
                        proof {
                            lemma_first_exact_from(self.hints@, self.input@, i as int);
                        }
                        let element = self.hints[i].element.clone();
                        self.hints = Vec::new();
                        self.input = String::new();
                        return SessionState::Resolved(element);
                    }
                    i += 1;
                }
                proof {
                    lemma_first_exact_from(self.hints@, self.input@, n as int);
                }
                SessionState::Open
            },
            SessionEvent::Backspace => {
                let len = self.input.as_str().unicode_len();
                if len > 0 {
                    let shorter = String::from_str(
                        self.input.as_str().substring_char(0, len - 1),
                    );
                    proof {
                        assert(old(self).input@.subrange(0, len - 1)
                            =~= old(self).input@.drop_last());
                    }
                    self.input = shorter;
                }
                SessionState::Open
            },
            SessionEvent::Cancel => {
                self.hints = Vec::new();
                self.input = String::new();
                SessionState::Cancelled
            },
        }
    }

    /// Classify this session's hints against its current buffer.
    pub fn classifications(&self) -> (r: Vec<HintState>)
        ensures
            r@.len() == self.hints@.len(),
            forall|i: int|
                0 <= i < self.hints@.len() ==> r@[i] == spec_hint_state(
                    self.hints@[i].label@,
                    self.input@,
                ),
    {
        classify_hints(&self.hints, self.input.as_str())
    }
}

/// What the platform shell must do after one transition of the overlay
/// controller.
#[derive(Debug)]
pub enum OverlayAction {
    /// Nothing further to do
    Idle,
    /// Begin a new detection cycle
    StartScan,
    /// Deliver the selected element to the click consumer
    Choose(DetectedElement),
    /// Exit the whole application
    Shutdown,
}

/// An event driving the overlay controller.
#[derive(Debug)]
pub enum OverlayEvent {
    /// A command from the control channel
    Command(DaemonCommand),
    /// A detection cycle completed with these elements
    ElementsDetected(Vec<DetectedElement>),
    /// A detection cycle failed as a whole
    DetectionFailed,
    /// A keystroke, meaningful only while the overlay is visible
    Key(SessionEvent),
}

/// Overlay state: whether it is shown, the active selection session, and
/// the elements of the last detection cycle.
#[derive(Debug)]
pub struct OverlayController {
    pub visible: bool,
    pub session: SelectionSession,
    pub detected_elements: Vec<DetectedElement>,
}

/// The controller is hidden and holds no hints, no buffer and no elements.
pub open spec fn spec_controller_closed(c: OverlayController) -> bool {
    &&& !c.visible
    &&& c.session.hints@.len() == 0
    &&& c.session.input@.len() == 0
    &&& c.detected_elements@.len() == 0
}

/// Two controller states that cannot be told apart.
pub open spec fn spec_same_controller(a: OverlayController, b: OverlayController) -> bool {
    &&& a.visible == b.visible
    &&& a.session.hints@ == b.session.hints@
    &&& a.session.input@ == b.session.input@
    &&& a.detected_elements@ == b.detected_elements@
}

/// What a control command does to the overlay: Show and a Toggle from a
/// hidden overlay make it visible, keep its state and ask for a scan; Hide
/// and a Toggle from a visible overlay close it; Exit changes nothing and
/// asks the shell to shut down.
pub open spec fn spec_on_command(
    pre: OverlayController,
    cmd: DaemonCommand,
    post: OverlayController,
    r: OverlayAction,
) -> bool {
    match cmd {
        DaemonCommand::Show => {
            &&& post.visible
            &&& post.session.hints@ == pre.session.hints@
            &&& post.session.input@ == pre.session.input@
            &&& post.detected_elements@ == pre.detected_elements@
            &&& r == OverlayAction::StartScan
        },
        DaemonCommand::Hide => spec_controller_closed(post) && r == OverlayAction::Idle,
        DaemonCommand::Toggle => {
            if pre.visible {
                spec_controller_closed(post) && r == OverlayAction::Idle
            } else {
                &&& post.visible
                &&& post.session.hints@ == pre.session.hints@
                &&& post.session.input@ == pre.session.input@
                &&& post.detected_elements@ == pre.detected_elements@
                &&& r == OverlayAction::StartScan
            }
        },
        DaemonCommand::Exit => spec_same_controller(post, pre) && r == OverlayAction::Shutdown,
    }
}

/// What a completed detection cycle does to the overlay: the elements are
/// stored, and a fresh session pairs each of them, in scan order, with its
/// label over the standard layout.
pub open spec fn spec_on_elements_detected(
    pre: OverlayController,
    elements: Seq<DetectedElement>,
    post: OverlayController,
    r: OverlayAction,
) -> bool {
    &&& post.visible == pre.visible
    &&& post.detected_elements@ == elements
    &&& post.session.input@.len() == 0
    &&& post.session.hints@.len() == elements.len()
    &&& forall|i: int|
        0 <= i < elements.len() ==> post.session.hints@[i].element == elements[i]
            && post.session.hints@[i].label@ == spec_label(spec_standard_chars(), i as nat)
    &&& r == OverlayAction::Idle
}

/// What a keystroke does to the overlay: nothing while it is hidden;
/// otherwise the session takes the event, a resolution closes the overlay
/// and hands the chosen element out, a cancel just closes it, and anything
/// else leaves the overlay open with the session advanced.
pub open spec fn spec_on_key(
    pre: OverlayController,
    k: SessionEvent,
    post: OverlayController,
    r: OverlayAction,
) -> bool {
    if !pre.visible {
        spec_same_controller(post, pre) && r == OverlayAction::Idle
    } else {
        match k {
            SessionEvent::Char(c) => {
                let new_input = pre.session.input@.push(c);
                let n = pre.session.hints@.len() as int;
                let kk = spec_first_exact_from(pre.session.hints@, new_input, 0);
                &&& (kk < n ==> spec_controller_closed(post) && r == OverlayAction::Choose(
                    pre.session.hints@[kk].element,
                ))
                &&& (kk == n ==> r == OverlayAction::Idle && post.visible && post.session.input@
                    == new_input && post.session.hints@ == pre.session.hints@
                    && post.detected_elements@ == pre.detected_elements@)
            },
            SessionEvent::Backspace => {
                &&& r == OverlayAction::Idle
                &&& post.visible
                &&& post.session.hints@ == pre.session.hints@
                &&& post.detected_elements@ == pre.detected_elements@
                &&& (pre.session.input@.len() == 0 ==> post.session.input@ == pre.session.input@)
                &&& (pre.session.input@.len() > 0 ==> post.session.input@
                    == pre.session.input@.drop_last())
            },
            SessionEvent::Cancel => spec_controller_closed(post) && r == OverlayAction::Idle,
        }
    }
}

impl OverlayController {
    /// A fresh, hidden controller.
    pub fn new() -> (r: Self)
        ensures
            spec_controller_closed(r),
    {
        OverlayController {
            visible: false,
            session: SelectionSession::new(Vec::new()),
            detected_elements: Vec::new(),
        }
    }

    /// Hide the overlay and discard the session and the detected elements.
    fn close(&mut self)
        ensures
            spec_controller_closed(*final(self)),
    {
        self.visible = false;
        self.session = SelectionSession::new(Vec::new());
        self.detected_elements = Vec::new();
    }

    /// Handle a command from the control channel: Show makes the overlay
    /// visible and starts a scan; Hide closes it; Toggle does one or the
    /// other; Exit asks the shell to shut down.
    pub fn on_command(&mut self, cmd: DaemonCommand) -> (r: OverlayAction)
        ensures
            spec_on_command(*old(self), cmd, *final(self), r),
    {
        match cmd {
            DaemonCommand::Show => {
                self.visible = true;
                OverlayAction::StartScan
            },
            DaemonCommand::Hide => {
                self.close();
                OverlayAction::Idle
            },
            DaemonCommand::Toggle => {
                if self.visible {
                    self.close();
                    OverlayAction::Idle
                } else {
                    self.visible = true;
                    OverlayAction::StartScan
                }
            },
            DaemonCommand::Exit => OverlayAction::Shutdown,
        }
    }

    /// Take the elements of a completed detection cycle: a fresh session is
    /// built whose hints pair each element, in scan order, with its label
    /// over the standard layout.
    pub fn on_elements_detected(&mut self, elements: Vec<DetectedElement>) -> (r: OverlayAction)
        ensures
            spec_on_elements_detected(*old(self), elements@, *final(self), r),
    {
        let layout = KeyboardLayout::standard();
        let hints = generate_hints_for_elements(clone_elements(&elements), &layout);
        self.session = SelectionSession::new(hints);
        self.detected_elements = elements;
        OverlayAction::Idle
    }

    /// Feed a keystroke while the overlay is visible; ignored otherwise. A
    /// resolution closes the overlay and hands the chosen element out; a
    /// cancel just closes it.
    pub fn on_key(&mut self, k: SessionEvent) -> (r: OverlayAction)
        ensures
            spec_on_key(*old(self), k, *final(self), r),
    {
        if !self.visible {
            return OverlayAction::Idle;
        }
        let outcome = self.session.feed(k);
        match outcome {
            SessionState::Resolved(element) => {
                self.close();
                OverlayAction::Choose(element)
            },
            SessionState::Cancelled => {
                self.close();
                OverlayAction::Idle
            },
            SessionState::Open => OverlayAction::Idle,
        }
    }

    /// Handle one event, returning the action the shell must perform.
    /// Commands, detection results and keystrokes are dispatched to the
    /// handler for their kind; the failure of a detection cycle changes
    /// nothing.
    pub fn handle(&mut self, event: OverlayEvent) -> (r: OverlayAction)
        ensures
            event matches OverlayEvent::Command(cmd) ==> spec_on_command(
                *old(self),
                cmd,
                *final(self),
                r,
            ),
            event matches OverlayEvent::ElementsDetected(elements) ==> spec_on_elements_detected(
                *old(self),
                elements@,
                *final(self),
                r,
            ),
            event matches OverlayEvent::DetectionFailed ==> spec_same_controller(
                *final(self),
                *old(self),
            ) && r == OverlayAction::Idle,
            event matches OverlayEvent::Key(k) ==> spec_on_key(*old(self), k, *final(self), r),
    {
        match event {
            OverlayEvent::Command(cmd) => self.on_command(cmd),
            OverlayEvent::ElementsDetected(elements) => self.on_elements_detected(elements),
            OverlayEvent::DetectionFailed => OverlayAction::Idle,
            OverlayEvent::Key(k) => self.on_key(k),
        }
    }
}

/// An element-for-element copy of a detection result.
fn clone_elements(elements: &Vec<DetectedElement>) -> (r: Vec<DetectedElement>)
    ensures
        r@ == elements@,
{
    let mut r: Vec<DetectedElement> = Vec::new();
    let n = elements.len();
    let mut i: usize = 0;
    while i < n
        invariant
            i <= n,
            n == elements@.len(),
            r@ =~= elements@.subrange(0, i as int),
        decreases n - i,
    {
        r.push(elements[i].clone());
        i += 1;
    }
    proof {
        assert(r@ =~= elements@);
    }
    r
}

} // verus!
