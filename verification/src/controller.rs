//! The confirm/cancel state machine: reacts to the external notifications
//! (text changed, confirm requested, cancel requested, focus lost) and turns
//! them into outbound effects for the collaborators.

use crate::state::{input_model, new_state_model, validated_model, PickerState, StateModel};
use vstd::prelude::*;

verus! {

/// The controller's phase. `Open` is the sole initial phase; `Confirmed` and
/// `Cancelled` are terminal: the picker is discarded right after either.
#[derive(Clone, Copy, Debug, PartialEq, Eq, Structural)]
pub enum Phase {
    Open,
    Confirmed,
    Cancelled,
}

/// An outbound effect, delivered fire-and-forget to a collaborator.
#[derive(Clone, Copy, Debug, PartialEq, Eq, Structural)]
pub enum Effect {
    /// Ask the target collection to open the target with this 1-based number.
    OpenTarget(usize),
    /// Ask the modal host to end the picker's visual session.
    Dismiss,
}

/// The mathematical model of a [`PickerController`].
pub ghost struct ControllerModel {
    pub state: StateModel,
    pub phase: Phase,
}

/// The model of a freshly opened controller.
pub open spec fn new_controller_model(total_targets: usize) -> ControllerModel {
    ControllerModel { state: new_state_model(total_targets), phase: Phase::Open }
}

/// The text-changed transition: while open, forwards the text to the state
/// and emits nothing; in a terminal phase it is a no-op.
pub open spec fn text_changed_model(m: ControllerModel, text: Seq<char>) -> (ControllerModel, Seq<
    Effect,
>) {
    if m.phase == Phase::Open {
        (ControllerModel { state: input_model(m.state, text), phase: Phase::Open }, Seq::empty())
    } else {
        (m, Seq::empty())
    }
}

/// The confirm transition: while open, emits `OpenTarget(v)` then `Dismiss`
/// when the input validates to `v`, and `Dismiss` alone when it does not, and
/// ends in `Confirmed` either way; in a terminal phase it is a no-op.
pub open spec fn confirm_model(m: ControllerModel) -> (ControllerModel, Seq<Effect>) {
    if m.phase == Phase::Open {
        let m2 = ControllerModel { state: m.state, phase: Phase::Confirmed };
        match validated_model(m.state) {
            Some(v) => (m2, seq![Effect::OpenTarget(v), Effect::Dismiss]),
            None => (m2, seq![Effect::Dismiss]),
        }
    } else {
        (m, Seq::empty())
    }
}

/// The cancel transition: while open, emits exactly one `Dismiss`, never an
/// `OpenTarget`, and ends in `Cancelled`; in a terminal phase it is a no-op.
pub open spec fn cancel_model(m: ControllerModel) -> (ControllerModel, Seq<Effect>) {
    if m.phase == Phase::Open {
        (ControllerModel { state: m.state, phase: Phase::Cancelled }, seq![Effect::Dismiss])
    } else {
        (m, Seq::empty())
    }
}

/// The focus-lost transition, written out on its own terms.
pub open spec fn focus_lost_model(m: ControllerModel) -> (ControllerModel, Seq<Effect>) {
    if m.phase == Phase::Open {
        (ControllerModel { state: m.state, phase: Phase::Cancelled }, seq![Effect::Dismiss])
    } else {
        (m, Seq::empty())
    }
}

/// Mediates between the inbound notifications and the outbound effects. Each
/// notification method returns the effects it emits, in order, for the caller
/// to deliver; it owns no rendering logic.
pub struct PickerController {
    state: PickerState,
    phase: Phase,
}

impl View for PickerController {
    type V = ControllerModel;

    closed spec fn view(&self) -> ControllerModel {
        ControllerModel { state: self.state@, phase: self.phase }
    }
}

impl PickerController {
    /// Opens a controller over `total_targets` targets, in the open phase.
    pub fn new(total_targets: usize) -> (c: Self)
        ensures
            c@ == new_controller_model(total_targets),
    {
        PickerController { state: PickerState::new(total_targets), phase: Phase::Open }
    }

    /// The text-input widget reports an edit. Emits no effect.
    pub fn on_text_changed(&mut self, text: String) -> (effects: Vec<Effect>)
        ensures
            final(self)@ == text_changed_model(old(self)@, text@).0,
            effects@ == text_changed_model(old(self)@, text@).1,
    {
        match self.phase {
            Phase::Open => {
                self.state.on_input_changed(text);
            },
            _ => {},
        }
        Vec::new()
    }

    /// The keybinding layer requests confirmation. While open, emits
    /// `OpenTarget(v)` then `Dismiss` when the input validates to `v`, and
    /// `Dismiss` alone otherwise (confirming invalid input silently closes
    /// the picker); ends in `Confirmed`. In a terminal phase: a no-op.
    pub fn on_confirm(&mut self) -> (effects: Vec<Effect>)
        ensures
            final(self)@ == confirm_model(old(self)@).0,
            effects@ == confirm_model(old(self)@).1,
    {
        match self.phase {
            Phase::Open => {
                let mut effects: Vec<Effect> = Vec::new();
                if let Some(v) = self.state.validated_selection() {
                    effects.push(Effect::OpenTarget(v));
                }
                effects.push(Effect::Dismiss);
                self.phase = Phase::Confirmed;
                proof {
                    match validated_model(old(self)@.state) {
                        Some(v) => {
                            assert(effects@ =~= seq![Effect::OpenTarget(v), Effect::Dismiss]);
                        },
                        None => {
                            assert(effects@ =~= seq![Effect::Dismiss]);
                        },
                    }
                }
                effects
            },
            _ => Vec::new(),
        }
    }

    /// The keybinding layer requests cancellation. While open, emits exactly
    /// one `Dismiss` and ends in `Cancelled`; never emits `OpenTarget`. In a
    /// terminal phase: a no-op.
    pub fn on_cancel(&mut self) -> (effects: Vec<Effect>)
        ensures
            final(self)@ == cancel_model(old(self)@).0,
            effects@ == cancel_model(old(self)@).1,
    {
        match self.phase {
            Phase::Open => {
                self.phase = Phase::Cancelled;
                let mut effects: Vec<Effect> = Vec::new();
                effects.push(Effect::Dismiss);
                proof {
                    assert(effects@ =~= seq![Effect::Dismiss]);
                }
                effects
            },
            _ => Vec::new(),
        }
    }

    /// The text-input widget reports that focus was lost.
    pub fn on_focus_lost(&mut self) -> (effects: Vec<Effect>)
        ensures
            final(self)@ == focus_lost_model(old(self)@).0,
            effects@ == focus_lost_model(old(self)@).1,
    {
        match self.phase {
            Phase::Open => {
                self.phase = Phase::Cancelled;
                let mut effects: Vec<Effect> = Vec::new();
                effects.push(Effect::Dismiss);
                proof {
                    assert(effects@ =~= seq![Effect::Dismiss]);
                }
                effects
            },
            _ => Vec::new(),
        }
    }

    /// The controller's current phase.
    pub fn phase(&self) -> (p: Phase)
        ensures
            p == self@.phase,
    {
        self.phase
    }

    /// The current status message, for the render boundary.
    pub fn status_text(&self) -> (r: String)
        ensures
            r@ == self@.state.status_text,
    {
        self.state.status_text()
    }

    /// The parsed selection when it lies in `[1, total_targets]`.
    pub fn validated_selection(&self) -> (r: Option<usize>)
        ensures
            r == validated_model(self@.state),
    {
        self.state.validated_selection()
    }
}

/// Cancelling while open never opens a target, whatever the input holds: the
/// effects are exactly one `Dismiss`, and the controller ends in `Cancelled`.
pub proof fn lemma_cancel_never_opens(m: ControllerModel)
    requires
        m.phase == Phase::Open,
    ensures
        cancel_model(m).1 == seq![Effect::Dismiss],
        cancel_model(m).0.phase == Phase::Cancelled,
        forall|i: int|
            0 <= i < cancel_model(m).1.len() ==> !(#[trigger] cancel_model(m).1[i] is OpenTarget),
{
    assert forall|i: int| 0 <= i < cancel_model(m).1.len() implies !(#[trigger] cancel_model(
        m,
    ).1[i] is OpenTarget) by {
        assert(cancel_model(m).1[i] == Effect::Dismiss);
    }
}

/// Losing focus behaves exactly like an explicit cancel, in every phase: the
/// two transitions agree on the next model and on the emitted effects.
pub proof fn lemma_focus_loss_is_cancel(m: ControllerModel)
    ensures
        focus_lost_model(m) == cancel_model(m),
{
}

/// In a terminal phase every notification is a no-op: the model is unchanged
/// and no effect is emitted. In particular `Dismiss` is emitted at most once
/// per session.
pub proof fn lemma_terminal_is_no_op(m: ControllerModel, text: Seq<char>)
    requires
        m.phase != Phase::Open,
    ensures
        text_changed_model(m, text) == (m, Seq::<Effect>::empty()),
        confirm_model(m) == (m, Seq::<Effect>::empty()),
        cancel_model(m) == (m, Seq::<Effect>::empty()),
        focus_lost_model(m) == (m, Seq::<Effect>::empty()),
{
}

} // verus!
