//! Debouncing of the buttons, and the events that they give.
use vstd::prelude::*;

use crate::types::{InputEvent, TransportCmd};

verus! {

/// How long a button is held for a long press.
pub const LONG_PRESS_DURATION_MS: u64 = 500;

/// The button that selects scenes.
pub const SCENE_BUTTON: usize = 16;

/// The button that shifts the others.
pub const SHIFT_BUTTON: usize = 17;

/// One flag per button: whether it is held.
pub struct ButtonFlags {
    pub pressed: [bool; 18],
}

impl ButtonFlags {
    /// Whether the button of a channel is held; channels beyond the last count as
    /// the last.
    pub fn is_channel_button_pressed(&self, channel: usize) -> (r: bool)
        ensures
            r == self.pressed[if channel <= 15 {
                channel as int
            } else {
                15
            }],
    {
        if channel > 15 {
            self.pressed[15]
        } else {
            self.pressed[channel]
        }
    }

    /// Whether the shift button is held.
    pub fn is_shift_button_pressed(&self) -> (r: bool)
        ensures
            r == self.pressed[17],
    {
        self.pressed[SHIFT_BUTTON]
    }

    /// Whether the scene button is held.
    pub fn is_scene_button_pressed(&self) -> (r: bool)
        ensures
            r == self.pressed[16],
    {
        self.pressed[SCENE_BUTTON]
    }
}

/// What a button waits for.
#[derive(Clone, Copy, Debug, PartialEq, Eq, Structural)]
pub enum Wait {
    /// Nothing: the level is read at once.
    Nothing,
    /// The button is let go.
    RisingEdge,
    /// The button is pressed.
    FallingEdge,
    /// A time in milliseconds.
    Millis(u64),
    /// The button is let go, or a time in milliseconds is over.
    RisingEdgeOrMillis(u64),
}

/// The states of a channel button.
#[derive(Clone, Copy, Debug, PartialEq, Eq, Structural)]
pub enum ButtonState {
    /// The level is not known.
    Start,
    /// Held without having been seen going down.
    Held,
    /// Let go, not yet trusted.
    HeldSettling,
    /// Up.
    Waiting,
    /// Gone down, not yet trusted.
    Debounce,
    /// Down while a scene is selected.
    SceneHeld,
    /// Down after its scene was saved.
    SceneSaved,
    /// Down.
    Down,
    /// Down for long.
    LongHeld,
    /// At rest after a press.
    Settling,
}

/// What a button step reads: the level of the pin, whether the scene button is
/// held, and whether the wait ended by its time.
#[derive(Clone, Copy, Debug, PartialEq, Eq, Structural)]
pub struct ButtonInput {
    pub low: bool,
    pub scene_held: bool,
    pub timed_out: bool,
}

/// What a button step sets off.
#[derive(Clone, Copy, Debug, PartialEq, Eq, Structural)]
pub enum ButtonAction {
    /// The flag of the button changes.
    Flag(bool),
    /// An event for the rest of the unit.
    Publish(InputEvent),
    /// A command for the transport.
    Transport(TransportCmd),
}

impl ButtonState {
    /// What the state waits for.
    pub open spec fn awaits(self) -> Wait {
        match self {
            ButtonState::Start => Wait::Nothing,
            ButtonState::Held => Wait::RisingEdge,
            ButtonState::HeldSettling => Wait::Millis(10),
            ButtonState::Waiting => Wait::FallingEdge,
            ButtonState::Debounce => Wait::Millis(1),
            ButtonState::SceneHeld => Wait::RisingEdgeOrMillis(500),
            ButtonState::SceneSaved => Wait::RisingEdge,
            ButtonState::Down => Wait::RisingEdgeOrMillis(500),
            ButtonState::LongHeld => Wait::RisingEdge,
            ButtonState::Settling => Wait::Millis(10),
        }
    }

    /// Whether the flag of the button is up in this state. Where the level is not
    /// known, the flag is as it was.
    pub open spec fn is_flagged(self) -> bool {
        self is Held || self is HeldSettling || self is Down || self is LongHeld
    }

    /// Whether a press was announced and its end was not.
    pub open spec fn is_announced(self) -> bool {
        self is Down || self is LongHeld
    }

    /// What the state waits for.
    pub fn wait(self) -> (r: Wait)
        ensures
            r == self.awaits(),
    {
        match self {
            ButtonState::Start => Wait::Nothing,
            ButtonState::Held => Wait::RisingEdge,
            ButtonState::HeldSettling => Wait::Millis(10),
            ButtonState::Waiting => Wait::FallingEdge,
            ButtonState::Debounce => Wait::Millis(1),
            ButtonState::SceneHeld => Wait::RisingEdgeOrMillis(LONG_PRESS_DURATION_MS),
            ButtonState::SceneSaved => Wait::RisingEdge,
            ButtonState::Down => Wait::RisingEdgeOrMillis(LONG_PRESS_DURATION_MS),
            ButtonState::LongHeld => Wait::RisingEdge,
            ButtonState::Settling => Wait::Millis(10),
        }
    }
}

/// The state of a button whose level is read anew.
pub open spec fn entered(low: bool) -> ButtonState {
    if low {
        ButtonState::Held
    } else {
        ButtonState::Waiting
    }
}

/// The state of a channel button after what it waited for.
pub open spec fn button_next(state: ButtonState, input: ButtonInput) -> ButtonState {
    match state {
        ButtonState::Start => entered(input.low),
        ButtonState::Held => ButtonState::HeldSettling,
        ButtonState::HeldSettling => if input.low {
            ButtonState::Start
        } else {
            ButtonState::Waiting
        },
        ButtonState::Waiting => ButtonState::Debounce,
        ButtonState::Debounce => if !input.low {
            ButtonState::Start
        } else if input.scene_held {
            ButtonState::SceneHeld
        } else {
            ButtonState::Down
        },
        ButtonState::SceneHeld => if input.timed_out {
            ButtonState::SceneSaved
        } else {
            ButtonState::Settling
        },
        ButtonState::SceneSaved => ButtonState::Settling,
        ButtonState::Down => if input.timed_out && input.low {
            ButtonState::LongHeld
        } else {
            ButtonState::Settling
        },
        ButtonState::LongHeld => ButtonState::Settling,
        ButtonState::Settling => entered(input.low),
    }
}

/// What a channel button sets off after what it waited for.
pub open spec fn button_actions(i: usize, state: ButtonState, input: ButtonInput) -> Seq<
    ButtonAction,
> {
    let scene = (i % 256) as u8;
    let released = seq![
        ButtonAction::Publish(InputEvent::ButtonUp(i)),
        ButtonAction::Flag(false),
    ];
    match state {
        ButtonState::Start => if input.low {
            seq![ButtonAction::Flag(true)]
        } else {
            Seq::empty()
        },
        ButtonState::HeldSettling => if input.low {
            Seq::empty()
        } else {
            seq![ButtonAction::Flag(false)]
        },
        ButtonState::Debounce => if input.low && !input.scene_held {
            seq![ButtonAction::Publish(InputEvent::ButtonDown(i)), ButtonAction::Flag(true)]
        } else {
            Seq::empty()
        },
        ButtonState::SceneHeld => if input.timed_out {
            seq![ButtonAction::Publish(InputEvent::SaveScene(scene))]
        } else {
            seq![ButtonAction::Publish(InputEvent::LoadSceneFromButton(scene))]
        },
        ButtonState::Down => if input.timed_out && input.low {
            seq![ButtonAction::Publish(InputEvent::ButtonLongPress(i))]
        } else {
            released
        },
        ButtonState::LongHeld => released,
        ButtonState::Settling => if input.low {
            seq![ButtonAction::Flag(true)]
        } else {
            Seq::empty()
        },
        _ => Seq::empty(),
    }
}

/// Moves channel button `i` on after what it waited for. A press is announced,
/// and once more when it is long; while a scene is selected it loads the
/// scene of the button, or saves it when it is long.
pub fn process_button(i: usize, state: &mut ButtonState, input: ButtonInput) -> (r: Vec<
    ButtonAction,
>)
    ensures
        *final(state) == button_next(*old(state), input),
        r@ == button_actions(i, *old(state), input),
{
    let mut actions: Vec<ButtonAction> = Vec::new();
    let scene: u8 = (i % 256) as u8;
    match *state {
        ButtonState::Start | ButtonState::Settling => {
            if input.low {
                actions.push(ButtonAction::Flag(true));
                *state = ButtonState::Held;
            } else {
                *state = ButtonState::Waiting;
            }
        },
        ButtonState::Held => {
            *state = ButtonState::HeldSettling;
        },
        ButtonState::HeldSettling => {
            if input.low {
                *state = ButtonState::Start;
            } else {
                actions.push(ButtonAction::Flag(false));
                *state = ButtonState::Waiting;
            }
        },
        ButtonState::Waiting => {
            *state = ButtonState::Debounce;
        },
        ButtonState::Debounce => {
            if !input.low {
                *state = ButtonState::Start;
            } else if input.scene_held {
                *state = ButtonState::SceneHeld;
            } else {
                actions.push(ButtonAction::Publish(InputEvent::ButtonDown(i)));
                actions.push(ButtonAction::Flag(true));
                *state = ButtonState::Down;
            }
        },
        ButtonState::SceneHeld => {
            if input.timed_out {
                actions.push(ButtonAction::Publish(InputEvent::SaveScene(scene)));
                *state = ButtonState::SceneSaved;
            } else {
                actions.push(ButtonAction::Publish(InputEvent::LoadSceneFromButton(scene)));
                *state = ButtonState::Settling;
            }
        },
        ButtonState::SceneSaved => {
            *state = ButtonState::Settling;
        },
        ButtonState::Down => {
            if input.timed_out && input.low {
                actions.push(ButtonAction::Publish(InputEvent::ButtonLongPress(i)));
                *state = ButtonState::LongHeld;
            } else {
                actions.push(ButtonAction::Publish(InputEvent::ButtonUp(i)));
                actions.push(ButtonAction::Flag(false));
                *state = ButtonState::Settling;
            }
        },
        ButtonState::LongHeld => {
            actions.push(ButtonAction::Publish(InputEvent::ButtonUp(i)));
            actions.push(ButtonAction::Flag(false));
            *state = ButtonState::Settling;
        },
    }
    actions
}

/// The flag of a button after a sequence of actions.
pub open spec fn flag_after(flag: bool, actions: Seq<ButtonAction>) -> bool
    decreases actions.len(),
{
    if actions.len() == 0 {
        flag
    } else {
        match actions.last() {
            ButtonAction::Flag(up) => up,
            _ => flag_after(flag, actions.drop_last()),
        }
    }
}

/// The flag of a channel button tells its state, wherever the level is known. It
/// stays up over a button that is let go between two readings of its level, after
/// it had seemed to stay down.
pub proof fn law_flag_tells_state(i: usize, state: ButtonState, flag: bool, input: ButtonInput)
    requires
        !(state is Start) ==> flag == state.is_flagged(),
        !(state is Start && flag && !input.low),
    ensures
        ({
            let next = button_next(state, input);
            let after = flag_after(flag, button_actions(i, state, input));
            !(next is Start) ==> after == next.is_flagged()
        }),
{
    reveal_with_fuel(flag_after, 3);
}

/// A bounce changes nothing: the level is read once more, and the flag stays as it
/// is.
pub proof fn law_bounces_are_read_again(i: usize, state: ButtonState, input: ButtonInput)
    ensures
        button_next(state, input) is Start <==> (state is Debounce && !input.low) || (
        state is HeldSettling && input.low),
        button_next(state, input) is Start ==> button_actions(i, state, input) == Seq::<
            ButtonAction,
        >::empty(),
{
}

/// Presses and releases alternate: a press is announced exactly when the button
/// becomes announced, its end exactly when it stops being so, and a long press
/// only in between.
pub proof fn law_presses_alternate(i: usize, state: ButtonState, input: ButtonInput)
    ensures
        button_actions(i, state, input).contains(ButtonAction::Publish(InputEvent::ButtonDown(i)))
            <==> !state.is_announced() && button_next(state, input).is_announced(),
        button_actions(i, state, input).contains(ButtonAction::Publish(InputEvent::ButtonUp(i)))
            <==> state.is_announced() && !button_next(state, input).is_announced(),
        button_actions(i, state, input).contains(
            ButtonAction::Publish(InputEvent::ButtonLongPress(i)),
        ) ==> state.is_announced() && button_next(state, input).is_announced(),
{
    let actions = button_actions(i, state, input);
    if actions.len() > 0 {
        assert(actions.contains(actions[0]));
    }
}

/// While a scene is selected, a press of a channel button is not announced: it
/// loads the scene when short and saves it when long.
pub proof fn law_scene_presses(i: usize, long: bool, low: bool, scene_held: bool)
    requires
        i < 16,
    ensures
        button_next(
            ButtonState::Debounce,
            ButtonInput { low: true, scene_held: true, timed_out: true },
        ) == ButtonState::SceneHeld,
        button_actions(
            i,
            ButtonState::Debounce,
            ButtonInput { low: true, scene_held: true, timed_out: true },
        ) == Seq::<ButtonAction>::empty(),
        button_actions(
            i,
            ButtonState::SceneHeld,
            ButtonInput { low, scene_held, timed_out: long },
        ) == seq![
            ButtonAction::Publish(
                if long {
                    InputEvent::SaveScene(i as u8)
                } else {
                    InputEvent::LoadSceneFromButton(i as u8)
                },
            ),
        ],
{
}

/// The states of a modifier button.
#[derive(Clone, Copy, Debug, PartialEq, Eq, Structural)]
pub enum ModifierState {
    /// The level is not known.
    Start,
    /// Held without having been seen going down.
    Held,
    /// Let go, not yet trusted.
    HeldSettling,
    /// Up.
    Waiting,
    /// Gone down, not yet trusted.
    Debounce,
    /// Down.
    Down,
    /// Let go, not yet trusted.
    Releasing,
    /// Down again while being let go.
    Bouncing,
    /// At rest after a press.
    Settling,
}

/// The event of a modifier button going down.
pub open spec fn modifier_down(i: usize) -> InputEvent {
    if i == 16 {
        InputEvent::SceneButtonDown
    } else {
        InputEvent::ShiftButtonDown
    }
}

/// The event of a modifier button going up.
pub open spec fn modifier_up(i: usize) -> InputEvent {
    if i == 16 {
        InputEvent::SceneButtonUp
    } else {
        InputEvent::ShiftButtonUp
    }
}

impl ModifierState {
    /// What the state waits for.
    pub open spec fn awaits(self) -> Wait {
        match self {
            ModifierState::Start => Wait::Nothing,
            ModifierState::Held => Wait::RisingEdge,
            ModifierState::HeldSettling => Wait::Millis(1),
            ModifierState::Waiting => Wait::FallingEdge,
            ModifierState::Debounce => Wait::Millis(1),
            ModifierState::Down => Wait::RisingEdge,
            ModifierState::Releasing => Wait::Millis(1),
            ModifierState::Bouncing => Wait::RisingEdge,
            ModifierState::Settling => Wait::Millis(1),
        }
    }

    /// What the state waits for.
    pub fn wait(self) -> (r: Wait)
        ensures
            r == self.awaits(),
    {
        match self {
            ModifierState::Start => Wait::Nothing,
            ModifierState::Held => Wait::RisingEdge,
            ModifierState::HeldSettling => Wait::Millis(1),
            ModifierState::Waiting => Wait::FallingEdge,
            ModifierState::Debounce => Wait::Millis(1),
            ModifierState::Down => Wait::RisingEdge,
            ModifierState::Releasing => Wait::Millis(1),
            ModifierState::Bouncing => Wait::RisingEdge,
            ModifierState::Settling => Wait::Millis(1),
        }
    }
}

/// The state of a modifier button after what it waited for.
pub open spec fn modifier_next(state: ModifierState, input: ButtonInput) -> ModifierState {
    let entered = if input.low {
        ModifierState::Held
    } else {
        ModifierState::Waiting
    };
    match state {
        ModifierState::Start => entered,
        ModifierState::Held => ModifierState::HeldSettling,
        ModifierState::HeldSettling => if input.low {
            ModifierState::Start
        } else {
            ModifierState::Waiting
        },
        ModifierState::Waiting => ModifierState::Debounce,
        ModifierState::Debounce => if input.low {
            ModifierState::Down
        } else {
            ModifierState::Start
        },
        ModifierState::Down => ModifierState::Releasing,
        ModifierState::Releasing => if input.low {
            ModifierState::Bouncing
        } else {
            ModifierState::Settling
        },
        ModifierState::Bouncing => ModifierState::Settling,
        ModifierState::Settling => entered,
    }
}

/// What a modifier button sets off after what it waited for. Shift pressed while
/// the scene button is held starts or stops the clock instead of being announced.
pub open spec fn modifier_actions(i: usize, state: ModifierState, input: ButtonInput) -> Seq<
    ButtonAction,
> {
    let released = seq![
        ButtonAction::Flag(false),
        ButtonAction::Publish(modifier_up(i)),
    ];
    match state {
        ModifierState::Start => if input.low {
            seq![ButtonAction::Flag(true)]
        } else {
            Seq::empty()
        },
        ModifierState::HeldSettling => if input.low {
            Seq::empty()
        } else {
            released
        },
        ModifierState::Debounce => if !input.low {
            Seq::empty()
        } else if i == 17 && input.scene_held {
            seq![ButtonAction::Transport(TransportCmd::Toggle)]
        } else {
            seq![ButtonAction::Flag(true), ButtonAction::Publish(modifier_down(i))]
        },
        ModifierState::Releasing => if input.low {
            Seq::empty()
        } else {
            released
        },
        ModifierState::Bouncing => released,
        ModifierState::Settling => if input.low {
            seq![ButtonAction::Flag(true)]
        } else {
            Seq::empty()
        },
        _ => Seq::empty(),
    }
}

/// Moves modifier button `i` on after what it waited for.
pub fn process_modifier_button(i: usize, state: &mut ModifierState, input: ButtonInput) -> (r: Vec<
    ButtonAction,
>)
    requires
        i == 16 || i == 17,
    ensures
        *final(state) == modifier_next(*old(state), input),
        r@ == modifier_actions(i, *old(state), input),
{
    let (down_event, up_event) = if i == SCENE_BUTTON {
        (InputEvent::SceneButtonDown, InputEvent::SceneButtonUp)
    } else {
        (InputEvent::ShiftButtonDown, InputEvent::ShiftButtonUp)
    };
    let mut actions: Vec<ButtonAction> = Vec::new();
    match *state {
        ModifierState::Start | ModifierState::Settling => {
            if input.low {
                actions.push(ButtonAction::Flag(true));
                *state = ModifierState::Held;
            } else {
                *state = ModifierState::Waiting;
            }
        },
        ModifierState::Held => {
            *state = ModifierState::HeldSettling;
        },
        ModifierState::HeldSettling => {
            if input.low {
                *state = ModifierState::Start;
            } else {
                actions.push(ButtonAction::Flag(false));
                actions.push(ButtonAction::Publish(up_event));
                *state = ModifierState::Waiting;
            }
        },
        ModifierState::Waiting => {
            *state = ModifierState::Debounce;
        },
        ModifierState::Debounce => {
            if !input.low {
                *state = ModifierState::Start;
            } else {
                if i == SHIFT_BUTTON && input.scene_held {
                    actions.push(ButtonAction::Transport(TransportCmd::Toggle));
                } else {
                    actions.push(ButtonAction::Flag(true));
                    actions.push(ButtonAction::Publish(down_event));
                }
                *state = ModifierState::Down;
            }
        },
        ModifierState::Down => {
            *state = ModifierState::Releasing;
        },
        ModifierState::Releasing => {
            if input.low {
                *state = ModifierState::Bouncing;
            } else {
                actions.push(ButtonAction::Flag(false));
                actions.push(ButtonAction::Publish(up_event));
                *state = ModifierState::Settling;
            }
        },
        ModifierState::Bouncing => {
            actions.push(ButtonAction::Flag(false));
            actions.push(ButtonAction::Publish(up_event));
            *state = ModifierState::Settling;
        },
    }
    actions
}

/// Pressing shift while the scene button is held toggles the transport and
/// announces nothing.
pub proof fn law_shift_with_scene_toggles(timed_out: bool)
    ensures
        modifier_actions(
            17,
            ModifierState::Debounce,
            ButtonInput { low: true, scene_held: true, timed_out },
        ) == seq![ButtonAction::Transport(TransportCmd::Toggle)],
{
}

/// Whenever a modifier button comes to rest after having been down, its flag is
/// lowered and its end is announced.
pub proof fn law_modifier_release_is_announced(i: usize, state: ModifierState, input: ButtonInput)
    requires
        i == 16 || i == 17,
        state is HeldSettling || state is Releasing || state is Bouncing,
        !(modifier_next(state, input) is Start || modifier_next(state, input) is Bouncing),
    ensures
        modifier_actions(i, state, input) == seq![
            ButtonAction::Flag(false),
            ButtonAction::Publish(modifier_up(i)),
        ],
{
}

/// A press that lasts is announced with the number of its button, and its end when
/// it is let go. One that is still down after half a second is announced as a long
/// one as well; it is not where the button has come up by then.
pub proof fn law_presses_are_announced(
    i: usize,
    edge: ButtonInput,
    settled: ButtonInput,
    ended: ButtonInput,
    last: ButtonInput,
)
    requires
        settled.low,
        !settled.scene_held,
    ensures
        ({
            let gone_down = button_next(ButtonState::Waiting, edge);
            let down = button_next(gone_down, settled);
            let next = button_next(down, ended);
            let long = ended.timed_out && ended.low;
            let release = seq![
                ButtonAction::Publish(InputEvent::ButtonUp(i)),
                ButtonAction::Flag(false),
            ];
            &&& gone_down.awaits() == Wait::Millis(1)
            &&& button_actions(i, ButtonState::Waiting, edge).len() == 0
            &&& button_actions(i, gone_down, settled) == seq![
                ButtonAction::Publish(InputEvent::ButtonDown(i)),
                ButtonAction::Flag(true),
            ]
            &&& down.awaits() == Wait::RisingEdgeOrMillis(500)
            &&& !long ==> button_actions(i, down, ended) == release && next.awaits()
                == Wait::Millis(10)
            &&& long ==> button_actions(i, down, ended) == seq![
                ButtonAction::Publish(InputEvent::ButtonLongPress(i)),
            ] && next.awaits() == Wait::RisingEdge && button_actions(i, next, last) == release
                && button_next(next, last).awaits() == Wait::Millis(10)
        }),
{
}

/// A button whose level is read anew waits for a press where it is up; where it is
/// down it is flagged without an announcement, and no longer once it has been up
/// for ten milliseconds.
pub proof fn law_held_buttons_are_flagged(
    i: usize,
    settling: bool,
    input: ButtonInput,
    edge: ButtonInput,
    after: ButtonInput,
)
    ensures
        ({
            let state = if settling {
                ButtonState::Settling
            } else {
                ButtonState::Start
            };
            let next = button_next(state, input);
            let released = button_next(next, edge);
            &&& !input.low ==> next.awaits() == Wait::FallingEdge && button_actions(i, state, input)
                == Seq::<ButtonAction>::empty()
            &&& input.low ==> next.awaits() == Wait::RisingEdge && button_actions(i, state, input)
                == seq![ButtonAction::Flag(true)] && button_actions(i, next, edge).len() == 0
                && released.awaits() == Wait::Millis(10)
            &&& input.low && !after.low ==> button_actions(i, released, after) == seq![
                ButtonAction::Flag(false),
            ] && button_next(released, after).awaits() == Wait::FallingEdge
        }),
        ButtonState::Start.awaits() == Wait::Nothing,
        ButtonState::Settling.awaits() == Wait::Millis(10),
{
}

/// While a scene is selected, a press is long after half a second; a long one
/// sets nothing more off when it ends.
pub proof fn law_scene_presses_end(i: usize, held: ButtonInput, last: ButtonInput)
    ensures
        ({
            let next = button_next(ButtonState::SceneHeld, held);
            &&& ButtonState::SceneHeld.awaits() == Wait::RisingEdgeOrMillis(500)
            &&& !held.timed_out ==> next.awaits() == Wait::Millis(10)
            &&& held.timed_out ==> next.awaits() == Wait::RisingEdge && button_actions(
                i,
                next,
                last,
            ).len() == 0 && button_next(next, last).awaits() == Wait::Millis(10)
        }),
{
}

/// A modifier button is flagged and announced as the scene or the shift button when
/// it goes down, and again when it comes up and stays up or has bounced. Its levels
/// are trusted after a millisecond.
pub proof fn law_modifiers_are_announced(
    i: usize,
    edge: ButtonInput,
    settled: ButtonInput,
    release: ButtonInput,
    ended: ButtonInput,
    last: ButtonInput,
)
    requires
        i == 16 || i == 17,
        settled.low,
        !(i == 17 && settled.scene_held),
    ensures
        ({
            let gone_down = modifier_next(ModifierState::Waiting, edge);
            let down = modifier_next(gone_down, settled);
            let releasing = modifier_next(down, release);
            let next = modifier_next(releasing, ended);
            let started = if i == 16 {
                InputEvent::SceneButtonDown
            } else {
                InputEvent::ShiftButtonDown
            };
            let stopped = if i == 16 {
                InputEvent::SceneButtonUp
            } else {
                InputEvent::ShiftButtonUp
            };
            let end = seq![ButtonAction::Flag(false), ButtonAction::Publish(stopped)];
            &&& ModifierState::Waiting.awaits() == Wait::FallingEdge
            &&& gone_down.awaits() == Wait::Millis(1)
            &&& modifier_actions(i, ModifierState::Waiting, edge).len() == 0
            &&& modifier_actions(i, gone_down, settled) == seq![
                ButtonAction::Flag(true),
                ButtonAction::Publish(started),
            ]
            &&& down.awaits() == Wait::RisingEdge
            &&& modifier_actions(i, down, release).len() == 0
            &&& releasing.awaits() == Wait::Millis(1)
            &&& !ended.low ==> modifier_actions(i, releasing, ended) == end && next.awaits()
                == Wait::Millis(1)
            &&& ended.low ==> modifier_actions(i, releasing, ended).len() == 0 && next.awaits()
                == Wait::RisingEdge && modifier_actions(i, next, last) == end && modifier_next(
                next,
                last,
            ).awaits() == Wait::Millis(1)
        }),
{
}

/// A modifier button whose level is read anew waits for a press where it is up;
/// where it is down it is flagged, and its end is announced once it has been up for
/// a millisecond. A press that does not last is not announced.
pub proof fn law_held_modifiers_are_flagged(
    i: usize,
    settling: bool,
    input: ButtonInput,
    edge: ButtonInput,
    after: ButtonInput,
)
    requires
        i == 16 || i == 17,
    ensures
        ({
            let state = if settling {
                ModifierState::Settling
            } else {
                ModifierState::Start
            };
            let stopped = if i == 16 {
                InputEvent::SceneButtonUp
            } else {
                InputEvent::ShiftButtonUp
            };
            let next = modifier_next(state, input);
            let released = modifier_next(next, edge);
            &&& !input.low ==> next == ModifierState::Waiting && modifier_actions(i, state, input)
                == Seq::<ButtonAction>::empty()
            &&& input.low ==> next.awaits() == Wait::RisingEdge && modifier_actions(
                i,
                state,
                input,
            ) == seq![ButtonAction::Flag(true)] && modifier_actions(i, next, edge).len() == 0
                && released.awaits() == Wait::Millis(1)
            &&& input.low && !after.low ==> modifier_actions(i, released, after) == seq![
                ButtonAction::Flag(false),
                ButtonAction::Publish(stopped),
            ] && modifier_next(released, after) == ModifierState::Waiting
            &&& input.low && after.low ==> modifier_actions(i, released, after).len() == 0
                && modifier_next(released, after) == ModifierState::Start
        }),
        !after.low ==> modifier_next(ModifierState::Debounce, after) == ModifierState::Start
            && modifier_actions(i, ModifierState::Debounce, after).len() == 0,
        ModifierState::Start.awaits() == Wait::Nothing,
{
}

/// The flags are read by the number of their button, the scene button's after those
/// of the channels and shift's after it; channels beyond the last count as the last.
pub proof fn law_flags_are_read_in_place(
    flags: ButtonFlags,
    channel: usize,
    held: bool,
    scene: bool,
    shift: bool,
)
    requires
        call_ensures(ButtonFlags::is_channel_button_pressed, (&flags, channel), held),
        call_ensures(ButtonFlags::is_scene_button_pressed, (&flags,), scene),
        call_ensures(ButtonFlags::is_shift_button_pressed, (&flags,), shift),
    ensures
        channel < 16 ==> held == flags.pressed[channel as int],
        channel >= 16 ==> held == flags.pressed[15],
        scene == flags.pressed[16],
        shift == flags.pressed[17],
{
}

} // verus!
