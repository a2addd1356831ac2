//! Held-key state of one camera movement axis.
//!
//! Every axis is driven by two opposing keys. The state records which of the
//! two are held; holding both cancels out, and releasing one of them restores
//! the direction of the other.

use vstd::prelude::*;

verus! {

/// Which of the two opposing keys of one movement axis are currently held.
#[derive(Clone, Copy, Debug, PartialEq, Eq, Structural)]
pub enum CamKeyPressed {
    /// Only the key of the positive direction is held.
    Positive,
    /// Only the key of the negative direction is held.
    Negative,
    /// Neither key is held.
    Neither,
    /// Both keys are held; the axis does not move.
    Both,
}

/// One key event on a movement axis.
#[derive(Clone, Copy, Debug, PartialEq, Eq, Structural)]
pub enum AxisEvent {
    /// The key of the positive direction went down.
    PressPositive,
    /// The key of the negative direction went down.
    PressNegative,
    /// The key of the positive direction went up.
    ReleasePositive,
    /// The key of the negative direction went up.
    ReleaseNegative,
}

impl AxisEvent {
    /// True for the two events of the positive key.
    pub open spec fn on_positive_key(self) -> bool {
        self == AxisEvent::PressPositive || self == AxisEvent::ReleasePositive
    }

    /// True for the two press events.
    pub open spec fn is_press(self) -> bool {
        self == AxisEvent::PressPositive || self == AxisEvent::PressNegative
    }
}

impl CamKeyPressed {
    /// Whether the positive key is held in this state.
    pub open spec fn positive_held(self) -> bool {
        self == CamKeyPressed::Positive || self == CamKeyPressed::Both
    }

    /// Whether the negative key is held in this state.
    pub open spec fn negative_held(self) -> bool {
        self == CamKeyPressed::Negative || self == CamKeyPressed::Both
    }

    /// The state in which exactly the given keys are held.
    pub open spec fn from_held(positive: bool, negative: bool) -> CamKeyPressed {
        if positive && negative {
            CamKeyPressed::Both
        } else if positive {
            CamKeyPressed::Positive
        } else if negative {
            CamKeyPressed::Negative
        } else {
            CamKeyPressed::Neither
        }
    }

    /// The transition table: the state that follows `self` on `event`.
    pub open spec fn next(self, event: AxisEvent) -> CamKeyPressed {
        match (self, event) {
            (CamKeyPressed::Neither, AxisEvent::PressPositive) => CamKeyPressed::Positive,
            (CamKeyPressed::Neither, AxisEvent::PressNegative) => CamKeyPressed::Negative,
            (CamKeyPressed::Neither, AxisEvent::ReleasePositive) => CamKeyPressed::Neither,
            (CamKeyPressed::Neither, AxisEvent::ReleaseNegative) => CamKeyPressed::Neither,
            (CamKeyPressed::Positive, AxisEvent::PressPositive) => CamKeyPressed::Positive,
            (CamKeyPressed::Positive, AxisEvent::PressNegative) => CamKeyPressed::Both,
            (CamKeyPressed::Positive, AxisEvent::ReleasePositive) => CamKeyPressed::Neither,
            (CamKeyPressed::Positive, AxisEvent::ReleaseNegative) => CamKeyPressed::Positive,
            (CamKeyPressed::Negative, AxisEvent::PressPositive) => CamKeyPressed::Both,
            (CamKeyPressed::Negative, AxisEvent::PressNegative) => CamKeyPressed::Negative,
            (CamKeyPressed::Negative, AxisEvent::ReleasePositive) => CamKeyPressed::Negative,
            (CamKeyPressed::Negative, AxisEvent::ReleaseNegative) => CamKeyPressed::Neither,
            (CamKeyPressed::Both, AxisEvent::PressPositive) => CamKeyPressed::Both,
            (CamKeyPressed::Both, AxisEvent::PressNegative) => CamKeyPressed::Both,
            (CamKeyPressed::Both, AxisEvent::ReleasePositive) => CamKeyPressed::Negative,
            (CamKeyPressed::Both, AxisEvent::ReleaseNegative) => CamKeyPressed::Positive,
        }
    }

    /// The state reached from `self` after all of `events`, first to last.
    pub open spec fn after_all(self, events: Seq<AxisEvent>) -> CamKeyPressed
        decreases events.len(),
    {
        if events.len() == 0 {
            self
        } else {
            self.after_all(events.drop_last()).next(events.last())
        }
    }

    /// The net direction of the axis: 1, -1, or 0 when neither or both keys
    /// are held.
    pub open spec fn direction(self) -> int {
        (if self.positive_held() { 1int } else { 0int })
            - (if self.negative_held() { 1int } else { 0int })
    }

    /// Applies one key event.
    pub fn apply(self, event: AxisEvent) -> (r: CamKeyPressed)
        ensures
            r == self.next(event),
    {
        match event {
            AxisEvent::PressPositive => match self {
                CamKeyPressed::Positive => CamKeyPressed::Positive,
                CamKeyPressed::Negative => CamKeyPressed::Both,
                CamKeyPressed::Neither => CamKeyPressed::Positive,
                CamKeyPressed::Both => CamKeyPressed::Both,
            },
            AxisEvent::PressNegative => match self {
                CamKeyPressed::Positive => CamKeyPressed::Both,
                CamKeyPressed::Negative => CamKeyPressed::Negative,
                CamKeyPressed::Neither => CamKeyPressed::Negative,
                CamKeyPressed::Both => CamKeyPressed::Both,
            },
            AxisEvent::ReleasePositive => match self {
                CamKeyPressed::Positive => CamKeyPressed::Neither,
                CamKeyPressed::Negative => CamKeyPressed::Negative,
                CamKeyPressed::Neither => CamKeyPressed::Neither,
                CamKeyPressed::Both => CamKeyPressed::Negative,
            },
            AxisEvent::ReleaseNegative => match self {
                CamKeyPressed::Positive => CamKeyPressed::Positive,
                CamKeyPressed::Negative => CamKeyPressed::Neither,
                CamKeyPressed::Neither => CamKeyPressed::Neither,
                CamKeyPressed::Both => CamKeyPressed::Positive,
            },
        }
    }

    /// Applies a run of key events in order.
    pub fn apply_all(self, events: &Vec<AxisEvent>) -> (r: CamKeyPressed)
        ensures
            r == self.after_all(events@),
    {
        let mut state = self;
        let mut i: usize = 0;
        while i < events.len()
            invariant
                i <= events.len(),
                state == self.after_all(events@.take(i as int)),
            decreases events.len() - i,
        {
            proof {
                let prefix = events@.take(i + 1);
                assert(prefix.drop_last() =~= events@.take(i as int));
            }
            state = state.apply(events[i]);
            i = i + 1;
        }
        proof {
            assert(events@.take(i as int) =~= events@);
        }
        state
    }

    /// The sign by which the axis moves the camera: 1 for `Positive`, -1 for
    /// `Negative`, and 0 both when no key is held and when opposing keys
    /// cancel out.
    pub fn sign(self) -> (r: i8)
        ensures
            r == self.direction(),
            -1 <= r <= 1,
            (r == 0) == (self == CamKeyPressed::Neither || self == CamKeyPressed::Both),
    {
        match self {
            CamKeyPressed::Positive => 1,
            CamKeyPressed::Negative => -1,
            CamKeyPressed::Neither => 0,
            CamKeyPressed::Both => 0,
        }
    }
}

/// Whether a key is held after `events`, given whether it was held before:
/// the last event on that key decides, and events on the opposing key do not
/// matter.
pub open spec fn key_held_after(
    initially: bool,
    positive_key: bool,
    events: Seq<AxisEvent>,
) -> bool
    decreases events.len(),
{
    if events.len() == 0 {
        initially
    } else if events.last().on_positive_key() == positive_key {
        events.last().is_press()
    } else {
        key_held_after(initially, positive_key, events.drop_last())
    }
}

/// A single step of the table sets or clears the held bit of the key that the
/// event names and leaves the other key's bit alone.
pub proof fn lemma_step_updates_one_key(state: CamKeyPressed, event: AxisEvent)
    ensures
        state.next(event).positive_held() == (if event.on_positive_key() {
            event.is_press()
        } else {
            state.positive_held()
        }),
        state.next(event).negative_held() == (if event.on_positive_key() {
            state.negative_held()
        } else {
            event.is_press()
        }),
        CamKeyPressed::from_held(state.positive_held(), state.negative_held()) == state,
{
}

/// After any run of press and release events the axis state records exactly
/// the keys that are physically held: for each key, what its own last event
/// left, or its initial condition if the run never touched it.
pub proof fn lemma_state_tracks_held_keys(start: CamKeyPressed, events: Seq<AxisEvent>)
    ensures
        start.after_all(events) == CamKeyPressed::from_held(
            key_held_after(start.positive_held(), true, events),
            key_held_after(start.negative_held(), false, events),
        ),
    decreases events.len(),
{
    if events.len() > 0 {
        lemma_state_tracks_held_keys(start, events.drop_last());
        lemma_step_updates_one_key(start.after_all(events.drop_last()), events.last());
    }
}

/// Running two batches of events one after the other is the same as running
/// their concatenation.
pub proof fn lemma_after_all_concat(
    start: CamKeyPressed,
    first: Seq<AxisEvent>,
    second: Seq<AxisEvent>,
)
    ensures
        start.after_all(first + second) == start.after_all(first).after_all(second),
    decreases second.len(),
{
    if second.len() > 0 {
        lemma_after_all_concat(start, first, second.drop_last());
        assert((first + second).drop_last() =~= first + second.drop_last());
    }
}

} // verus!
