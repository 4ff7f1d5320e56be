use vstd::prelude::*;

use crate::random::{chance, Coin, Odds};

verus! {

/// The behaviour states of the state machine.
#[derive(Debug, Clone, Copy, PartialEq, Eq, Structural)]
pub enum MachineState {
    Idle,
    Walk,
    Sleep,
    Sit,
    Eat,
    Happy,
    Startled,
}

/// What one step of the state machine decided: the state entered, if any,
/// and whether the pet should turn around.
#[derive(Debug, Clone, Copy, PartialEq, Eq, Structural)]
pub struct StateTransition {
    pub new_state: Option<MachineState>,
    pub should_reverse: bool,
}

/// How long the state entered by `force_transition` lasts: a fixed time in
/// milliseconds, or a time drawn between the configured bounds.
#[derive(Debug, Clone, Copy, PartialEq, Eq, Structural)]
pub enum HoldTime {
    Millis(u32),
    Random,
}

/// The coin flips a transition looks at, in the order it looks at them
/// (see `spec_resolve` for what each decides, and `transition_odds` for the
/// odds each is flipped with).
#[derive(Debug, Clone, Copy, PartialEq, Eq, Structural)]
pub struct TransitionDraws {
    pub first: bool,
    pub second: bool,
    pub third: bool,
    pub reverse: bool,
}

/// The decision table: the state entered and whether to turn around, from
/// the current state, whether the current walk has gone on for more than
/// five seconds, and the coin flips.
pub open spec fn spec_resolve(
    current: MachineState,
    walked_too_long: bool,
    d: TransitionDraws,
) -> (MachineState, bool) {
    match current {
        MachineState::Idle => {
            if d.first {
                (MachineState::Walk, d.reverse)
            } else if d.second {
                (MachineState::Sleep, false)
            } else if d.third {
                (MachineState::Sit, false)
            } else {
                (MachineState::Idle, false)
            }
        },
        MachineState::Walk => {
            if walked_too_long {
                (MachineState::Idle, false)
            } else if d.first {
                (MachineState::Idle, false)
            } else {
                (MachineState::Walk, d.reverse)
            }
        },
        MachineState::Sleep => {
            if d.first {
                (MachineState::Idle, false)
            } else {
                (MachineState::Sleep, false)
            }
        },
        MachineState::Sit => {
            if d.first {
                (MachineState::Idle, false)
            } else {
                (MachineState::Sit, false)
            }
        },
        MachineState::Eat => (MachineState::Happy, false),
        MachineState::Happy => (MachineState::Idle, false),
        MachineState::Startled => (MachineState::Idle, false),
    }
}

/// The hold time of a state entered by force.
pub open spec fn spec_hold_time(s: MachineState) -> HoldTime {
    match s {
        MachineState::Eat => HoldTime::Millis(2000),
        MachineState::Happy => HoldTime::Millis(1500),
        MachineState::Startled => HoldTime::Millis(800),
        _ => HoldTime::Random,
    }
}

/// Applies the decision table to given coin flips.
pub fn resolve_transition(current: MachineState, walked_too_long: bool, d: TransitionDraws) -> (r: (
    MachineState,
    bool,
))
    ensures
        r == spec_resolve(current, walked_too_long, d),
{
    match current {
        MachineState::Idle => {
            if d.first {
                (MachineState::Walk, d.reverse)
            } else if d.second {
                (MachineState::Sleep, false)
            } else if d.third {
                (MachineState::Sit, false)
            } else {
                (MachineState::Idle, false)
            }
        },
        MachineState::Walk => {
            if walked_too_long {
                (MachineState::Idle, false)
            } else if d.first {
                (MachineState::Idle, false)
            } else {
                (MachineState::Walk, d.reverse)
            }
        },
        MachineState::Sleep => {
            if d.first {
                (MachineState::Idle, false)
            } else {
                (MachineState::Sleep, false)
            }
        },
        MachineState::Sit => {
            if d.first {
                (MachineState::Idle, false)
            } else {
                (MachineState::Sit, false)
            }
        },
        MachineState::Eat => (MachineState::Happy, false),
        MachineState::Happy => (MachineState::Idle, false),
        MachineState::Startled => (MachineState::Idle, false),
    }
}

/// The odds of each coin a transition looks at; `None` for a coin that is
/// not flipped (it counts as tails).
#[derive(Debug, Clone, Copy, PartialEq, Eq, Structural)]
pub struct TransitionOdds {
    pub first: Option<Odds>,
    pub second: Option<Odds>,
    pub third: Option<Odds>,
    pub reverse: Option<Odds>,
}

pub open spec fn odds(numerator: u32, denominator: u32) -> Option<Odds> {
    Some(Odds { numerator, denominator })
}

/// The table of odds.  From `Idle`: walk 3 in 5, else sleep 1 in 5, else sit
/// 1 in 10, and a walk turns around 1 in 2.  From `Walk`: stop 3 in 10, else
/// turn around 3 in 10.  From `Sleep`: wake up 3 in 10.  From `Sit`: stand
/// up 2 in 5.  The other states flip no coin.
pub open spec fn transition_odds(s: MachineState) -> TransitionOdds {
    match s {
        MachineState::Idle => TransitionOdds {
            first: odds(3, 5),
            second: odds(1, 5),
            third: odds(1, 10),
            reverse: odds(1, 2),
        },
        MachineState::Walk => TransitionOdds {
            first: odds(3, 10),
            second: None,
            third: None,
            reverse: odds(3, 10),
        },
        MachineState::Sleep => TransitionOdds {
            first: odds(3, 10),
            second: None,
            third: None,
            reverse: None,
        },
        MachineState::Sit => TransitionOdds {
            first: odds(2, 5),
            second: None,
            third: None,
            reverse: None,
        },
        _ => TransitionOdds { first: None, second: None, third: None, reverse: None },
    }
}

/// The odds of the coins that a transition from `s` flips.
pub fn odds_for(s: MachineState) -> (o: TransitionOdds)
    ensures
        o == transition_odds(s),
{
    let some = |numerator: u32, denominator: u32| -> (r: Option<Odds>)
        ensures
            r == odds(numerator, denominator),
        { Some(Odds { numerator, denominator }) };
    match s {
        MachineState::Idle => TransitionOdds {
            first: some(3, 5),
            second: some(1, 5),
            third: some(1, 10),
            reverse: some(1, 2),
        },
        MachineState::Walk => TransitionOdds {
            first: some(3, 10),
            second: None,
            third: None,
            reverse: some(3, 10),
        },
        MachineState::Sleep => TransitionOdds {
            first: some(3, 10),
            second: None,
            third: None,
            reverse: None,
        },
        MachineState::Sit => TransitionOdds {
            first: some(2, 5),
            second: None,
            third: None,
            reverse: None,
        },
        _ => TransitionOdds { first: None, second: None, third: None, reverse: None },
    }
}

/// The coins flipped for one transition; `None` for a coin not flipped.
#[derive(Debug, Clone, Copy, PartialEq, Eq, Structural)]
pub struct DrawnCoins {
    pub first: Option<Coin>,
    pub second: Option<Coin>,
    pub third: Option<Coin>,
    pub reverse: Option<Coin>,
}

/// The odds a coin was flipped with, `None` for a coin not flipped.
pub open spec fn coin_odds(c: Option<Coin>) -> Option<Odds> {
    match c {
        Some(k) => Some(k.odds),
        None => None,
    }
}

/// Whether a coin came up heads; a coin not flipped counts as tails.
pub open spec fn coin_heads(c: Option<Coin>) -> bool {
    match c {
        Some(k) => k.heads,
        None => false,
    }
}

/// The odds of all coins drawn for a transition.
pub open spec fn drawn_odds(c: DrawnCoins) -> TransitionOdds {
    TransitionOdds {
        first: coin_odds(c.first),
        second: coin_odds(c.second),
        third: coin_odds(c.third),
        reverse: coin_odds(c.reverse),
    }
}

/// The outcomes of all coins drawn for a transition.
pub open spec fn drawn_values(c: DrawnCoins) -> TransitionDraws {
    TransitionDraws {
        first: coin_heads(c.first),
        second: coin_heads(c.second),
        third: coin_heads(c.third),
        reverse: coin_heads(c.reverse),
    }
}

/// Every odds in the table is a valid probability.
pub open spec fn valid_odds(o: Option<Odds>) -> bool {
    o matches Some(k) ==> 0 < k.denominator && k.numerator <= k.denominator
}

/// Flips a coin with the given odds, or none.
fn flip(o: Option<Odds>) -> (c: Option<Coin>)
    requires
        valid_odds(o),
    ensures
        coin_odds(c) == o,
{
    match o {
        Some(k) => Some(chance(k.numerator, k.denominator)),
        None => None,
    }
}

/// Flips the coins that a transition from `current` looks at, each with
/// the odds that `transition_odds` gives.
pub fn draw_for(current: MachineState) -> (c: DrawnCoins)
    ensures
        drawn_odds(c) == transition_odds(current),
{
    let o = odds_for(current);
    DrawnCoins {
        first: flip(o.first),
        second: flip(o.second),
        third: flip(o.third),
        reverse: flip(o.reverse),
    }
}

/// The outcomes of the drawn coins, tails for a coin not flipped.
pub fn coin_values(c: &DrawnCoins) -> (d: TransitionDraws)
    ensures
        d == drawn_values(*c),
{
    let heads = |k: Option<Coin>| -> (b: bool)
        ensures
            b == coin_heads(k),
        {
            match k {
                Some(coin) => coin.heads,
                None => false,
            }
        };
    TransitionDraws {
        first: heads(c.first),
        second: heads(c.second),
        third: heads(c.third),
        reverse: heads(c.reverse),
    }
}

/// The state machine's current state, and the coins flipped for its last
/// transition.  Its timers (the time left in the current state and the
/// length of the current walk) are kept in seconds by the caller, which
/// passes their comparisons to `update`.
#[derive(Debug, Clone, Copy, PartialEq, Eq, Structural)]
pub struct StateMachine {
    pub current: MachineState,
    pub last_coins: Option<DrawnCoins>,
}

/// A transition from `from` that flipped the coins `c`: the coins were
/// flipped with the odds of the table, and the state entered and the turn
/// are the decision table applied to how those very coins fell.
pub open spec fn follows_coins(
    from: MachineState,
    walked_too_long: bool,
    c: DrawnCoins,
    t: StateTransition,
    entered: MachineState,
) -> bool {
    &&& drawn_odds(c) == transition_odds(from)
    &&& t.new_state == Some(spec_resolve(from, walked_too_long, drawn_values(c)).0)
    &&& t.should_reverse == spec_resolve(from, walked_too_long, drawn_values(c)).1
    &&& entered == spec_resolve(from, walked_too_long, drawn_values(c)).0
}

impl StateMachine {
    /// A machine that starts idle.
    pub fn new() -> (m: Self)
        ensures
            m.current == MachineState::Idle,
            m.last_coins is None,
    {
        StateMachine { current: MachineState::Idle, last_coins: None }
    }

    /// One step: when the state's time ran out, take a transition;
    /// otherwise report no change.
    pub fn update(&mut self, timer_expired: bool, walked_too_long: bool) -> (t: StateTransition)
        ensures
            !timer_expired ==> t == (StateTransition { new_state: None, should_reverse: false })
                && *final(self) == *old(self),
            timer_expired ==> exists|d: TransitionDraws|
                {
                    &&& t.new_state == Some(spec_resolve(old(self).current, walked_too_long, d).0)
                    &&& t.should_reverse == spec_resolve(old(self).current, walked_too_long, d).1
                    &&& final(self).current == spec_resolve(
                        old(self).current,
                        walked_too_long,
                        d,
                    ).0
                },
            timer_expired ==> (final(self).last_coins matches Some(c) && follows_coins(
                old(self).current,
                walked_too_long,
                c,
                t,
                final(self).current,
            )),
    {
        if timer_expired {
            return self.transition(walked_too_long);
        }
        StateTransition { new_state: None, should_reverse: false }
    }

    /// Enters `state` at once; returns how long it lasts.
    pub fn force_transition(&mut self, state: MachineState) -> (h: HoldTime)
        ensures
            final(self).current == state,
            final(self).last_coins == old(self).last_coins,
            h == spec_hold_time(state),
    {
        self.current = state;
        match state {
            MachineState::Eat => HoldTime::Millis(2000),
            MachineState::Happy => HoldTime::Millis(1500),
            MachineState::Startled => HoldTime::Millis(800),
            _ => HoldTime::Random,
        }
    }

    /// Takes a transition by the decision table with fresh coin flips.
    pub fn transition(&mut self, walked_too_long: bool) -> (t: StateTransition)
        ensures
            exists|d: TransitionDraws|
                {
                    &&& t.new_state == Some(spec_resolve(old(self).current, walked_too_long, d).0)
                    &&& t.should_reverse == spec_resolve(old(self).current, walked_too_long, d).1
                    &&& final(self).current == spec_resolve(
                        old(self).current,
                        walked_too_long,
                        d,
                    ).0
                },
            final(self).last_coins matches Some(c) && follows_coins(
                old(self).current,
                walked_too_long,
                c,
                t,
                final(self).current,
            ),
    {
        let coins = draw_for(self.current);
        let d = coin_values(&coins);
        let (new_state, should_reverse) = resolve_transition(self.current, walked_too_long, d);
        self.current = new_state;
        self.last_coins = Some(coins);
        StateTransition { new_state: Some(new_state), should_reverse }
    }
}

/// Eating always ends in joy, joy and a scare always end in idling, and a
/// walk that has gone on for more than five seconds always stops, whatever
/// the coins say.
pub proof fn law_fixed_successors(d: TransitionDraws, walked_too_long: bool)
    ensures
        spec_resolve(MachineState::Eat, walked_too_long, d) == (MachineState::Happy, false),
        spec_resolve(MachineState::Happy, walked_too_long, d) == (MachineState::Idle, false),
        spec_resolve(MachineState::Startled, walked_too_long, d) == (MachineState::Idle, false),
        spec_resolve(MachineState::Walk, true, d) == (MachineState::Idle, false),
{
}

/// The pet only turns around when it walks on (or starts walking), and only
/// a walk or an idle pet can start a walk.
pub proof fn law_reverse_only_with_walk(
    current: MachineState,
    walked_too_long: bool,
    d: TransitionDraws,
)
    ensures
        spec_resolve(current, walked_too_long, d).1 ==> spec_resolve(current, walked_too_long, d).0
            == MachineState::Walk,
        spec_resolve(current, walked_too_long, d).0 == MachineState::Walk ==> (current
            == MachineState::Idle || current == MachineState::Walk),
{
}

/// What the coins of a transition decide, for every way they can fall.
/// From `Idle` the first coin (3 in 5) starts a walk that turns around on the
/// reverse coin (1 in 2); otherwise the second coin (1 in 5) sends the pet to
/// sleep, otherwise the third (1 in 10) sits it down, otherwise it stays
/// idle.  A walk of at most five seconds stops on its first coin (3 in 10)
/// and otherwise goes on, turning on its reverse coin (3 in 10).  A sleeping
/// pet wakes on its first coin (3 in 10); a sitting pet stands up on its
/// first coin (2 in 5).
pub proof fn law_coins_decide_transition(s: MachineState, walked_too_long: bool, c: DrawnCoins)
    requires
        drawn_odds(c) == transition_odds(s),
    ensures
        s == MachineState::Idle ==> coin_odds(c.first) == Some(Odds { numerator: 3, denominator: 5 })
            && coin_odds(c.second) == Some(Odds { numerator: 1, denominator: 5 }) && coin_odds(
            c.third,
        ) == Some(Odds { numerator: 1, denominator: 10 }) && coin_odds(c.reverse) == Some(
            Odds { numerator: 1, denominator: 2 },
        ),
        s == MachineState::Walk ==> coin_odds(c.first) == Some(Odds { numerator: 3, denominator: 10 })
            && coin_odds(c.reverse) == Some(Odds { numerator: 3, denominator: 10 }),
        s == MachineState::Sleep ==> coin_odds(c.first) == Some(
            Odds { numerator: 3, denominator: 10 },
        ),
        s == MachineState::Sit ==> coin_odds(c.first) == Some(Odds { numerator: 2, denominator: 5 }),
        s == MachineState::Idle && coin_heads(c.first) ==> spec_resolve(
            s,
            walked_too_long,
            drawn_values(c),
        ) == (MachineState::Walk, coin_heads(c.reverse)),
        s == MachineState::Idle && !coin_heads(c.first) && coin_heads(c.second) ==> spec_resolve(
            s,
            walked_too_long,
            drawn_values(c),
        ) == (MachineState::Sleep, false),
        s == MachineState::Idle && !coin_heads(c.first) && !coin_heads(c.second) && coin_heads(
            c.third,
        ) ==> spec_resolve(s, walked_too_long, drawn_values(c)) == (MachineState::Sit, false),
        s == MachineState::Idle && !coin_heads(c.first) && !coin_heads(c.second) && !coin_heads(
            c.third,
        ) ==> spec_resolve(s, walked_too_long, drawn_values(c)) == (MachineState::Idle, false),
        s == MachineState::Walk && !walked_too_long && coin_heads(c.first) ==> spec_resolve(
            s,
            walked_too_long,
            drawn_values(c),
        ) == (MachineState::Idle, false),
        s == MachineState::Walk && !walked_too_long && !coin_heads(c.first) ==> spec_resolve(
            s,
            walked_too_long,
            drawn_values(c),
        ) == (MachineState::Walk, coin_heads(c.reverse)),
        s == MachineState::Sleep ==> spec_resolve(s, walked_too_long, drawn_values(c)) == (
            if coin_heads(c.first) {
                MachineState::Idle
            } else {
                MachineState::Sleep
            },
            false,
        ),
        s == MachineState::Sit ==> spec_resolve(s, walked_too_long, drawn_values(c)) == (
            if coin_heads(c.first) {
                MachineState::Idle
            } else {
                MachineState::Sit
            },
            false,
        ),
{
}

} // verus!
