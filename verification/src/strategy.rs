use vstd::prelude::*;

verus! {

/// Number of the kickoff state.
pub const KICKOFF: u32 = 1;

/// Number of the attack-the-ball state, the catch-all state.
pub const ATTACK_BALL: u32 = 2;

/// The facts of one game tick that the strategy reads. The application
/// computes them from the tick's floating-point data.
#[derive(Clone, Copy, Debug, PartialEq, Eq, Structural)]
pub struct Observation {
    /// The round is running (false during the countdown before a kickoff).
    pub round_active: bool,
    /// The ball's x or y coordinate differs from 0, that is the ball has
    /// left the kickoff spot.
    pub ball_off_center: bool,
    /// The bot's own car is less than 700 units from the midfield line
    /// (|y| < 700).
    pub near_midfield: bool,
}

/// The controller settings a strategy fixes. Steering is not among them: it
/// follows the ball's direction and is computed by the application. The
/// analogue axes hold the exact values -1, 0 or 1 that the strategies ask
/// for.
#[derive(Clone, Copy, Debug, PartialEq, Eq, Structural)]
pub struct Controls {
    pub throttle: i8,
    pub boost: bool,
    pub jump: bool,
    pub pitch: i8,
    pub yaw: i8,
    pub roll: i8,
    pub drift: bool,
}

impl Controls {
    /// Every analogue axis lies within [-1, 1], the range the controller
    /// accepts; clamping leaves such values as they are.
    pub open spec fn within_unit_range(self) -> bool {
        &&& -1 <= self.throttle <= 1
        &&& -1 <= self.pitch <= 1
        &&& -1 <= self.yaw <= 1
        &&& -1 <= self.roll <= 1
    }
}

/// What the kickoff routine asks for: full throttle and boost, and, once the
/// car is near the midfield line, a jump with the nose pitched down.
pub open spec fn kickoff_controls(pack: Observation) -> Controls {
    Controls {
        throttle: 1,
        boost: true,
        jump: pack.near_midfield,
        pitch: if pack.near_midfield { -1i8 } else { 0i8 },
        yaw: 0,
        roll: 0,
        drift: false,
    }
}

/// What the attack-the-ball routine asks for: full throttle and nothing else.
pub open spec fn attack_controls() -> Controls {
    Controls { throttle: 1, boost: false, jump: false, pitch: 0, yaw: 0, roll: 0, drift: false }
}

/// Kickoff routine: drive at the ball with boost and dive near midfield.
pub fn execute_kickoff(pack: &Observation) -> (controls: Controls)
    ensures
        controls == kickoff_controls(*pack),
        controls.within_unit_range(),
        controls.throttle == 1,
        controls.boost,
        controls.jump == pack.near_midfield,
        controls.pitch == (if pack.near_midfield { -1i8 } else { 0i8 }),
        controls.yaw == 0,
        controls.roll == 0,
        !controls.drift,
{
    let controller_boost: bool = true;
    let mut controller_jump: bool = false;
    let mut controller_pitch: i8 = 0;
    let controller_yaw: i8 = 0;
    let controller_roll: i8 = 0;
    if pack.near_midfield {
        controller_jump = true;
        controller_pitch = -1;
    }
    Controls {
        throttle: 1,
        boost: controller_boost,
        jump: controller_jump,
        pitch: controller_pitch,
        yaw: controller_yaw,
        roll: controller_roll,
        drift: false,
    }
}

/// Attack-the-ball routine: drive at the ball at full throttle.
pub fn execute_attb(pack: &Observation) -> (controls: Controls)
    ensures
        controls == attack_controls(),
        controls.within_unit_range(),
        controls.throttle == 1,
        !controls.boost,
        !controls.jump,
        controls.pitch == 0,
        controls.yaw == 0,
        controls.roll == 0,
        !controls.drift,
{
    Controls { throttle: 1, boost: false, jump: false, pitch: 0, yaw: 0, roll: 0, drift: false }
}

/// The strategy the bot is in. State 1 is the kickoff; every other number
/// is the attack-the-ball state.
#[derive(Clone, Copy, Debug, PartialEq, Eq, Structural)]
pub struct States {
    pub current: u32,
}

impl States {
    pub open spec fn is_kickoff(self) -> bool {
        self.current == KICKOFF
    }

    /// A state may be entered: the kickoff only while the round is not yet
    /// running; attack-the-ball always.
    pub open spec fn can_enter(self, pack: Observation) -> bool {
        self.is_kickoff() ==> !pack.round_active
    }

    /// A state is over: the kickoff once the ball has left the kickoff
    /// spot; attack-the-ball at every tick, so that the choice is made anew.
    pub open spec fn is_over(self, pack: Observation) -> bool {
        self.is_kickoff() ==> pack.ball_off_center
    }

    /// What the state's routine asks of the controller.
    pub open spec fn controls(self, pack: Observation) -> Controls {
        if self.is_kickoff() {
            kickoff_controls(pack)
        } else {
            attack_controls()
        }
    }

    /// The state the bot starts a match in: the kickoff.
    pub fn initial() -> (state: States)
        ensures
            state.current == KICKOFF,
    {
        States { current: KICKOFF }
    }

    /// Whether this state may be entered on this tick.
    pub fn available(&self, pack: &Observation) -> (ok: bool)
        ensures
            ok == self.can_enter(*pack),
            ok == (self.current != KICKOFF || !pack.round_active),
    {
        let kickoff: u32 = KICKOFF;
        if self.current == kickoff {
            if pack.round_active == false {
                return true;
            }
            return false;
        } else {
            return true;
        }
    }

    /// Runs the routine of this state.
    pub fn execute(&self, pack: &Observation) -> (controls: Controls)
        ensures
            controls == self.controls(*pack),
            controls.within_unit_range(),
            self.current == KICKOFF ==> controls == (Controls {
                throttle: 1,
                boost: true,
                jump: pack.near_midfield,
                pitch: if pack.near_midfield { -1i8 } else { 0i8 },
                yaw: 0,
                roll: 0,
                drift: false,
            }),
            self.current != KICKOFF ==> controls == (Controls {
                throttle: 1,
                boost: false,
                jump: false,
                pitch: 0,
                yaw: 0,
                roll: 0,
                drift: false,
            }),
    {
        let kickoff: u32 = KICKOFF;
        if self.current == kickoff {
            return execute_kickoff(pack);
        } else {
            return execute_attb(pack);
        }
    }

    /// Whether this state is over on this tick.
    pub fn expired(&self, pack: &Observation) -> (over: bool)
        ensures
            over == self.is_over(*pack),
            over == (self.current != KICKOFF || pack.ball_off_center),
    {
        let kickoff: u32 = KICKOFF;
        if self.current == kickoff {
            if pack.ball_off_center {
                return true;
            }
            return false;
        } else {
            return true;
        }
    }
}

/// The state after one tick: a state that is not over is kept; otherwise
/// the kickoff is chosen if it may be entered, and attack-the-ball if not.
pub open spec fn next_state(state: States, pack: Observation) -> States {
    if !state.is_over(pack) {
        state
    } else if (States { current: KICKOFF }).can_enter(pack) {
        States { current: KICKOFF }
    } else {
        States { current: ATTACK_BALL }
    }
}

/// One tick of the strategy: moves `state` on as `next_state` says and
/// returns what the routine of the new state asks of the controller.
pub fn evan_input(state: &mut States, pack: &Observation) -> (controls: Controls)
    ensures
        *final(state) == next_state(*old(state), *pack),
        controls == final(state).controls(*pack),
        controls.within_unit_range(),
        final(state).current == (if !pack.round_active || (old(state).current == KICKOFF
            && !pack.ball_off_center) {
            KICKOFF
        } else {
            ATTACK_BALL
        }),
        controls.boost == (final(state).current == KICKOFF),
        controls.jump == (final(state).current == KICKOFF && pack.near_midfield),
{
    if state.expired(pack) {
        let kickoff_state = States { current: KICKOFF };
        if kickoff_state.available(pack) {
            *state = States { current: KICKOFF };
        } else {
            *state = States { current: ATTACK_BALL };
        }
    }
    state.execute(pack)
}

/// One tick as the bot receives it: without a ball in the tick nothing is
/// decided, the state stays and no controls come back (the application
/// then sends the neutral controller); with one, the tick is `evan_input`.
pub fn get_input(state: &mut States, pack: Option<Observation>) -> (controls: Option<Controls>)
    ensures
        match pack {
            None => *final(state) == *old(state) && controls is None,
            Some(p) => {
                &&& *final(state) == next_state(*old(state), p)
                &&& controls == Some(final(state).controls(p))
            },
        },
{
    match pack {
        None => None,
        Some(p) => Some(evan_input(state, &p)),
    }
}

/// After any tick the bot is in one of the two known states, whatever number
/// it held before.
pub proof fn lemma_tick_lands_in_known_state(state: States, pack: Observation)
    ensures
        next_state(state, pack).current == KICKOFF || next_state(state, pack).current == ATTACK_BALL,
{
}

/// The bot plays the kickoff after a tick exactly when the round is not
/// running yet, or when it was already playing the kickoff and the ball still
/// sits on the kickoff spot.
pub proof fn lemma_kickoff_exactly_when(state: States, pack: Observation)
    ensures
        next_state(state, pack).is_kickoff() <==> (!pack.round_active || (state.is_kickoff()
            && !pack.ball_off_center)),
{
}

/// The kickoff is kept as long as the ball sits on the kickoff spot.
pub proof fn lemma_kickoff_kept_while_ball_on_spot(state: States, pack: Observation)
    requires
        state.is_kickoff(),
        !pack.ball_off_center,
    ensures
        next_state(state, pack) == state,
{
}

/// Attack-the-ball is decided anew at every tick: it leads to the kickoff
/// while the round is not running and to attack-the-ball otherwise.
pub proof fn lemma_attack_decided_anew(state: States, pack: Observation)
    requires
        !state.is_kickoff(),
    ensures
        next_state(state, pack) == (if pack.round_active {
            States { current: ATTACK_BALL }
        } else {
            States { current: KICKOFF }
        }),
{
}

/// A second tick on the same facts changes nothing: the state a tick
/// chooses is one that the same facts keep.
pub proof fn lemma_tick_settles(state: States, pack: Observation)
    ensures
        next_state(next_state(state, pack), pack) == next_state(state, pack),
{
}

/// Whatever the state and the facts, the routine that runs asks only for
/// analogue values within [-1, 1], so clamping the controller changes none
/// of them.
pub proof fn lemma_routines_within_unit_range(state: States, pack: Observation)
    ensures
        state.controls(pack).within_unit_range(),
{
}

/// The kickoff routine jumps with the nose pitched down exactly when the car
/// is near the midfield line, and otherwise keeps the nose level and stays on
/// the ground, whatever the round and the ball are doing; it always drives at
/// full throttle with boost, without yaw, roll or drift.
pub proof fn lemma_kickoff_dives_only_near_midfield(pack: Observation)
    ensures
        kickoff_controls(pack).jump == pack.near_midfield,
        kickoff_controls(pack).pitch == (if pack.near_midfield { -1i8 } else { 0i8 }),
        kickoff_controls(pack).throttle == 1,
        kickoff_controls(pack).boost,
        kickoff_controls(pack).yaw == 0,
        kickoff_controls(pack).roll == 0,
        !kickoff_controls(pack).drift,
{
}

/// The kickoff routine does not look at the round or the ball: two ticks
/// with the car equally near midfield get the same controls.
pub proof fn lemma_kickoff_reads_only_car_position(p: Observation, q: Observation)
    requires
        p.near_midfield == q.near_midfield,
    ensures
        kickoff_controls(p) == kickoff_controls(q),
{
}

/// The routine that runs depends only on the state: the kickoff state always
/// boosts, and jumps exactly near midfield; every other state drives at full
/// throttle with nothing else pressed, whatever the tick holds.
pub proof fn lemma_routine_follows_state(state: States, pack: Observation)
    ensures
        state.current == KICKOFF ==> state.controls(pack) == (Controls {
            throttle: 1,
            boost: true,
            jump: pack.near_midfield,
            pitch: if pack.near_midfield { -1i8 } else { 0i8 },
            yaw: 0,
            roll: 0,
            drift: false,
        }),
        state.current != KICKOFF ==> state.controls(pack) == (Controls {
            throttle: 1,
            boost: false,
            jump: false,
            pitch: 0,
            yaw: 0,
            roll: 0,
            drift: false,
        }),
        state.controls(pack).boost == (state.current == KICKOFF),
{
}

/// Within one state, the routine's choice of boost does not change from tick
/// to tick: the kickoff boosts on every tick and attack-the-ball on none.
pub proof fn lemma_boost_ignores_tick(state: States, p: Observation, q: Observation)
    ensures
        state.controls(p).boost == state.controls(q).boost,
        state.controls(p).throttle == state.controls(q).throttle,
{
}

/// The kickoff is over exactly when the ball has left the kickoff spot,
/// whether or not the round is running; every other state is over on every
/// tick.
pub proof fn lemma_expiry_reads_only_ball(state: States, pack: Observation)
    ensures
        state.current == KICKOFF ==> (state.is_over(pack) <==> pack.ball_off_center),
        state.current != KICKOFF ==> state.is_over(pack),
{
}

/// The kickoff may be entered exactly while the round is not running; every
/// other state may always be entered.
pub proof fn lemma_entry_reads_only_round(state: States, pack: Observation)
    ensures
        state.current == KICKOFF ==> (state.can_enter(pack) <==> !pack.round_active),
        state.current != KICKOFF ==> state.can_enter(pack),
{
}

} // verus!
