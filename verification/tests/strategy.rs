use evanbot::strategy::{
    evan_input, execute_attb, execute_kickoff, get_input, Controls, Observation, States,
    ATTACK_BALL, KICKOFF,
};

fn obs(round_active: bool, ball_off_center: bool, near_midfield: bool) -> Observation {
    Observation { round_active, ball_off_center, near_midfield }
}

fn all_observations() -> Vec<Observation> {
    let mut v = Vec::new();
    for a in [false, true] {
        for b in [false, true] {
            for c in [false, true] {
                v.push(obs(a, b, c));
            }
        }
    }
    v
}

const KICKOFF_DIVE: Controls =
    Controls { throttle: 1, boost: true, jump: true, pitch: -1, yaw: 0, roll: 0, drift: false };
const KICKOFF_DRIVE: Controls =
    Controls { throttle: 1, boost: true, jump: false, pitch: 0, yaw: 0, roll: 0, drift: false };
const ATTACK: Controls =
    Controls { throttle: 1, boost: false, jump: false, pitch: 0, yaw: 0, roll: 0, drift: false };

#[test]
fn match_starts_in_kickoff() {
    assert_eq!(States::initial(), States { current: KICKOFF });
}

#[test]
fn kickoff_dives_near_midfield() {
    assert_eq!(execute_kickoff(&obs(true, true, true)), KICKOFF_DIVE);
}

#[test]
fn kickoff_boosts_far_from_midfield() {
    assert_eq!(execute_kickoff(&obs(true, true, false)), KICKOFF_DRIVE);
}

#[test]
fn attack_drives_at_full_throttle() {
    for o in all_observations() {
        assert_eq!(execute_attb(&o), ATTACK);
    }
}

#[test]
fn kickoff_available_only_before_round() {
    let k = States { current: KICKOFF };
    assert!(k.available(&obs(false, true, false)));
    assert!(!k.available(&obs(true, false, false)));
}

#[test]
fn attack_always_available() {
    let a = States { current: ATTACK_BALL };
    for o in all_observations() {
        assert!(a.available(&o));
    }
}

#[test]
fn kickoff_expires_when_ball_leaves_spot() {
    let k = States { current: KICKOFF };
    assert!(k.expired(&obs(true, true, false)));
    assert!(!k.expired(&obs(true, false, false)));
}

#[test]
fn attack_always_expired() {
    let a = States { current: ATTACK_BALL };
    let odd = States { current: 7 };
    for o in all_observations() {
        assert!(a.expired(&o));
        assert!(odd.expired(&o));
    }
}

#[test]
fn execute_dispatches_on_state() {
    let o = obs(false, false, true);
    assert_eq!(States { current: KICKOFF }.execute(&o), KICKOFF_DIVE);
    assert_eq!(States { current: ATTACK_BALL }.execute(&o), ATTACK);
    assert_eq!(States { current: 0 }.execute(&o), ATTACK);
}

#[test]
fn kickoff_kept_while_ball_on_spot() {
    let mut s = States { current: KICKOFF };
    let c = evan_input(&mut s, &obs(true, false, true));
    assert_eq!(s, States { current: KICKOFF });
    assert_eq!(c, KICKOFF_DIVE);
}

#[test]
fn kickoff_ends_when_round_runs_and_ball_moves() {
    let mut s = States { current: KICKOFF };
    let c = evan_input(&mut s, &obs(true, true, true));
    assert_eq!(s, States { current: ATTACK_BALL });
    assert_eq!(c, ATTACK);
}

#[test]
fn kickoff_restarts_before_round() {
    let mut s = States { current: KICKOFF };
    let c = evan_input(&mut s, &obs(false, true, false));
    assert_eq!(s, States { current: KICKOFF });
    assert_eq!(c, KICKOFF_DRIVE);
}

#[test]
fn attack_returns_to_kickoff_before_round() {
    let mut s = States { current: ATTACK_BALL };
    let c = evan_input(&mut s, &obs(false, false, false));
    assert_eq!(s, States { current: KICKOFF });
    assert_eq!(c, KICKOFF_DRIVE);
}

#[test]
fn attack_continues_while_round_runs() {
    let mut s = States { current: ATTACK_BALL };
    let c = evan_input(&mut s, &obs(true, false, true));
    assert_eq!(s, States { current: ATTACK_BALL });
    assert_eq!(c, ATTACK);
}

#[test]
fn unknown_state_lands_in_known_state() {
    for o in all_observations() {
        let mut s = States { current: 42 };
        evan_input(&mut s, &o);
        assert!(s.current == KICKOFF || s.current == ATTACK_BALL);
    }
}

#[test]
fn tick_settles_on_same_facts() {
    for start in [0u32, KICKOFF, ATTACK_BALL, 9] {
        for o in all_observations() {
            let mut s = States { current: start };
            evan_input(&mut s, &o);
            let once = s;
            evan_input(&mut s, &o);
            assert_eq!(s, once);
        }
    }
}

#[test]
fn kickoff_exactly_when_round_not_running_or_ball_on_spot() {
    for start in [KICKOFF, ATTACK_BALL] {
        for o in all_observations() {
            let mut s = States { current: start };
            evan_input(&mut s, &o);
            let expect = !o.round_active || (start == KICKOFF && !o.ball_off_center);
            assert_eq!(s.current == KICKOFF, expect);
        }
    }
}

#[test]
fn controls_within_unit_range() {
    for start in [KICKOFF, ATTACK_BALL] {
        for o in all_observations() {
            let mut s = States { current: start };
            let c = evan_input(&mut s, &o);
            for v in [c.throttle, c.pitch, c.yaw, c.roll] {
                assert!((-1..=1).contains(&v));
            }
        }
    }
}

#[test]
fn no_ball_means_no_decision() {
    let mut s = States { current: ATTACK_BALL };
    assert_eq!(get_input(&mut s, None), None);
    assert_eq!(s, States { current: ATTACK_BALL });
}

#[test]
fn ball_present_runs_the_tick() {
    let mut s = States { current: ATTACK_BALL };
    assert_eq!(get_input(&mut s, Some(obs(false, true, true))), Some(KICKOFF_DIVE));
    assert_eq!(s, States { current: KICKOFF });
}
