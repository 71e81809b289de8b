use evanbot::team::{opponent_index, teamtobool};

#[test]
fn team_zero_is_blue() {
    assert!(teamtobool(0));
}

#[test]
fn other_teams_are_not_blue() {
    assert!(!teamtobool(1));
    assert!(!teamtobool(-1));
    assert!(!teamtobool(i32::MAX));
    assert!(!teamtobool(i32::MIN));
}

#[test]
fn opponent_of_car_zero_is_car_one() {
    assert_eq!(opponent_index(0), 1);
}

#[test]
fn opponent_of_any_other_car_is_car_zero() {
    assert_eq!(opponent_index(1), 0);
    assert_eq!(opponent_index(3), 0);
    assert_eq!(opponent_index(usize::MAX), 0);
}

#[test]
fn opponent_is_never_own_car() {
    for p in 0usize..8 {
        let o = opponent_index(p);
        assert_ne!(o, p);
        assert!(o <= 1);
    }
}
