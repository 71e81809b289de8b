use vstd::prelude::*;

verus! {

/// `true` for the team number the framework gives the blue team (0),
/// `false` for every other number.
pub fn teamtobool(team: i32) -> (blue: bool)
    ensures
        blue == (team == 0),
{
    if team == 0 {
        return true;
    }
    false
}

/// The car index of the opponent in a one-on-one match.
pub open spec fn opponent_of(player_index: int) -> int {
    if player_index == 0 { 1 } else { 0 }
}

/// The car this bot plays against: car 1 when the bot drives car 0, and
/// car 0 in every other case.
pub fn opponent_index(player_index: usize) -> (opp_index: usize)
    ensures
        opp_index == opponent_of(player_index as int),
        player_index == 0 ==> opp_index == 1,
        player_index != 0 ==> opp_index == 0,
{
    if player_index == 0 {
        1
    } else {
        0
    }
}

/// The opponent is always one of the first two cars, and never the bot's
/// own car.
pub proof fn lemma_opponent_is_another_car(player_index: usize)
    ensures
        0 <= opponent_of(player_index as int) <= 1,
        opponent_of(player_index as int) != player_index,
        player_index == 0 ==> opponent_of(player_index as int) == 1,
        player_index != 0 ==> opponent_of(player_index as int) == 0,
{
}

} // verus!
