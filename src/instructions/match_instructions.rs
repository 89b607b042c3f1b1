use vstd::prelude::*;
use crate::address::Address;
use crate::error::TrendXBetError;
use crate::events::{MatchBettingClosed, MatchCreated, MatchStatusUpdated};
use crate::state::{GlobalState, MatchState, MatchStatus};
use crate::utils::{description_check, match_times_check, team_name_check, ValidationUtils};

verus! {

/// The checks of a match creation, in the order they are made.
pub open spec fn create_match_check(
    global: GlobalState,
    authority: Address,
    team1: Seq<char>,
    team2: Seq<char>,
    start_time: i64,
    end_time: i64,
    description: Seq<char>,
    current_time: i64,
) -> Result<(), TrendXBetError> {
    if global.admin != authority {
        Err(TrendXBetError::Unauthorized)
    } else if global.is_paused {
        Err(TrendXBetError::PlatformPaused)
    } else if team_name_check(team1) is Err {
        team_name_check(team1)
    } else if team_name_check(team2) is Err {
        team_name_check(team2)
    } else if description_check(description) is Err {
        description_check(description)
    } else if match_times_check(start_time, end_time, current_time) is Err {
        match_times_check(start_time, end_time, current_time)
    } else if team1 == team2 {
        Err(TrendXBetError::InvalidTeam)
    } else {
        Ok(())
    }
}

/// Schedules a new match between two distinct, named teams; administrator
/// only, while the platform runs.
pub fn create_match(
    global_state: &GlobalState,
    authority: Address,
    match_id: Address,
    team1: String,
    team2: String,
    start_time: i64,
    end_time: i64,
    description: String,
    current_time: i64,
) -> (r: Result<(MatchState, MatchCreated), TrendXBetError>)
    ensures
        r is Ok <==> create_match_check(
            *global_state,
            authority,
            team1@,
            team2@,
            start_time,
            end_time,
            description@,
            current_time,
        ) is Ok,
        r is Err ==> r->Err_0 == create_match_check(
            *global_state,
            authority,
            team1@,
            team2@,
            start_time,
            end_time,
            description@,
            current_time,
        )->Err_0,
        r is Ok ==> r->Ok_0.0 == (MatchState {
            match_id,
            team1,
            team2,
            description,
            start_time,
            end_time,
            status: MatchStatus::Scheduled,
            total_pool: 0,
            team1_pool: 0,
            team2_pool: 0,
            total_bets: 0,
            winning_team: None,
            final_score: None,
            oracle_result_time: None,
            is_betting_closed: false,
            is_settled: false,
            match_created_at: current_time,
        }) && r->Ok_0.0.pools_balanced() && r->Ok_0.1 == (MatchCreated {
            match_id,
            team1,
            team2,
            start_time,
            end_time,
            description,
            creator: authority,
            timestamp: current_time,
        }),
{
    if global_state.admin != authority {
        return Err(TrendXBetError::Unauthorized);
    }
    if !global_state.is_operational() {
        return Err(TrendXBetError::PlatformPaused);
    }
    if let Err(e) = ValidationUtils::validate_team_name(team1.as_str()) {
        return Err(e);
    }
    if let Err(e) = ValidationUtils::validate_team_name(team2.as_str()) {
        return Err(e);
    }
    if let Err(e) = ValidationUtils::validate_description(description.as_str()) {
        return Err(e);
    }
    if let Err(e) = ValidationUtils::validate_match_times(start_time, end_time, current_time) {
        return Err(e);
    }
    if team1 == team2 {
        return Err(TrendXBetError::InvalidTeam);
    }
    let event = MatchCreated {
        match_id,
        team1: team1.clone(),
        team2: team2.clone(),
        start_time,
        end_time,
        description: description.clone(),
        creator: authority,
        timestamp: current_time,
    };
    let state = MatchState::initialize(
        match_id,
        team1,
        team2,
        description,
        start_time,
        end_time,
        current_time,
    );
    Ok((state, event))
}

/// The guard of a status change: `Scheduled -> Live` once the start time is
/// reached, `Live -> Ended` once the end time is reached, `Ended -> Settled`
/// once a result is recorded, and `Cancelled` from any state that is not
/// terminal. Every other pair is refused.
pub open spec fn transition_check(m: MatchState, new_status: MatchStatus, current_time: i64) -> Result<
    (),
    TrendXBetError,
> {
    match (m.status, new_status) {
        (MatchStatus::Scheduled, MatchStatus::Live) => if current_time >= m.start_time {
            Ok(())
        } else {
            Err(TrendXBetError::MatchNotStarted)
        },
        (MatchStatus::Live, MatchStatus::Ended) => if current_time >= m.end_time {
            Ok(())
        } else {
            Err(TrendXBetError::MatchNotStarted)
        },
        (MatchStatus::Ended, MatchStatus::Settled) => if m.winning_team is Some {
            Ok(())
        } else {
            Err(TrendXBetError::OracleResultExists)
        },
        (MatchStatus::Scheduled, MatchStatus::Cancelled) => Ok(()),
        (MatchStatus::Live, MatchStatus::Cancelled) => Ok(()),
        (MatchStatus::Ended, MatchStatus::Cancelled) => Ok(()),
        _ => Err(TrendXBetError::InvalidMatchStatus),
    }
}

/// Moves a match to another status; administrator only. Going live closes
/// betting.
pub fn update_match_status(
    match_state: &mut MatchState,
    global_state: &GlobalState,
    admin: Address,
    status: MatchStatus,
    current_time: i64,
) -> (r: Result<MatchStatusUpdated, TrendXBetError>)
    ensures
        global_state.admin != admin ==> r == Err::<MatchStatusUpdated, _>(
            TrendXBetError::Unauthorized,
        ),
        global_state.admin == admin ==> (r is Ok <==> transition_check(
            *old(match_state),
            status,
            current_time,
        ) is Ok),
        global_state.admin == admin && r is Err ==> r->Err_0 == transition_check(
            *old(match_state),
            status,
            current_time,
        )->Err_0,
        r is Err ==> *final(match_state) == *old(match_state),
        r is Ok ==> *final(match_state) == (MatchState {
            status,
            is_betting_closed: old(match_state).is_betting_closed || status == MatchStatus::Live,
            ..*old(match_state)
        }) && r->Ok_0 == (MatchStatusUpdated {
            match_id: old(match_state).match_id,
            old_status: old(match_state).status,
            new_status: status,
            timestamp: current_time,
        }),
{
    if global_state.admin != admin {
        return Err(TrendXBetError::Unauthorized);
    }
    let old_status = match_state.status;
    match (old_status, status) {
        (MatchStatus::Scheduled, MatchStatus::Live) => {
            if !match_state.has_started(current_time) {
                return Err(TrendXBetError::MatchNotStarted);
            }
        },
        (MatchStatus::Live, MatchStatus::Ended) => {
            if !match_state.has_ended(current_time) {
                return Err(TrendXBetError::MatchNotStarted);
            }
        },
        (MatchStatus::Ended, MatchStatus::Settled) => {
            if match_state.winning_team.is_none() {
                return Err(TrendXBetError::OracleResultExists);
            }
        },
        (MatchStatus::Scheduled, MatchStatus::Cancelled) => {},
        (MatchStatus::Live, MatchStatus::Cancelled) => {},
        (MatchStatus::Ended, MatchStatus::Cancelled) => {},
        _ => {
            return Err(TrendXBetError::InvalidMatchStatus);
        },
    }
    match_state.update_status(status);
    if status == MatchStatus::Live {
        match_state.close_betting();
    }
    Ok(
        MatchStatusUpdated {
            match_id: match_state.match_id,
            old_status,
            new_status: status,
            timestamp: current_time,
        },
    )
}

/// Closes betting on a scheduled match; administrator only.
pub fn close_match_betting(
    match_state: &mut MatchState,
    global_state: &GlobalState,
    admin: Address,
    current_time: i64,
) -> (r: Result<MatchBettingClosed, TrendXBetError>)
    ensures
        global_state.admin != admin ==> r == Err::<MatchBettingClosed, _>(
            TrendXBetError::Unauthorized,
        ),
        global_state.admin == admin && old(match_state).status != MatchStatus::Scheduled ==> r
            == Err::<MatchBettingClosed, _>(TrendXBetError::InvalidMatchStatus),
        r is Ok <==> global_state.admin == admin && old(match_state).status
            == MatchStatus::Scheduled,
        r is Err ==> *final(match_state) == *old(match_state),
        r is Ok ==> *final(match_state) == (MatchState {
            is_betting_closed: true,
            ..*old(match_state)
        }) && r->Ok_0 == (MatchBettingClosed {
            match_id: old(match_state).match_id,
            total_pool: old(match_state).total_pool,
            team1_pool: old(match_state).team1_pool,
            team2_pool: old(match_state).team2_pool,
            total_bets: old(match_state).total_bets,
            timestamp: current_time,
        }),
{
    if global_state.admin != admin {
        return Err(TrendXBetError::Unauthorized);
    }
    if match_state.status != MatchStatus::Scheduled {
        return Err(TrendXBetError::InvalidMatchStatus);
    }
    match_state.close_betting();
    Ok(
        MatchBettingClosed {
            match_id: match_state.match_id,
            total_pool: match_state.total_pool,
            team1_pool: match_state.team1_pool,
            team2_pool: match_state.team2_pool,
            total_bets: match_state.total_bets,
            timestamp: current_time,
        },
    )
}

} // verus!
