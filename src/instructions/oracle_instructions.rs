use vstd::prelude::*;
use crate::address::Address;
use crate::constants::{MAX_SCORE_LENGTH, MIN_ORACLE_CONFIRMATIONS};
use crate::error::TrendXBetError;
use crate::events::{ConsensusReached, MatchResultUpdated, OracleRegistered, OracleUpdateValidated};
use crate::state::{GlobalState, MatchState, MatchStatus, OracleState};
use crate::utils::{byte_len, team_check, ValidationUtils};

verus! {

/// Registers `oracle_authority` as a reporter for a match; administrator
/// only.
pub fn register_oracle(
    global_state: &GlobalState,
    admin: Address,
    match_id: Address,
    oracle_authority: Address,
    current_time: i64,
) -> (r: Result<(OracleState, OracleRegistered), TrendXBetError>)
    ensures
        r is Ok <==> global_state.admin == admin,
        r is Err ==> r->Err_0 == TrendXBetError::Unauthorized,
        r is Ok ==> r->Ok_0.0 == (OracleState {
            oracle_authority,
            match_id,
            reported_result: None,
            reported_score: None,
            report_time: None,
            is_validated: false,
            validation_time: None,
            confirmations: 0,
        }) && r->Ok_0.1 == (OracleRegistered { oracle_authority, match_id, timestamp: current_time }),
{
    if global_state.admin != admin {
        return Err(TrendXBetError::Unauthorized);
    }
    let state = OracleState::initialize(oracle_authority, match_id);
    Ok((state, OracleRegistered { oracle_authority, match_id, timestamp: current_time }))
}

/// The checks of a result report, in the order they are made.
pub open spec fn report_check(
    oracle: OracleState,
    m: MatchState,
    global: GlobalState,
    caller: Address,
    winning_team: u8,
    final_score: Seq<char>,
    current_time: i64,
) -> Result<(), TrendXBetError> {
    if oracle.oracle_authority != caller {
        Err(TrendXBetError::InvalidOracleAuthority)
    } else if oracle.match_id != m.match_id {
        Err(TrendXBetError::InvalidAccount)
    } else if m.status != MatchStatus::Ended {
        Err(TrendXBetError::InvalidMatchStatus)
    } else if global.is_paused {
        Err(TrendXBetError::PlatformPaused)
    } else if team_check(winning_team) is Err {
        Err(TrendXBetError::InvalidTeam)
    } else if byte_len(final_score) > MAX_SCORE_LENGTH {
        Err(TrendXBetError::DescriptionTooLong)
    } else if !oracle.update_valid(m.end_time, current_time) {
        Err(TrendXBetError::OracleUpdateExpired)
    } else if oracle.reported_result is Some && oracle.is_validated {
        Err(TrendXBetError::OracleResultExists)
    } else {
        Ok(())
    }
}

/// A reporter submits its result for an ended match, or corrects it while it
/// is not validated. A first submission counts as one confirmation. Once the
/// report has the required confirmations, the match records the result.
pub fn update_match_result(
    oracle_state: &mut OracleState,
    match_state: &mut MatchState,
    global_state: &GlobalState,
    caller: Address,
    winning_team: u8,
    final_score: String,
    current_time: i64,
) -> (r: Result<MatchResultUpdated, TrendXBetError>)
    ensures
        r is Ok <==> report_check(
            *old(oracle_state),
            *old(match_state),
            *global_state,
            caller,
            winning_team,
            final_score@,
            current_time,
        ) is Ok,
        r is Err ==> r->Err_0 == report_check(
            *old(oracle_state),
            *old(match_state),
            *global_state,
            caller,
            winning_team,
            final_score@,
            current_time,
        )->Err_0 && *final(oracle_state) == *old(oracle_state) && *final(match_state) == *old(match_state),
        r is Ok ==> {
            let confirmations: u8 = if old(oracle_state).reported_result is None {
                1
            } else {
                old(oracle_state).confirmations
            };
            &&& *final(oracle_state) == (OracleState {
                reported_result: Some(winning_team),
                reported_score: Some(final_score),
                report_time: Some(current_time),
                confirmations,
                ..*old(oracle_state)
            })
            &&& confirmations >= MIN_ORACLE_CONFIRMATIONS ==> *final(match_state) == (MatchState {
                winning_team: Some(winning_team),
                final_score: Some(final_score),
                oracle_result_time: Some(current_time),
                status: MatchStatus::Ended,
                ..*old(match_state)
            })
            &&& confirmations < MIN_ORACLE_CONFIRMATIONS ==> *final(match_state) == *old(match_state)
            &&& r->Ok_0 == (MatchResultUpdated {
                match_id: old(match_state).match_id,
                oracle_authority: caller,
                winning_team,
                final_score,
                timestamp: current_time,
            })
        },
{
    if !oracle_state.is_authorized_oracle(&caller) {
        return Err(TrendXBetError::InvalidOracleAuthority);
    }
    if oracle_state.match_id != match_state.match_id {
        return Err(TrendXBetError::InvalidAccount);
    }
    if match_state.status != MatchStatus::Ended {
        return Err(TrendXBetError::InvalidMatchStatus);
    }
    if !global_state.is_operational() {
        return Err(TrendXBetError::PlatformPaused);
    }
    if let Err(e) = ValidationUtils::validate_team_selection(winning_team) {
        return Err(e);
    }
    if final_score.as_str().len() > MAX_SCORE_LENGTH {
        return Err(TrendXBetError::DescriptionTooLong);
    }
    if !oracle_state.is_update_valid(match_state.end_time, current_time) {
        return Err(TrendXBetError::OracleUpdateExpired);
    }
    if oracle_state.reported_result.is_none() {
        if let Err(e) = oracle_state.submit_result(winning_team, final_score.clone(), current_time) {
            return Err(e);
        }
    } else {
        if let Err(e) = oracle_state.update_result(winning_team, final_score.clone(), current_time) {
            return Err(e);
        }
    }
    if oracle_state.has_minimum_confirmations() {
        match_state.set_result(winning_team, final_score.clone(), current_time);
    }
    Ok(
        MatchResultUpdated {
            match_id: match_state.match_id,
            oracle_authority: caller,
            winning_team,
            final_score,
            timestamp: current_time,
        },
    )
}

/// Validates a report that has the required confirmations; administrator
/// only. If the report is then ready and the match not yet settled, the
/// match adopts the reported result and is settled.
pub fn validate_oracle_update(
    oracle_state: &mut OracleState,
    match_state: &mut MatchState,
    global_state: &GlobalState,
    admin: Address,
    current_time: i64,
) -> (r: Result<(OracleUpdateValidated, Option<ConsensusReached>), TrendXBetError>)
    ensures
        global_state.admin != admin ==> r == Err::<
            (OracleUpdateValidated, Option<ConsensusReached>),
            _,
        >(TrendXBetError::Unauthorized),
        global_state.admin == admin && old(oracle_state).match_id != old(match_state).match_id
            ==> r == Err::<(OracleUpdateValidated, Option<ConsensusReached>), _>(
            TrendXBetError::InvalidAccount,
        ),
        global_state.admin == admin && old(oracle_state).match_id == old(match_state).match_id
            && old(oracle_state).confirmations < MIN_ORACLE_CONFIRMATIONS ==> r == Err::<
            (OracleUpdateValidated, Option<ConsensusReached>),
            _,
        >(TrendXBetError::InsufficientOracleConfirmations),
        r is Ok <==> global_state.admin == admin && old(oracle_state).match_id == old(match_state).match_id && old(oracle_state).confirmations >= MIN_ORACLE_CONFIRMATIONS,
        r is Err ==> *final(oracle_state) == *old(oracle_state) && *final(match_state) == *old(match_state),
        r is Ok ==> {
            let adopt = !old(match_state).is_settled && old(oracle_state).reported_result is Some
                && old(oracle_state).reported_score is Some;
            &&& *final(oracle_state) == (OracleState {
                is_validated: true,
                validation_time: Some(current_time),
                ..*old(oracle_state)
            })
            &&& final(oracle_state).ready() == (old(oracle_state).reported_result is Some)
            &&& adopt ==> *final(match_state) == (MatchState {
                winning_team: old(oracle_state).reported_result,
                final_score: old(oracle_state).reported_score,
                oracle_result_time: Some(current_time),
                status: MatchStatus::Settled,
                is_settled: true,
                ..*old(match_state)
            })
            &&& !adopt ==> *final(match_state) == *old(match_state)
            &&& r->Ok_0.0 == (OracleUpdateValidated {
                match_id: old(match_state).match_id,
                oracle_authority: old(oracle_state).oracle_authority,
                confirmations: old(oracle_state).confirmations,
                is_final: old(oracle_state).reported_result is Some,
                timestamp: current_time,
            })
            &&& r->Ok_0.1 == match old(oracle_state).reported_result {
                Some(t) => Some(
                    ConsensusReached {
                        match_id: old(match_state).match_id,
                        winning_team: t,
                        total_confirmations: old(oracle_state).confirmations,
                        timestamp: current_time,
                    },
                ),
                None => None,
            }
        },
{
    if global_state.admin != admin {
        return Err(TrendXBetError::Unauthorized);
    }
    if oracle_state.match_id != match_state.match_id {
        return Err(TrendXBetError::InvalidAccount);
    }
    if let Err(e) = oracle_state.validate(current_time) {
        return Err(e);
    }
    if !match_state.is_settled && oracle_state.is_ready() {
        match (oracle_state.get_validated_result(), oracle_state.get_validated_score()) {
            (Some(winning_team), Some(final_score)) => {
                match_state.set_result(winning_team, final_score, current_time);
                match_state.settle();
            },
            _ => {},
        }
    }
    let event = OracleUpdateValidated {
        match_id: match_state.match_id,
        oracle_authority: oracle_state.oracle_authority,
        confirmations: oracle_state.confirmations,
        is_final: oracle_state.is_ready(),
        timestamp: current_time,
    };
    let consensus = if oracle_state.confirmations >= MIN_ORACLE_CONFIRMATIONS {
        match oracle_state.get_validated_result() {
            Some(winning_team) => Some(
                ConsensusReached {
                    match_id: match_state.match_id,
                    winning_team,
                    total_confirmations: oracle_state.confirmations,
                    timestamp: current_time,
                },
            ),
            None => None,
        }
    } else {
        None
    };
    Ok((event, consensus))
}

/// A report is validated only with the required confirmations, and it is
/// ready only once validated: validation fails below the threshold and
/// leaves the report as it was, and succeeds at or above it.
pub proof fn lemma_validation_threshold(oracle: OracleState, current_time: i64)
    ensures
        !oracle.is_validated ==> !oracle.ready(),
        oracle.confirmations >= MIN_ORACLE_CONFIRMATIONS && oracle.reported_result is Some ==> (
        OracleState {
            is_validated: true,
            validation_time: Some(current_time),
            ..oracle
        }).ready(),
{
}

} // verus!
