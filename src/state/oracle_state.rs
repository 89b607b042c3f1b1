use vstd::prelude::*;
use crate::address::Address;
use crate::constants::{MIN_ORACLE_CONFIRMATIONS, ORACLE_UPDATE_WINDOW};
use crate::error::TrendXBetError;
use crate::utils::TimeUtils;

verus! {

/// One reporter's result for one match: reported, possibly corrected,
/// then validated once enough confirmations are in.
#[derive(Clone, Debug)]
pub struct OracleState {
    /// The reporter allowed to submit and correct this report.
    pub oracle_authority: Address,
    pub match_id: Address,
    /// 0 if the first team won, 1 if the second did.
    pub reported_result: Option<u8>,
    pub reported_score: Option<String>,
    pub report_time: Option<i64>,
    pub is_validated: bool,
    pub validation_time: Option<i64>,
    pub confirmations: u8,
}

impl OracleState {
    /// Validated, with a result to hand on.
    pub open spec fn ready(&self) -> bool {
        self.is_validated && self.reported_result is Some
    }

    /// Whether a report at its recorded time, or at `current_time` for a
    /// first report, lies within the window after `match_end_time`.
    pub open spec fn update_valid(&self, match_end_time: i64, current_time: i64) -> bool {
        let t = match self.report_time {
            Some(t) => t,
            None => current_time,
        };
        match_end_time <= t <= match_end_time + ORACLE_UPDATE_WINDOW
    }

    pub fn initialize(oracle_authority: Address, match_id: Address) -> (r: OracleState)
        ensures
            r == (OracleState {
                oracle_authority,
                match_id,
                reported_result: None,
                reported_score: None,
                report_time: None,
                is_validated: false,
                validation_time: None,
                confirmations: 0,
            }),
    {
        OracleState {
            oracle_authority,
            match_id,
            reported_result: None,
            reported_score: None,
            report_time: None,
            is_validated: false,
            validation_time: None,
            confirmations: 0,
        }
    }

    /// First report of this reporter; it counts as the first confirmation.
    pub fn submit_result(&mut self, winning_team: u8, final_score: String, current_time: i64) -> (r:
        Result<(), TrendXBetError>)
        ensures
            r is Ok <==> old(self).reported_result is None,
            r is Ok ==> *final(self) == (OracleState {
                reported_result: Some(winning_team),
                reported_score: Some(final_score),
                report_time: Some(current_time),
                confirmations: 1,
                ..*old(self)
            }),
            r is Err ==> r == Err::<(), _>(TrendXBetError::OracleResultExists) && *final(self)
                == *old(self),
    {
        if self.reported_result.is_some() {
            return Err(TrendXBetError::OracleResultExists);
        }
        self.reported_result = Some(winning_team);
        self.reported_score = Some(final_score);
        self.report_time = Some(current_time);
        self.confirmations = 1;
        Ok(())
    }

    /// Corrects the report while it is not yet validated; confirmations are
    /// left as they are.
    pub fn update_result(&mut self, winning_team: u8, final_score: String, current_time: i64) -> (r:
        Result<(), TrendXBetError>)
        ensures
            r is Ok <==> !old(self).is_validated,
            r is Ok ==> *final(self) == (OracleState {
                reported_result: Some(winning_team),
                reported_score: Some(final_score),
                report_time: Some(current_time),
                ..*old(self)
            }),
            r is Err ==> r == Err::<(), _>(TrendXBetError::OracleResultExists) && *final(self)
                == *old(self),
    {
        if self.is_validated {
            return Err(TrendXBetError::OracleResultExists);
        }
        self.reported_result = Some(winning_team);
        self.reported_score = Some(final_score);
        self.report_time = Some(current_time);
        Ok(())
    }

    /// Counts one more confirmation from another reporter.
    pub fn add_confirmation(&mut self) -> (r: Result<(), TrendXBetError>)
        ensures
            r is Ok <==> old(self).confirmations < u8::MAX,
            r is Ok ==> *final(self) == (OracleState {
                confirmations: (old(self).confirmations + 1) as u8,
                ..*old(self)
            }),
            r is Err ==> r == Err::<(), _>(TrendXBetError::MathematicalOverflow) && *final(self)
                == *old(self),
    {
        if self.confirmations == u8::MAX {
            return Err(TrendXBetError::MathematicalOverflow);
        }
        self.confirmations = self.confirmations + 1;
        Ok(())
    }

    /// Validates the report once it has the required confirmations.
    pub fn validate(&mut self, current_time: i64) -> (r: Result<(), TrendXBetError>)
        ensures
            r is Ok <==> old(self).confirmations >= MIN_ORACLE_CONFIRMATIONS,
            r is Ok ==> *final(self) == (OracleState {
                is_validated: true,
                validation_time: Some(current_time),
                ..*old(self)
            }),
            r is Err ==> r == Err::<(), _>(TrendXBetError::InsufficientOracleConfirmations)
                && *final(self) == *old(self),
    {
        if self.confirmations < MIN_ORACLE_CONFIRMATIONS {
            return Err(TrendXBetError::InsufficientOracleConfirmations);
        }
        self.is_validated = true;
        self.validation_time = Some(current_time);
        Ok(())
    }

    pub fn is_ready(&self) -> (r: bool)
        ensures
            r == self.ready(),
    {
        self.is_validated && self.reported_result.is_some()
    }

    pub fn is_update_valid(&self, match_end_time: i64, current_time: i64) -> (r: bool)
        ensures
            r == self.update_valid(match_end_time, current_time),
    {
        match self.report_time {
            Some(report_time) => TimeUtils::is_oracle_update_valid(match_end_time, report_time),
            None => TimeUtils::is_oracle_update_valid(match_end_time, current_time),
        }
    }

    /// The reported winner, once the report is ready.
    pub fn get_validated_result(&self) -> (r: Option<u8>)
        ensures
            r == if self.ready() {
                self.reported_result
            } else {
                None
            },
    {
        if self.is_ready() {
            self.reported_result
        } else {
            None
        }
    }

    /// The reported score, once the report is ready.
    pub fn get_validated_score(&self) -> (r: Option<String>)
        ensures
            r == if self.ready() {
                self.reported_score
            } else {
                None
            },
    {
        if self.is_ready() {
            match &self.reported_score {
                Some(s) => Some(s.clone()),
                None => None,
            }
        } else {
            None
        }
    }

    pub fn has_minimum_confirmations(&self) -> (r: bool)
        ensures
            r == (self.confirmations >= MIN_ORACLE_CONFIRMATIONS),
    {
        self.confirmations >= MIN_ORACLE_CONFIRMATIONS
    }

    /// Whether this report names `other_result` as the winner.
    pub fn matches_result(&self, other_result: u8) -> (r: bool)
        ensures
            r == (self.reported_result == Some(other_result)),
    {
        match self.reported_result {
            Some(result) => result == other_result,
            None => false,
        }
    }

    /// Seconds since the report was made, if it was.
    pub fn time_since_report(&self, current_time: i64) -> (r: Option<i128>)
        ensures
            r == match self.report_time {
                Some(t) => Some((current_time - t) as i128),
                None => None::<i128>,
            },
    {
        match self.report_time {
            Some(report_time) => Some(current_time as i128 - report_time as i128),
            None => None,
        }
    }

    pub fn is_authorized_oracle(&self, authority: &Address) -> (r: bool)
        ensures
            r == (self.oracle_authority == *authority),
    {
        self.oracle_authority == *authority
    }
}

} // verus!
