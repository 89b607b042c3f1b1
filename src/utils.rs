use vstd::prelude::*;
use vstd::string::StrSliceExecFns;
use vstd::utf8::encode_utf8;
use crate::constants::{
    BASIS_POINTS, MAX_DESCRIPTION_LENGTH, MAX_HOUSE_EDGE, MAX_TEAM_NAME_LENGTH,
    MAX_USERNAME_LENGTH, NO_LIQUIDITY_ODDS, ORACLE_UPDATE_WINDOW, MIN_BETTING_DURATION,
    MAX_BETTING_DURATION, SETTLEMENT_WINDOW,
};
use crate::error::TrendXBetError;

verus! {

/// A `u64` computed in mathematical integers, or `None` where it leaves the
/// range of `u64`.
pub open spec fn fit_u64(x: int) -> Option<u64> {
    if 0 <= x <= u64::MAX {
        Some(x as u64)
    } else {
        None
    }
}

/// The outcome of a checked computation: a value that fits, or an arithmetic
/// failure.
pub open spec fn checked(o: Option<u64>) -> Result<u64, TrendXBetError> {
    match o {
        Some(v) => Ok(v),
        None => Err(TrendXBetError::MathematicalOverflow),
    }
}

/// Odds of a side in basis points: the opposing stake per unit of this side's
/// stake. A pool with no stake quotes 1:1; a side with no stake against a
/// non-empty pool quotes `NO_LIQUIDITY_ODDS`.
pub open spec fn odds_of(team_pool: u64, total_pool: u64) -> Option<u64> {
    if total_pool == 0 {
        Some(BASIS_POINTS)
    } else if team_pool == 0 {
        Some(NO_LIQUIDITY_ODDS)
    } else if team_pool > total_pool {
        None
    } else if (total_pool - team_pool) * BASIS_POINTS > u64::MAX {
        None
    } else {
        Some((((total_pool - team_pool) * BASIS_POINTS) / (team_pool as int)) as u64)
    }
}

/// `amount * bps / 10000`, where the product fits in a `u64`.
pub open spec fn bps_of(amount: u64, bps: u64) -> Option<u64> {
    if amount * bps > u64::MAX {
        None
    } else {
        Some(((amount * bps) / (BASIS_POINTS as int)) as u64)
    }
}

/// The quote at placement: the house edge comes off the stake first, the
/// odds apply to what is left, and the stake itself is returned on top.
pub open spec fn payout_of(amount: u64, odds: u64, house_edge: u16) -> Option<u64> {
    match bps_of(amount, house_edge as u64) {
        None => None,
        Some(fee) => if fee > amount {
            None
        } else {
            match bps_of((amount - fee) as u64, odds) {
                None => None,
                Some(winnings) => fit_u64(amount + winnings),
            }
        },
    }
}

/// Parimutuel settlement: the winning stake's share of the pool net of the
/// house fee.
pub open spec fn parimutuel_of(bet: u64, winning_pool: u64, total_pool: u64, house_edge: u16) -> Result<
    u64,
    TrendXBetError,
> {
    if winning_pool == 0 {
        Err(TrendXBetError::DivisionByZero)
    } else {
        match bps_of(total_pool, house_edge as u64) {
            None => Err(TrendXBetError::MathematicalOverflow),
            Some(fee) => if fee > total_pool || bet * (total_pool - fee) > u64::MAX {
                Err(TrendXBetError::MathematicalOverflow)
            } else {
                Ok(((bet * (total_pool - fee)) / (winning_pool as int)) as u64)
            },
        }
    }
}

/// Fixed-point arithmetic for odds, fees and payouts. Every operation is
/// checked: a result that leaves the range of `u64` is an error.
pub struct MathUtils;

impl MathUtils {
    /// Odds of a side, in basis points, from its stake and the whole pool.
    pub fn calculate_odds(team_pool: u64, total_pool: u64) -> (r: Result<u64, TrendXBetError>)
        ensures
            r == checked(odds_of(team_pool, total_pool)),
    {
        if total_pool == 0 {
            return Ok(BASIS_POINTS);
        }
        if team_pool == 0 {
            return Ok(NO_LIQUIDITY_ODDS);
        }
        if team_pool > total_pool {
            return Err(TrendXBetError::MathematicalOverflow);
        }
        let opposing_pool = total_pool - team_pool;
        if opposing_pool > u64::MAX / BASIS_POINTS {
            return Err(TrendXBetError::MathematicalOverflow);
        }
        Ok(opposing_pool * BASIS_POINTS / team_pool)
    }

    /// The payout quoted at placement for a stake at the given odds.
    pub fn calculate_payout(bet_amount: u64, odds: u64, house_edge: u16) -> (r: Result<
        u64,
        TrendXBetError,
    >)
        ensures
            r == checked(payout_of(bet_amount, odds, house_edge)),
    {
        let house_edge_amount = match Self::calculate_platform_fee(bet_amount, house_edge) {
            Ok(fee) => fee,
            Err(e) => return Err(e),
        };
        if house_edge_amount > bet_amount {
            return Err(TrendXBetError::MathematicalOverflow);
        }
        let effective_bet = bet_amount - house_edge_amount;
        let winnings = match Self::calculate_platform_fee_bps(effective_bet, odds) {
            Ok(w) => w,
            Err(e) => return Err(e),
        };
        match bet_amount.checked_add(winnings) {
            Some(total) => Ok(total),
            None => Err(TrendXBetError::MathematicalOverflow),
        }
    }

    /// The house's cut of an amount: `amount * house_edge / 10000`.
    pub fn calculate_platform_fee(bet_amount: u64, house_edge: u16) -> (r: Result<
        u64,
        TrendXBetError,
    >)
        ensures
            r == checked(bps_of(bet_amount, house_edge as u64)),
    {
        Self::calculate_platform_fee_bps(bet_amount, house_edge as u64)
    }

    fn calculate_platform_fee_bps(amount: u64, bps: u64) -> (r: Result<u64, TrendXBetError>)
        ensures
            r == checked(bps_of(amount, bps)),
    {
        match amount.checked_mul(bps) {
            Some(product) => Ok(product / BASIS_POINTS),
            None => Err(TrendXBetError::MathematicalOverflow),
        }
    }

    /// A winning stake's share of the fee-adjusted pool.
    pub fn calculate_parimutuel_payout(
        bet_amount: u64,
        winning_pool: u64,
        total_pool: u64,
        house_edge: u16,
    ) -> (r: Result<u64, TrendXBetError>)
        ensures
            r == parimutuel_of(bet_amount, winning_pool, total_pool, house_edge),
    {
        if winning_pool == 0 {
            return Err(TrendXBetError::DivisionByZero);
        }
        let total_fees = match Self::calculate_platform_fee(total_pool, house_edge) {
            Ok(fee) => fee,
            Err(e) => return Err(e),
        };
        if total_fees > total_pool {
            return Err(TrendXBetError::MathematicalOverflow);
        }
        let net_pool = total_pool - total_fees;
        match bet_amount.checked_mul(net_pool) {
            Some(product) => Ok(product / winning_pool),
            None => Err(TrendXBetError::MathematicalOverflow),
        }
    }
}


/// Whether a character is alphabetic or numeric in the Unicode sense.
pub uninterp spec fn alphanumeric(c: char) -> bool;

/// Whether a character has the Unicode White_Space property: tab, line
/// feed, vertical tab, form feed, carriage return, space, next line,
/// no-break space, ogham space mark, the spaces from en quad to hair space,
/// line separator, paragraph separator, narrow no-break space, medium
/// mathematical space and ideographic space.
pub open spec fn whitespace(c: char) -> bool {
    let u = c as u32;
    ||| 0x09 <= u <= 0x0d
    ||| u == 0x20
    ||| u == 0x85
    ||| u == 0xa0
    ||| u == 0x1680
    ||| 0x2000 <= u <= 0x200a
    ||| u == 0x2028
    ||| u == 0x2029
    ||| u == 0x202f
    ||| u == 0x205f
    ||| u == 0x3000
}

/// Relies on `char::is_alphanumeric`, which depends on the character alone.
#[verifier::external_body]
fn is_alphanumeric_char(c: char) -> (r: bool)
    ensures
        r == alphanumeric(c),
{
    c.is_alphanumeric()
}

/// Whether a character has the Unicode White_Space property.
fn is_whitespace_char(c: char) -> (r: bool)
    ensures
        r == whitespace(c),
{
    let u = c as u32;
    (0x09 <= u && u <= 0x0d) || u == 0x20 || u == 0x85 || u == 0xa0 || u == 0x1680 || (0x2000
        <= u && u <= 0x200a) || u == 0x2028 || u == 0x2029 || u == 0x202f || u == 0x205f || u
        == 0x3000
}

/// A text that is empty once surrounding whitespace is trimmed.
pub open spec fn blank(s: Seq<char>) -> bool {
    forall|i: int| 0 <= i < s.len() ==> #[trigger] whitespace(s[i])
}

/// A character allowed in a username.
pub open spec fn name_char(c: char) -> bool {
    alphanumeric(c) || c == '_'
}

/// Every character of a username is alphanumeric or an underscore.
pub open spec fn name_chars(s: Seq<char>) -> bool {
    forall|i: int| 0 <= i < s.len() ==> #[trigger] name_char(s[i])
}

/// Byte length of a text in UTF-8.
pub open spec fn byte_len(s: Seq<char>) -> usize {
    encode_utf8(s).len() as usize
}

pub open spec fn username_check(s: Seq<char>) -> Result<(), TrendXBetError> {
    if byte_len(s) > MAX_USERNAME_LENGTH {
        Err(TrendXBetError::UsernameTooLong)
    } else if blank(s) || !name_chars(s) {
        Err(TrendXBetError::InvalidAccount)
    } else {
        Ok(())
    }
}

pub open spec fn team_name_check(s: Seq<char>) -> Result<(), TrendXBetError> {
    if byte_len(s) > MAX_TEAM_NAME_LENGTH {
        Err(TrendXBetError::TeamNameTooLong)
    } else if blank(s) {
        Err(TrendXBetError::InvalidAccount)
    } else {
        Ok(())
    }
}

pub open spec fn description_check(s: Seq<char>) -> Result<(), TrendXBetError> {
    if byte_len(s) > MAX_DESCRIPTION_LENGTH {
        Err(TrendXBetError::DescriptionTooLong)
    } else {
        Ok(())
    }
}

pub open spec fn bet_amount_check(amount: u64, min_amount: u64, max_amount: u64) -> Result<
    (),
    TrendXBetError,
> {
    if amount < min_amount {
        Err(TrendXBetError::BetAmountTooLow)
    } else if amount > max_amount {
        Err(TrendXBetError::BetAmountTooHigh)
    } else {
        Ok(())
    }
}

pub open spec fn house_edge_check(house_edge: u16) -> Result<(), TrendXBetError> {
    if house_edge > MAX_HOUSE_EDGE {
        Err(TrendXBetError::InvalidHouseEdge)
    } else {
        Ok(())
    }
}

pub open spec fn match_times_check(start_time: i64, end_time: i64, current_time: i64) -> Result<
    (),
    TrendXBetError,
> {
    if start_time <= current_time {
        Err(TrendXBetError::StartTimeInPast)
    } else if end_time <= start_time {
        Err(TrendXBetError::EndTimeBeforeStart)
    } else if end_time - start_time < MIN_BETTING_DURATION || end_time - start_time
        > MAX_BETTING_DURATION {
        Err(TrendXBetError::InvalidTimeConfiguration)
    } else {
        Ok(())
    }
}

pub open spec fn team_check(team: u8) -> Result<(), TrendXBetError> {
    if team > 1 {
        Err(TrendXBetError::InvalidTeam)
    } else {
        Ok(())
    }
}

/// Whether every character of `s` satisfies the named whitespace property.
fn all_whitespace(s: &str) -> (r: bool)
    ensures
        r == blank(s@),
{
    let n = s.unicode_len();
    let mut i: usize = 0;
    while i < n
        invariant
            n == s@.len(),
            i <= n,
            forall|j: int| 0 <= j < i ==> #[trigger] whitespace(s@[j]),
        decreases n - i,
    {
        let c = s.get_char(i);
        if !is_whitespace_char(c) {
            return false;
        }
        i = i + 1;
    }
    true
}

/// Whether every character of `s` may stand in a username.
fn all_name_chars(s: &str) -> (r: bool)
    ensures
        r == name_chars(s@),
{
    let n = s.unicode_len();
    let mut i: usize = 0;
    while i < n
        invariant
            n == s@.len(),
            i <= n,
            forall|j: int| 0 <= j < i ==> #[trigger] name_char(s@[j]),
        decreases n - i,
    {
        let c = s.get_char(i);
        if !(c == '_' || is_alphanumeric_char(c)) {
            assert(!name_char(s@[i as int]));
            return false;
        }
        i = i + 1;
    }
    true
}

/// Checks on names, amounts and times supplied by callers.
pub struct ValidationUtils;

impl ValidationUtils {
    /// A username is at most `MAX_USERNAME_LENGTH` bytes, not blank, and made
    /// of alphanumeric characters and underscores.
    pub fn validate_username(username: &str) -> (r: Result<(), TrendXBetError>)
        ensures
            r == username_check(username@),
    {
        if username.len() > MAX_USERNAME_LENGTH {
            return Err(TrendXBetError::UsernameTooLong);
        }
        if all_whitespace(username) {
            return Err(TrendXBetError::InvalidAccount);
        }
        if !all_name_chars(username) {
            return Err(TrendXBetError::InvalidAccount);
        }
        Ok(())
    }

    /// A team name is at most `MAX_TEAM_NAME_LENGTH` bytes and not blank.
    pub fn validate_team_name(team_name: &str) -> (r: Result<(), TrendXBetError>)
        ensures
            r == team_name_check(team_name@),
    {
        if team_name.len() > MAX_TEAM_NAME_LENGTH {
            return Err(TrendXBetError::TeamNameTooLong);
        }
        if all_whitespace(team_name) {
            return Err(TrendXBetError::InvalidAccount);
        }
        Ok(())
    }

    /// A description is at most `MAX_DESCRIPTION_LENGTH` bytes.
    pub fn validate_description(description: &str) -> (r: Result<(), TrendXBetError>)
        ensures
            r == description_check(description@),
    {
        if description.len() > MAX_DESCRIPTION_LENGTH {
            return Err(TrendXBetError::DescriptionTooLong);
        }
        Ok(())
    }

    /// A stake lies within the configured bounds.
    pub fn validate_bet_amount(amount: u64, min_amount: u64, max_amount: u64) -> (r: Result<
        (),
        TrendXBetError,
    >)
        ensures
            r == bet_amount_check(amount, min_amount, max_amount),
    {
        if amount < min_amount {
            return Err(TrendXBetError::BetAmountTooLow);
        }
        if amount > max_amount {
            return Err(TrendXBetError::BetAmountTooHigh);
        }
        Ok(())
    }

    /// A house edge is at most 50%.
    pub fn validate_house_edge(house_edge: u16) -> (r: Result<(), TrendXBetError>)
        ensures
            r == house_edge_check(house_edge),
    {
        if house_edge > MAX_HOUSE_EDGE {
            return Err(TrendXBetError::InvalidHouseEdge);
        }
        Ok(())
    }

    /// A match starts in the future, ends after it starts, and lasts between
    /// one hour and thirty days.
    pub fn validate_match_times(start_time: i64, end_time: i64, current_time: i64) -> (r: Result<
        (),
        TrendXBetError,
    >)
        ensures
            r == match_times_check(start_time, end_time, current_time),
    {
        if start_time <= current_time {
            return Err(TrendXBetError::StartTimeInPast);
        }
        if end_time <= start_time {
            return Err(TrendXBetError::EndTimeBeforeStart);
        }
        let duration: i128 = end_time as i128 - start_time as i128;
        if duration < MIN_BETTING_DURATION as i128 || duration > MAX_BETTING_DURATION as i128 {
            return Err(TrendXBetError::InvalidTimeConfiguration);
        }
        Ok(())
    }

    /// A team is 0 (the first) or 1 (the second).
    pub fn validate_team_selection(team: u8) -> (r: Result<(), TrendXBetError>)
        ensures
            r == team_check(team),
    {
        if team > 1 {
            return Err(TrendXBetError::InvalidTeam);
        }
        Ok(())
    }
}

/// Time-window predicates. The current time is always supplied by the caller.
pub struct TimeUtils;

impl TimeUtils {
    /// Whether `current_time` lies within `[start_time, end_time]`.
    pub fn is_betting_open(start_time: i64, end_time: i64, current_time: i64) -> (r: bool)
        ensures
            r == (start_time <= current_time <= end_time),
    {
        current_time >= start_time && current_time <= end_time
    }

    pub fn has_match_started(start_time: i64, current_time: i64) -> (r: bool)
        ensures
            r == (current_time >= start_time),
    {
        current_time >= start_time
    }

    pub fn has_match_ended(end_time: i64, current_time: i64) -> (r: bool)
        ensures
            r == (current_time >= end_time),
    {
        current_time >= end_time
    }

    /// Whether a result reported at `update_time` lies within the reporting
    /// window that opens when the match ends.
    pub fn is_oracle_update_valid(match_end_time: i64, update_time: i64) -> (r: bool)
        ensures
            r == (match_end_time <= update_time <= match_end_time + ORACLE_UPDATE_WINDOW),
    {
        update_time >= match_end_time && (update_time as i128) <= (match_end_time as i128)
            + ORACLE_UPDATE_WINDOW as i128
    }

    /// Whether the settlement period after the match's end has been reached.
    pub fn is_settlement_period_reached(match_end_time: i64, current_time: i64) -> (r: bool)
        ensures
            r == (current_time >= match_end_time + SETTLEMENT_WINDOW),
    {
        (current_time as i128) >= (match_end_time as i128) + SETTLEMENT_WINDOW as i128
    }
}

} // verus!
