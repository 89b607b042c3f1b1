use vstd::prelude::*;
use crate::state::TreasuryState;

verus! {

/// Net currency moved by the host's ledger over a run of operations: each
/// entry is what one operation moved in (positive) or out (negative).
pub open spec fn ledger_total(moves: Seq<int>) -> int
    decreases moves.len(),
{
    if moves.len() == 0 {
        0
    } else {
        ledger_total(moves.drop_last()) + moves.last()
    }
}

/// Every operation changes the treasury's net balance by exactly what the
/// ledger moves for it: a deposit by its amount, a withdrawal of any kind by
/// minus its amount, and a placement, cancellation, settlement or claim by
/// nothing (each operation's contract states its step). Over any run of
/// such steps, the net balance at the end is the net balance at the start
/// plus the total the ledger moved.
pub proof fn lemma_net_balance_follows_ledger(states: Seq<TreasuryState>, moves: Seq<int>)
    requires
        states.len() == moves.len() + 1,
        forall|i: int|
            0 <= i < moves.len() ==> #[trigger] states[i + 1].net() == states[i].net() + moves[i],
    ensures
        states.last().net() == states[0].net() + ledger_total(moves),
    decreases moves.len(),
{
    if moves.len() > 0 {
        let n = moves.len() - 1;
        assert(states[n + 1].net() == states[n].net() + moves[n]);
        lemma_net_balance_follows_ledger(states.drop_last(), moves.drop_last());
        assert(states.drop_last().last() == states[n]);
        assert(states.drop_last()[0] == states[0]);
    }
}

} // verus!
