//! Risk engine: when a position is unwound, and in which order.

use vstd::prelude::*;

verus! {

/// Loss, in percent, above which a position is liquidated.
pub const MAX_ALLOWED_LOSS: u64 = 50;

/// The risk reading of a participant's position.
#[derive(Clone, Copy, Debug, PartialEq, Eq, Structural)]
pub struct UserPosition {
    pub loss_percentage: u64,
}

/// One step of a liquidation, carried out by an external collaborator.
#[derive(Clone, Copy, Debug, PartialEq, Eq, Structural)]
pub enum LiquidationStep {
    /// Close the participant's position.
    ForceClosePosition,
    /// Reconcile the ledger and the pool total with the closed position.
    UpdateStateAfterLiquidation,
}

/// The steps that a position calls for: none at a loss of at most
/// `MAX_ALLOWED_LOSS`; above it the close, then the reconciliation.
pub open spec fn liquidation_steps(position: UserPosition) -> Seq<LiquidationStep> {
    if position.loss_percentage > MAX_ALLOWED_LOSS {
        seq![LiquidationStep::ForceClosePosition, LiquidationStep::UpdateStateAfterLiquidation]
    } else {
        Seq::empty()
    }
}

/// Decides on a liquidation from the risk reading of a position.
///
/// The position is force-closed if and only if its loss exceeds
/// `MAX_ALLOWED_LOSS`; a loss equal to it does not trigger. A liquidation is
/// whole or not at all, and its steps are returned in the order in which
/// they are to be carried out.
pub fn auto_liquidate(position: &UserPosition) -> (steps: Vec<LiquidationStep>)
    ensures
        steps@ == liquidation_steps(*position),
        steps@.contains(LiquidationStep::ForceClosePosition) <==> position.loss_percentage
            > MAX_ALLOWED_LOSS,
{
    let mut steps: Vec<LiquidationStep> = Vec::new();
    if position.loss_percentage > MAX_ALLOWED_LOSS {
        steps.push(LiquidationStep::ForceClosePosition);
        steps.push(LiquidationStep::UpdateStateAfterLiquidation);
        assert(steps@[0] == LiquidationStep::ForceClosePosition);
    }
    steps
}

/// The step that follows once `done` steps of a liquidation have been
/// carried out, the last of them with the outcome `last_ok`.
///
/// A step that failed ends the liquidation: after a failed close no
/// reconciliation follows. Otherwise the steps come in their order until
/// none is left. Before the first step nothing has failed, so `last_ok` is
/// `true` there.
pub fn liquidation_step_after(position: &UserPosition, done: usize, last_ok: bool) -> (next: Option<
    LiquidationStep,
>)
    ensures
        next == if last_ok && done < liquidation_steps(*position).len() {
            Some(liquidation_steps(*position)[done as int])
        } else {
            None
        },
{
    if !last_ok || position.loss_percentage <= MAX_ALLOWED_LOSS {
        None
    } else if done == 0 {
        Some(LiquidationStep::ForceClosePosition)
    } else if done == 1 {
        Some(LiquidationStep::UpdateStateAfterLiquidation)
    } else {
        None
    }
}

} // verus!
