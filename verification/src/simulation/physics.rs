//! Torch bookkeeping of the physics model: a model keeps at least one plasma
//! torch, and torches are removed by position. The torches' heat-source
//! physics is floating-point and runs in the application; these functions
//! handle the torch list whatever its element type.

use vstd::prelude::*;

use crate::errors::{ErrorView, SimulationError};
use crate::text::{decimal, decimal_string};

verus! {

/// The error for a physics model or configuration without torches.
pub open spec fn no_torch_error() -> ErrorView {
    ErrorView::InvalidParameter {
        parameter: "torches"@,
        value: "0"@,
        range: "≥ 1 torch required"@,
    }
}

/// Requires at least one torch, as building a physics model does.
pub fn check_torch_count(count: usize) -> (r: Result<(), SimulationError>)
    ensures
        r is Ok <==> count >= 1,
        r matches Err(e) ==> e@ == no_torch_error(),
{
    if count == 0 {
        Err(
            SimulationError::InvalidParameter {
                parameter: String::from_str("torches"),
                value: String::from_str("0"),
                range: String::from_str("≥ 1 torch required"),
            },
        )
    } else {
        Ok(())
    }
}

/// The torch list after a removal request for position `index`: the torch
/// there is gone when the position exists and another torch remains;
/// otherwise the list is unchanged.
pub open spec fn torches_after_removal<T>(torches: Seq<T>, index: int) -> Seq<T> {
    if 0 <= index < torches.len() && torches.len() > 1 {
        torches.remove(index)
    } else {
        torches
    }
}

/// Why a removal request for position `index` is refused, if it is: a
/// position past the end names the valid range; the only torch cannot go.
pub open spec fn torch_removal_error<T>(torches: Seq<T>, index: nat) -> Option<ErrorView> {
    if index >= torches.len() {
        let last: nat = if torches.len() == 0 {
            0
        } else {
            (torches.len() - 1) as nat
        };
        Some(
            ErrorView::InvalidParameter {
                parameter: "torch index"@,
                value: decimal(index),
                range: "0 to "@ + decimal(last),
            },
        )
    } else if torches.len() == 1 {
        Some(
            ErrorView::InvalidParameter {
                parameter: "torch removal"@,
                value: "last torch"@,
                range: "at least 1 torch must remain"@,
            },
        )
    } else {
        None
    }
}

/// Remove a torch by index. A position past the end is refused, naming the
/// valid range; removing the only torch is refused, since a model keeps at
/// least one.
pub fn remove_torch<T>(torches: &mut Vec<T>, index: usize) -> (r: Result<T, SimulationError>)
    ensures
        final(torches)@ == torches_after_removal(old(torches)@, index as int),
        r is Ok <==> torch_removal_error(old(torches)@, index as nat) is None,
        r matches Ok(t) ==> t == old(torches)@[index as int],
        r matches Err(e) ==> torch_removal_error(old(torches)@, index as nat) == Some(e@),
{
    let len = torches.len();
    if index >= len {
        let last = if len == 0 {
            0
        } else {
            len - 1
        };
        let mut range = String::from_str("0 to ");
        let last_text = decimal_string(last);
        range.append(last_text.as_str());
        return Err(
            SimulationError::InvalidParameter {
                parameter: String::from_str("torch index"),
                value: decimal_string(index),
                range,
            },
        );
    }
    if len == 1 {
        return Err(
            SimulationError::InvalidParameter {
                parameter: String::from_str("torch removal"),
                value: String::from_str("last torch"),
                range: String::from_str("at least 1 torch must remain"),
            },
        );
    }
    Ok(torches.remove(index))
}

/// When a removal succeeds and what it does: a request for a position
/// within the list succeeds whenever at least two torches are present and
/// takes out exactly the torch at that position; a position past the end is
/// refused naming the positions 0 to len - 1; the only torch is never
/// removed. A refused request leaves the list as it was.
pub proof fn law_removal_outcome<T>(torches: Seq<T>, index: nat)
    ensures
        (torch_removal_error(torches, index) is None) <==> (index < torches.len() && torches.len()
            >= 2),
        index < torches.len() && torches.len() >= 2 ==> torches_after_removal(torches, index as int)
            == torches.remove(index as int),
        !(index < torches.len() && torches.len() >= 2) ==> torches_after_removal(
            torches,
            index as int,
        ) == torches,
        index >= torches.len() && torches.len() >= 1 ==> torch_removal_error(torches, index)
            == Some(
            ErrorView::InvalidParameter {
                parameter: "torch index"@,
                value: decimal(index),
                range: "0 to "@ + decimal((torches.len() - 1) as nat),
            },
        ),
        index >= torches.len() && torches.len() == 0 ==> torch_removal_error(torches, index)
            == Some(
            ErrorView::InvalidParameter {
                parameter: "torch index"@,
                value: decimal(index),
                range: "0 to "@ + decimal(0),
            },
        ),
        index < torches.len() && torches.len() == 1 ==> torch_removal_error(torches, index)
            == Some(
            ErrorView::InvalidParameter {
                parameter: "torch removal"@,
                value: "last torch"@,
                range: "at least 1 torch must remain"@,
            },
        ),
{
}

/// A physics model never loses its last torch: a removal request leaves a
/// non-empty torch list non-empty, and shortens it by at most one torch.
pub proof fn law_removal_keeps_a_torch<T>(torches: Seq<T>, index: int)
    requires
        torches.len() >= 1,
    ensures
        torches_after_removal(torches, index).len() >= 1,
        torches_after_removal(torches, index).len() + 1 >= torches.len(),
{
}

/// A removal keeps the other torches in their order: those before the
/// position stay put and those after it move down by one.
pub proof fn law_removal_keeps_order<T>(torches: Seq<T>, index: int)
    requires
        0 <= index < torches.len(),
        torches.len() > 1,
    ensures
        forall|k: int|
            0 <= k < index ==> #[trigger] torches_after_removal(torches, index)[k] == torches[k],
        forall|k: int|
            index <= k < torches.len() - 1 ==> #[trigger] torches_after_removal(torches, index)[k]
                == torches[k + 1],
{
}

} // verus!
