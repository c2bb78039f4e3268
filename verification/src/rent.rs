//! Keeping accounts rent-exempt.
use vstd::prelude::*;

verus! {

/// The lamports an account holding `lamports` must receive to reach
/// `minimum_balance`, or none when it already holds enough.
pub fn minimum_balance_top_up(minimum_balance: u64, lamports: u64) -> (r: Option<u64>)
    ensures
        minimum_balance > lamports ==> r == Some((minimum_balance - lamports) as u64),
        minimum_balance <= lamports ==> r is None,
{
    let extra_lamports_needed = minimum_balance.saturating_sub(lamports);
    if extra_lamports_needed > 0 {
        Some(extra_lamports_needed)
    } else {
        None
    }
}

} // verus!
