//! The royalty transfer hook's extra accounts.
use vstd::prelude::*;

use crate::spl::ExtraAccountMeta;

verus! {

/// Accounts of adding royalties in the royalty transfer-hook program.
#[derive(Clone, Copy, Debug, PartialEq, Eq)]
pub struct AddRoyalties {}

impl AddRoyalties {
    /// The extra accounts the hook needs: none.
    pub fn extra_account_metas() -> (r: Vec<ExtraAccountMeta>)
        ensures
            r@.len() == 0,
    {
        Vec::new()
    }
}

} // verus!
