use vstd::prelude::*;
use crate::identity::Identity;

verus! {

/// The program-wide administrator record.
#[derive(Clone, Copy, Debug)]
pub struct AdminSettings {
    pub bump: u8,
    /// The identity allowed to create pools, change managers and maintain
    /// the allow-list.
    pub admin_key: Identity,
}

impl AdminSettings {
    /// Whether `authority` is the recorded administrator.
    pub open spec fn admits(self, authority: Identity) -> bool {
        self.admin_key.matches_key(authority)
    }

    /// Checks that `authority` is the recorded administrator.
    pub fn is_admin(&self, authority: &Identity) -> (r: bool)
        ensures
            r == self.admits(*authority),
    {
        self.admin_key.same_as(authority)
    }
}

} // verus!
