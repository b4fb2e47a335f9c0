//! The registry of users.

use crate::ident::{fresh_id, is_random_uuid};
use crate::models::{User, UserRole};
use vstd::prelude::*;

verus! {

/// Registers users.  Storing them is left to the caller.
pub struct UserManager;

impl UserManager {
    pub fn new() -> (manager: UserManager) {
        UserManager
    }

    /// Makes the record of a new user under a fresh identifier.  Any name
    /// is accepted, also one that is already taken.  The caller stores the
    /// user that comes back; its `id` is the identifier of the new user.
    pub fn register_user(&self, name: String, role: UserRole) -> (user: User)
        ensures
            user@.name == name@,
            user@.role == role,
            is_random_uuid(user.id),
    {
        let id: u128 = fresh_id();
        User { id, name, role }
    }
}

impl User {
    /// Whether the user may open loans and sweep for overdue ones: lenders
    /// may, borrowers may not.
    pub open spec fn spec_can_create_loan(&self) -> bool {
        self.role == UserRole::Lender
    }

    /// Whether the user may open loans and sweep for overdue ones.
    pub fn can_create_loan(&self) -> (allowed: bool)
        ensures
            allowed == self.spec_can_create_loan(),
    {
        match self.role {
            UserRole::Lender => true,
            UserRole::Borrower => false,
        }
    }

    /// A copy of the user.
    pub fn duplicate(&self) -> (copy: User)
        ensures
            copy@ == self@,
    {
        User { id: self.id, name: self.name.clone(), role: self.role }
    }
}

} // verus!
