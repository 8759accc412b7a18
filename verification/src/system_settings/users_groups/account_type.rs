//! The two kinds of account.
use vstd::prelude::*;

verus! {

/// Whether an account may administer the system.
#[derive(Debug, Clone, Copy, PartialEq, Eq, Structural)]
pub enum AccountType {
    User,
    Admin,
}

impl AccountType {
    /// Every kind of account.
    pub fn all() -> (kinds: Vec<AccountType>)
        ensures
            kinds@ == seq![AccountType::User, AccountType::Admin],
    {
        let mut kinds: Vec<AccountType> = Vec::new();
        kinds.push(AccountType::User);
        kinds.push(AccountType::Admin);
        assert(kinds@ =~= seq![AccountType::User, AccountType::Admin]);
        kinds
    }

    /// The kind in words.
    pub fn name(&self) -> (text: String)
        ensures
            text@ == match *self {
                AccountType::User => "User"@,
                AccountType::Admin => "Admin"@,
            },
    {
        match self {
            AccountType::User => "User".to_owned(),
            AccountType::Admin => "Admin".to_owned(),
        }
    }
}

impl Default for AccountType {
    fn default() -> (kind: AccountType)
        ensures
            kind == AccountType::User,
    {
        AccountType::User
    }
}

} // verus!
