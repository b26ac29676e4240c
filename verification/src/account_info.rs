//! Accounts as the program sees them: an address, an owner, a balance, a few
//! flags and a byte buffer that the program may rewrite.

use vstd::prelude::*;

verus! {

/// Number of bytes in an address.
pub const PUBKEY_LEN: usize = 32;

/// The address of an account or of a program.
#[derive(Clone, Copy, Debug, Default, Eq)]
pub struct Pubkey {
    pub bytes: [u8; 32],
}

impl View for Pubkey {
    type V = Seq<u8>;

    open spec fn view(&self) -> Seq<u8> {
        self.bytes@
    }
}

impl PartialEq for Pubkey {
    /// Two addresses are equal when all their bytes are.
    fn eq(&self, other: &Pubkey) -> (equal: bool) {
        let mut i: usize = 0;
        while i < PUBKEY_LEN
            invariant
                i <= PUBKEY_LEN,
                forall|j: int| 0 <= j < i ==> self.bytes@[j] == other.bytes@[j],
            decreases PUBKEY_LEN - i,
        {
            if self.bytes[i] != other.bytes[i] {
                return false;
            }
            i += 1;
        }
        assert(self.bytes@ =~= other.bytes@);
        true
    }
}

impl vstd::std_specs::cmp::PartialEqSpecImpl for Pubkey {
    open spec fn obeys_eq_spec() -> bool {
        true
    }

    open spec fn eq_spec(&self, other: &Pubkey) -> bool {
        self@ == other@
    }
}

/// What is known of one account during a call.
#[derive(Debug, PartialEq, Eq)]
pub struct AccountInfo {
    /// Address of the account.
    pub key: Pubkey,
    /// Whether the transaction was signed with this account's key.
    pub is_signer: bool,
    /// Whether the program may change the account.
    pub is_writable: bool,
    /// Balance of the account.
    pub lamports: u64,
    /// The bytes that the account stores.
    pub data: Vec<u8>,
    /// Address of the program that owns the account.
    pub owner: Pubkey,
    /// Whether the account holds a loaded program.
    pub executable: bool,
}

/// The mathematical value of an [`AccountInfo`].
pub struct AccountState {
    pub key: Seq<u8>,
    pub is_signer: bool,
    pub is_writable: bool,
    pub lamports: u64,
    pub data: Seq<u8>,
    pub owner: Seq<u8>,
    pub executable: bool,
}

impl View for AccountInfo {
    type V = AccountState;

    open spec fn view(&self) -> AccountState {
        AccountState {
            key: self.key@,
            is_signer: self.is_signer,
            is_writable: self.is_writable,
            lamports: self.lamports,
            data: self.data@,
            owner: self.owner@,
            executable: self.executable,
        }
    }
}

impl Clone for AccountInfo {
    /// A second account with the same value.
    fn clone(&self) -> (copy: AccountInfo)
        ensures
            copy@ == self@,
    {
        AccountInfo {
            key: self.key,
            is_signer: self.is_signer,
            is_writable: self.is_writable,
            lamports: self.lamports,
            data: self.data.clone(),
            owner: self.owner,
            executable: self.executable,
        }
    }
}

impl AccountInfo {
    /// Puts an account together from its parts.
    pub fn new(
        key: Pubkey,
        is_signer: bool,
        is_writable: bool,
        lamports: u64,
        data: Vec<u8>,
        owner: Pubkey,
        executable: bool,
    ) -> (account: AccountInfo)
        ensures
            account@ == (AccountState {
                key: key@,
                is_signer,
                is_writable,
                lamports,
                data: data@,
                owner: owner@,
                executable,
            }),
    {
        AccountInfo { key, is_signer, is_writable, lamports, data, owner, executable }
    }
}

/// The values of a sequence of accounts, in the same order.
pub open spec fn states(accounts: Seq<AccountInfo>) -> Seq<AccountState> {
    accounts.map_values(|account: AccountInfo| account@)
}

} // verus!
