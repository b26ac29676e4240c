//! The instruction handler.

use crate::account::Account;
use crate::account_info::{states, AccountInfo, AccountState, Pubkey};
use crate::error::ErrorKind;
use vstd::prelude::*;

verus! {

/// Whether the handler asks that the account belongs to the invoked program
/// before it rewrites the account.
#[derive(Clone, Copy, Debug, PartialEq, Eq, Structural)]
pub enum OwnerPolicy {
    /// Any account is accepted, whoever owns it.
    Unchecked,
    /// The account must be owned by the invoked program.
    Enforced,
}

/// What one instruction does to the accounts it is given, or the reason why
/// it is refused: the first account's record is counted up by one and all
/// else stays as it is.
pub open spec fn instruction_outcome(
    policy: OwnerPolicy,
    program_id: Seq<u8>,
    accounts: Seq<AccountState>,
) -> Result<Seq<AccountState>, ErrorKind> {
    if accounts.len() == 0 {
        Err(ErrorKind::MissingAccount)
    } else if policy == OwnerPolicy::Enforced && accounts[0].owner != program_id {
        Err(ErrorKind::IncorrectOwner)
    } else {
        match Account::decode(accounts[0].data) {
            None => Err(ErrorKind::DeserializationError),
            Some(record) => Ok(
                accounts.update(
                    0,
                    AccountState { data: record.incremented().encode(), ..accounts[0] },
                ),
            ),
        }
    }
}

/// A call on a first account that holds a record, under a policy that lets
/// the account pass, is accepted and stores the record counted up by one:
/// the counter grows by one, and from `u32::MAX` it goes to zero. All other
/// accounts, and all else in the first one, stay as they are.
pub proof fn lemma_call_counts_up(
    policy: OwnerPolicy,
    program_id: Seq<u8>,
    accounts: Seq<AccountState>,
    record: Account,
)
    requires
        accounts.len() > 0,
        Account::decode(accounts[0].data) == Some(record),
        policy == OwnerPolicy::Enforced ==> accounts[0].owner == program_id,
    ensures
        instruction_outcome(policy, program_id, accounts) matches Ok(after) && {
            &&& after == accounts.update(0, AccountState { data: after[0].data, ..accounts[0] })
            &&& Account::decode(after[0].data) == Some(record.incremented())
            &&& record.counter < u32::MAX ==> record.incremented().counter == record.counter + 1
            &&& record.counter == u32::MAX ==> record.incremented().counter == 0
        },
{
    record.incremented().lemma_decode_encode();
}

/// Calls add up: two calls in a row store the record counted up twice, which
/// is never what one call stores.
pub proof fn lemma_two_calls_count_twice(
    policy: OwnerPolicy,
    program_id: Seq<u8>,
    accounts: Seq<AccountState>,
    record: Account,
)
    requires
        accounts.len() > 0,
        Account::decode(accounts[0].data) == Some(record),
        policy == OwnerPolicy::Enforced ==> accounts[0].owner == program_id,
    ensures
        instruction_outcome(policy, program_id, accounts) matches Ok(once)
            && instruction_outcome(policy, program_id, once) matches Ok(twice) && {
            &&& Account::decode(twice[0].data) == Some(record.incremented().incremented())
            &&& record.incremented().incremented().counter == (record.counter + 2) % 0x1_0000_0000
            &&& twice[0].data != once[0].data
            &&& twice != once
        },
{
    let next = record.incremented();
    lemma_call_counts_up(policy, program_id, accounts, record);
    let once = instruction_outcome(policy, program_id, accounts)->Ok_0;
    lemma_call_counts_up(policy, program_id, once, next);
    let twice = instruction_outcome(policy, program_id, once)->Ok_0;
    next.lemma_incremented();
    next.incremented().lemma_decode_encode();
    next.lemma_decode_encode();
}

/// Checking the owner only adds refusals: where the first account is owned
/// by the invoked program, or the call names no account, both policies give
/// the same outcome; elsewhere the checking one reports the owner.
pub proof fn lemma_policies_agree(program_id: Seq<u8>, accounts: Seq<AccountState>)
    ensures
        accounts.len() == 0 || accounts[0].owner == program_id ==> instruction_outcome(
            OwnerPolicy::Enforced,
            program_id,
            accounts,
        ) == instruction_outcome(OwnerPolicy::Unchecked, program_id, accounts),
        accounts.len() > 0 && accounts[0].owner != program_id ==> instruction_outcome(
            OwnerPolicy::Enforced,
            program_id,
            accounts,
        ) == Err::<Seq<AccountState>, ErrorKind>(ErrorKind::IncorrectOwner),
        !(instruction_outcome(OwnerPolicy::Unchecked, program_id, accounts) matches Err(
            ErrorKind::IncorrectOwner,
        )),
{
}

/// Handles one instruction under the given owner policy: as
/// [`process_instruction`] does, but where the policy is
/// [`OwnerPolicy::Enforced`] an account that the invoked program does not own
/// is refused before its buffer is read. The instruction data is ignored.
pub fn process_instruction_with_policy(
    policy: OwnerPolicy,
    program_id: &Pubkey,
    accounts: &mut [AccountInfo],
    _instruction_data: &[u8],
) -> (outcome: Result<(), ErrorKind>)
    ensures
        final(accounts)@.len() == old(accounts)@.len(),
        match instruction_outcome(policy, program_id@, states(old(accounts)@)) {
            Ok(after) => outcome is Ok && states(final(accounts)@) == after,
            Err(e) => outcome == Err::<(), ErrorKind>(e) && states(final(accounts)@) == states(
                old(accounts)@,
            ),
        },
{
    if accounts.len() == 0 {
        return Err(ErrorKind::MissingAccount);
    }
    let account = &mut accounts[0];
    if policy == OwnerPolicy::Enforced && account.owner != *program_id {
        return Err(ErrorKind::IncorrectOwner);
    }
    let mut record = match Account::try_from_slice(account.data.as_slice()) {
        Ok(record) => record,
        Err(e) => {
            return Err(e);
        },
    };
    record.increment();
    match record.serialize(account.data.as_mut_slice()) {
        Ok(()) => Ok(()),
        Err(e) => Err(e),
    }
}

/// Handles one instruction: counts the record of the first account up by one.
///
/// The owner of the account is not looked at, and neither is the instruction
/// data. A refused call leaves every account as it was.
pub fn process_instruction(
    program_id: &Pubkey,
    accounts: &mut [AccountInfo],
    instruction_data: &[u8],
) -> (outcome: Result<(), ErrorKind>)
    ensures
        final(accounts)@.len() == old(accounts)@.len(),
        forall|i: int|
            1 <= i < old(accounts)@.len() ==> (#[trigger] final(accounts)@[i])@ == old(
                accounts,
            )@[i]@,
        match outcome {
            Ok(()) => {
                &&& old(accounts)@.len() > 0
                &&& Account::decode(old(accounts)@[0].data@) matches Some(record)
                &&& final(accounts)@[0]@ == (AccountState {
                    data: record.incremented().encode(),
                    ..old(accounts)@[0]@
                })
                &&& Account::decode(final(accounts)@[0].data@) == Some(record.incremented())
            },
            Err(e) => {
                &&& states(final(accounts)@) == states(old(accounts)@)
                &&& e == ErrorKind::MissingAccount <==> old(accounts)@.len() == 0
                &&& e == ErrorKind::DeserializationError <==> old(accounts)@.len() > 0
                &&& old(accounts)@.len() > 0 ==> Account::decode(old(accounts)@[0].data@) is None
            },
        },
        match instruction_outcome(OwnerPolicy::Unchecked, program_id@, states(old(accounts)@)) {
            Ok(after) => outcome is Ok && states(final(accounts)@) == after,
            Err(e) => outcome == Err::<(), ErrorKind>(e),
        },
{
    let outcome = process_instruction_with_policy(
        OwnerPolicy::Unchecked,
        program_id,
        accounts,
        instruction_data,
    );
    proof {
        let before = states(old(accounts)@);
        let after = states(accounts@);
        assert forall|i: int| 0 <= i < accounts@.len() implies (#[trigger] accounts@[i])@
            == after[i] && old(accounts)@[i]@ == before[i] by {}
        if let Some(record) = Account::decode(before[0].data) {
            record.incremented().lemma_decode_encode();
        }
    }
    outcome
}

} // verus!
