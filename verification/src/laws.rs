//! Laws of the ledger: properties that hold across operations.
//!
//! Each law is stated over the spec-level transitions of
//! [`crate::contract`], which the executable operations are proved to
//! implement exactly.

use crate::contract::ContractError;
use crate::contract::IssueOutcomeView;
use crate::contract::IssueState;
use crate::contract::LedgerView;
use crate::contract::spec_deposit_rewards;
use crate::contract::spec_issue_callback;
use crate::contract::spec_issue_certificate;
use crate::contract::spec_issue_token;
use crate::contract::spec_register_user;
use crate::contract::spec_set_rewards_token_identifier;
use crate::token::valid_token_id;
use vstd::prelude::*;

verus! {

/// Two deposits of the configured reward token both succeed, and the
/// available balance afterwards is the original plus both amounts.
pub proof fn lemma_deposits_accumulate(v: LedgerView, a1: nat, a2: nat)
    ensures
        ({
            let s1 = spec_deposit_rewards(v, v.owner, v.edu_token, a1);
            let s2 = spec_deposit_rewards(s1.0, v.owner, v.edu_token, a2);
            &&& s1.1 == Ok::<(), ContractError>(())
            &&& s2.1 == Ok::<(), ContractError>(())
            &&& s2.0.available_rewards == v.available_rewards + a1 + a2
        }),
{
}

/// A deposit whose token identifier does not match the configured
/// reward token is rejected as the wrong token and leaves the whole
/// state, the available balance included, unchanged.
pub proof fn lemma_deposit_wrong_token(v: LedgerView, payment_token: Seq<u8>, amount: nat)
    requires
        payment_token != v.edu_token,
    ensures
        spec_deposit_rewards(v, v.owner, payment_token, amount).0 == v,
        spec_deposit_rewards(v, v.owner, payment_token, amount).1 == Err::<(), ContractError>(
            ContractError::WrongToken,
        ),
{
}

/// While the collection identifier is empty, minting a certificate or
/// a user record fails because no token was issued, and no nonce is
/// assigned: the state, the record list included, is unchanged.
pub proof fn lemma_mint_before_issuance_fails(
    v: LedgerView,
    token_name: Seq<u8>,
    student_name: Seq<u8>,
    program_name: Seq<u8>,
    grade: u16,
    credit_points: u16,
    expiration_timestamp: u64,
    name: Seq<u8>,
    user: u64,
    now: u64,
    destination_accepts: bool,
)
    requires
        v.nft_token_id.len() == 0,
    ensures
        spec_issue_certificate(
            v,
            v.owner,
            token_name,
            student_name,
            program_name,
            grade,
            credit_points,
            expiration_timestamp,
            now,
        ) == (v, Err::<u64, ContractError>(ContractError::TokenNotIssued)),
        spec_register_user(v, v.owner, name, user, now, destination_accepts) == (
            v,
            Err::<u64, ContractError>(ContractError::TokenNotIssued),
        ),
{
}

/// Two sequential successful certificate mints under the same set
/// collection identifier return strictly increasing, distinct nonces.
pub proof fn lemma_sequential_mints_increase(
    v: LedgerView,
    token_name: Seq<u8>,
    student_name: Seq<u8>,
    program_name: Seq<u8>,
    grade: u16,
    credit_points: u16,
    expiration_timestamp: u64,
    now: u64,
)
    requires
        v.nft_token_id.len() > 0,
        v.next_nonce + 2 <= u64::MAX,
    ensures
        ({
            let s1 = spec_issue_certificate(
                v,
                v.owner,
                token_name,
                student_name,
                program_name,
                grade,
                credit_points,
                expiration_timestamp,
                now,
            );
            let s2 = spec_issue_certificate(
                s1.0,
                v.owner,
                token_name,
                student_name,
                program_name,
                grade,
                credit_points,
                expiration_timestamp,
                now,
            );
            &&& s1.1 == Ok::<u64, ContractError>(((v.next_nonce + 1) as u64))
            &&& s2.1 == Ok::<u64, ContractError>(((v.next_nonce + 2) as u64))
            &&& ((v.next_nonce + 1) as u64) < ((v.next_nonce + 2) as u64)
        }),
{
}

/// A successful certificate mint followed by a successful user
/// registration also returns strictly increasing, distinct nonces:
/// both kinds of record draw from the same counter.
pub proof fn lemma_sequential_mixed_mints_increase(
    v: LedgerView,
    token_name: Seq<u8>,
    student_name: Seq<u8>,
    program_name: Seq<u8>,
    grade: u16,
    credit_points: u16,
    expiration_timestamp: u64,
    name: Seq<u8>,
    user: u64,
    now: u64,
)
    requires
        v.nft_token_id.len() > 0,
        v.next_nonce + 2 <= u64::MAX,
    ensures
        ({
            let s1 = spec_issue_certificate(
                v,
                v.owner,
                token_name,
                student_name,
                program_name,
                grade,
                credit_points,
                expiration_timestamp,
                now,
            );
            let s2 = spec_register_user(s1.0, v.owner, name, user, now, true);
            &&& s1.1 == Ok::<u64, ContractError>(((v.next_nonce + 1) as u64))
            &&& s2.1 == Ok::<u64, ContractError>(((v.next_nonce + 2) as u64))
            &&& ((v.next_nonce + 1) as u64) < ((v.next_nonce + 2) as u64)
        }),
{
}

/// A deposit never decreases the available balance, whatever its
/// outcome: the balance is unchanged on every rejection and grows by
/// the amount on acceptance.
pub proof fn lemma_deposit_never_decreases(
    v: LedgerView,
    caller: u64,
    payment_token: Seq<u8>,
    amount: nat,
)
    ensures
        spec_deposit_rewards(v, caller, payment_token, amount).0.available_rewards
            >= v.available_rewards,
{
}

/// An issuance request is accepted only in the unissued state.
pub proof fn lemma_issue_token_only_when_unissued(v: LedgerView, payment: nat)
    ensures
        spec_issue_token(v, payment) is Ok ==> v.issue_state() is Unissued,
{
}

/// After a successful issuance callback the state is issued, and a
/// repeated issuance request fails as already issued.
pub proof fn lemma_reissue_after_success_fails(v: LedgerView, token_id: Seq<u8>, payment: nat)
    requires
        token_id.len() > 0,
    ensures
        ({
            let v1 = spec_issue_callback(v, IssueOutcomeView::Success { token_id }).0;
            &&& v1.issue_state() is Issued
            &&& spec_issue_token(v1, payment) == Err::<(), ContractError>(
                ContractError::AlreadyIssued,
            )
        }),
{
}

/// A failing issuance callback that reports a positive refundable
/// native-currency amount forwards exactly that amount back, and the
/// state — the collection identifier included — is unchanged.
pub proof fn lemma_failed_issuance_refunds(v: LedgerView, amount: nat)
    requires
        amount > 0,
    ensures
        spec_issue_callback(v, IssueOutcomeView::Failure { native: true, amount }).1 == amount,
        spec_issue_callback(v, IssueOutcomeView::Failure { native: true, amount }).0 == v,
{
}

/// Once the collection identifier is set it is never cleared: no
/// operation rewrites it except an issuance callback, and a callback
/// leaves it non-empty — a failing one keeps the state, a successful
/// one carries a non-empty identifier.
pub proof fn lemma_identifier_never_cleared(
    v: LedgerView,
    caller: u64,
    token_name: Seq<u8>,
    student_name: Seq<u8>,
    program_name: Seq<u8>,
    grade: u16,
    credit_points: u16,
    expiration_timestamp: u64,
    name: Seq<u8>,
    user: u64,
    now: u64,
    destination_accepts: bool,
    payment_token: Seq<u8>,
    amount: nat,
    token_identifier: Seq<u8>,
    outcome: IssueOutcomeView,
)
    requires
        v.nft_token_id.len() > 0,
        outcome matches IssueOutcomeView::Success { token_id } ==> token_id.len() > 0,
    ensures
        spec_issue_certificate(
            v,
            caller,
            token_name,
            student_name,
            program_name,
            grade,
            credit_points,
            expiration_timestamp,
            now,
        ).0.nft_token_id == v.nft_token_id,
        spec_register_user(v, caller, name, user, now, destination_accepts).0.nft_token_id
            == v.nft_token_id,
        spec_deposit_rewards(v, caller, payment_token, amount).0.nft_token_id == v.nft_token_id,
        spec_set_rewards_token_identifier(v, caller, token_identifier).0.nft_token_id
            == v.nft_token_id,
        spec_issue_callback(v, outcome).0.nft_token_id.len() > 0,
{
}

/// A syntactically invalid reward-token identifier is rejected and
/// the configured identifier is unchanged.
pub proof fn lemma_invalid_identifier_rejected(v: LedgerView, token_identifier: Seq<u8>)
    requires
        !valid_token_id(token_identifier),
    ensures
        spec_set_rewards_token_identifier(v, v.owner, token_identifier).0 == v,
        spec_set_rewards_token_identifier(v, v.owner, token_identifier).1 == Err::<
            (),
            ContractError,
        >(ContractError::InvalidTokenIdentifier),
{
}

} // verus!
