//! The ledger contract: persistent state, validation rules, and the
//! asynchronous token-issuance state machine.
//!
//! Every operation is a function from the current state and the call's
//! plain-value context (caller, payment, block timestamp) to the next
//! state and a result.  Operations that would suspend on the platform
//! return an explicit request value instead; the caller performs the
//! request and feeds the authority's response back through
//! [`EduChain::issue_callback`].

use crate::crypto::sha256_of;
use crate::crypto::sha256_bytes;
use crate::rewards::RewardBalance;
use crate::token::is_valid_esdt_identifier;
use crate::token::valid_token_id;
use crate::NFT_AMOUNT;
use vstd::prelude::*;

verus! {

/// The named reasons on which an operation aborts.
#[derive(Clone, Copy, Debug, PartialEq, Eq, Structural)]
pub enum ContractError {
    /// The caller of an owner-only operation is not the owner.
    Unauthorized,
    /// The attached payment does not match the operation's expectation.
    InvalidPayment,
    /// A deposited token is not the configured reward token.
    WrongToken,
    /// A mint was attempted before the collection identifier exists.
    TokenNotIssued,
    /// A second issuance was attempted after one succeeded.
    AlreadyIssued,
    /// A malformed token identifier was supplied.
    InvalidTokenIdentifier,
    /// The destination account cannot receive the minted record.
    TransferFailed,
}

/// Attributes attached to a minted certificate record.
pub struct CertificateAttributes {
    pub name: Vec<u8>,
    pub program_name: Vec<u8>,
    pub grade: u16,
    pub credit_points: u16,
    pub creation_timestamp: u64,
    pub expiration_timestamp: u64,
}

/// Attributes attached to a minted user record.
#[derive(Clone, Copy, Debug, PartialEq, Eq, Structural)]
pub struct UserAttributes {
    pub creation_timestamp: u64,
}

/// The mathematical value of certificate attributes.
#[verifier::ext_equal]
pub struct CertificateAttributesView {
    pub name: Seq<u8>,
    pub program_name: Seq<u8>,
    pub grade: u16,
    pub credit_points: u16,
    pub creation_timestamp: u64,
    pub expiration_timestamp: u64,
}

impl View for CertificateAttributes {
    type V = CertificateAttributesView;

    open spec fn view(&self) -> CertificateAttributesView {
        CertificateAttributesView {
            name: self.name@,
            program_name: self.program_name@,
            grade: self.grade,
            credit_points: self.credit_points,
            creation_timestamp: self.creation_timestamp,
            expiration_timestamp: self.expiration_timestamp,
        }
    }
}

/// The attributes carried by a minted record.
pub enum NftAttributes {
    Certificate(CertificateAttributes),
    User(UserAttributes),
}

/// The mathematical value of minted-record attributes.
#[verifier::ext_equal]
pub enum NftAttributesView {
    Certificate(CertificateAttributesView),
    User(UserAttributes),
}

impl View for NftAttributes {
    type V = NftAttributesView;

    open spec fn view(&self) -> NftAttributesView {
        match self {
            NftAttributes::Certificate(c) => NftAttributesView::Certificate(c@),
            NftAttributes::User(u) => NftAttributesView::User(*u),
        }
    }
}

/// Who holds a minted record.
#[derive(Clone, Copy, Debug, PartialEq, Eq, Structural)]
pub enum Holder {
    /// The record stayed with the contract's own account.
    Contract,
    /// The record was transferred to this account.
    Account(u64),
}

/// One unit minted under the contract's collection identifier.
pub struct MintedNft {
    pub nonce: u64,
    pub display_name: Vec<u8>,
    pub amount: u32,
    pub attributes_hash: Vec<u8>,
    pub attributes: NftAttributes,
    pub holder: Holder,
}

/// The mathematical value of a minted record.
#[verifier::ext_equal]
pub struct MintedNftView {
    pub nonce: nat,
    pub display_name: Seq<u8>,
    pub amount: u32,
    pub attributes_hash: Seq<u8>,
    pub attributes: NftAttributesView,
    pub holder: Holder,
}

impl View for MintedNft {
    type V = MintedNftView;

    open spec fn view(&self) -> MintedNftView {
        MintedNftView {
            nonce: self.nonce as nat,
            display_name: self.display_name@,
            amount: self.amount,
            attributes_hash: self.attributes_hash@,
            attributes: self.attributes@,
            holder: self.holder,
        }
    }
}

/// The property flags requested for the new collection.
#[derive(Clone, Copy, Debug, PartialEq, Eq, Structural)]
pub struct TokenProperties {
    pub can_freeze: bool,
    pub can_wipe: bool,
    pub can_pause: bool,
    pub can_transfer_create_role: bool,
    pub can_change_owner: bool,
    pub can_upgrade: bool,
    pub can_add_special_roles: bool,
}

/// The fixed property set every issuance request carries.
pub open spec fn issued_token_properties() -> TokenProperties {
    TokenProperties {
        can_freeze: true,
        can_wipe: true,
        can_pause: true,
        can_transfer_create_role: true,
        can_change_owner: false,
        can_upgrade: false,
        can_add_special_roles: true,
    }
}

/// A non-fungible-token creation request, to be forwarded to the
/// platform's token-issuing authority together with the escrowed
/// native-currency payment.
pub struct IssueTokenRequest {
    pub token_name: Vec<u8>,
    pub token_ticker: Vec<u8>,
    pub payment: u128,
    pub properties: TokenProperties,
}

/// A local role the contract can ask the platform to grant.
#[derive(Clone, Copy, Debug, PartialEq, Eq, Structural)]
pub enum LocalRole {
    /// Permission to mint units under a collection identifier.
    NftCreate,
}

/// A role-granting request on the contract's own account.
pub struct SetRolesRequest {
    pub token_id: Vec<u8>,
    pub role: LocalRole,
}

/// The authority's response to an issuance request.
pub enum IssueOutcome {
    /// The newly assigned collection identifier.
    Success(Vec<u8>),
    /// The request failed; the response carried this payment back.
    Failure(ReturnedPayment),
}

/// The payment attached to a failing issuance response.
pub struct ReturnedPayment {
    /// Whether the returned asset is the chain's native currency.
    pub native: bool,
    pub amount: u128,
}

/// The mathematical value of an issuance response.
#[verifier::ext_equal]
pub enum IssueOutcomeView {
    Success { token_id: Seq<u8> },
    Failure { native: bool, amount: nat },
}

impl View for IssueOutcome {
    type V = IssueOutcomeView;

    open spec fn view(&self) -> IssueOutcomeView {
        match self {
            IssueOutcome::Success(id) => IssueOutcomeView::Success { token_id: id@ },
            IssueOutcome::Failure(p) => IssueOutcomeView::Failure {
                native: p.native,
                amount: p.amount as nat,
            },
        }
    }
}

/// The issuance state machine's observable states.
pub enum IssueState {
    /// No collection identifier exists; issuance may be requested.
    Unissued,
    /// The collection identifier is set; mints are possible.
    Issued,
}

/// The contract's persistent state, as mathematics.
#[verifier::ext_equal]
pub struct LedgerView {
    pub owner: u64,
    pub nft_token_id: Seq<u8>,
    pub edu_token: Seq<u8>,
    pub available_rewards: nat,
    pub next_nonce: nat,
    pub minted: Seq<MintedNftView>,
}

impl LedgerView {
    /// Well-formedness: the nonce counter equals the number of minted
    /// records, and record `i` carries nonce `i + 1`.
    pub open spec fn wf(self) -> bool {
        &&& self.next_nonce == self.minted.len()
        &&& forall|i: int|
            0 <= i < self.minted.len() ==> (#[trigger] self.minted[i]).nonce == i + 1
    }

    /// The observable state of the issuance state machine: the
    /// identifier is either absent or set.  A request that is still
    /// pending leaves the observable state unchanged.
    pub open spec fn issue_state(self) -> IssueState {
        if self.nft_token_id.len() == 0 {
            IssueState::Unissued
        } else {
            IssueState::Issued
        }
    }
}

/// The record minted for a certificate.
pub open spec fn spec_certificate_record(
    v: LedgerView,
    token_name: Seq<u8>,
    student_name: Seq<u8>,
    program_name: Seq<u8>,
    grade: u16,
    credit_points: u16,
    expiration_timestamp: u64,
    now: u64,
) -> MintedNftView {
    MintedNftView {
        nonce: v.next_nonce + 1,
        display_name: token_name,
        amount: 1,
        attributes_hash: sha256_of(Seq::<u8>::empty()),
        attributes: NftAttributesView::Certificate(
            CertificateAttributesView {
                name: student_name,
                program_name: program_name,
                grade: grade,
                credit_points: credit_points,
                creation_timestamp: now,
                expiration_timestamp: expiration_timestamp,
            },
        ),
        holder: Holder::Contract,
    }
}

/// What `issue_certificate` decides and changes.
pub open spec fn spec_issue_certificate(
    v: LedgerView,
    caller: u64,
    token_name: Seq<u8>,
    student_name: Seq<u8>,
    program_name: Seq<u8>,
    grade: u16,
    credit_points: u16,
    expiration_timestamp: u64,
    now: u64,
) -> (LedgerView, Result<u64, ContractError>) {
    if caller != v.owner {
        (v, Err(ContractError::Unauthorized))
    } else if v.nft_token_id.len() == 0 {
        (v, Err(ContractError::TokenNotIssued))
    } else {
        let record = spec_certificate_record(
            v,
            token_name,
            student_name,
            program_name,
            grade,
            credit_points,
            expiration_timestamp,
            now,
        );
        (
            LedgerView { next_nonce: v.next_nonce + 1, minted: v.minted.push(record), ..v },
            Ok(((v.next_nonce + 1) as u64)),
        )
    }
}

/// The record minted for a registered user.
pub open spec fn spec_user_record(v: LedgerView, name: Seq<u8>, user: u64, now: u64) -> MintedNftView {
    MintedNftView {
        nonce: v.next_nonce + 1,
        display_name: name,
        amount: 1,
        attributes_hash: sha256_of(Seq::<u8>::empty()),
        attributes: NftAttributesView::User(UserAttributes { creation_timestamp: now }),
        holder: Holder::Account(user),
    }
}

/// What `register_user` decides and changes.  `destination_accepts`
/// is the platform's verdict on whether `user` can receive the minted
/// record; a refused transfer aborts the whole call, so the mint is
/// rolled back with it.
pub open spec fn spec_register_user(
    v: LedgerView,
    caller: u64,
    name: Seq<u8>,
    user: u64,
    now: u64,
    destination_accepts: bool,
) -> (LedgerView, Result<u64, ContractError>) {
    if caller != v.owner {
        (v, Err(ContractError::Unauthorized))
    } else if v.nft_token_id.len() == 0 {
        (v, Err(ContractError::TokenNotIssued))
    } else if !destination_accepts {
        (v, Err(ContractError::TransferFailed))
    } else {
        let record = spec_user_record(v, name, user, now);
        (
            LedgerView { next_nonce: v.next_nonce + 1, minted: v.minted.push(record), ..v },
            Ok(((v.next_nonce + 1) as u64)),
        )
    }
}

/// What `deposit_rewards` decides and changes.
pub open spec fn spec_deposit_rewards(
    v: LedgerView,
    caller: u64,
    payment_token: Seq<u8>,
    amount: nat,
) -> (LedgerView, Result<(), ContractError>) {
    if caller != v.owner {
        (v, Err(ContractError::Unauthorized))
    } else if payment_token != v.edu_token {
        (v, Err(ContractError::WrongToken))
    } else {
        (LedgerView { available_rewards: v.available_rewards + amount, ..v }, Ok(()))
    }
}

/// What `set_rewards_token_identifier` decides and changes.
pub open spec fn spec_set_rewards_token_identifier(
    v: LedgerView,
    caller: u64,
    token_identifier: Seq<u8>,
) -> (LedgerView, Result<(), ContractError>) {
    if caller != v.owner {
        (v, Err(ContractError::Unauthorized))
    } else if !valid_token_id(token_identifier) {
        (v, Err(ContractError::InvalidTokenIdentifier))
    } else {
        (LedgerView { edu_token: token_identifier, ..v }, Ok(()))
    }
}

/// What `issue_token` decides.  The state is unchanged either way:
/// on success the caller holds a request to forward, and the payment
/// stays in escrow with the platform until the callback resolves it.
pub open spec fn spec_issue_token(v: LedgerView, payment: nat) -> Result<(), ContractError> {
    if v.nft_token_id.len() != 0 {
        Err(ContractError::AlreadyIssued)
    } else if payment == 0 {
        Err(ContractError::InvalidPayment)
    } else {
        Ok(())
    }
}

/// What `issue_callback` decides and changes.  The second component
/// is the native-currency amount to forward back to the original
/// requester; zero means no refund is owed.
pub open spec fn spec_issue_callback(v: LedgerView, outcome: IssueOutcomeView) -> (
    LedgerView,
    nat,
) {
    match outcome {
        IssueOutcomeView::Success { token_id } => (
            LedgerView { nft_token_id: token_id, ..v },
            0,
        ),
        IssueOutcomeView::Failure { native, amount } => (
            v,
            if native && amount > 0 {
                amount
            } else {
                0
            },
        ),
    }
}

/// What `set_local_roles` decides.  The state is unchanged: the
/// role grant itself is performed by the platform authority and no
/// response is consumed.
pub open spec fn spec_set_local_roles(v: LedgerView, caller: u64) -> Result<(), ContractError> {
    if caller != v.owner {
        Err(ContractError::Unauthorized)
    } else if v.nft_token_id.len() == 0 {
        Err(ContractError::TokenNotIssued)
    } else {
        Ok(())
    }
}

/// Byte-string equality.
fn bytes_eq(a: &Vec<u8>, b: &Vec<u8>) -> (r: bool)
    ensures
        r == (a@ == b@),
{
    if a.len() != b.len() {
        return false;
    }
    let mut i: usize = 0;
    while i < a.len()
        invariant
            a@.len() == b@.len(),
            i <= a@.len(),
            forall|j: int| 0 <= j < i ==> a@[j] == b@[j],
        decreases a@.len() - i,
    {
        if a[i] != b[i] {
            return false;
        }
        i = i + 1;
    }
    proof {
        assert(a@ =~= b@);
    }
    true
}

/// The ledger contract's persistent state.
pub struct EduChain {
    owner: u64,
    nft_token_id: Vec<u8>,
    edu_token: Vec<u8>,
    available_rewards: RewardBalance,
    next_nonce: u64,
    minted: Vec<MintedNft>,
}

impl View for EduChain {
    type V = LedgerView;

    closed spec fn view(&self) -> LedgerView {
        LedgerView {
            owner: self.owner,
            nft_token_id: self.nft_token_id@,
            edu_token: self.edu_token@,
            available_rewards: self.available_rewards@,
            next_nonce: self.next_nonce as nat,
            minted: self.minted@.map_values(|m: MintedNft| m@),
        }
    }
}

impl EduChain {
    /// Deploys the contract: the deploying account becomes the owner,
    /// no identifiers are set, and the reward balance is zero.
    pub fn init(owner: u64) -> (r: EduChain)
        ensures
            r@ == (LedgerView {
                owner: owner,
                nft_token_id: Seq::<u8>::empty(),
                edu_token: Seq::<u8>::empty(),
                available_rewards: 0,
                next_nonce: 0,
                minted: Seq::<MintedNftView>::empty(),
            }),
            r@.wf(),
    {
        let r = EduChain {
            owner,
            nft_token_id: Vec::new(),
            edu_token: Vec::new(),
            available_rewards: RewardBalance::zero(),
            next_nonce: 0,
            minted: Vec::new(),
        };
        proof {
            assert(r.minted@.map_values(|m: MintedNft| m@) =~= Seq::<MintedNftView>::empty());
            assert(r@ =~~= (LedgerView {
                owner: owner,
                nft_token_id: Seq::<u8>::empty(),
                edu_token: Seq::<u8>::empty(),
                available_rewards: 0,
                next_nonce: 0,
                minted: Seq::<MintedNftView>::empty(),
            }));
        }
        r
    }

    /// Redeployment of the code: the persistent state is untouched.
    pub fn upgrade(&mut self)
        ensures
            final(self)@ == old(self)@,
    {
    }

    /// The collection identifier, empty until issuance succeeds.
    pub fn nft_token_id(&self) -> (r: &Vec<u8>)
        ensures
            r@ == self@.nft_token_id,
    {
        &self.nft_token_id
    }

    /// The configured reward-token identifier, empty until set.
    pub fn edu_token(&self) -> (r: &Vec<u8>)
        ensures
            r@ == self@.edu_token,
    {
        &self.edu_token
    }

    /// The running total of deposited rewards.
    pub fn available_rewards(&self) -> (r: &RewardBalance)
        ensures
            r@ == self@.available_rewards,
    {
        &self.available_rewards
    }

    /// The number of records minted so far.
    pub fn minted_count(&self) -> (r: usize)
        ensures
            r == self@.minted.len(),
    {
        self.minted.len()
    }

    /// The minted record at `index`.
    pub fn minted(&self, index: usize) -> (r: &MintedNft)
        requires
            index < self@.minted.len(),
        ensures
            r@ == self@.minted[index as int],
    {
        &self.minted[index]
    }

    /// Succeeds exactly when the collection identifier is set.
    pub fn require_token_issued(&self) -> (r: Result<(), ContractError>)
        ensures
            r == if self@.nft_token_id.len() == 0 {
                Err::<(), ContractError>(ContractError::TokenNotIssued)
            } else {
                Ok::<(), ContractError>(())
            },
    {
        if self.nft_token_id.len() == 0 {
            Err(ContractError::TokenNotIssued)
        } else {
            Ok(())
        }
    }

    /// Mints one certificate record and returns its nonce.
    ///
    /// The attribute digest is computed over an empty buffer, not over
    /// the serialized attributes; external verifiers depend on this
    /// stored placeholder, so it is kept as observable behaviour.
    ///
    /// The platform's nonce counter is a 64-bit integer, so a mint
    /// asks for room in it.
    pub fn issue_certificate(
        &mut self,
        caller: u64,
        token_name: Vec<u8>,
        student_name: Vec<u8>,
        program_name: Vec<u8>,
        grade: u16,
        credit_points: u16,
        expiration_timestamp: u64,
        now: u64,
    ) -> (r: Result<u64, ContractError>)
        requires
            old(self)@.wf(),
            old(self)@.next_nonce < u64::MAX,
        ensures
            (final(self)@, r) == spec_issue_certificate(
                old(self)@,
                caller,
                token_name@,
                student_name@,
                program_name@,
                grade,
                credit_points,
                expiration_timestamp,
                now,
            ),
            final(self)@.wf(),
    {
        if caller != self.owner {
            return Err(ContractError::Unauthorized);
        }
        if self.nft_token_id.len() == 0 {
            return Err(ContractError::TokenNotIssued);
        }
        let serialized_attributes: Vec<u8> = Vec::new();
        let attributes_hash = sha256_bytes(&serialized_attributes);
        let attributes = CertificateAttributes {
            name: student_name,
            program_name,
            grade,
            credit_points,
            creation_timestamp: now,
            expiration_timestamp,
        };
        let nonce = self.next_nonce + 1;
        let record = MintedNft {
            nonce,
            display_name: token_name,
            amount: NFT_AMOUNT,
            attributes_hash,
            attributes: NftAttributes::Certificate(attributes),
            holder: Holder::Contract,
        };
        let ghost prior = self@;
        self.minted.push(record);
        self.next_nonce = nonce;
        proof {
            assert(self.minted@.map_values(|m: MintedNft| m@) =~= prior.minted.push(
                self.minted@[self.minted@.len() - 1]@,
            ));
            assert(self@ =~~= spec_issue_certificate(
                prior,
                caller,
                token_name@,
                student_name@,
                program_name@,
                grade,
                credit_points,
                expiration_timestamp,
                now,
            ).0);
        }
        Ok(nonce)
    }

    /// Mints one user record, transfers it to `user`, and returns its
    /// nonce.  `destination_accepts` is the platform's verdict on
    /// whether `user` can receive the record; a refused transfer
    /// aborts the call and rolls the mint back with it.
    ///
    /// The platform's nonce counter is a 64-bit integer, so a mint
    /// asks for room in it.
    pub fn register_user(
        &mut self,
        caller: u64,
        name: Vec<u8>,
        user: u64,
        now: u64,
        destination_accepts: bool,
    ) -> (r: Result<u64, ContractError>)
        requires
            old(self)@.wf(),
            old(self)@.next_nonce < u64::MAX,
        ensures
            (final(self)@, r) == spec_register_user(
                old(self)@,
                caller,
                name@,
                user,
                now,
                destination_accepts,
            ),
            final(self)@.wf(),
    {
        if caller != self.owner {
            return Err(ContractError::Unauthorized);
        }
        if self.nft_token_id.len() == 0 {
            return Err(ContractError::TokenNotIssued);
        }
        if !destination_accepts {
            return Err(ContractError::TransferFailed);
        }
        let serialized_attributes: Vec<u8> = Vec::new();
        let attributes_hash = sha256_bytes(&serialized_attributes);
        let nonce = self.next_nonce + 1;
        let record = MintedNft {
            nonce,
            display_name: name,
            amount: NFT_AMOUNT,
            attributes_hash,
            attributes: NftAttributes::User(UserAttributes { creation_timestamp: now }),
            holder: Holder::Account(user),
        };
        let ghost prior = self@;
        self.minted.push(record);
        self.next_nonce = nonce;
        proof {
            assert(self.minted@.map_values(|m: MintedNft| m@) =~= prior.minted.push(
                self.minted@[self.minted@.len() - 1]@,
            ));
            assert(self@ =~~= spec_register_user(prior, caller, name@, user, now,
                destination_accepts).0);
        }
        Ok(nonce)
    }

    /// Adds an accepted deposit to the reward balance.  The payment
    /// is the single token attached to the call.
    pub fn deposit_rewards(&mut self, caller: u64, payment_token: Vec<u8>, amount: u128) -> (r:
        Result<(), ContractError>)
        ensures
            (final(self)@, r) == spec_deposit_rewards(old(self)@, caller, payment_token@,
                amount as nat),
            old(self)@.wf() ==> final(self)@.wf(),
    {
        if caller != self.owner {
            return Err(ContractError::Unauthorized);
        }
        if !bytes_eq(&payment_token, &self.edu_token) {
            return Err(ContractError::WrongToken);
        }
        let ghost prior = self@;
        self.available_rewards.add_u128(amount);
        proof {
            assert(self@ =~~= spec_deposit_rewards(prior, caller, payment_token@, amount as nat).0);
        }
        Ok(())
    }

    /// Configures the reward-token identifier; a malformed identifier
    /// is rejected and the configuration is unchanged.
    pub fn set_rewards_token_identifier(&mut self, caller: u64, token_identifier: Vec<u8>) -> (r:
        Result<(), ContractError>)
        ensures
            (final(self)@, r) == spec_set_rewards_token_identifier(old(self)@, caller,
                token_identifier@),
            old(self)@.wf() ==> final(self)@.wf(),
    {
        if caller != self.owner {
            return Err(ContractError::Unauthorized);
        }
        if !is_valid_esdt_identifier(&token_identifier) {
            return Err(ContractError::InvalidTokenIdentifier);
        }
        let ghost prior = self@;
        self.edu_token = token_identifier;
        proof {
            assert(self@ =~~= spec_set_rewards_token_identifier(prior, caller,
                self.edu_token@).0);
        }
        Ok(())
    }

    /// Requests a new collection from the token-issuing authority.
    ///
    /// The state is unchanged: the returned request, together with the
    /// escrowed native-currency payment, is to be forwarded to the
    /// authority, whose response must be fed to [`Self::issue_callback`].
    /// A second request may be built while one is outstanding — the
    /// guard reads only the stored identifier, which a pending request
    /// has not set yet.
    pub fn issue_token(&self, token_name: Vec<u8>, token_ticker: Vec<u8>, egld_payment: u128) -> (r:
        Result<IssueTokenRequest, ContractError>)
        ensures
            match r {
                Ok(req) => {
                    &&& spec_issue_token(self@, egld_payment as nat) is Ok
                    &&& req.token_name@ == token_name@
                    &&& req.token_ticker@ == token_ticker@
                    &&& req.payment == egld_payment
                    &&& req.properties == issued_token_properties()
                },
                Err(e) => spec_issue_token(self@, egld_payment as nat) == Err::<(),
                    ContractError>(e),
            },
    {
        if self.nft_token_id.len() != 0 {
            return Err(ContractError::AlreadyIssued);
        }
        if egld_payment == 0 {
            return Err(ContractError::InvalidPayment);
        }
        Ok(IssueTokenRequest {
            token_name,
            token_ticker,
            payment: egld_payment,
            properties: TokenProperties {
                can_freeze: true,
                can_wipe: true,
                can_pause: true,
                can_transfer_create_role: true,
                can_change_owner: false,
                can_upgrade: false,
                can_add_special_roles: true,
            },
        })
    }

    /// Resumes on the authority's response to an issuance request.
    ///
    /// On success the new collection identifier is stored.  On failure
    /// the state is untouched and the returned amount, if a positive
    /// native-currency sum came back, is to be forwarded to the
    /// original requester.
    ///
    /// A successful response always carries the assigned identifier,
    /// which is never the empty marker of the native currency.
    pub fn issue_callback(&mut self, outcome: IssueOutcome) -> (refund: Option<u128>)
        requires
            outcome@ matches IssueOutcomeView::Success { token_id } ==> token_id.len() > 0,
        ensures
            final(self)@ == spec_issue_callback(old(self)@, outcome@).0,
            match refund {
                Some(a) => a > 0 && a as nat == spec_issue_callback(old(self)@, outcome@).1,
                None => spec_issue_callback(old(self)@, outcome@).1 == 0,
            },
            old(self)@.wf() ==> final(self)@.wf(),
    {
        let ghost prior = self@;
        match outcome {
            IssueOutcome::Success(token_id) => {
                self.nft_token_id = token_id;
                proof {
                    assert(self@ =~~= spec_issue_callback(prior, outcome@).0);
                }
                None
            },
            IssueOutcome::Failure(returned) => {
                if returned.native && returned.amount > 0 {
                    Some(returned.amount)
                } else {
                    None
                }
            },
        }
    }

    /// Asks the platform to grant the contract's own account the
    /// mint role on the collection.  The state is unchanged; the
    /// returned request is to be forwarded to the authority, and no
    /// response is consumed.
    pub fn set_local_roles(&self, caller: u64) -> (r: Result<SetRolesRequest, ContractError>)
        ensures
            match r {
                Ok(req) => {
                    &&& spec_set_local_roles(self@, caller) is Ok
                    &&& req.token_id@ == self@.nft_token_id
                    &&& req.role == LocalRole::NftCreate
                },
                Err(e) => spec_set_local_roles(self@, caller) == Err::<(), ContractError>(e),
            },
    {
        if caller != self.owner {
            return Err(ContractError::Unauthorized);
        }
        match self.require_token_issued() {
            Err(e) => Err(e),
            Ok(()) => {
                let token_id = self.nft_token_id.clone();
                proof {
                    assert(token_id@ =~= self.nft_token_id@);
                }
                Ok(SetRolesRequest { token_id, role: LocalRole::NftCreate })
            },
        }
    }
}

} // verus!
