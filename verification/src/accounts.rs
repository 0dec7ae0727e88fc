//! The accounts the instructions take and the checks made on them before an
//! instruction runs: the checks that come with each account's kind (a program
//! account must be that program, a signer must sign, an account of this
//! program or a token account must be owned by that program), and the
//! constraints the program declares (which must be writable, which must be the
//! one a market names, which must sit at the address derived from its seeds).
//! They are made in the order the program's account validation makes them:
//! the kind of each account, field by field (for an account of this program
//! its owner and its type discriminator, for a token account its owner and
//! its layout), then the accounts being created, then the declared
//! constraints field by field.  The discriminators of the program's account
//! types are given by the caller.
use vstd::prelude::*;

use crate::state::{same_key, OpenBookError, Pubkey};

verus! {

/// What an instruction is told about one account it is passed.
#[derive(Clone, Debug)]
pub struct AccountRef {
    pub key: Pubkey,
    /// The program that owns the account.
    pub owner: Pubkey,
    pub lamports: u64,
    pub data: Vec<u8>,
    pub is_signer: bool,
    pub is_writable: bool,
    pub executable: bool,
}

/// The address of the token program (`TokenkegQfeZyiNwAJbNbGKPFXCWuBvf9Ss623VQ5DA`).
pub open spec fn token_program_key() -> Seq<u8> {
    seq![
        6u8, 221u8, 246u8, 225u8, 215u8, 101u8, 161u8, 147u8, 217u8, 203u8, 225u8, 70u8, 206u8,
        235u8, 121u8, 172u8, 28u8, 180u8, 133u8, 237u8, 95u8, 91u8, 55u8, 145u8, 58u8, 140u8,
        245u8, 133u8, 126u8, 255u8, 0u8, 169u8,
    ]
}

/// The address of the system program (all zero bytes).
pub open spec fn system_program_key() -> Seq<u8> {
    Seq::new(32, |i: int| 0u8)
}

/// `anchor_spl::token::ID`, the token program's address, as bytes.
#[verifier::external_body]
fn token_program_id() -> (id: Pubkey)
    ensures
        id@ == token_program_key(),
{
    anchor_spl::token::ID.to_bytes()
}

/// `anchor_lang::system_program::ID`, the system program's address, as bytes.
#[verifier::external_body]
fn system_program_id() -> (id: Pubkey)
    ensures
        id@ == system_program_key(),
{
    anchor_lang::system_program::ID.to_bytes()
}

/// The refusal of an account that must be the program at `program`.
pub open spec fn program_refusal(a: AccountRef, program: Seq<u8>) -> Option<OpenBookError> {
    if a.key@ != program {
        Some(OpenBookError::InvalidProgramId)
    } else if !a.executable {
        Some(OpenBookError::InvalidProgramExecutable)
    } else {
        None
    }
}

/// The refusal of an account that must sign.
pub open spec fn signer_refusal(a: AccountRef) -> Option<OpenBookError> {
    if !a.is_signer {
        Some(OpenBookError::AccountNotSigner)
    } else {
        None
    }
}

/// Whether `data` begins with `prefix`.
pub open spec fn starts_with(data: Seq<u8>, prefix: Seq<u8>) -> bool {
    prefix.len() <= data.len() && data.subrange(0, prefix.len() as int) == prefix
}

/// The refusal of an account of this program, of the type with the
/// discriminator `discriminator`: owned by another program, too short to hold
/// the discriminator, or holding another one.
pub open spec fn program_account_refusal(a: AccountRef, program_id: Pubkey, discriminator: Seq<u8>) -> Option<OpenBookError> {
    if a.owner@ != program_id@ {
        Some(OpenBookError::AccountOwnedByWrongProgram)
    } else if a.data@.len() < discriminator.len() {
        Some(OpenBookError::AccountDiscriminatorNotFound)
    } else if !starts_with(a.data@, discriminator) {
        Some(OpenBookError::AccountDiscriminatorMismatch)
    } else {
        None
    }
}

/// The bytes `data[offset..offset + 4]` are the tag of an optional field:
/// `0` (absent) or `1` (present), as a little-endian `u32`.
pub open spec fn option_tag_valid(data: Seq<u8>, offset: int) -> bool {
    (data[offset] == 0 || data[offset] == 1) && data[offset + 1] == 0 && data[offset + 2] == 0
        && data[offset + 3] == 0
}

/// The length of a token account's data.
pub open spec fn token_account_len() -> nat {
    165
}

/// Offset of a token account's state byte (0 uninitialized, 1 initialized, 2 frozen).
pub open spec fn token_account_state_offset() -> int {
    108
}

/// The refusal of token account data that does not decode: of another length,
/// with an optional field's tag (delegate at 72, native amount at 109, close
/// authority at 129) or the state byte out of range; or of an account not
/// initialized.
pub open spec fn token_account_data_refusal(data: Seq<u8>) -> Option<OpenBookError> {
    if data.len() != token_account_len() || !option_tag_valid(data, 72) || data[token_account_state_offset()]
        > 2 || !option_tag_valid(data, 109) || !option_tag_valid(data, 129) {
        Some(OpenBookError::InvalidAccountData)
    } else if data[token_account_state_offset()] == 0 {
        Some(OpenBookError::UninitializedAccount)
    } else {
        None
    }
}

/// `spl_token::state::Account::unpack` on the data of a token account: it
/// refuses data of another length and fields out of range as invalid, and an
/// account in the uninitialized state as uninitialized.
#[verifier::external_body]
fn token_account_unpack(data: &[u8]) -> (r: Option<OpenBookError>)
    ensures
        r == token_account_data_refusal(data@),
{
    match <anchor_spl::token::spl_token::state::Account as anchor_lang::solana_program::program_pack::Pack>::unpack(data) {
        Ok(_) => None,
        Err(anchor_lang::solana_program::program_error::ProgramError::UninitializedAccount) => Some(
            OpenBookError::UninitializedAccount,
        ),
        Err(_) => Some(OpenBookError::InvalidAccountData),
    }
}

/// The refusal of a token account that does not exist, that the token
/// program does not own, or whose data does not decode.
pub open spec fn token_account_refusal(a: AccountRef) -> Option<OpenBookError> {
    if a.owner@ == system_program_key() && a.lamports == 0 {
        Some(OpenBookError::AccountNotInitialized)
    } else if a.owner@ != token_program_key() {
        Some(OpenBookError::AccountOwnedByWrongProgram)
    } else {
        token_account_data_refusal(a.data@)
    }
}

/// The refusal of an account that must be writable.
pub open spec fn mut_refusal(a: AccountRef) -> Option<OpenBookError> {
    if !a.is_writable {
        Some(OpenBookError::ConstraintMut)
    } else {
        None
    }
}

/// The refusal of a stored reference `stored` that does not name the account `a`.
pub open spec fn has_one_refusal(stored: Pubkey, a: AccountRef) -> Option<OpenBookError> {
    if stored@ != a.key@ {
        Some(OpenBookError::ConstraintHasOne)
    } else {
        None
    }
}

/// The first refusal among `checks`, in their order.
pub open spec fn first_refusal(checks: Seq<Option<OpenBookError>>) -> Option<OpenBookError>
    decreases checks.len(),
{
    if checks.len() == 0 {
        None
    } else if checks[0] is Some {
        checks[0]
    } else {
        first_refusal(checks.drop_first())
    }
}

pub open spec fn as_result(refusal: Option<OpenBookError>) -> Result<(), OpenBookError> {
    match refusal {
        Some(e) => Err(e),
        None => Ok(()),
    }
}

fn check_program(a: &AccountRef, program: &Pubkey) -> (r: Option<OpenBookError>)
    ensures
        r == program_refusal(*a, program@),
{
    if !same_key(&a.key, program) {
        Some(OpenBookError::InvalidProgramId)
    } else if !a.executable {
        Some(OpenBookError::InvalidProgramExecutable)
    } else {
        None
    }
}

fn check_signer(a: &AccountRef) -> (r: Option<OpenBookError>)
    ensures
        r == signer_refusal(*a),
{
    if !a.is_signer {
        Some(OpenBookError::AccountNotSigner)
    } else {
        None
    }
}

fn starts_with_bytes(data: &Vec<u8>, prefix: &[u8]) -> (r: bool)
    ensures
        r == starts_with(data@, prefix@),
{
    if data.len() < prefix.len() {
        return false;
    }
    let mut i: usize = 0;
    while i < prefix.len()
        invariant
            0 <= i <= prefix@.len() <= data@.len(),
            forall|j: int| 0 <= j < i ==> data@[j] == prefix@[j],
        decreases prefix@.len() - i,
    {
        if data[i] != prefix[i] {
            assert(data@.subrange(0, prefix@.len() as int)[i as int] != prefix@[i as int]);
            return false;
        }
        i = i + 1;
    }
    assert(data@.subrange(0, prefix@.len() as int) =~= prefix@);
    true
}

fn check_program_account(a: &AccountRef, program_id: &Pubkey, discriminator: &[u8]) -> (r: Option<OpenBookError>)
    ensures
        r == program_account_refusal(*a, *program_id, discriminator@),
{
    if !same_key(&a.owner, program_id) {
        Some(OpenBookError::AccountOwnedByWrongProgram)
    } else if a.data.len() < discriminator.len() {
        Some(OpenBookError::AccountDiscriminatorNotFound)
    } else if !starts_with_bytes(&a.data, discriminator) {
        Some(OpenBookError::AccountDiscriminatorMismatch)
    } else {
        None
    }
}

fn check_token_account(a: &AccountRef) -> (r: Option<OpenBookError>)
    ensures
        r == token_account_refusal(*a),
{
    let system = system_program_id();
    let token = token_program_id();
    if same_key(&a.owner, &system) && a.lamports == 0 {
        Some(OpenBookError::AccountNotInitialized)
    } else if !same_key(&a.owner, &token) {
        Some(OpenBookError::AccountOwnedByWrongProgram)
    } else {
        token_account_unpack(a.data.as_slice())
    }
}

fn check_mut(a: &AccountRef) -> (r: Option<OpenBookError>)
    ensures
        r == mut_refusal(*a),
{
    if !a.is_writable {
        Some(OpenBookError::ConstraintMut)
    } else {
        None
    }
}

fn check_has_one(stored: &Pubkey, a: &AccountRef) -> (r: Option<OpenBookError>)
    ensures
        r == has_one_refusal(*stored, *a),
{
    if !same_key(stored, &a.key) {
        Some(OpenBookError::ConstraintHasOne)
    } else {
        None
    }
}

/// There is no refusal among `checks` exactly when none of them refuses.
proof fn lemma_no_refusal(checks: Seq<Option<OpenBookError>>)
    ensures
        first_refusal(checks) is None <==> forall|i: int| 0 <= i < checks.len() ==> checks[i] is None,
    decreases checks.len(),
{
    if checks.len() > 0 {
        lemma_no_refusal(checks.drop_first());
        if first_refusal(checks) is None {
            assert forall|i: int| 0 <= i < checks.len() implies checks[i] is None by {
                if i > 0 {
                    assert(checks[i] == checks.drop_first()[i - 1]);
                }
            }
        } else if checks[0] is None {
            let j = choose|j: int| 0 <= j < checks.drop_first().len() && !(checks.drop_first()[j] is None);
            assert(checks[j + 1] == checks.drop_first()[j]);
        }
    }
}

/// The first refusal among `checks`, made one after the other.
fn first_of(checks: &Vec<Option<OpenBookError>>) -> (r: Option<OpenBookError>)
    ensures
        r == first_refusal(checks@),
{
    let mut i: usize = 0;
    assert(checks@.subrange(0, checks@.len() as int) =~= checks@);
    while i < checks.len()
        invariant
            0 <= i <= checks@.len(),
            first_refusal(checks@) == first_refusal(checks@.subrange(i as int, checks@.len() as int)),
        decreases checks@.len() - i,
    {
        let ghost rest = checks@.subrange(i as int, checks@.len() as int);
        if checks[i].is_some() {
            return checks[i];
        }
        assert(rest.drop_first() =~= checks@.subrange(i + 1, checks@.len() as int));
        i = i + 1;
    }
    assert(checks@.subrange(i as int, checks@.len() as int) =~= Seq::<Option<OpenBookError>>::empty());
    None
}

/// The accounts of processing a market's events: the market, an account of
/// this program (writable), and the event queue the market names, an account
/// of this program (writable).
#[derive(Clone, Debug)]
pub struct ConsumeEvents {
    pub market: AccountRef,
    /// The event queue stored in the market.
    pub market_event_queue: Pubkey,
    pub event_queue: AccountRef,
}

/// The outcome of checking the accounts of processing a market's events for
/// the program `program_id`.
pub open spec fn consume_events_result(
    a: ConsumeEvents,
    program_id: Pubkey,
    market_discriminator: Seq<u8>,
    event_queue_discriminator: Seq<u8>,
) -> Result<(), OpenBookError> {
    as_result(
        first_refusal(
            seq![
                program_account_refusal(a.market, program_id, market_discriminator),
                program_account_refusal(a.event_queue, program_id, event_queue_discriminator),
                mut_refusal(a.market),
                has_one_refusal(a.market_event_queue, a.event_queue),
                mut_refusal(a.event_queue),
            ],
        ),
    )
}

impl ConsumeEvents {
    /// Checks the accounts for the program `program_id`, whose market and
    /// event queue accounts carry the given type discriminators.
    pub fn validate(&self, program_id: &Pubkey, market_discriminator: &[u8], event_queue_discriminator: &[u8]) -> (r: Result<(), OpenBookError>)
        ensures
            r == consume_events_result(
                *self,
                *program_id,
                market_discriminator@,
                event_queue_discriminator@,
            ),
    {
        let checks = vec![
            check_program_account(&self.market, program_id, market_discriminator),
            check_program_account(&self.event_queue, program_id, event_queue_discriminator),
            check_mut(&self.market),
            check_has_one(&self.market_event_queue, &self.event_queue),
            check_mut(&self.event_queue),
        ];
        match first_of(&checks) {
            Some(e) => Err(e),
            None => Ok(()),
        }
    }
}

/// The accounts of sweeping a market's fees: the market, an account of this
/// program (writable), the receiver, a token account (writable), the admin
/// the market names (signing), the quote vault, a token account (writable),
/// and the token and system programs.
#[derive(Clone, Debug)]
pub struct SweepFees {
    pub market: AccountRef,
    /// The admin stored in the market.
    pub market_admin: Pubkey,
    pub receiver: AccountRef,
    pub admin: AccountRef,
    pub quote_vault: AccountRef,
    pub token_program: AccountRef,
    pub system_program: AccountRef,
}

/// The outcome of checking the accounts of sweeping a market's fees for the
/// program `program_id`.
pub open spec fn sweep_fees_result(a: SweepFees, program_id: Pubkey, market_discriminator: Seq<u8>) -> Result<(), OpenBookError> {
    as_result(
        first_refusal(
            seq![
                program_account_refusal(a.market, program_id, market_discriminator),
                token_account_refusal(a.receiver),
                signer_refusal(a.admin),
                token_account_refusal(a.quote_vault),
                program_refusal(a.token_program, token_program_key()),
                program_refusal(a.system_program, system_program_key()),
                mut_refusal(a.market),
                has_one_refusal(a.market_admin, a.admin),
                mut_refusal(a.receiver),
                mut_refusal(a.quote_vault),
            ],
        ),
    )
}

impl SweepFees {
    /// Checks the accounts for the program `program_id`, whose market
    /// accounts carry the type discriminator `market_discriminator`.
    pub fn validate(&self, program_id: &Pubkey, market_discriminator: &[u8]) -> (r: Result<(), OpenBookError>)
        ensures
            r == sweep_fees_result(*self, *program_id, market_discriminator@),
    {
        let token = token_program_id();
        let system = system_program_id();
        let checks = vec![
            check_program_account(&self.market, program_id, market_discriminator),
            check_token_account(&self.receiver),
            check_signer(&self.admin),
            check_token_account(&self.quote_vault),
            check_program(&self.token_program, &token),
            check_program(&self.system_program, &system),
            check_mut(&self.market),
            check_has_one(&self.market_admin, &self.admin),
            check_mut(&self.receiver),
            check_mut(&self.quote_vault),
        ];
        match first_of(&checks) {
            Some(e) => Err(e),
            None => Ok(()),
        }
    }
}

/// The ASCII bytes of `OpenOrders`, the first seed of an open-orders account.
pub open spec fn open_orders_seed_prefix() -> Seq<u8> {
    seq![79u8, 112u8, 101u8, 110u8, 79u8, 114u8, 100u8, 101u8, 114u8, 115u8]
}

/// The seeds of the open-orders account number `account_num` of `owner` on `market`.
pub open spec fn open_orders_seeds_of(owner: Pubkey, market: Pubkey, account_num: u32) -> Seq<Seq<u8>> {
    seq![
        open_orders_seed_prefix(),
        owner@,
        market@,
        vstd::bytes::spec_u32_to_le_bytes(account_num),
    ]
}

pub open spec fn seeds_view(seeds: Seq<Vec<u8>>) -> Seq<Seq<u8>> {
    seeds.map_values(|s: Vec<u8>| s@)
}

/// The seeds of the open-orders account number `account_num` of `owner` on `market`.
pub fn open_orders_seeds(owner: &Pubkey, market: &Pubkey, account_num: u32) -> (r: Vec<Vec<u8>>)
    ensures
        seeds_view(r@) == open_orders_seeds_of(*owner, *market, account_num),
{
    let prefix: Vec<u8> = vec![79u8, 112u8, 101u8, 110u8, 79u8, 114u8, 100u8, 101u8, 114u8, 115u8];
    let mut r: Vec<Vec<u8>> = Vec::new();
    r.push(prefix);
    r.push(vstd::slice::slice_to_vec(owner.as_slice()));
    r.push(vstd::slice::slice_to_vec(market.as_slice()));
    r.push(vstd::bytes::u32_to_le_bytes(account_num));
    assert(seeds_view(r@) =~= open_orders_seeds_of(*owner, *market, account_num));
    r
}

/// The program-derived address and bump seed for `seeds` under the program
/// `program_id`, as `Pubkey::try_find_program_address` computes them (a hash of
/// the seeds, a bump and the program id, searched for an address off the
/// curve), or none where no bump gives one.
pub uninterp spec fn program_address(seeds: Seq<Seq<u8>>, program_id: Seq<u8>) -> Option<(Seq<u8>, u8)>;

/// `Pubkey::try_find_program_address`: its result is the named function of the
/// seeds and the program id.
#[verifier::external_body]
fn try_find_program_address(seeds: &Vec<Vec<u8>>, program_id: &Pubkey) -> (r: Option<(Pubkey, u8)>)
    ensures
        match r {
            Some((key, bump)) => program_address(seeds_view(seeds@), program_id@) == Some((key@, bump)),
            None => program_address(seeds_view(seeds@), program_id@) is None,
        },
{
    let slices: Vec<&[u8]> = seeds.iter().map(|s| s.as_slice()).collect();
    let program = anchor_lang::prelude::Pubkey::new_from_array(*program_id);
    anchor_lang::prelude::Pubkey::try_find_program_address(&slices, &program).map(
        |(key, bump)| (key.to_bytes(), bump),
    )
}

/// The accounts of creating an open-orders account: the new account (at the
/// address derived from its seeds), the owner (writable, signing), the payer
/// (writable, signing), the market, an account of this program (writable), and
/// the system program.
#[derive(Clone, Debug)]
pub struct InitOpenOrders {
    pub open_orders_account: AccountRef,
    pub owner: AccountRef,
    pub payer: AccountRef,
    pub market: AccountRef,
    pub system_program: AccountRef,
    /// The number of the new account among the owner's accounts on the market.
    pub account_num: u32,
}

/// The refusal of a new account that is not at its derived address.  Where
/// no address can be derived the account is refused as not at it.
pub open spec fn seeds_refusal(a: AccountRef, derived: Option<(Seq<u8>, u8)>) -> Option<OpenBookError> {
    match derived {
        None => Some(OpenBookError::ConstraintSeeds),
        Some((address, _bump)) => if address != a.key@ {
            Some(OpenBookError::ConstraintSeeds)
        } else {
            None
        },
    }
}

/// The outcome of checking the accounts of creating an open-orders account
/// for the program `program_id`, given the derived address of its seeds: the
/// bump seed of the address, or the refusal.
pub open spec fn init_open_orders_result(
    a: InitOpenOrders,
    program_id: Pubkey,
    market_discriminator: Seq<u8>,
    derived: Option<(Seq<u8>, u8)>,
) -> Result<u8, OpenBookError> {
    let refusal = first_refusal(
        seq![
            signer_refusal(a.owner),
            signer_refusal(a.payer),
            program_account_refusal(a.market, program_id, market_discriminator),
            program_refusal(a.system_program, system_program_key()),
            seeds_refusal(a.open_orders_account, derived),
            mut_refusal(a.owner),
            mut_refusal(a.payer),
            mut_refusal(a.market),
        ],
    );
    match refusal {
        Some(e) => Err(e),
        None => Ok(derived.unwrap().1),
    }
}

pub open spec fn derived_view(derived: Option<(Pubkey, u8)>) -> Option<(Seq<u8>, u8)> {
    match derived {
        Some((k, b)) => Some((k@, b)),
        None => None,
    }
}

fn check_seeds(a: &AccountRef, derived: Option<(Pubkey, u8)>) -> (r: Option<OpenBookError>)
    ensures
        r == seeds_refusal(*a, derived_view(derived)),
{
    match derived {
        None => Some(OpenBookError::ConstraintSeeds),
        Some((address, _bump)) => if !same_key(&address, &a.key) {
            Some(OpenBookError::ConstraintSeeds)
        } else {
            None
        },
    }
}

impl InitOpenOrders {
    /// Checks the accounts for the program `program_id` given the derived
    /// address of the new account's seeds.
    pub fn check_with_address(
        &self,
        program_id: &Pubkey,
        market_discriminator: &[u8],
        derived: Option<(Pubkey, u8)>,
    ) -> (r: Result<u8, OpenBookError>)
        ensures
            r == init_open_orders_result(
                *self,
                *program_id,
                market_discriminator@,
                derived_view(derived),
            ),
    {
        let system = system_program_id();
        let checks = vec![
            check_signer(&self.owner),
            check_signer(&self.payer),
            check_program_account(&self.market, program_id, market_discriminator),
            check_program(&self.system_program, &system),
            check_seeds(&self.open_orders_account, derived),
            check_mut(&self.owner),
            check_mut(&self.payer),
            check_mut(&self.market),
        ];
        match first_of(&checks) {
            Some(e) => Err(e),
            None => {
                proof {
                    lemma_no_refusal(checks@);
                    assert(checks@[4] is None);
                }
                match derived {
                    Some((_address, bump)) => Ok(bump),
                    None => Err(OpenBookError::ConstraintSeeds),
                }
            },
        }
    }

    /// Checks the accounts of creating an open-orders account for the program
    /// `program_id`, whose market accounts carry the type discriminator
    /// `market_discriminator`, returning the bump seed of the new account's
    /// address.
    pub fn validate(&self, program_id: &Pubkey, market_discriminator: &[u8]) -> (r: Result<u8, OpenBookError>)
        ensures
            r == init_open_orders_result(
                *self,
                *program_id,
                market_discriminator@,
                program_address(
                    open_orders_seeds_of(self.owner.key, self.market.key, self.account_num),
                    program_id@,
                ),
            ),
    {
        let seeds = open_orders_seeds(&self.owner.key, &self.market.key, self.account_num);
        let derived = try_find_program_address(&seeds, program_id);
        self.check_with_address(program_id, market_discriminator, derived)
    }
}

/// Events are processed only on a writable market of this program and the
/// writable event queue it names, both of their account types; and where all
/// of that holds they are.
pub proof fn law_consume_events_accepts_exactly(
    a: ConsumeEvents,
    program_id: Pubkey,
    market_discriminator: Seq<u8>,
    event_queue_discriminator: Seq<u8>,
)
    ensures
        consume_events_result(a, program_id, market_discriminator, event_queue_discriminator) is Ok
            <==> {
            &&& a.market.owner@ == program_id@
            &&& starts_with(a.market.data@, market_discriminator)
            &&& a.event_queue.owner@ == program_id@
            &&& starts_with(a.event_queue.data@, event_queue_discriminator)
            &&& a.market.is_writable
            &&& a.event_queue.is_writable
            &&& a.market_event_queue@ == a.event_queue.key@
        },
{
    let checks = seq![
        program_account_refusal(a.market, program_id, market_discriminator),
        program_account_refusal(a.event_queue, program_id, event_queue_discriminator),
        mut_refusal(a.market),
        has_one_refusal(a.market_event_queue, a.event_queue),
        mut_refusal(a.event_queue),
    ];
    lemma_no_refusal(checks);
    assert(checks[0] == program_account_refusal(a.market, program_id, market_discriminator));
    assert(checks[1] == program_account_refusal(a.event_queue, program_id, event_queue_discriminator));
    assert(checks[2] == mut_refusal(a.market));
    assert(checks[3] == has_one_refusal(a.market_event_queue, a.event_queue));
    assert(checks[4] == mut_refusal(a.event_queue));
}

/// Fees are swept only with the admin the market names signing, a writable
/// market of this program, writable initialized token accounts as receiver
/// and quote vault, and the token and system programs; and where all of that
/// holds they are.
pub proof fn law_sweep_fees_accepts_exactly(a: SweepFees, program_id: Pubkey, market_discriminator: Seq<u8>)
    ensures
        sweep_fees_result(a, program_id, market_discriminator) is Ok <==> {
            &&& a.market.owner@ == program_id@
            &&& starts_with(a.market.data@, market_discriminator)
            &&& token_account_refusal(a.receiver) is None
            &&& token_account_refusal(a.quote_vault) is None
            &&& a.admin.is_signer
            &&& a.token_program.key@ == token_program_key() && a.token_program.executable
            &&& a.system_program.key@ == system_program_key() && a.system_program.executable
            &&& a.market.is_writable
            &&& a.receiver.is_writable
            &&& a.quote_vault.is_writable
            &&& a.market_admin@ == a.admin.key@
        },
        sweep_fees_result(a, program_id, market_discriminator) is Ok ==> {
            &&& a.receiver.owner@ == token_program_key()
            &&& a.quote_vault.owner@ == token_program_key()
            &&& a.receiver.data@.len() == 165
            &&& a.quote_vault.data@.len() == 165
        },
{
    let checks = seq![
        program_account_refusal(a.market, program_id, market_discriminator),
        token_account_refusal(a.receiver),
        signer_refusal(a.admin),
        token_account_refusal(a.quote_vault),
        program_refusal(a.token_program, token_program_key()),
        program_refusal(a.system_program, system_program_key()),
        mut_refusal(a.market),
        has_one_refusal(a.market_admin, a.admin),
        mut_refusal(a.receiver),
        mut_refusal(a.quote_vault),
    ];
    lemma_no_refusal(checks);
    assert(checks[0] == program_account_refusal(a.market, program_id, market_discriminator));
    assert(checks[1] == token_account_refusal(a.receiver));
    assert(checks[2] == signer_refusal(a.admin));
    assert(checks[3] == token_account_refusal(a.quote_vault));
    assert(checks[4] == program_refusal(a.token_program, token_program_key()));
    assert(checks[5] == program_refusal(a.system_program, system_program_key()));
    assert(checks[6] == mut_refusal(a.market));
    assert(checks[7] == has_one_refusal(a.market_admin, a.admin));
    assert(checks[8] == mut_refusal(a.receiver));
    assert(checks[9] == mut_refusal(a.quote_vault));
}

/// An open-orders account is created only with the owner and the payer
/// signing and writable, a writable market of this program, the system
/// program, and the new account at the address derived from its seeds; the
/// bump returned is the derived one.  Where all of that holds it is created.
pub proof fn law_init_open_orders_accepts_exactly(
    a: InitOpenOrders,
    program_id: Pubkey,
    market_discriminator: Seq<u8>,
    derived: Option<(Seq<u8>, u8)>,
)
    ensures
        init_open_orders_result(a, program_id, market_discriminator, derived) is Ok <==> {
            &&& a.owner.is_signer
            &&& a.payer.is_signer
            &&& a.market.owner@ == program_id@
            &&& starts_with(a.market.data@, market_discriminator)
            &&& a.system_program.key@ == system_program_key() && a.system_program.executable
            &&& derived is Some && derived.unwrap().0 == a.open_orders_account.key@
            &&& a.owner.is_writable
            &&& a.payer.is_writable
            &&& a.market.is_writable
        },
        init_open_orders_result(a, program_id, market_discriminator, derived) is Ok ==> init_open_orders_result(
            a,
            program_id,
            market_discriminator,
            derived,
        ) == Ok::<u8, OpenBookError>(derived.unwrap().1),
{
    let checks = seq![
        signer_refusal(a.owner),
        signer_refusal(a.payer),
        program_account_refusal(a.market, program_id, market_discriminator),
        program_refusal(a.system_program, system_program_key()),
        seeds_refusal(a.open_orders_account, derived),
        mut_refusal(a.owner),
        mut_refusal(a.payer),
        mut_refusal(a.market),
    ];
    lemma_no_refusal(checks);
    assert(checks[0] == signer_refusal(a.owner));
    assert(checks[1] == signer_refusal(a.payer));
    assert(checks[2] == program_account_refusal(a.market, program_id, market_discriminator));
    assert(checks[3] == program_refusal(a.system_program, system_program_key()));
    assert(checks[4] == seeds_refusal(a.open_orders_account, derived));
    assert(checks[5] == mut_refusal(a.owner));
    assert(checks[6] == mut_refusal(a.payer));
    assert(checks[7] == mut_refusal(a.market));
}

} // verus!
