//! The donation-pool ledger: pools that collect donations into a derived
//! vault, one immutable record per donation, and authority-gated withdrawal.
use crate::address::{
    byte_len, derive_address, derived_address, is_derived_address, move_lamports, str_byte_len,
    Address, Wallet,
};
use vstd::prelude::*;

verus! {

/// Id of the donation-pool program, under which its addresses are derived.
pub const PROGRAM_ID: [u8; 32] = [
    156, 11, 20, 165, 113, 230, 39, 47, 155, 4, 66, 254, 228, 64, 152, 221, 88, 204, 180, 185,
    124, 130, 102, 128, 207, 122, 149, 188, 232, 129, 199, 10,
];

/// Namespace tag of pool addresses (`b"pool"`).
pub const POOL_TAG: [u8; 4] = [112, 111, 111, 108];

/// Namespace tag of vault addresses (`b"vault"`).
pub const VAULT_TAG: [u8; 5] = [118, 97, 117, 108, 116];

/// The fixed amount of a one-tap donation.
pub const ONE_TAP_AMOUNT: u64 = 1_000_000;

pub const MAX_NAME_LEN: usize = 50;

pub const MAX_DESCRIPTION_LEN: usize = 200;

pub const MAX_EMOJI_LEN: usize = 10;

/// `donation_type` of a one-tap donation.
pub const DONATION_ONE_TAP: u8 = 0;

/// `donation_type` of a donation of a chosen amount.
pub const DONATION_CUSTOM: u8 = 1;

/// One cause that collects donations.
#[derive(Clone, Debug, PartialEq, Eq)]
pub struct Pool {
    pub authority: Address,
    pub name: String,
    pub description: String,
    pub emoji: String,
    pub pool_type: u8,
    pub total_donated: u64,
    pub donor_count: u64,
    pub is_active: bool,
    pub bump: u8,
}

impl Pool {
    /// The text fields fit their maxima, in UTF-8 bytes.
    pub open spec fn wf(&self) -> bool {
        byte_len(self.name@) <= MAX_NAME_LEN && byte_len(self.description@) <= MAX_DESCRIPTION_LEN
            && byte_len(self.emoji@) <= MAX_EMOJI_LEN
    }

    /// The pool after a donation of `amount`: one more donor, `amount` more in total.
    pub open spec fn after_donation(self, amount: u64) -> Pool {
        Pool {
            total_donated: (self.total_donated + amount) as u64,
            donor_count: (self.donor_count + 1) as u64,
            ..self
        }
    }
}

/// The write-once history entry of one donation.
#[derive(Clone, Copy, Debug, PartialEq, Eq)]
pub struct DonationRecord {
    pub donor: Address,
    pub pool: Address,
    pub amount: u64,
    pub timestamp: i64,
    pub donation_type: u8,
}

/// Notification that a donation was made.
#[derive(Clone, Copy, Debug, PartialEq, Eq)]
pub struct DonationMade {
    pub donor: Address,
    pub pool: Address,
    pub amount: u64,
    pub donation_type: u8,
}

/// Notification that value left a pool's vault.
#[derive(Clone, Copy, Debug, PartialEq, Eq)]
pub struct PoolWithdrawal {
    pub pool: Address,
    pub recipient: Address,
    pub amount: u64,
}

/// Why an operation of the donation-pool ledger was rejected.
#[derive(Clone, Copy, Debug, PartialEq, Eq)]
pub enum ErrorCode {
    /// The amount is zero.
    InvalidAmount,
    /// The vault holds less than the amount to withdraw.
    InsufficientFunds,
    /// A required signature is missing.
    AccountNotSigner,
    /// An account is not at the address derived for it.
    ConstraintSeeds,
    /// The signer is not the pool's authority.
    ConstraintHasOne,
    /// The address to create a record at is already occupied.
    AccountAlreadyInUse,
    /// A text field is longer than its maximum.
    FieldTooLong,
    /// The payer's balance is below the amount to transfer.
    InsufficientLamports,
    /// A counter or balance would exceed `u64::MAX`.
    ArithmeticOverflow,
}

/// The address, and its bump, of the pool named by the UTF-8 bytes `name`.
pub open spec fn pool_address(name: Seq<u8>) -> Option<(Seq<u8>, u8)> {
    derived_address(POOL_TAG@, name, PROGRAM_ID@)
}

/// Whether `vault` is the vault derived for the pool at `pool_key`.
pub open spec fn is_vault_of(vault: Address, pool_key: Address) -> bool {
    derived_address(VAULT_TAG@, pool_key@, PROGRAM_ID@) matches Some(p) && p.0 == vault@
}

/// Derives the address of the pool named `name`, with its bump.
pub fn find_pool_address(name: &str) -> (r: Option<(Address, u8)>)
    ensures
        r matches Some(p) ==> pool_address(vstd::utf8::encode_utf8(name@)) == Some((p.0@, p.1)),
        r is None ==> pool_address(vstd::utf8::encode_utf8(name@)) is None,
{
    derive_address(&POOL_TAG, name.as_bytes(), &Address::new(PROGRAM_ID))
}

/// Derives the address of the vault of the pool at `pool_key`, with its bump.
pub fn find_vault_address(pool_key: &Address) -> (r: Option<(Address, u8)>)
    ensures
        r matches Some(p) ==> derived_address(VAULT_TAG@, pool_key@, PROGRAM_ID@) == Some(
            (p.0@, p.1),
        ),
        r is None ==> derived_address(VAULT_TAG@, pool_key@, PROGRAM_ID@) is None,
{
    derive_address(&VAULT_TAG, &pool_key.bytes, &Address::new(PROGRAM_ID))
}

/// Accounts of `initialize_pool`: the pool's address and what it holds, the
/// pool's vault address, and the creating signer.
#[derive(Clone, Debug, PartialEq, Eq)]
pub struct InitializePool {
    pub pool_key: Address,
    pub pool: Option<Pool>,
    pub pool_vault: Address,
    pub authority: Wallet,
}

/// The first reason, if any, for which `initialize_pool` rejects.
pub open spec fn initialize_pool_error(
    ctx: InitializePool,
    name: Seq<char>,
    description: Seq<char>,
    emoji: Seq<char>,
) -> Option<ErrorCode> {
    if !ctx.authority.is_signer {
        Some(ErrorCode::AccountNotSigner)
    } else if !(pool_address(vstd::utf8::encode_utf8(name)) matches Some(p) && p.0
        == ctx.pool_key@) {
        Some(ErrorCode::ConstraintSeeds)
    } else if !is_vault_of(ctx.pool_vault, ctx.pool_key) {
        Some(ErrorCode::ConstraintSeeds)
    } else if ctx.pool is Some {
        Some(ErrorCode::AccountAlreadyInUse)
    } else if byte_len(name) > MAX_NAME_LEN || byte_len(description) > MAX_DESCRIPTION_LEN
        || byte_len(emoji) > MAX_EMOJI_LEN {
        Some(ErrorCode::FieldTooLong)
    } else {
        None
    }
}

/// Creates the pool named `name` at its derived address, owned by the signer,
/// with zero totals and active.
pub fn initialize_pool(
    ctx: &mut InitializePool,
    name: String,
    description: String,
    emoji: String,
    pool_type: u8,
) -> (r: Result<(), ErrorCode>)
    ensures
        r == match initialize_pool_error(*old(ctx), name@, description@, emoji@) {
            Some(e) => Err::<(), ErrorCode>(e),
            None => Ok(()),
        },
        r is Err ==> *final(ctx) == *old(ctx),
        r is Ok ==> *final(ctx) == (InitializePool {
            pool: Some(
                Pool {
                    authority: old(ctx).authority.key,
                    name,
                    description,
                    emoji,
                    pool_type,
                    total_donated: 0,
                    donor_count: 0,
                    is_active: true,
                    bump: pool_address(vstd::utf8::encode_utf8(name@))->Some_0.1,
                },
            ),
            ..*old(ctx)
        }),
        r is Ok ==> final(ctx).pool->Some_0.wf(),
        old(ctx).pool is Some ==> r is Err,
{
    if !ctx.authority.is_signer {
        return Err(ErrorCode::AccountNotSigner);
    }
    let bump = match find_pool_address(name.as_str()) {
        Some(p) => {
            if !p.0.same_as(&ctx.pool_key) {
                return Err(ErrorCode::ConstraintSeeds);
            }
            p.1
        },
        None => {
            return Err(ErrorCode::ConstraintSeeds);
        },
    };
    if !is_derived_address(&ctx.pool_vault, &VAULT_TAG, &ctx.pool_key.bytes, &Address::new(PROGRAM_ID)) {
        return Err(ErrorCode::ConstraintSeeds);
    }
    if ctx.pool.is_some() {
        return Err(ErrorCode::AccountAlreadyInUse);
    }
    if str_byte_len(&name) > MAX_NAME_LEN || str_byte_len(&description) > MAX_DESCRIPTION_LEN
        || str_byte_len(&emoji) > MAX_EMOJI_LEN {
        return Err(ErrorCode::FieldTooLong);
    }
    ctx.pool = Some(
        Pool {
            authority: ctx.authority.key,
            name,
            description,
            emoji,
            pool_type,
            total_donated: 0,
            donor_count: 0,
            is_active: true,
            bump,
        },
    );
    Ok(())
}

/// A pool name can be used once: after `initialize_pool` has created the pool
/// named `name` in `first`, calling it again on the resulting accounts, with
/// that name or any other and whatever the other arguments, is rejected.
pub proof fn lemma_pool_name_used_once(
    first: InitializePool,
    name: String,
    description: String,
    emoji: String,
    pool_type: u8,
    again_name: Seq<char>,
    again_description: Seq<char>,
    again_emoji: Seq<char>,
)
    requires
        initialize_pool_error(first, name@, description@, emoji@) is None,
    ensures
        ({
            let created = InitializePool {
                pool: Some(
                    Pool {
                        authority: first.authority.key,
                        name,
                        description,
                        emoji,
                        pool_type,
                        total_donated: 0,
                        donor_count: 0,
                        is_active: true,
                        bump: pool_address(vstd::utf8::encode_utf8(name@))->Some_0.1,
                    },
                ),
                ..first
            };
            initialize_pool_error(created, again_name, again_description, again_emoji) is Some
        }),
{
}

/// The first reason, if any, for which a donation of `amount` from `donor` to
/// the pool at `pool_key` rejects.
pub open spec fn donation_error(
    pool_key: Address,
    pool: Pool,
    vault: Wallet,
    record: Option<DonationRecord>,
    donor: Wallet,
    amount: u64,
) -> Option<ErrorCode> {
    if !donor.is_signer {
        Some(ErrorCode::AccountNotSigner)
    } else if !is_vault_of(vault.key, pool_key) {
        Some(ErrorCode::ConstraintSeeds)
    } else if record is Some {
        Some(ErrorCode::AccountAlreadyInUse)
    } else if amount == 0 {
        Some(ErrorCode::InvalidAmount)
    } else if donor.lamports < amount {
        Some(ErrorCode::InsufficientLamports)
    } else if vault.lamports + amount > u64::MAX || pool.total_donated + amount > u64::MAX
        || pool.donor_count + 1 > u64::MAX {
        Some(ErrorCode::ArithmeticOverflow)
    } else {
        None
    }
}

/// Moves `amount` from the donor to the vault, counts it in the pool, and
/// writes the donation's record.
fn donate(
    pool_key: &Address,
    pool: &mut Pool,
    vault: &mut Wallet,
    record: &mut Option<DonationRecord>,
    donor: &mut Wallet,
    amount: u64,
    donation_type: u8,
    timestamp: i64,
) -> (r: Result<DonationMade, ErrorCode>)
    ensures
        r == match donation_error(*pool_key, *old(pool), *old(vault), *old(record), *old(donor), amount) {
            Some(e) => Err::<DonationMade, ErrorCode>(e),
            None => Ok(DonationMade { donor: old(donor).key, pool: *pool_key, amount, donation_type }),
        },
        r is Err ==> *final(pool) == *old(pool) && *final(vault) == *old(vault) && *final(record)
            == *old(record) && *final(donor) == *old(donor),
        r is Ok ==> {
            &&& *final(pool) == old(pool).after_donation(amount)
            &&& *final(vault) == (Wallet { lamports: (old(vault).lamports + amount) as u64, ..*old(vault) })
            &&& *final(donor) == (Wallet { lamports: (old(donor).lamports - amount) as u64, ..*old(donor) })
            &&& *final(record) == Some(
                DonationRecord { donor: old(donor).key, pool: *pool_key, amount, timestamp, donation_type },
            )
        },
{
    if !donor.is_signer {
        return Err(ErrorCode::AccountNotSigner);
    }
    if !is_derived_address(&vault.key, &VAULT_TAG, &pool_key.bytes, &Address::new(PROGRAM_ID)) {
        return Err(ErrorCode::ConstraintSeeds);
    }
    if record.is_some() {
        return Err(ErrorCode::AccountAlreadyInUse);
    }
    if amount == 0 {
        return Err(ErrorCode::InvalidAmount);
    }
    if donor.lamports < amount {
        return Err(ErrorCode::InsufficientLamports);
    }
    let total = match pool.total_donated.checked_add(amount) {
        Some(t) => t,
        None => {
            return Err(ErrorCode::ArithmeticOverflow);
        },
    };
    let count = match pool.donor_count.checked_add(1) {
        Some(c) => c,
        None => {
            return Err(ErrorCode::ArithmeticOverflow);
        },
    };
    if vault.lamports > u64::MAX - amount {
        return Err(ErrorCode::ArithmeticOverflow);
    }
    move_lamports(donor, vault, amount);
    pool.total_donated = total;
    pool.donor_count = count;
    *record = Some(
        DonationRecord { donor: donor.key, pool: *pool_key, amount, timestamp, donation_type },
    );
    Ok(DonationMade { donor: donor.key, pool: *pool_key, amount, donation_type })
}


/// Sum of the amounts of `records`.
pub open spec fn total_amount(records: Seq<DonationRecord>) -> int
    decreases records.len(),
{
    if records.len() == 0 {
        0
    } else {
        total_amount(records.drop_last()) + records.last().amount
    }
}

/// The pool after each donation of `records` was counted in it, in order.
pub open spec fn after_donations(pool: Pool, records: Seq<DonationRecord>) -> Pool
    decreases records.len(),
{
    if records.len() == 0 {
        pool
    } else {
        after_donations(pool, records.drop_last()).after_donation(records.last().amount)
    }
}

/// A pool's totals follow its records: after the donations of `records` have
/// succeeded in turn, `total_donated` has grown by the sum of their amounts and
/// `donor_count` by their number (so a new pool holds exactly those sums).
pub proof fn lemma_totals_follow_records(pool: Pool, records: Seq<DonationRecord>)
    requires
        pool.total_donated + total_amount(records) <= u64::MAX,
        pool.donor_count + records.len() <= u64::MAX,
    ensures
        after_donations(pool, records).total_donated == pool.total_donated + total_amount(records),
        after_donations(pool, records).donor_count == pool.donor_count + records.len(),
        after_donations(pool, records).authority == pool.authority,
        after_donations(pool, records).name == pool.name,
    decreases records.len(),
{
    if records.len() > 0 {
        lemma_total_amount_nonneg(records.drop_last());
        lemma_totals_follow_records(pool, records.drop_last());
    }
}

proof fn lemma_total_amount_nonneg(records: Seq<DonationRecord>)
    ensures
        total_amount(records) >= 0,
    decreases records.len(),
{
    if records.len() > 0 {
        lemma_total_amount_nonneg(records.drop_last());
    }
}

/// Accounts of `one_tap_donate`: the pool, its vault, the slot of the new donation
/// record, and the signing donor.
#[derive(Clone, Debug, PartialEq, Eq)]
pub struct OneTapDonate {
    pub pool_key: Address,
    pub pool: Pool,
    pub pool_vault: Wallet,
    pub donation_record_key: Address,
    pub donation_record: Option<DonationRecord>,
    pub donor: Wallet,
}

impl OneTapDonate {
    /// The first reason, if any, for which a donation of `amount` rejects.
    pub open spec fn error(self, amount: u64) -> Option<ErrorCode> {
        donation_error(self.pool_key, self.pool, self.pool_vault, self.donation_record, self.donor, amount)
    }

    /// The accounts after a donation of `amount` of the given type at `timestamp`.
    pub open spec fn after(self, amount: u64, donation_type: u8, timestamp: i64) -> OneTapDonate {
        OneTapDonate {
            pool: self.pool.after_donation(amount),
            pool_vault: Wallet { lamports: (self.pool_vault.lamports + amount) as u64, ..self.pool_vault },
            donor: Wallet { lamports: (self.donor.lamports - amount) as u64, ..self.donor },
            donation_record: Some(
                DonationRecord {
                    donor: self.donor.key,
                    pool: self.pool_key,
                    amount,
                    timestamp,
                    donation_type,
                },
            ),
            ..self
        }
    }
}

/// Accounts of `donate_to_pool`: the pool, its vault, the slot of the new donation
/// record, and the signing donor.
#[derive(Clone, Debug, PartialEq, Eq)]
pub struct DonateToPool {
    pub pool_key: Address,
    pub pool: Pool,
    pub pool_vault: Wallet,
    pub donation_record_key: Address,
    pub donation_record: Option<DonationRecord>,
    pub donor: Wallet,
}

impl DonateToPool {
    /// The first reason, if any, for which a donation of `amount` rejects.
    pub open spec fn error(self, amount: u64) -> Option<ErrorCode> {
        donation_error(self.pool_key, self.pool, self.pool_vault, self.donation_record, self.donor, amount)
    }

    /// The accounts after a donation of `amount` of the given type at `timestamp`.
    pub open spec fn after(self, amount: u64, donation_type: u8, timestamp: i64) -> DonateToPool {
        DonateToPool {
            pool: self.pool.after_donation(amount),
            pool_vault: Wallet { lamports: (self.pool_vault.lamports + amount) as u64, ..self.pool_vault },
            donor: Wallet { lamports: (self.donor.lamports - amount) as u64, ..self.donor },
            donation_record: Some(
                DonationRecord {
                    donor: self.donor.key,
                    pool: self.pool_key,
                    amount,
                    timestamp,
                    donation_type,
                },
            ),
            ..self
        }
    }
}

/// Donates the fixed `ONE_TAP_AMOUNT` from the signer to the pool's vault and
/// records it as a one-tap donation at `timestamp`.
pub fn one_tap_donate(ctx: &mut OneTapDonate, timestamp: i64) -> (r: Result<DonationMade, ErrorCode>)
    ensures
        r == match old(ctx).error(ONE_TAP_AMOUNT) {
            Some(e) => Err::<DonationMade, ErrorCode>(e),
            None => Ok(
                DonationMade {
                    donor: old(ctx).donor.key,
                    pool: old(ctx).pool_key,
                    amount: ONE_TAP_AMOUNT,
                    donation_type: DONATION_ONE_TAP,
                },
            ),
        },
        r is Err ==> *final(ctx) == *old(ctx),
        r is Ok ==> *final(ctx) == old(ctx).after(ONE_TAP_AMOUNT, DONATION_ONE_TAP, timestamp),
        r is Ok ==> final(ctx).pool.total_donated == old(ctx).pool.total_donated + ONE_TAP_AMOUNT
            && final(ctx).pool.donor_count == old(ctx).pool.donor_count + 1,
        old(ctx).pool.total_donated + ONE_TAP_AMOUNT > u64::MAX ==> r is Err,
{
    donate(
        &ctx.pool_key,
        &mut ctx.pool,
        &mut ctx.pool_vault,
        &mut ctx.donation_record,
        &mut ctx.donor,
        ONE_TAP_AMOUNT,
        DONATION_ONE_TAP,
        timestamp,
    )
}

/// Donates `amount` from the signer to the pool's vault and records it as a
/// donation of a chosen amount at `timestamp`; a zero amount is rejected.
pub fn donate_to_pool(ctx: &mut DonateToPool, amount: u64, timestamp: i64) -> (r: Result<
    DonationMade,
    ErrorCode,
>)
    ensures
        r == match old(ctx).error(amount) {
            Some(e) => Err::<DonationMade, ErrorCode>(e),
            None => Ok(
                DonationMade {
                    donor: old(ctx).donor.key,
                    pool: old(ctx).pool_key,
                    amount,
                    donation_type: DONATION_CUSTOM,
                },
            ),
        },
        r is Err ==> *final(ctx) == *old(ctx),
        r is Ok ==> *final(ctx) == old(ctx).after(amount, DONATION_CUSTOM, timestamp),
        r is Ok ==> final(ctx).pool.total_donated == old(ctx).pool.total_donated + amount
            && final(ctx).pool.donor_count == old(ctx).pool.donor_count + 1,
        old(ctx).pool.total_donated + amount > u64::MAX ==> r is Err,
        amount == 0 ==> r is Err,
{
    donate(
        &ctx.pool_key,
        &mut ctx.pool,
        &mut ctx.pool_vault,
        &mut ctx.donation_record,
        &mut ctx.donor,
        amount,
        DONATION_CUSTOM,
        timestamp,
    )
}

/// Accounts of `withdraw_from_pool`: the pool, its vault, the account that
/// receives the value, and the signer that must be the pool's authority.
#[derive(Clone, Debug, PartialEq, Eq)]
pub struct WithdrawFromPool {
    pub pool_key: Address,
    pub pool: Pool,
    pub pool_vault: Wallet,
    pub recipient: Wallet,
    pub authority: Wallet,
}

impl WithdrawFromPool {
    /// The first reason, if any, for which a withdrawal of `amount` rejects.
    pub open spec fn error(self, amount: u64) -> Option<ErrorCode> {
        if !self.authority.is_signer {
            Some(ErrorCode::AccountNotSigner)
        } else if self.pool.authority@ != self.authority.key@ {
            Some(ErrorCode::ConstraintHasOne)
        } else if !is_vault_of(self.pool_vault.key, self.pool_key) {
            Some(ErrorCode::ConstraintSeeds)
        } else if amount == 0 {
            Some(ErrorCode::InvalidAmount)
        } else if self.pool_vault.lamports < amount {
            Some(ErrorCode::InsufficientFunds)
        } else if self.recipient.lamports + amount > u64::MAX {
            Some(ErrorCode::ArithmeticOverflow)
        } else {
            None
        }
    }
}

/// Moves `amount` directly from the pool's vault to the recipient account,
/// on the pool authority's signature.
pub fn withdraw_from_pool(ctx: &mut WithdrawFromPool, amount: u64, recipient: Address) -> (r: Result<
    PoolWithdrawal,
    ErrorCode,
>)
    ensures
        r == match old(ctx).error(amount) {
            Some(e) => Err::<PoolWithdrawal, ErrorCode>(e),
            None => Ok(PoolWithdrawal { pool: old(ctx).pool_key, recipient, amount }),
        },
        r is Err ==> *final(ctx) == *old(ctx),
        r is Ok ==> *final(ctx) == (WithdrawFromPool {
            pool_vault: Wallet { lamports: (old(ctx).pool_vault.lamports - amount) as u64, ..old(ctx).pool_vault },
            recipient: Wallet { lamports: (old(ctx).recipient.lamports + amount) as u64, ..old(ctx).recipient },
            ..*old(ctx)
        }),
        amount > old(ctx).pool_vault.lamports ==> r is Err && final(ctx).pool_vault
            == old(ctx).pool_vault && final(ctx).recipient == old(ctx).recipient,
{
    if !ctx.authority.is_signer {
        return Err(ErrorCode::AccountNotSigner);
    }
    if !ctx.pool.authority.same_as(&ctx.authority.key) {
        return Err(ErrorCode::ConstraintHasOne);
    }
    if !is_derived_address(&ctx.pool_vault.key, &VAULT_TAG, &ctx.pool_key.bytes, &Address::new(PROGRAM_ID)) {
        return Err(ErrorCode::ConstraintSeeds);
    }
    if amount == 0 {
        return Err(ErrorCode::InvalidAmount);
    }
    if ctx.pool_vault.lamports < amount {
        return Err(ErrorCode::InsufficientFunds);
    }
    if ctx.recipient.lamports > u64::MAX - amount {
        return Err(ErrorCode::ArithmeticOverflow);
    }
    move_lamports(&mut ctx.pool_vault, &mut ctx.recipient, amount);
    Ok(PoolWithdrawal { pool: ctx.pool_key, recipient, amount })
}

} // verus!
