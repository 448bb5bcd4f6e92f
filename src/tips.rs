//! The tipping ledger: one profile per identity at a derived address, tips
//! with a message between registered users, and owner-only profile edits.
use crate::address::{byte_len, derive_address, derived_address, move_lamports, str_byte_len, Address, Wallet};
use vstd::prelude::*;

verus! {

/// Id of the tipping program, under which its addresses are derived.
pub const PROGRAM_ID: [u8; 32] = [
    69, 222, 222, 62, 153, 68, 113, 157, 179, 6, 206, 208, 224, 54, 102, 99, 45, 81, 94, 229, 19,
    121, 253, 40, 213, 174, 109, 137, 54, 29, 234, 97,
];

/// Namespace tag of profile addresses (`b"user"`).
pub const USER_TAG: [u8; 4] = [117, 115, 101, 114];

pub const MAX_USERNAME_LEN: usize = 30;

pub const MAX_DISPLAY_NAME_LEN: usize = 50;

pub const MAX_BIO_LEN: usize = 280;

pub const MAX_MESSAGE_LEN: usize = 280;

/// The profile of one registered identity, with its running tip totals.
#[derive(Clone, Debug, PartialEq, Eq)]
pub struct UserProfile {
    pub owner: Address,
    pub username: String,
    pub display_name: String,
    pub bio: String,
    pub total_received: u64,
    pub total_sent: u64,
    pub tip_count_received: u64,
    pub tip_count_sent: u64,
    pub is_active: bool,
    pub bump: u8,
}

impl UserProfile {
    /// The text fields fit their maxima, in UTF-8 bytes.
    pub open spec fn wf(&self) -> bool {
        byte_len(self.username@) <= MAX_USERNAME_LEN && byte_len(self.display_name@)
            <= MAX_DISPLAY_NAME_LEN && byte_len(self.bio@) <= MAX_BIO_LEN
    }

    /// The profile after it sent a tip of `amount`.
    pub open spec fn after_sending(self, amount: u64) -> UserProfile {
        UserProfile {
            total_sent: (self.total_sent + amount) as u64,
            tip_count_sent: (self.tip_count_sent + 1) as u64,
            ..self
        }
    }

    /// The profile after it received a tip of `amount`.
    pub open spec fn after_receiving(self, amount: u64) -> UserProfile {
        UserProfile {
            total_received: (self.total_received + amount) as u64,
            tip_count_received: (self.tip_count_received + 1) as u64,
            ..self
        }
    }
}

/// The write-once history entry of one tip.
#[derive(Clone, Debug, PartialEq, Eq)]
pub struct TipRecord {
    pub sender: Address,
    pub recipient: Address,
    pub amount: u64,
    pub message: String,
    pub timestamp: i64,
}

/// Notification that a profile was registered.
#[derive(Clone, Debug, PartialEq, Eq)]
pub struct UserRegistered {
    pub user: Address,
    pub username: String,
}

/// Notification that a tip was sent.
#[derive(Clone, Debug, PartialEq, Eq)]
pub struct TipSent {
    pub sender: Address,
    pub recipient: Address,
    pub amount: u64,
    pub message: String,
}

/// Why an operation of the tipping ledger was rejected.
#[derive(Clone, Copy, Debug, PartialEq, Eq)]
pub enum ErrorCode {
    /// The amount is zero.
    InvalidAmount,
    /// The message is longer than `MAX_MESSAGE_LEN` bytes.
    MessageTooLong,
    /// The new display name is longer than `MAX_DISPLAY_NAME_LEN` bytes.
    NameTooLong,
    /// The new bio is longer than `MAX_BIO_LEN` bytes.
    BioTooLong,
    /// A required signature is missing.
    AccountNotSigner,
    /// An account is not at the address derived for it.
    ConstraintSeeds,
    /// The signer is not the profile's owner.
    ConstraintHasOne,
    /// The address to create a record at is already occupied.
    AccountAlreadyInUse,
    /// A text field of a new profile is longer than its maximum.
    FieldTooLong,
    /// The sender's balance is below the amount to transfer.
    InsufficientLamports,
    /// A counter or balance would exceed `u64::MAX`.
    ArithmeticOverflow,
}

/// The address, and its bump, of the profile of the identity `user`.
pub open spec fn user_address(user: Seq<u8>) -> Option<(Seq<u8>, u8)> {
    derived_address(USER_TAG@, user, PROGRAM_ID@)
}

/// Derives the address of the profile of `user`, with its bump.
pub fn find_user_address(user: &Address) -> (r: Option<(Address, u8)>)
    ensures
        r matches Some(p) ==> user_address(user@) == Some((p.0@, p.1)),
        r is None ==> user_address(user@) is None,
{
    derive_address(&USER_TAG, &user.bytes, &Address::new(PROGRAM_ID))
}

/// Whether `key` is the profile address of `user`, derived with `bump`.
pub open spec fn is_profile_of(key: Address, user: Address, bump: u8) -> bool {
    user_address(user@) matches Some(p) && p.0 == key@ && p.1 == bump
}

fn check_profile_address(key: &Address, user: &Address, bump: u8) -> (r: bool)
    ensures
        r == is_profile_of(*key, *user, bump),
{
    match find_user_address(user) {
        Some(p) => p.0.same_as(key) && p.1 == bump,
        None => false,
    }
}

/// Accounts of `register_user`: the profile's address and what it holds, and
/// the signing owner.
#[derive(Clone, Debug, PartialEq, Eq)]
pub struct RegisterUser {
    pub user_profile_key: Address,
    pub user_profile: Option<UserProfile>,
    pub owner: Wallet,
}

impl RegisterUser {
    /// The first reason, if any, for which `register_user` rejects.
    pub open spec fn error(self, username: Seq<char>, display_name: Seq<char>) -> Option<ErrorCode> {
        if !self.owner.is_signer {
            Some(ErrorCode::AccountNotSigner)
        } else if !(user_address(self.owner.key@) matches Some(p) && p.0 == self.user_profile_key@) {
            Some(ErrorCode::ConstraintSeeds)
        } else if self.user_profile is Some {
            Some(ErrorCode::AccountAlreadyInUse)
        } else if byte_len(username) > MAX_USERNAME_LEN || byte_len(display_name)
            > MAX_DISPLAY_NAME_LEN {
            Some(ErrorCode::FieldTooLong)
        } else {
            None
        }
    }
}

/// Creates the signer's profile at its derived address, with zero totals, an
/// empty bio, and active.
pub fn register_user(ctx: &mut RegisterUser, username: String, display_name: String) -> (r: Result<
    UserRegistered,
    ErrorCode,
>)
    ensures
        r == match old(ctx).error(username@, display_name@) {
            Some(e) => Err::<UserRegistered, ErrorCode>(e),
            None => Ok(UserRegistered { user: old(ctx).owner.key, username }),
        },
        r is Err ==> *final(ctx) == *old(ctx),
        old(ctx).user_profile is Some ==> r is Err,
        r is Ok ==> {
            let p = final(ctx).user_profile->Some_0;
            &&& final(ctx).user_profile is Some
            &&& final(ctx).user_profile_key == old(ctx).user_profile_key
            &&& final(ctx).owner == old(ctx).owner
            &&& p.owner == old(ctx).owner.key
            &&& p.username == username
            &&& p.display_name == display_name
            &&& p.bio@ == Seq::<char>::empty()
            &&& p.total_received == 0 && p.total_sent == 0
            &&& p.tip_count_received == 0 && p.tip_count_sent == 0
            &&& p.is_active
            &&& p.bump == user_address(old(ctx).owner.key@)->Some_0.1
            &&& p.wf()
        },
{
    if !ctx.owner.is_signer {
        return Err(ErrorCode::AccountNotSigner);
    }
    let bump = match find_user_address(&ctx.owner.key) {
        Some(p) => {
            if !p.0.same_as(&ctx.user_profile_key) {
                return Err(ErrorCode::ConstraintSeeds);
            }
            p.1
        },
        None => {
            return Err(ErrorCode::ConstraintSeeds);
        },
    };
    if ctx.user_profile.is_some() {
        return Err(ErrorCode::AccountAlreadyInUse);
    }
    if str_byte_len(&username) > MAX_USERNAME_LEN || str_byte_len(&display_name)
        > MAX_DISPLAY_NAME_LEN {
        return Err(ErrorCode::FieldTooLong);
    }
    let event = UserRegistered { user: ctx.owner.key, username: username.clone() };
    ctx.user_profile = Some(
        UserProfile {
            owner: ctx.owner.key,
            username,
            display_name,
            bio: String::new(),
            total_received: 0,
            total_sent: 0,
            tip_count_received: 0,
            tip_count_sent: 0,
            is_active: true,
            bump,
        },
    );
    Ok(event)
}


/// An identity registers once: once `register_user` has created the profile
/// in `first`, any later registration on the resulting accounts is rejected.
pub proof fn lemma_user_registered_once(
    first: RegisterUser,
    registered: RegisterUser,
    username: Seq<char>,
    display_name: Seq<char>,
)
    requires
        first.error(username, display_name) is None,
        registered.user_profile is Some,
        registered.user_profile_key == first.user_profile_key,
        registered.owner == first.owner,
    ensures
        registered.error(username, display_name) == Some(ErrorCode::AccountAlreadyInUse),
{
}

/// Accounts of `send_tip`: both profiles, the slot of the new tip record, the
/// signing sender and the recipient identity.
#[derive(Clone, Debug, PartialEq, Eq)]
pub struct SendTip {
    pub sender_profile_key: Address,
    pub sender_profile: UserProfile,
    pub recipient_profile_key: Address,
    pub recipient_profile: UserProfile,
    pub tip_record_key: Address,
    pub tip_record: Option<TipRecord>,
    pub sender: Wallet,
    pub recipient: Wallet,
}

impl SendTip {
    /// The first reason, if any, for which a tip of `amount` with `message` rejects.
    pub open spec fn error(self, amount: u64, message: Seq<char>) -> Option<ErrorCode> {
        if !self.sender.is_signer {
            Some(ErrorCode::AccountNotSigner)
        } else if !is_profile_of(self.sender_profile_key, self.sender.key, self.sender_profile.bump)
            || !is_profile_of(
            self.recipient_profile_key,
            self.recipient.key,
            self.recipient_profile.bump,
        ) {
            Some(ErrorCode::ConstraintSeeds)
        } else if self.tip_record is Some {
            Some(ErrorCode::AccountAlreadyInUse)
        } else if amount == 0 {
            Some(ErrorCode::InvalidAmount)
        } else if byte_len(message) > MAX_MESSAGE_LEN {
            Some(ErrorCode::MessageTooLong)
        } else if self.sender.lamports < amount {
            Some(ErrorCode::InsufficientLamports)
        } else if self.recipient.lamports + amount > u64::MAX || self.sender_profile.total_sent
            + amount > u64::MAX || self.sender_profile.tip_count_sent + 1 > u64::MAX
            || self.recipient_profile.total_received + amount > u64::MAX
            || self.recipient_profile.tip_count_received + 1 > u64::MAX {
            Some(ErrorCode::ArithmeticOverflow)
        } else {
            None
        }
    }

    /// The accounts after a tip of `amount` with `message` at `timestamp`.
    pub open spec fn after(self, amount: u64, message: String, timestamp: i64) -> SendTip {
        SendTip {
            sender_profile: self.sender_profile.after_sending(amount),
            recipient_profile: self.recipient_profile.after_receiving(amount),
            tip_record: Some(
                TipRecord {
                    sender: self.sender.key,
                    recipient: self.recipient.key,
                    amount,
                    message,
                    timestamp,
                },
            ),
            sender: Wallet { lamports: (self.sender.lamports - amount) as u64, ..self.sender },
            recipient: Wallet { lamports: (self.recipient.lamports + amount) as u64, ..self.recipient },
            ..self
        }
    }
}

/// Sum of the amounts of `tips`.
pub open spec fn tip_total(tips: Seq<TipRecord>) -> int
    decreases tips.len(),
{
    if tips.len() == 0 {
        0
    } else {
        tip_total(tips.drop_last()) + tips.last().amount
    }
}

/// The profile after it sent each tip of `tips`, in order.
pub open spec fn after_sending_all(profile: UserProfile, tips: Seq<TipRecord>) -> UserProfile
    decreases tips.len(),
{
    if tips.len() == 0 {
        profile
    } else {
        after_sending_all(profile, tips.drop_last()).after_sending(tips.last().amount)
    }
}

/// The profile after it received each tip of `tips`, in order.
pub open spec fn after_receiving_all(profile: UserProfile, tips: Seq<TipRecord>) -> UserProfile
    decreases tips.len(),
{
    if tips.len() == 0 {
        profile
    } else {
        after_receiving_all(profile, tips.drop_last()).after_receiving(tips.last().amount)
    }
}

proof fn lemma_tip_total_nonneg(tips: Seq<TipRecord>)
    ensures
        tip_total(tips) >= 0,
    decreases tips.len(),
{
    if tips.len() > 0 {
        lemma_tip_total_nonneg(tips.drop_last());
    }
}

/// A profile's sending totals follow its records: after the tips of `sent`
/// have succeeded in turn, `total_sent` has grown by the sum of their amounts
/// and `tip_count_sent` by their number, and the receiving totals are as they were.
pub proof fn lemma_sent_totals_follow_records(profile: UserProfile, sent: Seq<TipRecord>)
    requires
        profile.total_sent + tip_total(sent) <= u64::MAX,
        profile.tip_count_sent + sent.len() <= u64::MAX,
    ensures
        after_sending_all(profile, sent).total_sent == profile.total_sent + tip_total(sent),
        after_sending_all(profile, sent).tip_count_sent == profile.tip_count_sent + sent.len(),
        after_sending_all(profile, sent).total_received == profile.total_received,
        after_sending_all(profile, sent).tip_count_received == profile.tip_count_received,
    decreases sent.len(),
{
    if sent.len() > 0 {
        lemma_tip_total_nonneg(sent.drop_last());
        lemma_sent_totals_follow_records(profile, sent.drop_last());
    }
}

/// A profile's receiving totals follow its records: after the tips of
/// `received` have succeeded in turn, `total_received` has grown by the sum of
/// their amounts and `tip_count_received` by their number, and the sending
/// totals are as they were.
pub proof fn lemma_received_totals_follow_records(profile: UserProfile, received: Seq<TipRecord>)
    requires
        profile.total_received + tip_total(received) <= u64::MAX,
        profile.tip_count_received + received.len() <= u64::MAX,
    ensures
        after_receiving_all(profile, received).total_received == profile.total_received
            + tip_total(received),
        after_receiving_all(profile, received).tip_count_received == profile.tip_count_received
            + received.len(),
        after_receiving_all(profile, received).total_sent == profile.total_sent,
        after_receiving_all(profile, received).tip_count_sent == profile.tip_count_sent,
    decreases received.len(),
{
    if received.len() > 0 {
        lemma_tip_total_nonneg(received.drop_last());
        lemma_received_totals_follow_records(profile, received.drop_last());
    }
}

/// Moves `amount` from the sender to the recipient, counts it in both
/// profiles, and writes the tip's record with `message` and `timestamp`.
pub fn send_tip(ctx: &mut SendTip, amount: u64, message: String, timestamp: i64) -> (r: Result<
    TipSent,
    ErrorCode,
>)
    ensures
        r == match old(ctx).error(amount, message@) {
            Some(e) => Err::<TipSent, ErrorCode>(e),
            None => Ok(
                TipSent { sender: old(ctx).sender.key, recipient: old(ctx).recipient.key, amount, message },
            ),
        },
        r is Err ==> *final(ctx) == *old(ctx),
        r is Ok ==> *final(ctx) == old(ctx).after(amount, message, timestamp),
        r is Ok ==> {
            &&& final(ctx).sender_profile.total_sent == old(ctx).sender_profile.total_sent + amount
            &&& final(ctx).sender_profile.tip_count_sent == old(ctx).sender_profile.tip_count_sent + 1
            &&& final(ctx).recipient_profile.total_received == old(ctx).recipient_profile.total_received
                + amount
            &&& final(ctx).recipient_profile.tip_count_received
                == old(ctx).recipient_profile.tip_count_received + 1
        },
        amount == 0 || byte_len(message@) > MAX_MESSAGE_LEN ==> r is Err,
{
    if !ctx.sender.is_signer {
        return Err(ErrorCode::AccountNotSigner);
    }
    if !check_profile_address(&ctx.sender_profile_key, &ctx.sender.key, ctx.sender_profile.bump)
        || !check_profile_address(
        &ctx.recipient_profile_key,
        &ctx.recipient.key,
        ctx.recipient_profile.bump,
    ) {
        return Err(ErrorCode::ConstraintSeeds);
    }
    if ctx.tip_record.is_some() {
        return Err(ErrorCode::AccountAlreadyInUse);
    }
    if amount == 0 {
        return Err(ErrorCode::InvalidAmount);
    }
    if str_byte_len(&message) > MAX_MESSAGE_LEN {
        return Err(ErrorCode::MessageTooLong);
    }
    if ctx.sender.lamports < amount {
        return Err(ErrorCode::InsufficientLamports);
    }
    if ctx.recipient.lamports > u64::MAX - amount {
        return Err(ErrorCode::ArithmeticOverflow);
    }
    let total_sent = match ctx.sender_profile.total_sent.checked_add(amount) {
        Some(v) => v,
        None => {
            return Err(ErrorCode::ArithmeticOverflow);
        },
    };
    let count_sent = match ctx.sender_profile.tip_count_sent.checked_add(1) {
        Some(v) => v,
        None => {
            return Err(ErrorCode::ArithmeticOverflow);
        },
    };
    let total_received = match ctx.recipient_profile.total_received.checked_add(amount) {
        Some(v) => v,
        None => {
            return Err(ErrorCode::ArithmeticOverflow);
        },
    };
    let count_received = match ctx.recipient_profile.tip_count_received.checked_add(1) {
        Some(v) => v,
        None => {
            return Err(ErrorCode::ArithmeticOverflow);
        },
    };
    move_lamports(&mut ctx.sender, &mut ctx.recipient, amount);
    ctx.sender_profile.total_sent = total_sent;
    ctx.sender_profile.tip_count_sent = count_sent;
    ctx.recipient_profile.total_received = total_received;
    ctx.recipient_profile.tip_count_received = count_received;
    ctx.tip_record = Some(
        TipRecord {
            sender: ctx.sender.key,
            recipient: ctx.recipient.key,
            amount,
            message: message.clone(),
            timestamp,
        },
    );
    Ok(TipSent { sender: ctx.sender.key, recipient: ctx.recipient.key, amount, message })
}

/// The first reason, if any, for which the signer `owner` may not edit the
/// profile at `key`.
pub open spec fn owner_gate_error(key: Address, profile: UserProfile, owner: Wallet) -> Option<
    ErrorCode,
> {
    if !owner.is_signer {
        Some(ErrorCode::AccountNotSigner)
    } else if !is_profile_of(key, owner.key, profile.bump) {
        Some(ErrorCode::ConstraintSeeds)
    } else if profile.owner@ != owner.key@ {
        Some(ErrorCode::ConstraintHasOne)
    } else {
        None
    }
}

fn check_owner_gate(key: &Address, profile: &UserProfile, owner: &Wallet) -> (r: Option<ErrorCode>)
    ensures
        r == owner_gate_error(*key, *profile, *owner),
{
    if !owner.is_signer {
        Some(ErrorCode::AccountNotSigner)
    } else if !check_profile_address(key, &owner.key, profile.bump) {
        Some(ErrorCode::ConstraintSeeds)
    } else if !profile.owner.same_as(&owner.key) {
        Some(ErrorCode::ConstraintHasOne)
    } else {
        None
    }
}

/// Accounts of `update_profile`: the profile and its signing owner.
#[derive(Clone, Debug, PartialEq, Eq)]
pub struct UpdateProfile {
    pub user_profile_key: Address,
    pub user_profile: UserProfile,
    pub owner: Wallet,
}

impl UpdateProfile {
    /// The first reason, if any, for which the update rejects.
    pub open spec fn error(self, display_name: Option<String>, bio: Option<String>) -> Option<
        ErrorCode,
    > {
        match owner_gate_error(self.user_profile_key, self.user_profile, self.owner) {
            Some(e) => Some(e),
            None => if display_name matches Some(n) && byte_len(n@) > MAX_DISPLAY_NAME_LEN {
                Some(ErrorCode::NameTooLong)
            } else if bio matches Some(b) && byte_len(b@) > MAX_BIO_LEN {
                Some(ErrorCode::BioTooLong)
            } else {
                None
            },
        }
    }
}

/// Replaces the display name and the bio, each where one is given, on the
/// owner's signature; a field over its maximum rejects the whole update.
pub fn update_profile(ctx: &mut UpdateProfile, display_name: Option<String>, bio: Option<String>) -> (r:
    Result<(), ErrorCode>)
    ensures
        r == match old(ctx).error(display_name, bio) {
            Some(e) => Err::<(), ErrorCode>(e),
            None => Ok(()),
        },
        r is Err ==> *final(ctx) == *old(ctx),
        r is Ok ==> *final(ctx) == (UpdateProfile {
            user_profile: UserProfile {
                display_name: match display_name {
                    Some(n) => n,
                    None => old(ctx).user_profile.display_name,
                },
                bio: match bio {
                    Some(b) => b,
                    None => old(ctx).user_profile.bio,
                },
                ..old(ctx).user_profile
            },
            ..*old(ctx)
        }),
        (display_name matches Some(n) && byte_len(n@) > MAX_DISPLAY_NAME_LEN) ==> r is Err,
        (bio matches Some(b) && byte_len(b@) > MAX_BIO_LEN) ==> r is Err,
        display_name is None ==> final(ctx).user_profile.display_name
            == old(ctx).user_profile.display_name,
        bio is None ==> final(ctx).user_profile.bio == old(ctx).user_profile.bio,
        old(ctx).user_profile.wf() ==> final(ctx).user_profile.wf(),
{
    match check_owner_gate(&ctx.user_profile_key, &ctx.user_profile, &ctx.owner) {
        Some(e) => {
            return Err(e);
        },
        None => {},
    }
    match &display_name {
        Some(n) => {
            if str_byte_len(n) > MAX_DISPLAY_NAME_LEN {
                return Err(ErrorCode::NameTooLong);
            }
        },
        None => {},
    }
    match &bio {
        Some(b) => {
            if str_byte_len(b) > MAX_BIO_LEN {
                return Err(ErrorCode::BioTooLong);
            }
        },
        None => {},
    }
    match display_name {
        Some(n) => {
            ctx.user_profile.display_name = n;
        },
        None => {},
    }
    match bio {
        Some(b) => {
            ctx.user_profile.bio = b;
        },
        None => {},
    }
    Ok(())
}

/// Accounts of `toggle_active`: the profile and its signing owner.
#[derive(Clone, Debug, PartialEq, Eq)]
pub struct ToggleActive {
    pub user_profile_key: Address,
    pub user_profile: UserProfile,
    pub owner: Wallet,
}

/// Flips whether the profile is active, on the owner's signature.
pub fn toggle_active(ctx: &mut ToggleActive) -> (r: Result<(), ErrorCode>)
    ensures
        r == match owner_gate_error(old(ctx).user_profile_key, old(ctx).user_profile, old(ctx).owner) {
            Some(e) => Err::<(), ErrorCode>(e),
            None => Ok(()),
        },
        r is Err ==> *final(ctx) == *old(ctx),
        r is Ok ==> *final(ctx) == (ToggleActive {
            user_profile: UserProfile { is_active: !old(ctx).user_profile.is_active, ..old(ctx).user_profile },
            ..*old(ctx)
        }),
{
    match check_owner_gate(&ctx.user_profile_key, &ctx.user_profile, &ctx.owner) {
        Some(e) => Err(e),
        None => {
            ctx.user_profile.is_active = !ctx.user_profile.is_active;
            Ok(())
        },
    }
}

} // verus!
