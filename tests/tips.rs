use umanity::address::{Address, Wallet};
use umanity::tips::{
    find_user_address, register_user, send_tip, toggle_active, update_profile, ErrorCode,
    RegisterUser, SendTip, TipRecord, ToggleActive, UpdateProfile, UserProfile, PROGRAM_ID,
};

fn key(b: u8) -> Address {
    Address::new([b; 32])
}

fn signer(b: u8, lamports: u64) -> Wallet {
    Wallet { key: key(b), lamports, is_signer: true }
}

fn register(owner: Wallet, username: &str, display_name: &str) -> (Address, UserProfile) {
    let mut ctx = RegisterUser {
        user_profile_key: find_user_address(&owner.key).unwrap().0,
        user_profile: None,
        owner,
    };
    register_user(&mut ctx, username.to_string(), display_name.to_string()).unwrap();
    (ctx.user_profile_key, ctx.user_profile.unwrap())
}

fn tip_ctx(alice_lamports: u64) -> SendTip {
    let alice = signer(1, alice_lamports);
    let bob = Wallet { key: key(2), lamports: 0, is_signer: false };
    let (ak, ap) = register(alice, "alice", "Alice");
    let (bk, bp) = register(Wallet { is_signer: true, ..bob }, "bob", "Bob");
    SendTip {
        sender_profile_key: ak,
        sender_profile: ap,
        recipient_profile_key: bk,
        recipient_profile: bp,
        tip_record_key: key(77),
        tip_record: None,
        sender: alice,
        recipient: bob,
    }
}

#[test]
fn user_address_is_derived_from_identity() {
    let (a, bump) = find_user_address(&key(1)).unwrap();
    assert_eq!(find_user_address(&key(1)).unwrap(), (a, bump));
    assert_ne!(a, key(1));
    assert_ne!(a.bytes, PROGRAM_ID);
    assert_ne!(find_user_address(&key(2)).unwrap().0, a);
}

#[test]
fn register_user_creates_profile() {
    let owner = signer(1, 0);
    let mut ctx = RegisterUser {
        user_profile_key: find_user_address(&owner.key).unwrap().0,
        user_profile: None,
        owner,
    };
    let event = register_user(&mut ctx, "alice".to_string(), "Alice".to_string()).unwrap();
    assert_eq!(event.user, key(1));
    assert_eq!(event.username, "alice");
    let p = ctx.user_profile.unwrap();
    assert_eq!(p.owner, key(1));
    assert_eq!(p.username, "alice");
    assert_eq!(p.display_name, "Alice");
    assert_eq!(p.bio, "");
    assert_eq!((p.total_received, p.total_sent, p.tip_count_received, p.tip_count_sent), (0, 0, 0, 0));
    assert!(p.is_active);
    assert_eq!(p.bump, find_user_address(&key(1)).unwrap().1);
}

#[test]
fn register_user_twice_fails_and_keeps_profile() {
    let owner = signer(1, 0);
    let mut ctx = RegisterUser {
        user_profile_key: find_user_address(&owner.key).unwrap().0,
        user_profile: None,
        owner,
    };
    register_user(&mut ctx, "alice".to_string(), "Alice".to_string()).unwrap();
    let before = ctx.clone();
    let r = register_user(&mut ctx, "alice".to_string(), "Other".to_string());
    assert_eq!(r, Err(ErrorCode::AccountAlreadyInUse));
    assert_eq!(ctx, before);
}

#[test]
fn register_user_rejects_bad_input() {
    let owner = signer(1, 0);
    let mut ctx = RegisterUser { user_profile_key: key(5), user_profile: None, owner };
    assert_eq!(register_user(&mut ctx, "a".to_string(), "A".to_string()), Err(ErrorCode::ConstraintSeeds));
    ctx.user_profile_key = find_user_address(&owner.key).unwrap().0;
    ctx.owner.is_signer = false;
    assert_eq!(register_user(&mut ctx, "a".to_string(), "A".to_string()), Err(ErrorCode::AccountNotSigner));
    ctx.owner.is_signer = true;
    assert_eq!(register_user(&mut ctx, "a".repeat(31), "A".to_string()), Err(ErrorCode::FieldTooLong));
    assert_eq!(register_user(&mut ctx, "a".to_string(), "A".repeat(51)), Err(ErrorCode::FieldTooLong));
    assert!(ctx.user_profile.is_none());
    assert!(register_user(&mut ctx, "a".repeat(30), "A".repeat(50)).is_ok());
}

#[test]
fn alice_tips_bob() {
    let mut ctx = tip_ctx(1_000);
    let event = send_tip(&mut ctx, 500, "thanks".to_string(), 99).unwrap();
    assert_eq!(event.sender, key(1));
    assert_eq!(event.recipient, key(2));
    assert_eq!(event.amount, 500);
    assert_eq!(event.message, "thanks");
    assert_eq!(ctx.sender_profile.total_sent, 500);
    assert_eq!(ctx.sender_profile.tip_count_sent, 1);
    assert_eq!(ctx.recipient_profile.total_received, 500);
    assert_eq!(ctx.recipient_profile.tip_count_received, 1);
    assert_eq!(ctx.sender_profile.total_received, 0);
    assert_eq!(ctx.recipient_profile.total_sent, 0);
    assert_eq!(ctx.sender.lamports, 500);
    assert_eq!(ctx.recipient.lamports, 500);
    assert_eq!(
        ctx.tip_record,
        Some(TipRecord {
            sender: key(1),
            recipient: key(2),
            amount: 500,
            message: "thanks".to_string(),
            timestamp: 99,
        })
    );
}

#[test]
fn send_tip_rejects_zero_and_long_message() {
    let mut ctx = tip_ctx(1_000);
    let before = ctx.clone();
    assert_eq!(send_tip(&mut ctx, 0, "hi".to_string(), 1), Err(ErrorCode::InvalidAmount));
    assert_eq!(ctx, before);
    assert_eq!(send_tip(&mut ctx, 5, "m".repeat(281), 1), Err(ErrorCode::MessageTooLong));
    assert_eq!(ctx, before);
    assert!(send_tip(&mut ctx, 5, "m".repeat(280), 1).is_ok());
}

#[test]
fn send_tip_message_length_counts_bytes() {
    let mut ctx = tip_ctx(1_000);
    // 141 two-byte characters: 282 bytes.
    assert_eq!(send_tip(&mut ctx, 5, "é".repeat(141), 1), Err(ErrorCode::MessageTooLong));
    assert!(send_tip(&mut ctx, 5, "é".repeat(140), 1).is_ok());
}

#[test]
fn send_tip_rejects_bad_accounts_and_funds() {
    let mut ctx = tip_ctx(100);
    let before = ctx.clone();
    ctx.sender.is_signer = false;
    assert_eq!(send_tip(&mut ctx, 5, "x".to_string(), 1), Err(ErrorCode::AccountNotSigner));
    ctx.sender.is_signer = true;
    ctx.recipient_profile_key = key(9);
    assert_eq!(send_tip(&mut ctx, 5, "x".to_string(), 1), Err(ErrorCode::ConstraintSeeds));
    ctx.recipient_profile_key = before.recipient_profile_key;
    ctx.tip_record = before.tip_record.clone().or(Some(TipRecord {
        sender: key(1),
        recipient: key(2),
        amount: 1,
        message: String::new(),
        timestamp: 0,
    }));
    assert_eq!(send_tip(&mut ctx, 5, "x".to_string(), 1), Err(ErrorCode::AccountAlreadyInUse));
    ctx.tip_record = None;
    assert_eq!(send_tip(&mut ctx, 101, "x".to_string(), 1), Err(ErrorCode::InsufficientLamports));
    assert_eq!(ctx, before);
}

#[test]
fn send_tip_overflow_changes_neither_profile() {
    let mut ctx = tip_ctx(100);
    ctx.recipient_profile.total_received = u64::MAX;
    let before = ctx.clone();
    assert_eq!(send_tip(&mut ctx, 1, "x".to_string(), 1), Err(ErrorCode::ArithmeticOverflow));
    assert_eq!(ctx, before);
    assert_eq!(ctx.sender_profile.total_sent, 0);
}

fn update_ctx() -> UpdateProfile {
    let owner = signer(1, 0);
    let (k, p) = register(owner, "alice", "Alice");
    UpdateProfile { user_profile_key: k, user_profile: p, owner }
}

#[test]
fn update_profile_replaces_given_fields() {
    let mut ctx = update_ctx();
    assert_eq!(update_profile(&mut ctx, None, Some("likes tea".to_string())), Ok(()));
    assert_eq!(ctx.user_profile.display_name, "Alice");
    assert_eq!(ctx.user_profile.bio, "likes tea");
    assert_eq!(update_profile(&mut ctx, Some("Al".to_string()), None), Ok(()));
    assert_eq!(ctx.user_profile.display_name, "Al");
    assert_eq!(ctx.user_profile.bio, "likes tea");
    assert_eq!(update_profile(&mut ctx, None, None), Ok(()));
    assert_eq!(ctx.user_profile.display_name, "Al");
}

#[test]
fn update_profile_rejects_long_fields() {
    let mut ctx = update_ctx();
    let before = ctx.clone();
    let r = update_profile(&mut ctx, Some("n".repeat(51)), Some("ok".to_string()));
    assert_eq!(r, Err(ErrorCode::NameTooLong));
    assert_eq!(ctx, before);
    let r = update_profile(&mut ctx, Some("ok".to_string()), Some("b".repeat(281)));
    assert_eq!(r, Err(ErrorCode::BioTooLong));
    assert_eq!(ctx, before);
    let r = update_profile(&mut ctx, Some("n".repeat(50)), Some("b".repeat(280)));
    assert_eq!(r, Ok(()));
}

#[test]
fn update_profile_requires_owner() {
    let mut ctx = update_ctx();
    ctx.user_profile.owner = key(3);
    assert_eq!(update_profile(&mut ctx, Some("x".to_string()), None), Err(ErrorCode::ConstraintHasOne));
    let mut ctx = update_ctx();
    ctx.owner.is_signer = false;
    assert_eq!(update_profile(&mut ctx, Some("x".to_string()), None), Err(ErrorCode::AccountNotSigner));
    let mut ctx = update_ctx();
    ctx.user_profile_key = key(8);
    assert_eq!(update_profile(&mut ctx, Some("x".to_string()), None), Err(ErrorCode::ConstraintSeeds));
    assert_eq!(ctx.user_profile.display_name, "Alice");
}

#[test]
fn toggle_active_flips_flag() {
    let u = update_ctx();
    let mut ctx = ToggleActive { user_profile_key: u.user_profile_key, user_profile: u.user_profile, owner: u.owner };
    assert_eq!(toggle_active(&mut ctx), Ok(()));
    assert!(!ctx.user_profile.is_active);
    assert_eq!(toggle_active(&mut ctx), Ok(()));
    assert!(ctx.user_profile.is_active);
    ctx.owner = signer(4, 0);
    assert_eq!(toggle_active(&mut ctx), Err(ErrorCode::ConstraintSeeds));
    assert!(ctx.user_profile.is_active);
}
