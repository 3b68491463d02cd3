use bio_scholar_vault::identity::PublicKey;
use bio_scholar_vault::release::{release_grant, transfer, Account, ReleaseError, ReleaseGrant};

fn key(tag: u8) -> PublicKey {
    PublicKey { bytes: [tag; 32] }
}

fn grant(vault: u64, researcher: u64, authority: u8, scholar_agent: u8) -> ReleaseGrant {
    ReleaseGrant {
        vault: Account { balance: vault },
        researcher: Account { balance: researcher },
        authority: key(authority),
        scholar_agent: key(scholar_agent),
    }
}

#[test]
fn scenario_authorized_release() {
    let mut ctx = grant(100, 0, 1, 1);
    let r = release_grant(&mut ctx, 40, String::from("h1"));
    assert_eq!(r, Ok(()));
    assert_eq!(ctx.vault.balance, 60);
    assert_eq!(ctx.researcher.balance, 40);
}

#[test]
fn scenario_wrong_agent_rejected() {
    let mut ctx = grant(100, 0, 1, 2);
    let r = release_grant(&mut ctx, 40, String::from("h1"));
    assert_eq!(r, Err(ReleaseError::Unauthorized));
    assert_eq!(ctx.vault.balance, 100);
    assert_eq!(ctx.researcher.balance, 0);
}

#[test]
fn scenario_vault_too_small() {
    let mut ctx = grant(30, 0, 1, 1);
    let r = release_grant(&mut ctx, 40, String::from("h1"));
    assert_eq!(r, Err(ReleaseError::InsufficientFunds));
    assert_eq!(ctx.vault.balance, 30);
    assert_eq!(ctx.researcher.balance, 0);
}

#[test]
fn scenario_zero_amount_release() {
    let mut ctx = grant(100, 50, 1, 1);
    let r = release_grant(&mut ctx, 0, String::from("h1"));
    assert_eq!(r, Ok(()));
    assert_eq!(ctx.vault.balance, 100);
    assert_eq!(ctx.researcher.balance, 50);
}

#[test]
fn unauthorized_call_repeated_never_mutates() {
    let mut ctx = grant(100, 7, 3, 4);
    let mut n: usize = 0;
    while n < 5 {
        let r = release_grant(&mut ctx, 25, String::from("h1"));
        assert_eq!(r, Err(ReleaseError::Unauthorized));
        assert_eq!(ctx.vault.balance, 100);
        assert_eq!(ctx.researcher.balance, 7);
        n += 1;
    }
}

#[test]
fn successful_call_conserves_value() {
    let mut ctx = grant(75, 25, 9, 9);
    let before = ctx.vault.balance + ctx.researcher.balance;
    let r = release_grant(&mut ctx, 33, String::from("artifact"));
    assert_eq!(r, Ok(()));
    assert_eq!(ctx.vault.balance + ctx.researcher.balance, before);
    assert_eq!(ctx.vault.balance, 42);
    assert_eq!(ctx.researcher.balance, 58);
}

#[test]
fn recipient_overflow_is_transfer_failure() {
    let mut ctx = grant(10, u64::MAX, 5, 5);
    let r = release_grant(&mut ctx, 1, String::from("h1"));
    assert_eq!(r, Err(ReleaseError::TransferFailure));
    assert_eq!(ctx.vault.balance, 10);
    assert_eq!(ctx.researcher.balance, u64::MAX);
}

#[test]
fn guard_rejects_before_funds_are_checked() {
    let mut ctx = grant(30, 0, 1, 2);
    let r = release_grant(&mut ctx, 40, String::from("h1"));
    assert_eq!(r, Err(ReleaseError::Unauthorized));
    assert_eq!(ctx.vault.balance, 30);
    assert_eq!(ctx.researcher.balance, 0);
}

#[test]
fn largest_amount_drains_vault() {
    let mut ctx = grant(u64::MAX, 0, 6, 6);
    let r = release_grant(&mut ctx, u64::MAX, String::from("h1"));
    assert_eq!(r, Ok(()));
    assert_eq!(ctx.vault.balance, 0);
    assert_eq!(ctx.researcher.balance, u64::MAX);
}

#[test]
fn transfer_moves_exact_amount() {
    let mut vault = Account { balance: 500 };
    let mut researcher = Account { balance: 20 };
    let r = transfer(&mut vault, &mut researcher, 123);
    assert_eq!(r, Ok(()));
    assert_eq!(vault.balance, 377);
    assert_eq!(researcher.balance, 143);
}

#[test]
fn transfer_rejects_overdraw() {
    let mut vault = Account { balance: 5 };
    let mut researcher = Account { balance: 20 };
    let r = transfer(&mut vault, &mut researcher, 6);
    assert_eq!(r, Err(ReleaseError::InsufficientFunds));
    assert_eq!(vault.balance, 5);
    assert_eq!(researcher.balance, 20);
}

#[test]
fn keys_compare_by_bytes() {
    let a = key(1);
    let b = key(1);
    let c = key(2);
    assert!(a.equals(&b));
    assert!(!a.equals(&c));
    let mut d = key(1);
    d.bytes[31] = 2;
    assert!(!a.equals(&d));
}
