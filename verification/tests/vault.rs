use lumenforge::vault::{
    deploy, validate_deposit_bounds, Deposit, Effect, Error, Event, LumenVault, MaxBalanceUpdated,
    MinDepositUpdated, OwnerProposed, OwnerTransferred, Paused, Rescued, Resumed, Withdraw,
};

const OWNER: &str = "GOWNERAAAAAAAAAAAAAAAAAAAAAAAAAAAAAAAAAAAAAAAAAAAAAAAAAA";
const DEPOSITOR: &str = "GDEPOSITORAAAAAAAAAAAAAAAAAAAAAAAAAAAAAAAAAAAAAAAAAAAAAA";
const SUCCESSOR: &str = "GSUCCESSORAAAAAAAAAAAAAAAAAAAAAAAAAAAAAAAAAAAAAAAAAAAAAA";
const RECIPIENT: &str = "GRECIPIENTAAAAAAAAAAAAAAAAAAAAAAAAAAAAAAAAAAAAAAAAAAAAAA";
const TOKEN: &str = "CTOKENAAAAAAAAAAAAAAAAAAAAAAAAAAAAAAAAAAAAAAAAAAAAAAAAAA";
const OTHER_TOKEN: &str = "COTHERTOKENAAAAAAAAAAAAAAAAAAAAAAAAAAAAAAAAAAAAAAAAAAAAA";

fn s(x: &str) -> String {
    x.to_string()
}

fn vault(min_deposit: i128, max_balance: Option<i128>) -> LumenVault {
    deploy(s(OWNER), s(TOKEN), min_deposit, max_balance)
}

/// Holdings of `token` by `account` and by the vault, starting from the
/// given amounts, after the transfers among `effects`.
fn holdings(effects: &[Effect], token: &str, account: &str, account_start: i128, vault_start: i128) -> (i128, i128) {
    let (mut acc, mut vlt) = (account_start, vault_start);
    for e in effects {
        match e {
            Effect::TransferIn { token: t, from, amount } if t == token => {
                vlt += amount;
                if from == account {
                    acc -= amount;
                }
            }
            Effect::TransferOut { token: t, to, amount } if t == token => {
                vlt -= amount;
                if to == account {
                    acc += amount;
                }
            }
            _ => {}
        }
    }
    (acc, vlt)
}

fn published(effects: &[Effect]) -> Vec<Event> {
    effects
        .iter()
        .filter_map(|e| match e {
            Effect::Publish(ev) => Some(ev.clone()),
            _ => None,
        })
        .collect()
}

#[test]
fn deposit_and_withdraw_move_real_token_balances() {
    let mut client = vault(0, None);
    let mut fx = Vec::new();
    let minted = 1_000;
    assert_eq!(holdings(&fx, TOKEN, OWNER, minted, 0).0, 1_000);

    assert_eq!(client.deposit(s(OWNER), 500, &mut fx), Ok(500));
    assert_eq!(client.balance(), 500);
    assert_eq!(holdings(&fx, TOKEN, OWNER, minted, 0), (500, 500));

    assert_eq!(client.withdraw(200, &mut fx), Ok(300));
    assert_eq!(holdings(&fx, TOKEN, OWNER, minted, 0), (700, 300));
}

#[test]
fn withdraw_more_than_balance_fails() {
    let mut client = vault(0, None);
    let mut fx = Vec::new();
    client.deposit(s(OWNER), 100, &mut fx).unwrap();

    let result = client.withdraw(1000, &mut fx);
    assert_eq!(result, Err(Error::InsufficientBalance));
}

#[test]
fn deposit_non_positive_amount_fails() {
    let mut client = vault(0, None);
    let mut fx = Vec::new();
    let result = client.deposit(s(DEPOSITOR), 0, &mut fx);
    assert_eq!(result, Err(Error::InvalidAmount));
}

#[test]
fn deposit_below_minimum_fails() {
    let mut client = vault(100, None);
    let mut fx = Vec::new();
    let result = client.deposit(s(DEPOSITOR), 50, &mut fx);
    assert_eq!(result, Err(Error::BelowMinimumDeposit));

    assert_eq!(client.deposit(s(DEPOSITOR), 100, &mut fx), Ok(100));
}

#[test]
fn deposit_exceeding_max_balance_fails() {
    let mut client = vault(0, Some(300));
    let mut fx = Vec::new();
    client.deposit(s(DEPOSITOR), 300, &mut fx).unwrap();
    let result = client.deposit(s(DEPOSITOR), 1, &mut fx);
    assert_eq!(result, Err(Error::ExceedsMaxBalance));
}

#[test]
fn set_min_deposit_and_max_balance_requires_owner() {
    let mut client = vault(0, None);
    let mut fx = Vec::new();

    client.set_min_deposit(50, &mut fx).unwrap();
    assert_eq!(client.min_deposit(), 50);
    assert_eq!(fx[0], Effect::RequireAuth(s(OWNER)));

    client.set_max_balance(Some(1_000), &mut fx).unwrap();
    assert_eq!(client.max_balance(), Some(1_000));

    client.set_max_balance(None, &mut fx).unwrap();
    assert_eq!(client.max_balance(), None);
}

#[test]
fn rescue_moves_a_different_token_but_not_the_vault_token() {
    let client = vault(0, None);
    let mut fx = Vec::new();
    let vault_other_holdings = 777;

    client.rescue(s(OTHER_TOKEN), s(RECIPIENT), 777, &mut fx).unwrap();
    assert_eq!(holdings(&fx, OTHER_TOKEN, RECIPIENT, 0, vault_other_holdings), (777, 0));

    let result = client.rescue(s(TOKEN), s(RECIPIENT), 1, &mut fx);
    assert_eq!(result, Err(Error::CannotRescueVaultToken));
}

#[test]
fn paused_vault_rejects_deposits() {
    let mut client = vault(0, None);
    let mut fx = Vec::new();

    client.pause(&mut fx).unwrap();
    assert!(client.paused());

    let result = client.deposit(s(DEPOSITOR), 100, &mut fx);
    assert_eq!(result, Err(Error::Paused));

    client.unpause(&mut fx).unwrap();
    assert!(!client.paused());
    assert_eq!(client.deposit(s(DEPOSITOR), 100, &mut fx), Ok(100));
}

#[test]
fn two_step_ownership_transfer() {
    let mut client = vault(0, None);
    let mut fx = Vec::new();
    client.deposit(s(OWNER), 50, &mut fx).unwrap();

    client.propose_owner(s(SUCCESSOR), &mut fx).unwrap();
    assert_eq!(client.pending_owner(), Some(s(SUCCESSOR)));

    client.accept_owner(&mut fx).unwrap();
    assert_eq!(client.owner(), Ok(s(SUCCESSOR)));
    assert_eq!(client.pending_owner(), None);

    let mut fx = Vec::new();
    assert_eq!(client.withdraw(50, &mut fx), Ok(0));
    // The withdrawal is authorized by, and paid to, the new owner.
    assert_eq!(fx[0], Effect::RequireAuth(s(SUCCESSOR)));
    assert_eq!(holdings(&fx, TOKEN, SUCCESSOR, 0, 50), (50, 0));
}

#[test]
fn accept_owner_without_proposal_fails() {
    let mut client = vault(0, None);
    let mut fx = Vec::new();
    let result = client.accept_owner(&mut fx);
    assert_eq!(result, Err(Error::NoPendingOwner));
}

#[test]
fn cancel_pending_owner_withdraws_the_proposal() {
    let mut client = vault(0, None);
    let mut fx = Vec::new();

    client.propose_owner(s(SUCCESSOR), &mut fx).unwrap();
    assert_eq!(client.pending_owner(), Some(s(SUCCESSOR)));

    client.cancel_pending_owner(&mut fx).unwrap();
    assert_eq!(client.pending_owner(), None);

    assert_eq!(client.accept_owner(&mut fx), Err(Error::NoPendingOwner));
    assert_eq!(client.owner(), Ok(s(OWNER)));
}

#[test]
fn cancel_pending_owner_without_proposal_fails() {
    let mut client = vault(0, None);
    let mut fx = Vec::new();
    assert_eq!(client.cancel_pending_owner(&mut fx), Err(Error::NoPendingOwner));
}

#[test]
fn deposit_emits_event() {
    let mut client = vault(0, None);
    let mut fx = Vec::new();
    client.deposit(s(OWNER), 42, &mut fx).unwrap();

    // the token's transfer + the vault's Deposit event
    let events = fx.iter().filter(|e| !matches!(e, Effect::RequireAuth(_))).count();
    assert_eq!(events, 2);
}

#[test]
fn deposit_and_withdraw_events_carry_the_running_balance() {
    let mut client = vault(0, None);
    let mut fx = Vec::new();

    client.deposit(s(OWNER), 300, &mut fx).unwrap();
    let d = published(&fx).last().cloned().expect("vault emitted an event");
    assert_eq!(d, Event::Deposit(Deposit { from: s(OWNER), amount: 300, new_balance: 300 }));

    client.deposit(s(OWNER), 200, &mut fx).unwrap();
    match published(&fx).last().cloned() {
        Some(Event::Deposit(d)) => assert_eq!(d.new_balance, 500),
        other => panic!("unexpected event {:?}", other),
    }

    client.withdraw(150, &mut fx).unwrap();
    let w = published(&fx).last().cloned().expect("vault emitted an event");
    assert_eq!(w, Event::Withdraw(Withdraw { owner: s(OWNER), amount: 150, new_balance: 350 }));
}

#[test]
fn constructor_rejects_negative_min_deposit() {
    let result = LumenVault::__constructor(s(OWNER), s(TOKEN), -1, None);
    assert!(result.is_err());
}

#[test]
fn constructor_rejects_negative_max_balance() {
    let result = LumenVault::__constructor(s(OWNER), s(TOKEN), 0, Some(-1));
    assert!(result.is_err());
}

#[test]
fn set_min_deposit_rejects_negative() {
    let mut client = vault(0, None);
    let mut fx = Vec::new();
    let result = client.set_min_deposit(-1, &mut fx);
    assert_eq!(result, Err(Error::InvalidConfiguration));
}

#[test]
fn set_max_balance_rejects_negative() {
    let mut client = vault(0, None);
    let mut fx = Vec::new();
    let result = client.set_max_balance(Some(-1), &mut fx);
    assert_eq!(result, Err(Error::InvalidConfiguration));
}

#[test]
fn rescue_rejects_non_positive_amount() {
    let client = vault(0, None);
    let mut fx = Vec::new();
    let result = client.rescue(s(OTHER_TOKEN), s(RECIPIENT), 0, &mut fx);
    assert_eq!(result, Err(Error::InvalidAmount));
}

// Further cases.

#[test]
fn constructor_stores_the_configuration() {
    let v = LumenVault::__constructor(s(OWNER), s(TOKEN), 7, Some(70)).unwrap();
    assert_eq!(v.owner(), Ok(s(OWNER)));
    assert_eq!(v.token(), s(TOKEN));
    assert_eq!(v.balance(), 0);
    assert_eq!(v.min_deposit(), 7);
    assert_eq!(v.max_balance(), Some(70));
    assert!(!v.paused());
    assert_eq!(v.pending_owner(), None);
}

#[test]
fn validate_deposit_bounds_cases() {
    assert_eq!(validate_deposit_bounds(0, None), Ok(()));
    assert_eq!(validate_deposit_bounds(5, Some(0)), Ok(()));
    assert_eq!(validate_deposit_bounds(-1, Some(10)), Err(Error::InvalidConfiguration));
    assert_eq!(validate_deposit_bounds(1, Some(-5)), Err(Error::InvalidConfiguration));
}

#[test]
fn deposit_effects_are_exact() {
    let mut client = vault(0, None);
    let mut fx = Vec::new();
    assert_eq!(client.deposit(s(DEPOSITOR), 25, &mut fx), Ok(25));
    assert_eq!(
        fx,
        vec![
            Effect::RequireAuth(s(DEPOSITOR)),
            Effect::TransferIn { token: s(TOKEN), from: s(DEPOSITOR), amount: 25 },
            Effect::Publish(Event::Deposit(Deposit { from: s(DEPOSITOR), amount: 25, new_balance: 25 })),
        ]
    );
}

#[test]
fn refused_deposit_only_asks_for_authorization_and_changes_nothing() {
    let mut client = vault(10, None);
    let mut fx = Vec::new();
    assert_eq!(client.deposit(s(DEPOSITOR), 3, &mut fx), Err(Error::BelowMinimumDeposit));
    assert_eq!(fx, vec![Effect::RequireAuth(s(DEPOSITOR))]);
    assert_eq!(client.balance(), 0);
}

#[test]
fn deposit_overflow_is_reported() {
    let mut client = vault(0, None);
    client.balance = Some(i128::MAX - 5);
    let mut fx = Vec::new();
    assert_eq!(client.deposit(s(DEPOSITOR), 6, &mut fx), Err(Error::Overflow));
    assert_eq!(client.balance(), i128::MAX - 5);
    assert_eq!(client.deposit(s(DEPOSITOR), 5, &mut fx), Ok(i128::MAX));
}

#[test]
fn paused_vault_still_lets_the_owner_withdraw() {
    let mut client = vault(0, None);
    let mut fx = Vec::new();
    client.deposit(s(DEPOSITOR), 80, &mut fx).unwrap();
    client.pause(&mut fx).unwrap();
    assert_eq!(client.withdraw(30, &mut fx), Ok(50));
}

#[test]
fn deposit_then_withdraw_restores_the_balance() {
    let mut client = vault(0, None);
    let mut fx = Vec::new();
    client.deposit(s(DEPOSITOR), 40, &mut fx).unwrap();
    let before = client.balance();
    client.deposit(s(DEPOSITOR), 17, &mut fx).unwrap();
    assert_eq!(client.withdraw(17, &mut fx), Ok(before));
}

#[test]
fn cap_below_floor_closes_the_vault() {
    let mut client = vault(10, Some(5));
    let mut fx = Vec::new();
    assert_eq!(client.deposit(s(DEPOSITOR), 10, &mut fx), Err(Error::ExceedsMaxBalance));
    assert_eq!(client.deposit(s(DEPOSITOR), 4, &mut fx), Err(Error::BelowMinimumDeposit));
    assert_eq!(client.balance(), 0);
}

#[test]
fn withdraw_non_positive_amount_fails() {
    let mut client = vault(0, None);
    let mut fx = Vec::new();
    assert_eq!(client.withdraw(0, &mut fx), Err(Error::InvalidAmount));
    assert_eq!(client.withdraw(-3, &mut fx), Err(Error::InvalidAmount));
}

#[test]
fn vault_without_owner_is_not_initialized() {
    let mut client = vault(0, None);
    client.owner = None;
    let mut fx = Vec::new();
    assert_eq!(client.owner(), Err(Error::NotInitialized));
    assert_eq!(client.withdraw(1, &mut fx), Err(Error::NotInitialized));
    assert_eq!(client.pause(&mut fx), Err(Error::NotInitialized));
    assert_eq!(client.unpause(&mut fx), Err(Error::NotInitialized));
    assert_eq!(client.set_min_deposit(1, &mut fx), Err(Error::NotInitialized));
    assert_eq!(client.set_max_balance(None, &mut fx), Err(Error::NotInitialized));
    assert_eq!(client.rescue(s(OTHER_TOKEN), s(RECIPIENT), 1, &mut fx), Err(Error::NotInitialized));
    assert_eq!(client.propose_owner(s(SUCCESSOR), &mut fx), Err(Error::NotInitialized));
    assert_eq!(client.cancel_pending_owner(&mut fx), Err(Error::NotInitialized));
    assert!(fx.is_empty());
}

#[test]
fn owner_calls_publish_their_events() {
    let mut client = vault(0, None);
    let mut fx = Vec::new();
    client.pause(&mut fx).unwrap();
    client.unpause(&mut fx).unwrap();
    client.set_min_deposit(3, &mut fx).unwrap();
    client.set_max_balance(Some(9), &mut fx).unwrap();
    client.rescue(s(OTHER_TOKEN), s(RECIPIENT), 4, &mut fx).unwrap();
    client.propose_owner(s(SUCCESSOR), &mut fx).unwrap();
    client.accept_owner(&mut fx).unwrap();
    assert_eq!(
        published(&fx),
        vec![
            Event::Paused(Paused { owner: s(OWNER) }),
            Event::Resumed(Resumed { owner: s(OWNER) }),
            Event::MinDepositUpdated(MinDepositUpdated { min_deposit: 3 }),
            Event::MaxBalanceUpdated(MaxBalanceUpdated { max_balance: Some(9) }),
            Event::Rescued(Rescued { token: s(OTHER_TOKEN), to: s(RECIPIENT), amount: 4 }),
            Event::OwnerProposed(OwnerProposed { new_owner: s(SUCCESSOR) }),
            Event::OwnerTransferred(OwnerTransferred { new_owner: s(SUCCESSOR) }),
        ]
    );
    assert_eq!(fx.last(), Some(&Effect::Publish(Event::OwnerTransferred(OwnerTransferred { new_owner: s(SUCCESSOR) }))));
}

#[test]
fn accepting_ownership_needs_the_successors_authorization() {
    let mut client = vault(0, None);
    let mut fx = Vec::new();
    client.propose_owner(s(SUCCESSOR), &mut fx).unwrap();
    let mut fx = Vec::new();
    client.accept_owner(&mut fx).unwrap();
    assert_eq!(fx[0], Effect::RequireAuth(s(SUCCESSOR)));
}

#[test]
fn proposing_again_replaces_the_successor() {
    let mut client = vault(0, None);
    let mut fx = Vec::new();
    client.propose_owner(s(SUCCESSOR), &mut fx).unwrap();
    client.propose_owner(s(RECIPIENT), &mut fx).unwrap();
    assert_eq!(client.owner(), Ok(s(OWNER)));
    client.accept_owner(&mut fx).unwrap();
    assert_eq!(client.owner(), Ok(s(RECIPIENT)));
}

#[test]
fn raising_the_floor_above_the_cap_is_allowed() {
    let mut client = vault(0, Some(0));
    let mut fx = Vec::new();
    assert_eq!(client.set_min_deposit(100, &mut fx), Ok(()));
    assert_eq!(client.min_deposit(), 100);
}

#[test]
fn checks_decide_without_changing_anything() {
    let mut client = vault(0, Some(100));
    let mut fx = Vec::new();
    client.deposit(s(DEPOSITOR), 60, &mut fx).unwrap();
    assert_eq!(client.deposit_check(40), Ok(100));
    assert_eq!(client.deposit_check(41), Err(Error::ExceedsMaxBalance));
    assert_eq!(client.withdraw_check(60), Ok(0));
    assert_eq!(client.withdraw_check(61), Err(Error::InsufficientBalance));
    assert_eq!(client.balance(), 60);
}

#[test]
fn rescue_leaves_the_balance_alone() {
    let mut client = vault(0, None);
    let mut fx = Vec::new();
    client.deposit(s(DEPOSITOR), 90, &mut fx).unwrap();
    let mut fx = Vec::new();
    client.rescue(s(OTHER_TOKEN), s(RECIPIENT), 5, &mut fx).unwrap();
    assert_eq!(client.balance(), 90);
    assert_eq!(holdings(&fx, TOKEN, RECIPIENT, 0, 90), (0, 90));
}
