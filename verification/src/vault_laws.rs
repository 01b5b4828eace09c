//! Properties of the vault that span calls.

use vstd::prelude::*;
use crate::vault::{bounds_valid, Deposit, Effect, Error, Event, LumenVault, Rescued, Withdraw};

verus! {

/// A freshly constructed vault is well formed.
pub proof fn lemma_constructor_establishes_wf(
    owner: String,
    token: String,
    min_deposit: i128,
    max_balance: Option<i128>,
)
    requires
        bounds_valid(min_deposit, max_balance),
    ensures
        LumenVault::initial(owner, token, min_deposit, max_balance).wf(),
{
}

/// Every call keeps a vault well formed: an owner and a token stay stored,
/// the balance never goes negative, and neither the deposit floor nor the
/// balance cap becomes negative.
pub proof fn lemma_calls_preserve_wf(v: LumenVault)
    requires
        v.wf(),
    ensures
        forall|amount: i128| #[trigger] v.deposit_state(amount).wf(),
        forall|amount: i128| #[trigger] v.withdraw_state(amount).wf(),
        forall|paused: bool| #[trigger] v.pause_state(paused).wf(),
        forall|min_deposit: i128| #[trigger] v.set_min_deposit_state(min_deposit).wf(),
        forall|max_balance: Option<i128>| #[trigger] v.set_max_balance_state(max_balance).wf(),
        forall|new_owner: String| #[trigger] v.propose_owner_state(new_owner).wf(),
        v.cancel_pending_owner_state().wf(),
        v.accept_owner_state().wf(),
{
}

/// A deposit followed by the owner withdrawing the same amount leaves the
/// balance where it was, and the withdrawal is never refused.
pub proof fn lemma_deposit_withdraw_round_trip(v: LumenVault, amount: i128)
    requires
        v.wf(),
        v.deposit_result(amount) is Ok,
    ensures
        v.deposit_state(amount).withdraw_result(amount) == Ok::<i128, Error>(v.stored_balance()),
        v.deposit_state(amount).withdraw_state(amount).stored_balance() == v.stored_balance(),
{
}

/// A paused vault refuses every deposit.
pub proof fn lemma_pause_blocks_deposits(v: LumenVault, amount: i128)
    requires
        v.owner is Some,
        amount > 0,
    ensures
        v.pause_state(true).deposit_result(amount) == Err::<i128, Error>(Error::Paused),
{
}

/// Pausing never blocks the owner from withdrawing: a withdrawal has the
/// same outcome whether the vault is paused or not.
pub proof fn lemma_pause_never_blocks_withdraw(v: LumenVault, paused: bool, amount: i128)
    ensures
        v.pause_state(paused).withdraw_result(amount) == v.withdraw_result(amount),
        v.pause_state(paused).withdraw_state(amount).stored_balance()
            == v.withdraw_state(amount).stored_balance(),
{
}

/// Pausing and then unpausing an unpaused vault lets in exactly the deposits
/// it let in before.
pub proof fn lemma_unpause_restores_deposits(v: LumenVault, amount: i128)
    requires
        v.owner is Some,
        !v.stored_paused(),
    ensures
        v.pause_state(true).pause_state(false).deposit_result(amount) == v.deposit_result(amount),
{
}

/// A deposit that goes through never takes the balance above the cap, and
/// the balance read afterwards is the one the deposit returned.
pub proof fn lemma_deposit_respects_cap(v: LumenVault, amount: i128)
    requires
        v.deposit_result(amount) is Ok,
    ensures
        v.max_balance matches Some(max) ==> v.deposit_result(amount).unwrap() <= max,
        v.deposit_state(amount).stored_balance() == v.deposit_result(amount).unwrap(),
        v.deposit_result(amount).unwrap() == v.stored_balance() + amount,
{
}

/// A cap below the deposit floor closes a well-formed vault to deposits:
/// every deposit is refused.
pub proof fn lemma_cap_below_floor_closes_deposits(v: LumenVault, amount: i128)
    requires
        v.wf(),
        v.max_balance matches Some(max) && max < v.stored_min_deposit(),
    ensures
        v.deposit_result(amount) is Err,
{
}

/// A withdrawal that goes through takes exactly `amount` off the balance,
/// and the balance read afterwards is the one the withdrawal returned.
pub proof fn lemma_withdraw_read_back(v: LumenVault, amount: i128)
    requires
        v.withdraw_result(amount) is Ok,
    ensures
        v.withdraw_state(amount).stored_balance() == v.withdraw_result(amount).unwrap(),
        v.withdraw_result(amount).unwrap() == v.stored_balance() - amount,
        v.withdraw_state(amount).stored_balance() >= 0,
{
}

/// A deposit floor or balance cap that was accepted is the one read back.
pub proof fn lemma_settings_read_back(v: LumenVault, min_deposit: i128, max_balance: Option<i128>)
    ensures
        v.set_min_deposit_result(min_deposit) is Ok
            ==> v.set_min_deposit_state(min_deposit).stored_min_deposit() == min_deposit,
        v.set_max_balance_result(max_balance) is Ok
            ==> v.set_max_balance_state(max_balance).max_balance == max_balance,
{
}

/// Two-step ownership transfer: proposing leaves the owner in place; the
/// proposed successor accepting becomes the owner and clears the proposal.
pub proof fn lemma_propose_then_accept(v: LumenVault, new_owner: String)
    requires
        v.owner is Some,
    ensures
        v.propose_owner_state(new_owner).owner == v.owner,
        v.propose_owner_state(new_owner).pending_owner == Some(new_owner),
        v.propose_owner_state(new_owner).accept_owner_result() is Ok,
        v.propose_owner_state(new_owner).accept_owner_state().owner == Some(new_owner),
        v.propose_owner_state(new_owner).accept_owner_state().pending_owner is None,
        v.propose_owner_state(new_owner).accept_owner_effects()[0] == Effect::RequireAuth(new_owner),
{
}

/// Withdrawing a proposal keeps the owner, and the formerly proposed
/// successor can no longer accept.
pub proof fn lemma_cancel_then_accept_fails(v: LumenVault)
    requires
        v.cancel_pending_owner_result() is Ok,
    ensures
        v.cancel_pending_owner_state().owner == v.owner,
        v.cancel_pending_owner_state().accept_owner_result() == Err::<(), Error>(Error::NoPendingOwner),
{
}

/// No call changes a vault unless it first asks for an authorization: the
/// depositor's for a deposit, the successor's for accepting ownership, and
/// the stored owner's for every other call.
pub proof fn lemma_changes_need_authorization(
    v: LumenVault,
    from: String,
    amount: i128,
    paused: bool,
    min_deposit: i128,
    max_balance: Option<i128>,
    new_owner: String,
)
    ensures
        v.deposit_state(amount) != v ==> v.deposit_effects(from, amount)[0] == Effect::RequireAuth(from),
        v.withdraw_state(amount) != v
            ==> v.withdraw_effects(amount)[0] == Effect::RequireAuth(v.owner.unwrap()),
        v.pause_state(paused) != v ==> v.pause_effects(paused)[0] == Effect::RequireAuth(v.owner.unwrap()),
        v.set_min_deposit_state(min_deposit) != v
            ==> v.set_min_deposit_effects(min_deposit)[0] == Effect::RequireAuth(v.owner.unwrap()),
        v.set_max_balance_state(max_balance) != v
            ==> v.set_max_balance_effects(max_balance)[0] == Effect::RequireAuth(v.owner.unwrap()),
        v.propose_owner_state(new_owner) != v
            ==> v.propose_owner_effects(new_owner)[0] == Effect::RequireAuth(v.owner.unwrap()),
        v.cancel_pending_owner_state() != v
            ==> v.cancel_pending_owner_effects()[0] == Effect::RequireAuth(v.owner.unwrap()),
        v.accept_owner_state() != v
            ==> v.accept_owner_effects()[0] == Effect::RequireAuth(v.pending_owner.unwrap()),
{
}

/// A refused call leaves the vault exactly as it was.
pub proof fn lemma_refused_calls_change_nothing(
    v: LumenVault,
    amount: i128,
    min_deposit: i128,
    max_balance: Option<i128>,
)
    ensures
        v.deposit_result(amount) is Err ==> v.deposit_state(amount) == v,
        v.withdraw_result(amount) is Err ==> v.withdraw_state(amount) == v,
        v.owner_result() is Err ==> v.pause_state(true) == v && v.pause_state(false) == v,
        v.set_min_deposit_result(min_deposit) is Err ==> v.set_min_deposit_state(min_deposit) == v,
        v.set_max_balance_result(max_balance) is Err ==> v.set_max_balance_state(max_balance) == v,
        v.cancel_pending_owner_result() is Err ==> v.cancel_pending_owner_state() == v,
        v.accept_owner_result() is Err ==> v.accept_owner_state() == v,
{
}

/// Deposits, withdrawals and rescues of a zero or negative amount are
/// refused.
pub proof fn lemma_non_positive_amounts_refused(v: LumenVault, token: String, amount: i128)
    requires
        v.owner is Some,
        amount <= 0,
    ensures
        v.deposit_result(amount) == Err::<i128, Error>(Error::InvalidAmount),
        v.withdraw_result(amount) == Err::<i128, Error>(Error::InvalidAmount),
        v.rescue_result(token, amount) == Err::<(), Error>(Error::InvalidAmount),
{
}

/// The owner of a well-formed vault can always take out the whole balance,
/// paused or not.
pub proof fn lemma_owner_can_withdraw_everything(v: LumenVault, paused: bool)
    requires
        v.wf(),
        v.stored_balance() > 0,
    ensures
        v.pause_state(paused).withdraw_result(v.stored_balance()) == Ok::<i128, Error>(0),
{
}

/// A rescue that goes through never names the vault's own token.
pub proof fn lemma_rescue_spares_the_vault_token(v: LumenVault, token: String, amount: i128)
    requires
        v.rescue_result(token, amount) is Ok,
    ensures
        token@ != v.token.unwrap()@,
{
}

/// The same vault with other deposit settings: pause flag, deposit floor
/// and balance cap.
pub open spec fn with_settings(v: LumenVault, paused: Option<bool>, min_deposit: Option<i128>, max_balance: Option<i128>) -> LumenVault {
    LumenVault { paused: paused, min_deposit: min_deposit, max_balance: max_balance, ..v }
}

/// The same vault with another balance and other deposit settings.
pub open spec fn with_balance_and_settings(
    v: LumenVault,
    balance: Option<i128>,
    paused: Option<bool>,
    min_deposit: Option<i128>,
    max_balance: Option<i128>,
) -> LumenVault {
    LumenVault { balance: balance, paused: paused, min_deposit: min_deposit, max_balance: max_balance, ..v }
}

/// The deposit floor applies to each deposit, not to the resulting balance:
/// every accepted deposit is at least the floor, and an unpaused vault
/// refuses any positive deposit below the floor with `BelowMinimumDeposit`,
/// whatever its balance.
pub proof fn lemma_deposit_floor_applies_to_the_amount(v: LumenVault, amount: i128)
    ensures
        v.deposit_result(amount) is Ok ==> amount >= v.stored_min_deposit(),
        0 < amount < v.stored_min_deposit() && !v.stored_paused()
            ==> v.deposit_result(amount) == Err::<i128, Error>(Error::BelowMinimumDeposit),
{
}

/// When a deposit is accepted: exactly when it is positive, the vault is not
/// paused, it reaches the floor, and the new balance fits both `i128` and
/// the cap. The new balance is the old one plus the amount.
pub proof fn lemma_deposit_accepted_exactly(v: LumenVault, amount: i128)
    ensures
        v.deposit_result(amount) is Ok <==> {
            &&& amount > 0
            &&& !v.stored_paused()
            &&& amount >= v.stored_min_deposit()
            &&& v.stored_balance() + amount <= i128::MAX
            &&& (v.max_balance matches Some(max) ==> v.stored_balance() + amount <= max)
        },
        v.deposit_result(amount) is Ok ==> v.deposit_result(amount).unwrap() == v.stored_balance() + amount,
{
}

/// A deposit does not depend on who owns the vault or who is proposed.
pub proof fn lemma_deposit_ignores_ownership(v: LumenVault, owner: Option<String>, pending: Option<String>, amount: i128)
    ensures
        (LumenVault { owner: owner, pending_owner: pending, ..v }).deposit_result(amount) == v.deposit_result(amount),
{
}

/// The owner of an initialized vault can withdraw any positive amount up to
/// the balance, and gets exactly the rest of the balance back as the new
/// balance; nothing else is accepted.
pub proof fn lemma_withdraw_accepted_exactly(v: LumenVault, amount: i128)
    requires
        v.owner is Some,
    ensures
        0 < amount <= v.stored_balance() ==> v.withdraw_result(amount) == Ok::<i128, Error>(
            (v.stored_balance() - amount) as i128,
        ),
        v.withdraw_result(amount) is Ok ==> 0 < amount <= v.stored_balance(),
{
}

/// A withdrawal does not depend on the deposit settings: the pause flag,
/// the deposit floor and the balance cap change neither its outcome nor
/// the balance it leaves.
pub proof fn lemma_withdraw_ignores_deposit_settings(
    v: LumenVault,
    paused: Option<bool>,
    min_deposit: Option<i128>,
    max_balance: Option<i128>,
    amount: i128,
)
    ensures
        with_settings(v, paused, min_deposit, max_balance).withdraw_result(amount) == v.withdraw_result(amount),
        with_settings(v, paused, min_deposit, max_balance).withdraw_state(amount).stored_balance()
            == v.withdraw_state(amount).stored_balance(),
{
}

/// Setting the cap on an initialized vault is accepted exactly when the cap
/// is absent or not negative, whatever the floor (a cap below the floor,
/// such as zero, closes the vault to deposits and is allowed), the balance
/// and the pause flag.
pub proof fn lemma_set_max_balance_accepted_exactly(v: LumenVault, max_balance: Option<i128>)
    requires
        v.owner is Some,
        v.stored_min_deposit() >= 0,
    ensures
        v.set_max_balance_result(max_balance) is Ok <==> (max_balance matches Some(max) ==> max >= 0),
        v.set_max_balance_result(max_balance) is Err
            ==> v.set_max_balance_result(max_balance) == Err::<(), Error>(Error::InvalidConfiguration),
        v.set_max_balance_result(Some(0)) is Ok,
        v.set_max_balance_result(None) is Ok,
{
}

/// Setting the cap depends on neither the balance nor the pause flag.
pub proof fn lemma_set_max_balance_ignores_balance_and_pause(
    v: LumenVault,
    balance: Option<i128>,
    paused: Option<bool>,
    max_balance: Option<i128>,
)
    ensures
        with_balance_and_settings(v, balance, paused, v.min_deposit, v.max_balance).set_max_balance_result(max_balance)
            == v.set_max_balance_result(max_balance),
{
}

/// Setting the floor on an initialized vault is accepted exactly when the
/// floor is not negative and the stored cap is not negative, whatever the
/// balance and the pause flag; a floor above the cap is allowed.
pub proof fn lemma_set_min_deposit_accepted_exactly(v: LumenVault, min_deposit: i128)
    requires
        v.owner is Some,
    ensures
        v.set_min_deposit_result(min_deposit) is Ok <==> (min_deposit >= 0 && (v.max_balance matches Some(max)
            ==> max >= 0)),
        v.set_min_deposit_result(min_deposit) is Err
            ==> v.set_min_deposit_result(min_deposit) == Err::<(), Error>(Error::InvalidConfiguration),
{
}

/// Setting the floor depends on neither the balance nor the pause flag.
pub proof fn lemma_set_min_deposit_ignores_balance_and_pause(
    v: LumenVault,
    balance: Option<i128>,
    paused: Option<bool>,
    min_deposit: i128,
)
    ensures
        with_balance_and_settings(v, balance, paused, v.min_deposit, v.max_balance).set_min_deposit_result(min_deposit)
            == v.set_min_deposit_result(min_deposit),
{
}

/// On an initialized vault, a rescue of a positive amount of any token
/// other than the vault's own is accepted, paused or not, whatever the
/// balance and the deposit settings; it is refused only for a non-positive
/// amount or for the vault's own token.
pub proof fn lemma_rescue_accepted_exactly(v: LumenVault, token: String, amount: i128)
    requires
        v.owner is Some,
    ensures
        v.rescue_result(token, amount) is Ok <==> (amount > 0 && token@ != v.token.unwrap()@),
        amount > 0 && token@ == v.token.unwrap()@
            ==> v.rescue_result(token, amount) == Err::<(), Error>(Error::CannotRescueVaultToken),
{
}

/// A rescue depends on neither the balance nor the deposit settings.
pub proof fn lemma_rescue_ignores_balance_and_settings(
    v: LumenVault,
    balance: Option<i128>,
    paused: Option<bool>,
    min_deposit: Option<i128>,
    max_balance: Option<i128>,
    token: String,
    amount: i128,
)
    ensures
        with_balance_and_settings(v, balance, paused, min_deposit, max_balance).rescue_result(token, amount)
            == v.rescue_result(token, amount),
{
}

/// Pausing, resuming and proposing a successor are accepted exactly when an
/// owner is stored; without one they are refused with `NotInitialized`.
/// Withdrawing a proposal is accepted exactly when an owner and a proposal
/// are stored; accepting one exactly when a proposal is stored.
pub proof fn lemma_owner_calls_accepted_exactly(v: LumenVault)
    ensures
        v.owner_result() is Ok <==> v.owner is Some,
        v.owner is None ==> v.owner_result() == Err::<(), Error>(Error::NotInitialized),
        v.cancel_pending_owner_result() is Ok <==> (v.owner is Some && v.pending_owner is Some),
        v.accept_owner_result() is Ok <==> v.pending_owner is Some,
{
}

/// Each call changes only what it is about: a deposit or a withdrawal only
/// the balance, pausing only the pause flag, setting the floor only the
/// floor, setting the cap only the cap, a proposal only the successor,
/// withdrawing it only clears it, and accepting makes the successor the
/// owner and clears the proposal.
pub proof fn lemma_calls_change_only_their_part(
    v: LumenVault,
    amount: i128,
    paused: bool,
    min_deposit: i128,
    max_balance: Option<i128>,
    new_owner: String,
)
    ensures
        v.deposit_state(amount) == v.with_balance(v.deposit_state(amount).stored_balance()) || v.deposit_state(amount)
            == v,
        v.deposit_result(amount) is Ok ==> v.deposit_state(amount) == v.with_balance(v.deposit_result(amount).unwrap()),
        v.withdraw_result(amount) is Ok ==> v.withdraw_state(amount) == v.with_balance(v.withdraw_result(amount).unwrap()),
        v.owner is Some ==> v.pause_state(paused) == (LumenVault { paused: Some(paused), ..v }),
        v.set_min_deposit_result(min_deposit) is Ok ==> v.set_min_deposit_state(min_deposit) == (LumenVault {
            min_deposit: Some(min_deposit),
            ..v
        }),
        v.set_max_balance_result(max_balance) is Ok ==> v.set_max_balance_state(max_balance) == (LumenVault {
            max_balance: max_balance,
            ..v
        }),
        v.owner is Some ==> v.propose_owner_state(new_owner) == (LumenVault { pending_owner: Some(new_owner), ..v }),
        v.cancel_pending_owner_result() is Ok ==> v.cancel_pending_owner_state() == (LumenVault {
            pending_owner: None,
            ..v
        }),
        v.pending_owner is Some ==> v.accept_owner_state() == (LumenVault {
            owner: v.pending_owner,
            pending_owner: None,
            ..v
        }),
{
}

/// What accepted calls hand the host: a deposit pulls exactly the amount of
/// the vault's token from the depositor and announces the new balance; a
/// withdrawal pays exactly the amount of the vault's token to the stored
/// owner and announces the new balance; a rescue pays exactly the amount of
/// the named token to the named recipient.
pub proof fn lemma_accepted_calls_move_the_right_tokens(v: LumenVault, from: String, to: String, token: String, amount: i128)
    ensures
        v.deposit_result(amount) is Ok ==> {
            &&& v.deposit_effects(from, amount).contains(
                Effect::TransferIn { token: v.token.unwrap(), from: from, amount: amount },
            )
            &&& v.deposit_effects(from, amount).contains(
                Effect::Publish(Event::Deposit(Deposit {
                    from: from,
                    amount: amount,
                    new_balance: v.deposit_state(amount).stored_balance(),
                })),
            )
        },
        v.withdraw_result(amount) is Ok ==> {
            &&& v.withdraw_effects(amount).contains(
                Effect::TransferOut { token: v.token.unwrap(), to: v.owner.unwrap(), amount: amount },
            )
            &&& v.withdraw_effects(amount).contains(
                Effect::Publish(Event::Withdraw(Withdraw {
                    owner: v.owner.unwrap(),
                    amount: amount,
                    new_balance: v.withdraw_state(amount).stored_balance(),
                })),
            )
        },
        v.rescue_result(token, amount) is Ok ==> v.rescue_effects(token, to, amount).contains(
            Effect::TransferOut { token: token, to: to, amount: amount },
        ),
{
    if v.deposit_result(amount) is Ok {
        let fx = v.deposit_effects(from, amount);
        assert(fx[1] == Effect::TransferIn { token: v.token.unwrap(), from: from, amount: amount });
        assert(fx[2] == Effect::Publish(Event::Deposit(Deposit {
            from: from,
            amount: amount,
            new_balance: v.deposit_state(amount).stored_balance(),
        })));
    }
    if v.withdraw_result(amount) is Ok {
        let fx = v.withdraw_effects(amount);
        assert(fx[1] == Effect::TransferOut { token: v.token.unwrap(), to: v.owner.unwrap(), amount: amount });
        assert(fx[2] == Effect::Publish(Event::Withdraw(Withdraw {
            owner: v.owner.unwrap(),
            amount: amount,
            new_balance: v.withdraw_state(amount).stored_balance(),
        })));
    }
    if v.rescue_result(token, amount) is Ok {
        let fx = v.rescue_effects(token, to, amount);
        assert(fx[1] == Effect::TransferOut { token: token, to: to, amount: amount });
    }
}

/// Which error refuses a deposit: a non-positive amount is `InvalidAmount`;
/// otherwise a paused vault answers `Paused`; otherwise an amount below the
/// floor is `BelowMinimumDeposit`; otherwise a balance beyond `i128` is
/// `Overflow`; otherwise a balance beyond the cap is `ExceedsMaxBalance`.
pub proof fn lemma_deposit_refusals(v: LumenVault, amount: i128)
    ensures
        amount <= 0 ==> v.deposit_result(amount) == Err::<i128, Error>(Error::InvalidAmount),
        amount > 0 && v.stored_paused() ==> v.deposit_result(amount) == Err::<i128, Error>(Error::Paused),
        amount > 0 && !v.stored_paused() && amount >= v.stored_min_deposit() && v.stored_balance() + amount
            > i128::MAX ==> v.deposit_result(amount) == Err::<i128, Error>(Error::Overflow),
        amount > 0 && !v.stored_paused() && amount >= v.stored_min_deposit() && v.stored_balance() + amount
            <= i128::MAX && (v.max_balance matches Some(max) && v.stored_balance() + amount > max)
            ==> v.deposit_result(amount) == Err::<i128, Error>(Error::ExceedsMaxBalance),
{
}

/// Which error refuses a withdrawal: `NotInitialized` without an owner;
/// otherwise `InvalidAmount` for a non-positive amount; otherwise
/// `InsufficientBalance` for more than the balance.
pub proof fn lemma_withdraw_refusals(v: LumenVault, amount: i128)
    ensures
        v.owner is None ==> v.withdraw_result(amount) == Err::<i128, Error>(Error::NotInitialized),
        v.owner is Some && amount <= 0 ==> v.withdraw_result(amount) == Err::<i128, Error>(Error::InvalidAmount),
        v.owner is Some && amount > v.stored_balance() && amount > 0
            ==> v.withdraw_result(amount) == Err::<i128, Error>(Error::InsufficientBalance),
{
}

/// Setting the floor or the cap, rescuing and withdrawing a proposal are
/// refused with `NotInitialized` when no owner is stored; withdrawing a
/// missing proposal and accepting one are refused with `NoPendingOwner`.
pub proof fn lemma_owner_call_refusals(v: LumenVault, min_deposit: i128, max_balance: Option<i128>, token: String, amount: i128)
    ensures
        v.owner is None ==> {
            &&& v.set_min_deposit_result(min_deposit) == Err::<(), Error>(Error::NotInitialized)
            &&& v.set_max_balance_result(max_balance) == Err::<(), Error>(Error::NotInitialized)
            &&& v.rescue_result(token, amount) == Err::<(), Error>(Error::NotInitialized)
            &&& v.cancel_pending_owner_result() == Err::<(), Error>(Error::NotInitialized)
        },
        v.owner is Some && v.pending_owner is None
            ==> v.cancel_pending_owner_result() == Err::<(), Error>(Error::NoPendingOwner),
        v.pending_owner is None ==> v.accept_owner_result() == Err::<(), Error>(Error::NoPendingOwner),
        v.owner is Some && amount <= 0 ==> v.rescue_result(token, amount) == Err::<(), Error>(Error::InvalidAmount),
{
}

/// A refused call moves no token and publishes nothing: at most it asks
/// for the caller's authorization.
pub proof fn lemma_refused_calls_only_ask_for_authorization(
    v: LumenVault,
    from: String,
    to: String,
    token: String,
    amount: i128,
    min_deposit: i128,
    max_balance: Option<i128>,
)
    ensures
        v.deposit_result(amount) is Err ==> v.deposit_effects(from, amount) == seq![Effect::RequireAuth(from)],
        v.withdraw_result(amount) is Err ==> v.withdraw_effects(amount).len() <= 1
            && forall|i: int| 0 <= i < v.withdraw_effects(amount).len() ==> v.withdraw_effects(amount)[i] is RequireAuth,
        v.set_min_deposit_result(min_deposit) is Err ==> v.set_min_deposit_effects(min_deposit).len() <= 1
            && forall|i: int| 0 <= i < v.set_min_deposit_effects(min_deposit).len()
                ==> v.set_min_deposit_effects(min_deposit)[i] is RequireAuth,
        v.set_max_balance_result(max_balance) is Err ==> v.set_max_balance_effects(max_balance).len() <= 1
            && forall|i: int| 0 <= i < v.set_max_balance_effects(max_balance).len()
                ==> v.set_max_balance_effects(max_balance)[i] is RequireAuth,
        v.rescue_result(token, amount) is Err ==> v.rescue_effects(token, to, amount).len() <= 1
            && forall|i: int| 0 <= i < v.rescue_effects(token, to, amount).len()
                ==> v.rescue_effects(token, to, amount)[i] is RequireAuth,
        v.accept_owner_result() is Err ==> v.accept_owner_effects().len() == 0,
{
}

/// Missing storage entries read as a zero balance, a zero floor, and not
/// paused.
pub proof fn lemma_missing_entries_read_as_defaults(v: LumenVault)
    ensures
        v.balance is None ==> v.stored_balance() == 0,
        v.min_deposit is None ==> v.stored_min_deposit() == 0,
        v.paused is None ==> !v.stored_paused(),
        v.balance matches Some(b) ==> v.stored_balance() == b,
        v.min_deposit matches Some(m) ==> v.stored_min_deposit() == m,
        v.paused matches Some(p) ==> v.stored_paused() == p,
{
}

/// A deposit configuration is valid exactly when neither the floor nor the
/// cap is negative; a cap below the floor is valid.
pub proof fn lemma_valid_bounds_exactly(min_deposit: i128, max_balance: Option<i128>)
    ensures
        bounds_valid(min_deposit, max_balance) <==> (min_deposit >= 0 && (max_balance matches Some(max) ==> max
            >= 0)),
        min_deposit >= 0 ==> bounds_valid(min_deposit, Some(0i128)),
{
}

/// A non-negative balance stays non-negative through deposits and
/// withdrawals, and the other calls leave the balance alone.
pub proof fn lemma_balance_stays_non_negative(
    v: LumenVault,
    amount: i128,
    paused: bool,
    min_deposit: i128,
    max_balance: Option<i128>,
    new_owner: String,
)
    requires
        v.stored_balance() >= 0,
    ensures
        v.deposit_state(amount).stored_balance() >= 0,
        v.withdraw_state(amount).stored_balance() >= 0,
        v.pause_state(paused).stored_balance() == v.stored_balance(),
        v.set_min_deposit_state(min_deposit).stored_balance() == v.stored_balance(),
        v.set_max_balance_state(max_balance).stored_balance() == v.stored_balance(),
        v.propose_owner_state(new_owner).stored_balance() == v.stored_balance(),
        v.cancel_pending_owner_state().stored_balance() == v.stored_balance(),
        v.accept_owner_state().stored_balance() == v.stored_balance(),
{
}

/// How much of the token `token` an effect moves into the vault (negative:
/// out of it).
pub open spec fn effect_flow(e: Effect, token: Seq<char>) -> int {
    match e {
        Effect::TransferIn { token: t, amount, .. } => if t@ == token { amount as int } else { 0 },
        Effect::TransferOut { token: t, amount, .. } => if t@ == token { -amount } else { 0 },
        _ => 0,
    }
}

/// How much of the token `token` a run of effects moves into the vault, net.
pub open spec fn token_flow(effects: Seq<Effect>, token: Seq<char>) -> int
    decreases effects.len(),
{
    if effects.len() == 0 {
        0
    } else {
        effect_flow(effects[0], token) + token_flow(effects.drop_first(), token)
    }
}

/// The net flow of a run is the sum of the flows of its parts.
pub proof fn lemma_token_flow_concat(a: Seq<Effect>, b: Seq<Effect>, token: Seq<char>)
    ensures
        token_flow(a + b, token) == token_flow(a, token) + token_flow(b, token),
    decreases a.len(),
{
    if a.len() == 0 {
        assert(a + b =~= b);
    } else {
        assert((a + b).drop_first() =~= a.drop_first() + b);
        lemma_token_flow_concat(a.drop_first(), b, token);
    }
}

proof fn lemma_token_flow_one(e: Effect, token: Seq<char>)
    ensures
        token_flow(seq![e], token) == effect_flow(e, token),
{
    assert(seq![e].drop_first() =~= Seq::<Effect>::empty());
    assert(token_flow(Seq::<Effect>::empty(), token) == 0);
    assert(seq![e][0] == e);
}

proof fn lemma_token_flow_two(e: Effect, f: Effect, token: Seq<char>)
    ensures
        token_flow(seq![e, f], token) == effect_flow(e, token) + effect_flow(f, token),
{
    assert(seq![e, f] =~= seq![e] + seq![f]);
    lemma_token_flow_concat(seq![e], seq![f], token);
    lemma_token_flow_one(e, token);
    lemma_token_flow_one(f, token);
}

proof fn lemma_token_flow_three(e: Effect, f: Effect, g: Effect, token: Seq<char>)
    ensures
        token_flow(seq![e, f, g], token) == effect_flow(e, token) + effect_flow(f, token) + effect_flow(g, token),
{
    assert(seq![e, f, g] =~= seq![e] + seq![f, g]);
    lemma_token_flow_concat(seq![e], seq![f, g], token);
    lemma_token_flow_one(e, token);
    lemma_token_flow_two(f, g, token);
}

/// The balance moves in lockstep with the vault's holdings of its own
/// token: what a deposit or a withdrawal moves of that token, net, is
/// exactly the change of the balance, and a rescue moves none of it and
/// leaves the balance alone.
pub proof fn lemma_balance_tracks_custody(v: LumenVault, from: String, to: String, other: String, amount: i128)
    requires
        v.wf(),
    ensures
        token_flow(v.deposit_effects(from, amount), v.token.unwrap()@)
            == v.deposit_state(amount).stored_balance() - v.stored_balance(),
        token_flow(v.withdraw_effects(amount), v.token.unwrap()@)
            == v.withdraw_state(amount).stored_balance() - v.stored_balance(),
        token_flow(v.rescue_effects(other, to, amount), v.token.unwrap()@) == 0,
{
    let token = v.token.unwrap()@;
    let owner = v.owner.unwrap();
    match v.deposit_result(amount) {
        Ok(nb) => {
            lemma_token_flow_three(
                Effect::RequireAuth(from),
                Effect::TransferIn { token: v.token.unwrap(), from: from, amount: amount },
                Effect::Publish(Event::Deposit(Deposit { from: from, amount: amount, new_balance: nb })),
                token,
            );
        },
        Err(_) => {
            lemma_token_flow_one(Effect::RequireAuth(from), token);
        },
    }
    match v.withdraw_result(amount) {
        Ok(nb) => {
            let rest = seq![
                Effect::TransferOut { token: v.token.unwrap(), to: owner, amount: amount },
                Effect::Publish(Event::Withdraw(Withdraw { owner: owner, amount: amount, new_balance: nb })),
            ];
            assert(seq![Effect::RequireAuth(owner)] + rest =~= seq![Effect::RequireAuth(owner), rest[0], rest[1]]);
            lemma_token_flow_three(Effect::RequireAuth(owner), rest[0], rest[1], token);
        },
        Err(_) => {
            lemma_token_flow_one(Effect::RequireAuth(owner), token);
        },
    }
    if v.rescue_result(other, amount) is Ok {
        let rest = seq![
            Effect::TransferOut { token: other, to: to, amount: amount },
            Effect::Publish(Event::Rescued(Rescued { token: other, to: to, amount: amount })),
        ];
        assert(seq![Effect::RequireAuth(owner)] + rest =~= seq![Effect::RequireAuth(owner), rest[0], rest[1]]);
        lemma_token_flow_three(Effect::RequireAuth(owner), rest[0], rest[1], token);
    } else {
        lemma_token_flow_one(Effect::RequireAuth(owner), token);
    }
}

} // verus!
