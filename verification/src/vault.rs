use vstd::prelude::*;

verus! {

/// Reasons a vault call is refused.
#[derive(Clone, Copy, Debug, PartialEq, Eq, PartialOrd, Ord, Structural)]
pub enum Error {
    NotInitialized,
    InvalidAmount,
    InsufficientBalance,
    Paused,
    NoPendingOwner,
    Overflow,
    BelowMinimumDeposit,
    ExceedsMaxBalance,
    CannotRescueVaultToken,
    InvalidConfiguration,
}

/// The deposit floor and the optional balance cap make sense when neither
/// is negative. A cap below the floor is allowed: it closes the vault to
/// new deposits.
pub open spec fn bounds_valid(min_deposit: i128, max_balance: Option<i128>) -> bool {
    &&& min_deposit >= 0
    &&& (max_balance matches Some(max) ==> max >= 0)
}

/// Rejects a negative deposit floor or a negative balance cap.
pub fn validate_deposit_bounds(min_deposit: i128, max_balance: Option<i128>) -> (r: Result<(), Error>)
    ensures
        r == (if bounds_valid(min_deposit, max_balance) {
            Ok(())
        } else {
            Err(Error::InvalidConfiguration)
        }),
{
    if min_deposit < 0 {
        return Err(Error::InvalidConfiguration);
    }
    if let Some(max) = max_balance {
        if max < 0 {
            return Err(Error::InvalidConfiguration);
        }
    }
    Ok(())
}

/// Published when a deposit goes through; carries the running balance.
#[derive(Clone, Debug, PartialEq, Eq)]
pub struct Deposit {
    pub from: String,
    pub amount: i128,
    pub new_balance: i128,
}

/// Published when the owner withdraws; carries the running balance.
#[derive(Clone, Debug, PartialEq, Eq)]
pub struct Withdraw {
    pub owner: String,
    pub amount: i128,
    pub new_balance: i128,
}

/// Published when the owner pauses deposits.
#[derive(Clone, Debug, PartialEq, Eq)]
pub struct Paused {
    pub owner: String,
}

/// Published when the owner resumes deposits.
#[derive(Clone, Debug, PartialEq, Eq)]
pub struct Resumed {
    pub owner: String,
}

/// Published when the owner names a successor.
#[derive(Clone, Debug, PartialEq, Eq)]
pub struct OwnerProposed {
    pub new_owner: String,
}

/// Published when the successor takes over the vault.
#[derive(Clone, Debug, PartialEq, Eq)]
pub struct OwnerTransferred {
    pub new_owner: String,
}

/// Published when the deposit floor changes.
#[derive(Clone, Debug, PartialEq, Eq)]
pub struct MinDepositUpdated {
    pub min_deposit: i128,
}

/// Published when the balance cap changes (`None`: no cap).
#[derive(Clone, Debug, PartialEq, Eq)]
pub struct MaxBalanceUpdated {
    pub max_balance: Option<i128>,
}

/// Published when a stray token is sent back out of the vault.
#[derive(Clone, Debug, PartialEq, Eq)]
pub struct Rescued {
    pub token: String,
    pub to: String,
    pub amount: i128,
}

/// The events a vault publishes.
#[derive(Clone, Debug, PartialEq, Eq)]
pub enum Event {
    Deposit(Deposit),
    Withdraw(Withdraw),
    Paused(Paused),
    Resumed(Resumed),
    OwnerProposed(OwnerProposed),
    OwnerTransferred(OwnerTransferred),
    MinDepositUpdated(MinDepositUpdated),
    MaxBalanceUpdated(MaxBalanceUpdated),
    Rescued(Rescued),
}

/// What a vault call asks of its host, in the order it asks. Addresses are
/// strkeys; the vault itself is the other side of every transfer.
#[derive(Clone, Debug, PartialEq, Eq)]
pub enum Effect {
    /// The call proceeds only if this address authorized it.
    RequireAuth(String),
    /// `amount` of `token` moves from `from` into the vault.
    TransferIn { token: String, from: String, amount: i128 },
    /// `amount` of `token` moves out of the vault to `to`.
    TransferOut { token: String, to: String, amount: i128 },
    /// The vault publishes this event.
    Publish(Event),
}

/// Deploys a vault with a valid configuration (an invalid one aborts the
/// deployment).
pub fn deploy(owner: String, token: String, min_deposit: i128, max_balance: Option<i128>) -> (v: LumenVault)
    requires
        bounds_valid(min_deposit, max_balance),
    ensures
        v == LumenVault::initial(owner, token, min_deposit, max_balance),
{
    match LumenVault::__constructor(owner, token, min_deposit, max_balance) {
        Ok(v) => v,
        Err(_) => LumenVault {
            owner: None,
            pending_owner: None,
            token: None,
            balance: None,
            paused: None,
            min_deposit: None,
            max_balance: None,
        },
    }
}

/// The stored values of one vault, one field per storage entry; `None` is
/// an entry that is not stored. Addresses are strkeys.
#[derive(Clone, Debug)]
pub struct LumenVault {
    pub owner: Option<String>,
    pub pending_owner: Option<String>,
    pub token: Option<String>,
    pub balance: Option<i128>,
    pub paused: Option<bool>,
    pub min_deposit: Option<i128>,
    pub max_balance: Option<i128>,
}

impl LumenVault {
    /// The stored balance, zero when none is stored.
    pub open spec fn stored_balance(self) -> i128 {
        match self.balance {
            Some(b) => b,
            None => 0,
        }
    }

    /// The stored deposit floor, zero when none is stored.
    pub open spec fn stored_min_deposit(self) -> i128 {
        match self.min_deposit {
            Some(m) => m,
            None => 0,
        }
    }

    /// Whether deposits are paused; not paused when nothing is stored.
    pub open spec fn stored_paused(self) -> bool {
        match self.paused {
            Some(p) => p,
            None => false,
        }
    }

    /// What every constructed vault satisfies, and every call keeps.
    pub open spec fn wf(self) -> bool {
        &&& self.owner is Some
        &&& self.token is Some
        &&& self.stored_balance() >= 0
        &&& bounds_valid(self.stored_min_deposit(), self.max_balance)
    }

    /// The vault that the constructor stores.
    pub open spec fn initial(
        owner: String,
        token: String,
        min_deposit: i128,
        max_balance: Option<i128>,
    ) -> LumenVault {
        LumenVault {
            owner: Some(owner),
            pending_owner: None,
            token: Some(token),
            balance: Some(0),
            paused: Some(false),
            min_deposit: Some(min_deposit),
            max_balance: max_balance,
        }
    }

    /// Creates a vault owned by `owner` that custodies `token`.
    pub fn __constructor(
        owner: String,
        token: String,
        min_deposit: i128,
        max_balance: Option<i128>,
    ) -> (r: Result<LumenVault, Error>)
        ensures
            r == (if bounds_valid(min_deposit, max_balance) {
                Ok(LumenVault::initial(owner, token, min_deposit, max_balance))
            } else {
                Err(Error::InvalidConfiguration)
            }),
    {
        validate_deposit_bounds(min_deposit, max_balance)?;
        Ok(LumenVault {
            owner: Some(owner),
            pending_owner: None,
            token: Some(token),
            balance: Some(0),
            paused: Some(false),
            min_deposit: Some(min_deposit),
            max_balance,
        })
    }

    /// The same vault with another stored balance.
    pub open spec fn with_balance(self, balance: i128) -> LumenVault {
        LumenVault { balance: Some(balance), ..self }
    }

    /// The outcome of depositing `amount`: the new balance, or the first
    /// check that refuses it.
    pub open spec fn deposit_result(self, amount: i128) -> Result<i128, Error> {
        let balance = self.stored_balance();
        if amount <= 0 {
            Err(Error::InvalidAmount)
        } else if self.stored_paused() {
            Err(Error::Paused)
        } else if amount < self.stored_min_deposit() {
            Err(Error::BelowMinimumDeposit)
        } else if balance + amount > i128::MAX {
            Err(Error::Overflow)
        } else if self.max_balance matches Some(max) && balance + amount > max {
            Err(Error::ExceedsMaxBalance)
        } else {
            Ok((balance + amount) as i128)
        }
    }

    /// The vault after depositing `amount`.
    pub open spec fn deposit_state(self, amount: i128) -> LumenVault {
        match self.deposit_result(amount) {
            Ok(new_balance) => self.with_balance(new_balance),
            Err(_) => self,
        }
    }

    /// What depositing `amount` from `from` asks of the host.
    pub open spec fn deposit_effects(self, from: String, amount: i128) -> Seq<Effect> {
        match self.deposit_result(amount) {
            Ok(new_balance) => seq![
                Effect::RequireAuth(from),
                Effect::TransferIn { token: self.token.unwrap(), from: from, amount: amount },
                Effect::Publish(Event::Deposit(Deposit { from: from, amount: amount, new_balance: new_balance })),
            ],
            Err(_) => seq![Effect::RequireAuth(from)],
        }
    }

    /// Decides a deposit of `amount` without performing it: the new balance,
    /// or the first check that refuses it.
    pub fn deposit_check(&self, amount: i128) -> (r: Result<i128, Error>)
        ensures
            r == self.deposit_result(amount),
    {
        if amount <= 0 {
            return Err(Error::InvalidAmount);
        }
        if self.is_paused() {
            return Err(Error::Paused);
        }
        if amount < self.read_min_deposit() {
            return Err(Error::BelowMinimumDeposit);
        }
        let balance = self.read_balance();
        let new_balance = match balance.checked_add(amount) {
            Some(b) => b,
            None => return Err(Error::Overflow),
        };
        if let Some(max) = self.read_max_balance() {
            if new_balance > max {
                return Err(Error::ExceedsMaxBalance);
            }
        }
        Ok(new_balance)
    }

    /// `from` authorizes moving `amount` of the vault's token into the
    /// vault; returns the new balance.
    pub fn deposit(&mut self, from: String, amount: i128, effects: &mut Vec<Effect>) -> (r: Result<i128, Error>)
        requires
            old(self).deposit_result(amount) is Ok ==> old(self).token is Some,
        ensures
            r == old(self).deposit_result(amount),
            *final(self) == old(self).deposit_state(amount),
            final(effects)@ == old(effects)@ + old(self).deposit_effects(from, amount),
    {
        effects.push(Effect::RequireAuth(from.clone()));
        let new_balance = self.deposit_check(amount)?;
        self.balance = Some(new_balance);
        let token = self.read_token();
        effects.push(Effect::TransferIn { token, from: from.clone(), amount });
        effects.push(Effect::Publish(Event::Deposit(Deposit { from, amount, new_balance })));
        Ok(new_balance)
    }

    /// What an owner-only call asks of the host: nothing when no owner is
    /// stored; otherwise the owner's authorization, followed by `then` when
    /// the call goes through.
    pub open spec fn owner_call_effects(self, succeeded: bool, then: Seq<Effect>) -> Seq<Effect> {
        match self.owner {
            None => seq![],
            Some(owner) => if succeeded {
                seq![Effect::RequireAuth(owner)] + then
            } else {
                seq![Effect::RequireAuth(owner)]
            },
        }
    }

    /// The outcome of withdrawing `amount`: the new balance, or the first
    /// check that refuses it.
    pub open spec fn withdraw_result(self, amount: i128) -> Result<i128, Error> {
        if self.owner is None {
            Err(Error::NotInitialized)
        } else if amount <= 0 {
            Err(Error::InvalidAmount)
        } else if amount > self.stored_balance() {
            Err(Error::InsufficientBalance)
        } else {
            Ok((self.stored_balance() - amount) as i128)
        }
    }

    /// The vault after withdrawing `amount`.
    pub open spec fn withdraw_state(self, amount: i128) -> LumenVault {
        match self.withdraw_result(amount) {
            Ok(new_balance) => self.with_balance(new_balance),
            Err(_) => self,
        }
    }

    /// What withdrawing `amount` asks of the host.
    pub open spec fn withdraw_effects(self, amount: i128) -> Seq<Effect> {
        let owner = self.owner.unwrap();
        self.owner_call_effects(
            self.withdraw_result(amount) is Ok,
            seq![
                Effect::TransferOut { token: self.token.unwrap(), to: owner, amount: amount },
                Effect::Publish(Event::Withdraw(Withdraw {
                    owner: owner,
                    amount: amount,
                    new_balance: self.withdraw_result(amount).unwrap(),
                })),
            ],
        )
    }

    /// Decides a withdrawal of `amount` without performing it: the new
    /// balance, or the first check that refuses it.
    pub fn withdraw_check(&self, amount: i128) -> (r: Result<i128, Error>)
        ensures
            r == self.withdraw_result(amount),
    {
        if self.owner.is_none() {
            return Err(Error::NotInitialized);
        }
        if amount <= 0 {
            return Err(Error::InvalidAmount);
        }
        let balance = self.read_balance();
        if amount > balance {
            return Err(Error::InsufficientBalance);
        }
        Ok(balance - amount)
    }

    /// The owner takes `amount` of the vault's token out of the vault;
    /// returns the new balance. Pausing does not block it.
    pub fn withdraw(&mut self, amount: i128, effects: &mut Vec<Effect>) -> (r: Result<i128, Error>)
        requires
            old(self).withdraw_result(amount) is Ok ==> old(self).token is Some,
        ensures
            r == old(self).withdraw_result(amount),
            *final(self) == old(self).withdraw_state(amount),
            final(effects)@ == old(effects)@ + old(self).withdraw_effects(amount),
    {
        let owner = self.read_owner()?;
        effects.push(Effect::RequireAuth(owner.clone()));
        let new_balance = self.withdraw_check(amount)?;
        self.balance = Some(new_balance);
        let token = self.read_token();
        effects.push(Effect::TransferOut { token, to: owner.clone(), amount });
        effects.push(Effect::Publish(Event::Withdraw(Withdraw { owner, amount, new_balance })));
        Ok(new_balance)
    }

    /// The outcome of an owner-only call that cannot otherwise fail.
    pub open spec fn owner_result(self) -> Result<(), Error> {
        if self.owner is None {
            Err(Error::NotInitialized)
        } else {
            Ok(())
        }
    }

    /// The vault with deposits paused or resumed, when an owner is stored.
    pub open spec fn pause_state(self, paused: bool) -> LumenVault {
        if self.owner is Some {
            LumenVault { paused: Some(paused), ..self }
        } else {
            self
        }
    }

    /// What pausing (or, for `false`, resuming) deposits asks of the host.
    pub open spec fn pause_effects(self, paused: bool) -> Seq<Effect> {
        let owner = self.owner.unwrap();
        self.owner_call_effects(
            true,
            seq![Effect::Publish(if paused {
                Event::Paused(Paused { owner: owner })
            } else {
                Event::Resumed(Resumed { owner: owner })
            })],
        )
    }

    /// The owner stops new deposits.
    pub fn pause(&mut self, effects: &mut Vec<Effect>) -> (r: Result<(), Error>)
        ensures
            r == old(self).owner_result(),
            *final(self) == old(self).pause_state(true),
            final(effects)@ == old(effects)@ + old(self).pause_effects(true),
    {
        let owner = self.read_owner()?;
        effects.push(Effect::RequireAuth(owner.clone()));
        self.paused = Some(true);
        effects.push(Effect::Publish(Event::Paused(Paused { owner })));
        Ok(())
    }

    /// The owner lets deposits in again.
    pub fn unpause(&mut self, effects: &mut Vec<Effect>) -> (r: Result<(), Error>)
        ensures
            r == old(self).owner_result(),
            *final(self) == old(self).pause_state(false),
            final(effects)@ == old(effects)@ + old(self).pause_effects(false),
    {
        let owner = self.read_owner()?;
        effects.push(Effect::RequireAuth(owner.clone()));
        self.paused = Some(false);
        effects.push(Effect::Publish(Event::Resumed(Resumed { owner })));
        Ok(())
    }

    /// The outcome of setting the deposit floor to `min_deposit`.
    pub open spec fn set_min_deposit_result(self, min_deposit: i128) -> Result<(), Error> {
        if self.owner is None {
            Err(Error::NotInitialized)
        } else if !bounds_valid(min_deposit, self.max_balance) {
            Err(Error::InvalidConfiguration)
        } else {
            Ok(())
        }
    }

    /// The vault after setting the deposit floor to `min_deposit`.
    pub open spec fn set_min_deposit_state(self, min_deposit: i128) -> LumenVault {
        if self.set_min_deposit_result(min_deposit) is Ok {
            LumenVault { min_deposit: Some(min_deposit), ..self }
        } else {
            self
        }
    }

    /// What setting the deposit floor asks of the host.
    pub open spec fn set_min_deposit_effects(self, min_deposit: i128) -> Seq<Effect> {
        self.owner_call_effects(
            self.set_min_deposit_result(min_deposit) is Ok,
            seq![Effect::Publish(Event::MinDepositUpdated(MinDepositUpdated { min_deposit: min_deposit }))],
        )
    }

    /// The owner changes the deposit floor.
    pub fn set_min_deposit(&mut self, min_deposit: i128, effects: &mut Vec<Effect>) -> (r: Result<(), Error>)
        ensures
            r == old(self).set_min_deposit_result(min_deposit),
            *final(self) == old(self).set_min_deposit_state(min_deposit),
            final(effects)@ == old(effects)@ + old(self).set_min_deposit_effects(min_deposit),
    {
        let owner = self.read_owner()?;
        effects.push(Effect::RequireAuth(owner));
        validate_deposit_bounds(min_deposit, self.read_max_balance())?;
        self.min_deposit = Some(min_deposit);
        effects.push(Effect::Publish(Event::MinDepositUpdated(MinDepositUpdated { min_deposit })));
        Ok(())
    }

    /// The outcome of setting the balance cap to `max_balance`.
    pub open spec fn set_max_balance_result(self, max_balance: Option<i128>) -> Result<(), Error> {
        if self.owner is None {
            Err(Error::NotInitialized)
        } else if !bounds_valid(self.stored_min_deposit(), max_balance) {
            Err(Error::InvalidConfiguration)
        } else {
            Ok(())
        }
    }

    /// The vault after setting the balance cap to `max_balance`.
    pub open spec fn set_max_balance_state(self, max_balance: Option<i128>) -> LumenVault {
        if self.set_max_balance_result(max_balance) is Ok {
            LumenVault { max_balance: max_balance, ..self }
        } else {
            self
        }
    }

    /// What setting the balance cap asks of the host.
    pub open spec fn set_max_balance_effects(self, max_balance: Option<i128>) -> Seq<Effect> {
        self.owner_call_effects(
            self.set_max_balance_result(max_balance) is Ok,
            seq![Effect::Publish(Event::MaxBalanceUpdated(MaxBalanceUpdated { max_balance: max_balance }))],
        )
    }

    /// The owner changes the balance cap; `None` removes it.
    pub fn set_max_balance(&mut self, max_balance: Option<i128>, effects: &mut Vec<Effect>) -> (r: Result<(), Error>)
        ensures
            r == old(self).set_max_balance_result(max_balance),
            *final(self) == old(self).set_max_balance_state(max_balance),
            final(effects)@ == old(effects)@ + old(self).set_max_balance_effects(max_balance),
    {
        let owner = self.read_owner()?;
        effects.push(Effect::RequireAuth(owner));
        validate_deposit_bounds(self.read_min_deposit(), max_balance)?;
        self.max_balance = max_balance;
        effects.push(Effect::Publish(Event::MaxBalanceUpdated(MaxBalanceUpdated { max_balance })));
        Ok(())
    }

    /// The outcome of rescuing `amount` of `token`.
    pub open spec fn rescue_result(self, token: String, amount: i128) -> Result<(), Error> {
        if self.owner is None {
            Err(Error::NotInitialized)
        } else if amount <= 0 {
            Err(Error::InvalidAmount)
        } else if token@ == self.token.unwrap()@ {
            Err(Error::CannotRescueVaultToken)
        } else {
            Ok(())
        }
    }

    /// What rescuing `amount` of `token` to `to` asks of the host.
    pub open spec fn rescue_effects(self, token: String, to: String, amount: i128) -> Seq<Effect> {
        self.owner_call_effects(
            self.rescue_result(token, amount) is Ok,
            seq![
                Effect::TransferOut { token: token, to: to, amount: amount },
                Effect::Publish(Event::Rescued(Rescued { token: token, to: to, amount: amount })),
            ],
        )
    }

    /// The owner sends `amount` of a token other than the vault's own,
    /// which reached the vault outside `deposit`, to `to`. The balance is
    /// untouched.
    pub fn rescue(&self, token: String, to: String, amount: i128, effects: &mut Vec<Effect>) -> (r: Result<(), Error>)
        requires
            self.owner is Some && amount > 0 ==> self.token is Some,
        ensures
            r == self.rescue_result(token, amount),
            final(effects)@ == old(effects)@ + self.rescue_effects(token, to, amount),
    {
        let owner = self.read_owner()?;
        effects.push(Effect::RequireAuth(owner));
        if amount <= 0 {
            return Err(Error::InvalidAmount);
        }
        let vault_token = self.read_token();
        if token == vault_token {
            return Err(Error::CannotRescueVaultToken);
        }
        effects.push(Effect::TransferOut { token: token.clone(), to: to.clone(), amount });
        effects.push(Effect::Publish(Event::Rescued(Rescued { token, to, amount })));
        Ok(())
    }

    /// The vault with `new_owner` named as successor, when an owner is
    /// stored.
    pub open spec fn propose_owner_state(self, new_owner: String) -> LumenVault {
        if self.owner is Some {
            LumenVault { pending_owner: Some(new_owner), ..self }
        } else {
            self
        }
    }

    /// What naming `new_owner` as successor asks of the host.
    pub open spec fn propose_owner_effects(self, new_owner: String) -> Seq<Effect> {
        self.owner_call_effects(
            true,
            seq![Effect::Publish(Event::OwnerProposed(OwnerProposed { new_owner: new_owner }))],
        )
    }

    /// First step of an ownership transfer: the owner names a successor.
    /// The owner stays in control until the successor accepts; naming
    /// another successor replaces this one.
    pub fn propose_owner(&mut self, new_owner: String, effects: &mut Vec<Effect>) -> (r: Result<(), Error>)
        ensures
            r == old(self).owner_result(),
            *final(self) == old(self).propose_owner_state(new_owner),
            final(effects)@ == old(effects)@ + old(self).propose_owner_effects(new_owner),
    {
        let owner = self.read_owner()?;
        effects.push(Effect::RequireAuth(owner));
        self.pending_owner = Some(new_owner.clone());
        effects.push(Effect::Publish(Event::OwnerProposed(OwnerProposed { new_owner })));
        Ok(())
    }

    /// The outcome of withdrawing the pending proposal.
    pub open spec fn cancel_pending_owner_result(self) -> Result<(), Error> {
        if self.owner is None {
            Err(Error::NotInitialized)
        } else if self.pending_owner is None {
            Err(Error::NoPendingOwner)
        } else {
            Ok(())
        }
    }

    /// The vault after withdrawing the pending proposal.
    pub open spec fn cancel_pending_owner_state(self) -> LumenVault {
        if self.cancel_pending_owner_result() is Ok {
            LumenVault { pending_owner: None, ..self }
        } else {
            self
        }
    }

    /// What withdrawing the pending proposal asks of the host.
    pub open spec fn cancel_pending_owner_effects(self) -> Seq<Effect> {
        self.owner_call_effects(self.cancel_pending_owner_result() is Ok, seq![])
    }

    /// The owner withdraws the pending proposal; the named successor can no
    /// longer accept.
    pub fn cancel_pending_owner(&mut self, effects: &mut Vec<Effect>) -> (r: Result<(), Error>)
        ensures
            r == old(self).cancel_pending_owner_result(),
            *final(self) == old(self).cancel_pending_owner_state(),
            final(effects)@ == old(effects)@ + old(self).cancel_pending_owner_effects(),
    {
        let owner = self.read_owner()?;
        effects.push(Effect::RequireAuth(owner));
        if self.pending_owner.is_none() {
            return Err(Error::NoPendingOwner);
        }
        self.pending_owner = None;
        Ok(())
    }

    /// The outcome of the successor taking over.
    pub open spec fn accept_owner_result(self) -> Result<(), Error> {
        if self.pending_owner is None {
            Err(Error::NoPendingOwner)
        } else {
            Ok(())
        }
    }

    /// The vault after the successor takes over.
    pub open spec fn accept_owner_state(self) -> LumenVault {
        match self.pending_owner {
            Some(pending) => LumenVault { owner: Some(pending), pending_owner: None, ..self },
            None => self,
        }
    }

    /// What the successor taking over asks of the host: the successor's own
    /// authorization, then the event.
    pub open spec fn accept_owner_effects(self) -> Seq<Effect> {
        match self.pending_owner {
            Some(pending) => seq![
                Effect::RequireAuth(pending),
                Effect::Publish(Event::OwnerTransferred(OwnerTransferred { new_owner: pending })),
            ],
            None => seq![],
        }
    }

    /// Second step of an ownership transfer: the named successor, by
    /// authorizing the call, becomes the owner.
    pub fn accept_owner(&mut self, effects: &mut Vec<Effect>) -> (r: Result<(), Error>)
        ensures
            r == old(self).accept_owner_result(),
            *final(self) == old(self).accept_owner_state(),
            final(effects)@ == old(effects)@ + old(self).accept_owner_effects(),
    {
        let pending = match &self.pending_owner {
            Some(p) => p.clone(),
            None => return Err(Error::NoPendingOwner),
        };
        effects.push(Effect::RequireAuth(pending.clone()));
        self.owner = Some(pending.clone());
        self.pending_owner = None;
        effects.push(Effect::Publish(Event::OwnerTransferred(OwnerTransferred { new_owner: pending })));
        Ok(())
    }

    /// The vault's balance.
    pub fn balance(&self) -> (r: i128)
        ensures
            r == self.stored_balance(),
    {
        self.read_balance()
    }

    /// The vault's owner.
    pub fn owner(&self) -> (r: Result<String, Error>)
        ensures
            r == (match self.owner {
                Some(o) => Ok(o),
                None => Err(Error::NotInitialized),
            }),
    {
        self.read_owner()
    }

    /// The successor named by the owner, if any.
    pub fn pending_owner(&self) -> (r: Option<String>)
        ensures
            r == self.pending_owner,
    {
        self.pending_owner.clone()
    }

    /// The token the vault custodies.
    pub fn token(&self) -> (r: String)
        requires
            self.token is Some,
        ensures
            r == self.token.unwrap(),
    {
        self.read_token()
    }

    /// The smallest accepted deposit.
    pub fn min_deposit(&self) -> (r: i128)
        ensures
            r == self.stored_min_deposit(),
    {
        self.read_min_deposit()
    }

    /// The balance cap, if any.
    pub fn max_balance(&self) -> (r: Option<i128>)
        ensures
            r == self.max_balance,
    {
        self.read_max_balance()
    }

    /// Whether deposits are paused.
    pub fn paused(&self) -> (r: bool)
        ensures
            r == self.stored_paused(),
    {
        self.is_paused()
    }

    fn read_balance(&self) -> (r: i128)
        ensures
            r == self.stored_balance(),
    {
        match self.balance {
            Some(b) => b,
            None => 0,
        }
    }

    fn read_owner(&self) -> (r: Result<String, Error>)
        ensures
            r == (match self.owner {
                Some(o) => Ok(o),
                None => Err(Error::NotInitialized),
            }),
    {
        match &self.owner {
            Some(o) => Ok(o.clone()),
            None => Err(Error::NotInitialized),
        }
    }

    fn read_token(&self) -> (r: String)
        requires
            self.token is Some,
        ensures
            r == self.token.unwrap(),
    {
        match &self.token {
            Some(t) => t.clone(),
            None => String::new(),
        }
    }

    fn read_min_deposit(&self) -> (r: i128)
        ensures
            r == self.stored_min_deposit(),
    {
        match self.min_deposit {
            Some(m) => m,
            None => 0,
        }
    }

    fn read_max_balance(&self) -> (r: Option<i128>)
        ensures
            r == self.max_balance,
    {
        self.max_balance
    }

    fn is_paused(&self) -> (r: bool)
        ensures
            r == self.stored_paused(),
    {
        match self.paused {
            Some(p) => p,
            None => false,
        }
    }
}

} // verus!
