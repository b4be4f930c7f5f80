use vstd::prelude::*;

use crate::game::CoinflipError;
use crate::game::EscrowVault;

verus! {

/// A debit of `amount` from `from` and credit to `to` stays within u64.
pub open spec fn can_transfer(from: u64, to: u64, amount: u64) -> bool {
    from >= amount && to + amount <= u64::MAX
}

/// A deposit of `amount` can be taken from `from` without underflow and
/// recorded by the vault without overflow.
pub open spec fn can_deposit(from: u64, v: EscrowVault, amount: u64) -> bool {
    from >= amount && v.total_deposited + amount <= u64::MAX
}

/// A payout of `amount` is covered by the vault and fits the recipient.
pub open spec fn can_payout(v: EscrowVault, to: u64, amount: u64) -> bool {
    v.balance >= amount && to + amount <= u64::MAX
}

/// Move `amount` from one balance to another. Both sides move or neither:
/// underflow or overflow fails the whole transfer with no mutation.
pub fn transfer_lamports(from: &mut u64, to: &mut u64, amount: u64) -> (r: Result<
    (),
    CoinflipError,
>)
    ensures
        match r {
            Ok(()) => can_transfer(*old(from), *old(to), amount) && *final(from) == *old(from)
                - amount && *final(to) == *old(to) + amount,
            Err(e) => e == CoinflipError::InvalidStake && !can_transfer(
                *old(from),
                *old(to),
                amount,
            ) && *final(from) == *old(from) && *final(to) == *old(to),
        },
{
    if *from < amount {
        return Err(CoinflipError::InvalidStake);
    }
    if amount > u64::MAX - *to {
        return Err(CoinflipError::InvalidStake);
    }
    *from = *from - amount;
    *to = *to + amount;
    Ok(())
}

/// Debit the depositor and credit the vault, recording the deposit in the
/// running total. Fails with no mutation if the depositor cannot cover it
/// or the running total would overflow.
pub fn deposit_to_vault(from: &mut u64, vault: &mut EscrowVault, amount: u64) -> (r: Result<
    (),
    CoinflipError,
>)
    requires
        old(vault).conserves_funds(),
    ensures
        final(vault).conserves_funds(),
        match r {
            Ok(()) => can_deposit(*old(from), *old(vault), amount)
                && *final(from) == *old(from) - amount
                && final(vault).balance == old(vault).balance + amount
                && final(vault).total_deposited == old(vault).total_deposited + amount
                && final(vault).total_paid_out == old(vault).total_paid_out,
            Err(e) => e == CoinflipError::InvalidStake && !can_deposit(
                *old(from),
                *old(vault),
                amount,
            ) && *final(from) == *old(from) && *final(vault) == *old(vault),
        },
{
    if *from < amount {
        return Err(CoinflipError::InvalidStake);
    }
    if amount > u64::MAX - vault.total_deposited {
        return Err(CoinflipError::InvalidStake);
    }
    *from = *from - amount;
    vault.balance = vault.balance + amount;
    vault.total_deposited = vault.total_deposited + amount;
    Ok(())
}

/// Debit the vault and credit the recipient, recording the payout in the
/// running total. Fails with no mutation if the vault cannot cover it or
/// the recipient's balance would overflow.
pub fn payout(vault: &mut EscrowVault, to: &mut u64, amount: u64) -> (r: Result<(), CoinflipError>)
    requires
        old(vault).conserves_funds(),
    ensures
        final(vault).conserves_funds(),
        match r {
            Ok(()) => can_payout(*old(vault), *old(to), amount)
                && *final(to) == *old(to) + amount
                && final(vault).balance == old(vault).balance - amount
                && final(vault).total_paid_out == old(vault).total_paid_out + amount
                && final(vault).total_deposited == old(vault).total_deposited,
            Err(e) => e == CoinflipError::InvalidStake && !can_payout(*old(vault), *old(to), amount)
                && *final(to) == *old(to) && *final(vault) == *old(vault),
        },
{
    if vault.balance < amount {
        return Err(CoinflipError::InvalidStake);
    }
    if amount > u64::MAX - *to {
        return Err(CoinflipError::InvalidStake);
    }
    vault.balance = vault.balance - amount;
    *to = *to + amount;
    vault.total_paid_out = vault.total_paid_out + amount;
    Ok(())
}

} // verus!
