use vstd::prelude::*;

use crate::key::Key;
use crate::pda::{program_address, seeds_view, with_bump};
use crate::seeds::{build_listing_seeds, listing_seeds, push_bump};

verus! {

/// The listing account signing for its vault: its seeds and bump.
#[derive(Clone, Copy, Debug)]
pub struct ListingSigner {
    pub marketplace: Key,
    pub maker: Key,
    pub mint: Key,
    pub bump: u8,
}

impl ListingSigner {
    /// The signer seeds: `[marketplace, maker, mint, [bump]]`.
    pub open spec fn spec_seeds(self) -> Seq<Seq<u8>> {
        with_bump(listing_seeds(self.marketplace@, self.maker@, self.mint@), self.bump)
    }

    /// Builds the signer seeds.
    pub fn seeds(&self) -> (v: Vec<Vec<u8>>)
        ensures
            seeds_view(v@) == self.spec_seeds(),
    {
        let mut v = build_listing_seeds(&self.marketplace, &self.maker, &self.mint);
        push_bump(&mut v, self.bump);
        v
    }
}

/// One effect of an instruction, carried out in order by the runtime.
#[derive(Clone, Copy, Debug)]
pub enum Action {
    /// A system-program transfer of lamports.
    TransferLamports { from: Key, to: Key, amount: u64 },
    /// A checked token transfer, signed by the listing where `signer` is given.
    TransferTokens {
        from: Key,
        mint: Key,
        to: Key,
        authority: Key,
        amount: u64,
        decimals: u8,
        signer: Option<ListingSigner>,
    },
    /// Closing a token account, its lamports going to `destination`.
    CloseTokenAccount { account: Key, destination: Key, authority: Key, signer: Option<ListingSigner> },
    /// Taking lamports out of an account the program owns.
    DebitLamports { account: Key, amount: u64 },
    /// Adding lamports to an account.
    CreditLamports { account: Key, amount: u64 },
    /// Closing a program account at the end of the instruction, all its
    /// lamports going to `destination`.
    CloseAccount { account: Key, destination: Key },
}

/// What one action adds to (or takes from) the lamports of `who`, where the
/// amount is fixed by the action itself (closing accounts is not counted).
pub open spec fn action_lamport_change(a: Action, who: Seq<u8>) -> int {
    match a {
        Action::TransferLamports { from, to, amount } =>
            (if to@ == who { amount as int } else { 0 }) - (if from@ == who { amount as int } else { 0 }),
        Action::DebitLamports { account, amount } => if account@ == who { -(amount as int) } else { 0 },
        Action::CreditLamports { account, amount } => if account@ == who { amount as int } else { 0 },
        _ => 0,
    }
}

/// The lamports that a sequence of actions moves into (or out of) `who`.
pub open spec fn lamport_change(plan: Seq<Action>, who: Seq<u8>) -> int
    decreases plan.len(),
{
    if plan.len() == 0 {
        0
    } else {
        lamport_change(plan.drop_last(), who) + action_lamport_change(plan.last(), who)
    }
}

/// Lamports added minus lamports taken out by direct debits and credits.
pub open spec fn action_net_credit(a: Action) -> int {
    match a {
        Action::DebitLamports { amount, .. } => -(amount as int),
        Action::CreditLamports { amount, .. } => amount as int,
        _ => 0,
    }
}

/// Over a sequence of actions: lamports credited minus lamports debited.
pub open spec fn net_credit(plan: Seq<Action>) -> int
    decreases plan.len(),
{
    if plan.len() == 0 {
        0
    } else {
        net_credit(plan.drop_last()) + action_net_credit(plan.last())
    }
}

/// What one action adds to (or takes from) token account `account`.
pub open spec fn action_token_change(a: Action, account: Seq<u8>) -> int {
    match a {
        Action::TransferTokens { from, to, amount, .. } =>
            (if to@ == account { amount as int } else { 0 }) - (if from@ == account { amount as int } else { 0 }),
        _ => 0,
    }
}

/// The tokens that a sequence of actions moves into (or out of) `account`.
pub open spec fn token_change(plan: Seq<Action>, account: Seq<u8>) -> int
    decreases plan.len(),
{
    if plan.len() == 0 {
        0
    } else {
        token_change(plan.drop_last(), account) + action_token_change(plan.last(), account)
    }
}

/// Lamport balances after one action, from balances `bal` (an account that is
/// closed hands all its lamports to the destination).
pub open spec fn apply_lamports(bal: spec_fn(Seq<u8>) -> int, a: Action) -> spec_fn(Seq<u8>) -> int {
    match a {
        Action::TransferLamports { from, to, amount } =>
            |k: Seq<u8>| bal(k) + (if to@ == k { amount as int } else { 0 }) - (if from@ == k { amount as int } else { 0 }),
        Action::DebitLamports { account, amount } =>
            |k: Seq<u8>| bal(k) - (if account@ == k { amount as int } else { 0 }),
        Action::CreditLamports { account, amount } =>
            |k: Seq<u8>| bal(k) + (if account@ == k { amount as int } else { 0 }),
        Action::CloseAccount { account, destination } =>
            close_into(bal, account@, destination@),
        Action::CloseTokenAccount { account, destination, .. } =>
            close_into(bal, account@, destination@),
        Action::TransferTokens { .. } => bal,
    }
}

/// Balances after `account` hands all its lamports to `destination`.
pub open spec fn close_into(bal: spec_fn(Seq<u8>) -> int, account: Seq<u8>, destination: Seq<u8>) -> spec_fn(Seq<u8>) -> int {
    |k: Seq<u8>|
        if account == destination {
            bal(k)
        } else if k == account {
            0
        } else if k == destination {
            bal(destination) + bal(account)
        } else {
            bal(k)
        }
}

/// Lamport balances after a sequence of actions.
pub open spec fn apply_plan(bal: spec_fn(Seq<u8>) -> int, plan: Seq<Action>) -> spec_fn(Seq<u8>) -> int
    decreases plan.len(),
{
    if plan.len() == 0 {
        bal
    } else {
        apply_lamports(apply_plan(bal, plan.drop_last()), plan.last())
    }
}


/// `listing` authorises a token action and signs it with seeds that derive its
/// own address under `program_id`.
pub open spec fn signed_by_listing(
    authority: Key,
    signer: Option<ListingSigner>,
    listing: Seq<u8>,
    program_id: Seq<u8>,
) -> bool {
    &&& authority@ == listing
    &&& match signer {
        Some(s) => program_address(s.spec_seeds(), program_id) == Some(listing),
        None => false,
    }
}

/// An action that takes tokens out of `vault`, or closes it, is authorised by
/// the listing, which signs it with seeds that derive the listing's address.
pub open spec fn vault_action_signed(a: Action, vault: Seq<u8>, listing: Seq<u8>, program_id: Seq<u8>) -> bool {
    match a {
        Action::TransferTokens { from, authority, signer, .. } =>
            from@ == vault ==> signed_by_listing(authority, signer, listing, program_id),
        Action::CloseTokenAccount { account, authority, signer, .. } =>
            account@ == vault ==> signed_by_listing(authority, signer, listing, program_id),
        _ => true,
    }
}

/// Every action of `plan` that takes from or closes `vault` is signed by the
/// listing.
pub open spec fn vault_actions_signed(plan: Seq<Action>, vault: Seq<u8>, listing: Seq<u8>, program_id: Seq<u8>) -> bool {
    forall|i: int| 0 <= i < plan.len() ==> #[trigger] vault_action_signed(plan[i], vault, listing, program_id)
}

} // verus!
