//! Collection: scans the character's current contacts for collectible
//! pickups, removes every one that is touched, and increments the bounded
//! collection counter, clamped to [`COIN_SLOTS`].

use vstd::prelude::*;

use crate::components::{Coin, Player};
use crate::constants::COIN_SLOTS;
use crate::resources::{coin_state_wf, CoinState};

verus! {

/// Whether a contact set holds the given entity handle.
pub open spec fn contains_id(contacts: Seq<u64>, id: u64) -> bool {
    exists|i: int| 0 <= i < contacts.len() && contacts[i] == id
}

/// The coins that survive a collection pass: those whose entity is not in
/// contact with the character, keeping their relative order.
pub open spec fn surviving_coins(coins: Seq<Coin>, contacts: Seq<u64>) -> Seq<Coin>
    decreases coins.len(),
{
    if coins.len() == 0 {
        Seq::empty()
    } else {
        let rest = surviving_coins(coins.drop_last(), contacts);
        if contains_id(contacts, coins.last().id) {
            rest
        } else {
            rest.push(coins.last())
        }
    }
}

/// How many coins are collected in one pass: those in contact with the
/// character.
pub open spec fn collected_hits(coins: Seq<Coin>, contacts: Seq<u64>) -> nat
    decreases coins.len(),
{
    if coins.len() == 0 {
        0
    } else {
        collected_hits(coins.drop_last(), contacts) + if contains_id(
            contacts,
            coins.last().id,
        ) {
            1nat
        } else {
            0nat
        }
    }
}

/// The counter after `hits` clamped increments: it grows by
/// `min(hits, COIN_SLOTS - collected)` and never exceeds [`COIN_SLOTS`].
pub open spec fn collected_after(collected: nat, hits: nat) -> nat {
    if collected + hits <= COIN_SLOTS {
        collected + hits
    } else {
        COIN_SLOTS as nat
    }
}

/// Whether a contact vector holds the given entity handle.
pub fn contact_set_contains(contacts: &Vec<u64>, id: u64) -> (b: bool)
    ensures
        b == contains_id(contacts@, id),
{
    let mut i: usize = 0;
    while i < contacts.len()
        invariant
            i <= contacts@.len(),
            forall|k: int| 0 <= k < i ==> contacts@[k] != id,
        decreases contacts@.len() - i,
    {
        if contacts[i] == id {
            return true;
        }
        i = i + 1;
    }
    false
}

/// Collection stage: every coin in contact with the character is removed
/// from the simulation, and each removal increments the counter, clamped at
/// [`COIN_SLOTS`]. A silent no-op when the character singleton is absent.
pub fn collect_coins(coin_state: &mut CoinState, player: &Option<Player>, coins: &mut Vec<Coin>)
    requires
        coin_state_wf(*old(coin_state)),
    ensures
        coin_state_wf(*final(coin_state)),
        match (*player) {
            Some(p) => {
                &&& final(coins)@ == surviving_coins(old(coins)@, p.contacts@)
                &&& final(coin_state).collected == collected_after(
                    old(coin_state).collected as nat,
                    collected_hits(old(coins)@, p.contacts@),
                )
            },
            None => final(coins)@ == old(coins)@ && *final(coin_state) == *old(coin_state),
        },
{
    match player {
        Some(p) => {
            let ghost contacts = p.contacts@;
            let ghost initial_collected = coin_state.collected as nat;
            let mut kept: Vec<Coin> = Vec::new();
            let mut hits: usize = 0;
            let mut i: usize = 0;
            proof {
                assert(coins@.take(0) =~= Seq::<Coin>::empty());
            }
            while i < coins.len()
                invariant
                    i <= coins@.len(),
                    hits <= i,
                    kept@ == surviving_coins(coins@.take(i as int), contacts),
                    hits as nat == collected_hits(coins@.take(i as int), contacts),
                    coin_state.collected as nat == collected_after(initial_collected, hits as nat),
                    initial_collected <= COIN_SLOTS,
                    contacts == p.contacts@,
                decreases coins@.len() - i,
            {
                proof {
                    assert(coins@.take(i as int + 1).drop_last() =~= coins@.take(i as int));
                    assert(coins@.take(i as int + 1).last() == coins@[i as int]);
                }
                let coin = coins[i];
                if contact_set_contains(&p.contacts, coin.id) {
                    hits = hits + 1;
                    if coin_state.collected < COIN_SLOTS {
                        coin_state.collected = coin_state.collected + 1;
                    }
                } else {
                    kept.push(coin);
                }
                i = i + 1;
            }
            proof {
                assert(coins@.take(coins@.len() as int) =~= coins@);
            }
            *coins = kept;
        },
        None => {},
    }
}

/// Law of the clamp: one collection pass of `hits` touched coins grows the
/// counter by exactly `min(hits, COIN_SLOTS - collected)` — it never
/// decreases and never exceeds [`COIN_SLOTS`].
pub proof fn lemma_counter_clamped(collected: nat, hits: nat)
    requires
        collected <= COIN_SLOTS,
    ensures
        collected_after(collected, hits) == collected + (if hits <= COIN_SLOTS - collected {
            hits
        } else {
            (COIN_SLOTS - collected) as nat
        }),
        collected <= collected_after(collected, hits) <= COIN_SLOTS,
{
}

/// Law of removal: a coin whose entity was in contact is absent from the
/// simulation after the collection pass.
pub proof fn lemma_collected_coin_absent(coins: Seq<Coin>, contacts: Seq<u64>, id: u64)
    requires
        contains_id(contacts, id),
    ensures
        forall|k: int|
            0 <= k < surviving_coins(coins, contacts).len() ==> (
            #[trigger] surviving_coins(coins, contacts)[k]).id != id,
    decreases coins.len(),
{
    if coins.len() > 0 {
        lemma_collected_coin_absent(coins.drop_last(), contacts, id);
        let rest = surviving_coins(coins.drop_last(), contacts);
        let s = surviving_coins(coins, contacts);
        assert forall|k: int| 0 <= k < s.len() implies (#[trigger] s[k]).id != id by {
            if contains_id(contacts, coins.last().id) {
                assert(s[k] == rest[k]);
            } else {
                if k < rest.len() {
                    assert(s[k] == rest[k]);
                } else {
                    assert(s[k] == coins.last());
                }
            }
        }
    }
}

/// Law of idempotence: a second collection pass over the surviving coins
/// with the same contact set removes nothing and counts nothing, so a
/// collected coin is never double-counted on a later frame.
pub proof fn lemma_no_double_collection(coins: Seq<Coin>, contacts: Seq<u64>)
    ensures
        surviving_coins(surviving_coins(coins, contacts), contacts) == surviving_coins(
            coins,
            contacts,
        ),
        collected_hits(surviving_coins(coins, contacts), contacts) == 0,
    decreases coins.len(),
{
    if coins.len() == 0 {
    } else {
        lemma_no_double_collection(coins.drop_last(), contacts);
        let rest = surviving_coins(coins.drop_last(), contacts);
        if !contains_id(contacts, coins.last().id) {
            let whole = rest.push(coins.last());
            assert(whole.drop_last() =~= rest);
        }
    }
}

} // verus!
