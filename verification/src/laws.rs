//! Global guarantees of the registry, stated and proved over the
//! abstract transitions of [`MachineView`].

use vstd::prelude::*;

use crate::account::AccountId;
use crate::machine::{Error, MachineView, NftView};
use crate::naming::nft_name;

verus! {

/// The state reached by letting each identity in `callers`, in order,
/// mint one record.
pub open spec fn mint_many(s: MachineView, callers: Seq<AccountId>) -> MachineView
    decreases callers.len(),
{
    if callers.len() == 0 {
        s
    } else {
        mint_many(s.mint_token_spec(callers[0]).0, callers.drop_first())
    }
}

/// Law: after activation, minting is sequential. Starting from any
/// well-formed activated state whose counter can absorb `callers.len()`
/// further mints, every mint in the run succeeds, the `j`-th returns
/// index `oracle_index + j + 1`, the counter ends at `oracle_index +
/// callers.len()`, earlier records are untouched, and the `j`-th new
/// record is owned by its minter.
pub proof fn lemma_mint_many(s: MachineView, callers: Seq<AccountId>)
    requires
        s.wf(),
        s.oracle_setup,
        s.oracle_index + callers.len() <= u64::MAX,
    ensures
        mint_many(s, callers).wf(),
        mint_many(s, callers).oracle_setup,
        mint_many(s, callers).admin == s.admin,
        mint_many(s, callers).oracle_index == s.oracle_index + callers.len(),
        forall|j: int| 0 <= j < s.nfts.len() ==> #[trigger] mint_many(s, callers).nfts[j] == s.nfts[j],
        forall|j: int|
            0 <= j < callers.len() ==> #[trigger] mint_many(s, callers).nfts[s.nfts.len() + j].owner
                == callers[j],
        forall|j: int|
            0 <= j < callers.len() ==> #[trigger] mint_many(s, callers.take(j)).mint_token_spec(
                callers[j],
            ).1 == Ok::<u64, Error>((s.oracle_index + j + 1) as u64),
    decreases callers.len(),
{
    if callers.len() > 0 {
        let s1 = s.mint_token_spec(callers[0]).0;
        let rest = callers.drop_first();
        lemma_mint_many(s1, rest);
        assert forall|j: int| 0 <= j < callers.len() implies #[trigger] mint_many(
            s,
            callers.take(j),
        ).mint_token_spec(callers[j]).1 == Ok::<u64, Error>((s.oracle_index + j + 1) as u64) by {
            if j == 0 {
                assert(callers.take(0) =~= Seq::<AccountId>::empty());
            } else {
                assert(callers.take(j).drop_first() =~= rest.take(j - 1));
                assert(mint_many(s, callers.take(j)) == mint_many(s1, rest.take(j - 1)));
                assert(mint_many(s1, rest.take(j - 1)).mint_token_spec(rest[j - 1]).1 == Ok::<
                    u64,
                    Error,
                >((s1.oracle_index + (j - 1) + 1) as u64));
            }
        }
        assert forall|j: int| 0 <= j < callers.len() implies #[trigger] mint_many(
            s,
            callers,
        ).nfts[s.nfts.len() + j].owner == callers[j] by {
            if j == 0 {
                assert(mint_many(s, callers).nfts[s1.nfts.len() - 1] == s1.nfts[s1.nfts.len() - 1]);
            } else {
                assert(mint_many(s1, rest).nfts[s1.nfts.len() + (j - 1)].owner == rest[j - 1]);
            }
        }
    }
}

/// Law: for a run of `n` mints immediately after activation, the
/// returned indices are exactly `1 ..= n` in order, the counter ends at
/// `n`, and record `i` is named `"NFT #" + i` and owned by its minter.
pub proof fn lemma_sequential_mint_from_activation(s: MachineView, callers: Seq<AccountId>)
    requires
        s.wf(),
        s.oracle_setup,
        s.oracle_index == 0,
        callers.len() <= u64::MAX,
    ensures
        forall|j: int|
            0 <= j < callers.len() ==> #[trigger] mint_many(s, callers.take(j)).mint_token_spec(
                callers[j],
            ).1 == Ok::<u64, Error>((j + 1) as u64),
        mint_many(s, callers).oracle_index == callers.len(),
        forall|i: u64|
            1 <= i <= callers.len() ==> #[trigger] mint_many(s, callers).get_nft_spec(i) == Some(
                NftView { token_name: nft_name(i), owner: callers[i - 1] },
            ),
{
    lemma_mint_many(s, callers);
    let t = mint_many(s, callers);
    assert forall|i: u64| 1 <= i <= callers.len() implies #[trigger] t.get_nft_spec(i) == Some(
        NftView { token_name: nft_name(i), owner: callers[i - 1] },
    ) by {
        assert(t.nfts.len() == callers.len());
        assert(t.nfts[s.nfts.len() + (i - 1)].owner == callers[i - 1]);
        assert(t.nfts[i - 1].token_name == nft_name(((i - 1) + 1) as u64));
        assert(t.record(i) == (NftView { token_name: nft_name(i), owner: callers[i - 1] }));
    }
}

/// Law: activating the oracle twice as the administrator succeeds once
/// and only once — the first call succeeds and resets the counter to 0,
/// the second fails with `OracleAlreadySet` and changes nothing.
pub proof fn lemma_setup_oracle_twice(s: MachineView, caller: AccountId)
    requires
        s.wf(),
        caller == s.admin,
        !s.oracle_setup,
    ensures
        s.setup_oracle_spec(caller).1 == Ok::<(), Error>(()),
        s.setup_oracle_spec(caller).0.oracle_index == 0,
        s.setup_oracle_spec(caller).0.setup_oracle_spec(caller).1 == Err::<(), Error>(
            Error::OracleAlreadySet,
        ),
        s.setup_oracle_spec(caller).0.setup_oracle_spec(caller).0 == s.setup_oracle_spec(caller).0,
{
}

/// Law: a caller other than the administrator cannot activate the
/// oracle — the call fails with `NotAdmin` and the state, in particular
/// the activation flag, is unchanged.
pub proof fn lemma_setup_oracle_non_admin(s: MachineView, caller: AccountId)
    requires
        caller != s.admin,
    ensures
        s.setup_oracle_spec(caller).1 == Err::<(), Error>(Error::NotAdmin),
        s.setup_oracle_spec(caller).0 == s,
{
}

/// Law: before the oracle is set up, minting always fails with
/// `OracleNotSetup` and creates no record.
pub proof fn lemma_mint_before_setup(s: MachineView, caller: AccountId)
    requires
        !s.oracle_setup,
    ensures
        s.mint_token_spec(caller).1 == Err::<u64, Error>(Error::OracleNotSetup),
        s.mint_token_spec(caller).0 == s,
{
}

/// Law: transferring a record that was never minted fails with
/// `NFTNotFound` and changes nothing.
pub proof fn lemma_transfer_missing_record(
    s: MachineView,
    caller: AccountId,
    nft_index: u64,
    new_owner: AccountId,
)
    requires
        !s.has_record(nft_index),
    ensures
        s.transfer_nft_spec(caller, nft_index, new_owner).1 == Err::<(), Error>(Error::NFTNotFound),
        s.transfer_nft_spec(caller, nft_index, new_owner).0 == s,
{
}

/// Law: a caller who does not own a record cannot transfer it — the
/// call fails with `NotOwner` and every record, in particular its owner
/// field, is unchanged.
pub proof fn lemma_transfer_by_non_owner(
    s: MachineView,
    caller: AccountId,
    nft_index: u64,
    new_owner: AccountId,
)
    requires
        s.has_record(nft_index),
        caller != s.record(nft_index).owner,
    ensures
        s.transfer_nft_spec(caller, nft_index, new_owner).1 == Err::<(), Error>(Error::NotOwner),
        s.transfer_nft_spec(caller, nft_index, new_owner).0 == s,
{
}

/// Law: the current owner of a record can always transfer it — the call
/// succeeds, afterwards the record is owned by `new_owner` with its name
/// unchanged, and no other record and no other part of the state is
/// touched.
pub proof fn lemma_transfer_by_owner(
    s: MachineView,
    caller: AccountId,
    nft_index: u64,
    new_owner: AccountId,
)
    requires
        s.wf(),
        s.has_record(nft_index),
        caller == s.record(nft_index).owner,
    ensures
        s.transfer_nft_spec(caller, nft_index, new_owner).1 == Ok::<(), Error>(()),
        s.transfer_nft_spec(caller, nft_index, new_owner).0.wf(),
        (s.transfer_nft_spec(caller, nft_index, new_owner).0.get_nft_spec(nft_index) matches Some(
            record,
        ) && record.owner == new_owner && record.token_name == s.record(nft_index).token_name),
        s.transfer_nft_spec(caller, nft_index, new_owner).0.admin == s.admin,
        s.transfer_nft_spec(caller, nft_index, new_owner).0.oracle_setup == s.oracle_setup,
        s.transfer_nft_spec(caller, nft_index, new_owner).0.oracle_index == s.oracle_index,
        forall|k: u64|
            s.has_record(k) && k != nft_index ==> s.transfer_nft_spec(
                caller,
                nft_index,
                new_owner,
            ).0.record(k) == s.record(k),
{
}

/// Law (one-time activation, fixed administrator): no transition ever
/// clears the activation flag, changes the administrator, or decreases
/// the counter.
pub proof fn lemma_transitions_monotone(
    s: MachineView,
    caller: AccountId,
    nft_index: u64,
    new_owner: AccountId,
)
    ensures
        s.setup_oracle_spec(caller).0.admin == s.admin,
        s.mint_token_spec(caller).0.admin == s.admin,
        s.transfer_nft_spec(caller, nft_index, new_owner).0.admin == s.admin,
        s.oracle_setup ==> s.setup_oracle_spec(caller).0.oracle_setup,
        s.oracle_setup ==> s.mint_token_spec(caller).0.oracle_setup,
        s.oracle_setup ==> s.transfer_nft_spec(caller, nft_index, new_owner).0.oracle_setup,
        s.oracle_setup ==> s.setup_oracle_spec(caller).0.oracle_index >= s.oracle_index,
        s.mint_token_spec(caller).0.oracle_index >= s.oracle_index,
        s.transfer_nft_spec(caller, nft_index, new_owner).0.oracle_index == s.oracle_index,
{
}

} // verus!
