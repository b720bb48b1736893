use vstd::prelude::*;
use crate::key::Key;
use crate::account::{JournalError, UserProfile};
use crate::account::{content_error, MAX_MESSAGE_CHARS, MAX_TITLE_CHARS};
use crate::address::{
    bump_reproduces, bump_search, canonical_address, entry_address, entry_seeds, profile_seeds,
};
use crate::key::le_bytes_of;
use crate::journal::{
    add_outcome, add_target, delete_outcome, initialize_result, is_entry, resolve_entry_result,
    resolve_profile_result, update_outcome,
};
use crate::ledger::Account;

verus! {

/// A bump found by the search reproduces the address it was found with.
pub proof fn lemma_found_bump_reproduces(seeds: Seq<Seq<u8>>, program: Seq<u8>, address: Seq<u8>, bump: u8)
    requires
        canonical_address(seeds, program) == Some((address, bump)),
    ensures
        bump_reproduces(seeds, program, bump, address),
{
    lemma_search_reproduces(seeds, program, 255, address, bump);
    let fit = seeds.push(seq![0u8]);
    let pushed = seeds.push(seq![bump]);
    assert forall|i: int| 0 <= i < pushed.len() implies (#[trigger] pushed[i]).len() <= 32 by {
        if i < seeds.len() {
            assert(pushed[i] == fit[i]);
        }
    }
}

proof fn lemma_search_reproduces(seeds: Seq<Seq<u8>>, program: Seq<u8>, from: int, address: Seq<u8>, bump: u8)
    requires
        bump_search(seeds, program, from) == Some((address, bump)),
    ensures
        crate::address::program_address(seeds.push(seq![bump]), program) == Some(address),
    decreases from,
{
    if from >= 1 {
        match crate::address::program_address(seeds.push(seq![from as u8]), program) {
            Some(_) => {},
            None => lemma_search_reproduces(seeds, program, from - 1, address, bump),
        }
    }
}

/// At most one profile per owner: once initializing succeeds, initializing the
/// same owner again fails with `AlreadyInitialized`.
pub proof fn lemma_profile_initialized_once(accounts: Map<Seq<u8>, Account>, program: Seq<u8>, authority: Key)
    requires
        initialize_result(accounts, program, authority) is Ok,
    ensures
        initialize_result(initialize_result(accounts, program, authority)->Ok_0, program, authority)
            == Err::<Map<Seq<u8>, Account>, JournalError>(JournalError::AlreadyInitialized),
{
}

/// A new entry receives the owner's counter as it stood before, and the counter
/// then stands one higher; so the (n+1)-th entry created gets sequence number n.
pub proof fn lemma_sequence_is_counter(accounts: Map<Seq<u8>, Account>, after: Map<Seq<u8>, Account>,
    program: Seq<u8>, signer: Seq<u8>, title: Seq<char>, message: Seq<char>, id: u64)
    requires
        add_outcome(accounts, program, signer, title, message) == Ok::<u64, JournalError>(id),
        add_target(accounts, program, signer) matches Ok((pa, p, ea, eb))
            && after == accounts
                .insert(pa, Account::Profile(UserProfile { entry_count: (id + 1) as u64, ..p }))
                .insert(ea, after[ea])
            && after[ea] is Entry,
    ensures
        resolve_profile_result(accounts, program, signer) matches Ok((_, p)) && p.entry_count == id,
        resolve_profile_result(after, program, signer) matches Ok((_, q)) && q.entry_count == id + 1,
{
    let (pa, p, ea, eb) = add_target(accounts, program, signer)->Ok_0;
    assert(pa != ea);
    assert(after.contains_key(pa));
    assert(after[pa] == Account::Profile(UserProfile { entry_count: (id + 1) as u64, ..p }));
}

/// Editing or deleting an entry that is not there fails with `NotFound`.
pub proof fn lemma_absent_entry_not_found(accounts: Map<Seq<u8>, Account>, program: Seq<u8>, signer: Seq<u8>,
    owner: Seq<u8>, sequence: u64, title: Seq<char>, message: Seq<char>)
    requires
        entry_address(program, owner, sequence) matches Some((a, _)) && !accounts.contains_key(a),
    ensures
        update_outcome(accounts, program, signer, owner, sequence, title, message)
            == Err::<(), JournalError>(JournalError::NotFound),
        delete_outcome(accounts, program, signer, owner, sequence) == Err::<(), JournalError>(JournalError::NotFound),
{
}

/// Once an entry is deleted, editing or deleting it again fails with `NotFound`,
/// whoever asks.
pub proof fn lemma_deleted_entry_not_found(accounts: Map<Seq<u8>, Account>, program: Seq<u8>,
    deleter: Seq<u8>, signer: Seq<u8>, owner: Seq<u8>, sequence: u64, title: Seq<char>, message: Seq<char>)
    requires
        delete_outcome(accounts, program, deleter, owner, sequence) is Ok,
    ensures
        ({
            let after = accounts.remove(resolve_entry_result(accounts, program, owner, sequence)->Ok_0.0);
            &&& update_outcome(after, program, signer, owner, sequence, title, message)
                == Err::<(), JournalError>(JournalError::NotFound)
            &&& delete_outcome(after, program, signer, owner, sequence)
                == Err::<(), JournalError>(JournalError::NotFound)
        }),
{
}

/// Deleting an entry leaves every owner's counter where it was, so its sequence
/// number is never given out again.
pub proof fn lemma_delete_keeps_counter(accounts: Map<Seq<u8>, Account>, program: Seq<u8>, signer: Seq<u8>,
    owner: Seq<u8>, sequence: u64, other: Seq<u8>)
    requires
        delete_outcome(accounts, program, signer, owner, sequence) is Ok,
        resolve_profile_result(accounts, program, other) is Ok,
    ensures
        resolve_profile_result(accounts.remove(resolve_entry_result(accounts, program, owner, sequence)->Ok_0.0),
            program, other) == resolve_profile_result(accounts, program, other),
{
    let a = resolve_entry_result(accounts, program, owner, sequence)->Ok_0.0;
    let pa = resolve_profile_result(accounts, program, other)->Ok_0.0;
    assert(pa != a);
    assert(accounts.remove(a)[pa] == accounts[pa]);
}

/// Right after an entry is added, resolving the signer's key and the returned
/// sequence number gives that entry, with the title and message given.
pub proof fn lemma_add_then_resolve(accounts: Map<Seq<u8>, Account>, after: Map<Seq<u8>, Account>,
    program: Seq<u8>, signer: Seq<u8>, title: Seq<char>, message: Seq<char>, now: i64, id: u64)
    requires
        add_outcome(accounts, program, signer, title, message) == Ok::<u64, JournalError>(id),
        add_target(accounts, program, signer) matches Ok((pa, p, ea, eb))
            && after == accounts
                .insert(pa, Account::Profile(UserProfile { entry_count: (id + 1) as u64, ..p }))
                .insert(ea, after[ea])
            && is_entry(after[ea], p.authority, id, title, message, now, eb),
    ensures
        resolve_entry_result(after, program, signer, id) matches Ok((_, e))
            && e.authority@ == signer && e.id == id && e.title@ == title && e.message@ == message,
{
    let (pa, p, ea, eb) = add_target(accounts, program, signer)->Ok_0;
    assert(p.entry_count == id);
    lemma_found_bump_reproduces(crate::address::entry_seeds(signer, id), program, ea, eb);
}

/// Distinct logical keys give distinct seeds: entries of different owners or
/// sequence numbers never share seeds, and no entry shares seeds with a profile.
/// Distinct seeds give distinct addresses as far as the hash is collision-free.
pub proof fn lemma_seeds_distinct(owner1: Seq<u8>, sequence1: u64, owner2: Seq<u8>, sequence2: u64)
    requires
        owner1 != owner2 || sequence1 != sequence2,
    ensures
        entry_seeds(owner1, sequence1) != entry_seeds(owner2, sequence2),
        profile_seeds(owner1) != entry_seeds(owner2, sequence2),
        owner1 != owner2 ==> profile_seeds(owner1) != profile_seeds(owner2),
{
    assert(profile_seeds(owner1).len() != entry_seeds(owner2, sequence2).len());
    if owner1 != owner2 {
        assert(entry_seeds(owner1, sequence1)[1] != entry_seeds(owner2, sequence2)[1]);
        assert(profile_seeds(owner1)[1] != profile_seeds(owner2)[1]);
    } else {
        reveal_with_fuel(pow256, 9);
        assert(pow256(8) == 0x1_0000_0000_0000_0000);
        lemma_le_bytes_injective(sequence1 as nat, sequence2 as nat, 8);
        assert(entry_seeds(owner1, sequence1)[2] != entry_seeds(owner2, sequence2)[2]);
    }
}

/// Below `256^count`, the low-order digits determine the number.
proof fn lemma_le_bytes_injective(a: nat, b: nat, count: nat)
    requires
        a < pow256(count),
        b < pow256(count),
        a != b,
    ensures
        le_bytes_of(a, count) != le_bytes_of(b, count),
    decreases count,
{
    if count == 0 {
        assert(pow256(0) == 1);
    } else {
        let la = le_bytes_of(a, count);
        let lb = le_bytes_of(b, count);
        assert(la[0] == (a % 256) as u8);
        assert(lb[0] == (b % 256) as u8);
        if a % 256 == b % 256 {
            assert((a / 256) != (b / 256)) by (nonlinear_arith)
                requires a % 256 == b % 256, a != b;
            assert(a / 256 < pow256((count - 1) as nat)) by (nonlinear_arith)
                requires a < pow256(count), pow256(count) == 256 * pow256((count - 1) as nat);
            assert(b / 256 < pow256((count - 1) as nat)) by (nonlinear_arith)
                requires b < pow256(count), pow256(count) == 256 * pow256((count - 1) as nat);
            lemma_le_bytes_injective(a / 256, b / 256, (count - 1) as nat);
            assert(la.subrange(1, la.len() as int) =~= le_bytes_of(a / 256, (count - 1) as nat));
            assert(lb.subrange(1, lb.len() as int) =~= le_bytes_of(b / 256, (count - 1) as nat));
        }
    }
}

spec fn pow256(count: nat) -> nat
    decreases count,
{
    if count == 0 { 1 } else { 256 * pow256((count - 1) as nat) }
}

/// A title or a message exactly at its bound is accepted; one character more is
/// refused with `TitleTooLong` or `MessageTooLong`.
pub proof fn lemma_content_boundary(title: Seq<char>, message: Seq<char>)
    ensures
        title.len() <= MAX_TITLE_CHARS && message.len() <= MAX_MESSAGE_CHARS ==> content_error(title, message) is None,
        title.len() == MAX_TITLE_CHARS + 1 ==> content_error(title, message) == Some(JournalError::TitleTooLong),
        title.len() <= MAX_TITLE_CHARS && message.len() == MAX_MESSAGE_CHARS + 1
            ==> content_error(title, message) == Some(JournalError::MessageTooLong),
{
}

/// Only an entry's owner may edit or delete it: anyone else is refused with
/// `Unauthorized`, whatever the new content.
pub proof fn lemma_only_owner_mutates(accounts: Map<Seq<u8>, Account>, program: Seq<u8>, signer: Seq<u8>,
    owner: Seq<u8>, sequence: u64, title: Seq<char>, message: Seq<char>)
    requires
        resolve_entry_result(accounts, program, owner, sequence) matches Ok((_, e)) && e.authority@ != signer,
    ensures
        update_outcome(accounts, program, signer, owner, sequence, title, message)
            == Err::<(), JournalError>(JournalError::Unauthorized),
        delete_outcome(accounts, program, signer, owner, sequence) == Err::<(), JournalError>(JournalError::Unauthorized),
{
}

/// A counter at its maximum refuses to number another entry: adding fails with
/// `Overflow` once the signer and the content are accepted.
pub proof fn lemma_counter_overflow(accounts: Map<Seq<u8>, Account>, program: Seq<u8>, signer: Seq<u8>,
    title: Seq<char>, message: Seq<char>)
    requires
        add_target(accounts, program, signer) matches Ok((_, p, _, _))
            && p.entry_count == u64::MAX && p.authority@ == signer,
        content_error(title, message) is None,
    ensures
        add_outcome(accounts, program, signer, title, message) == Err::<u64, JournalError>(JournalError::Overflow),
{
}

/// A freshly initialized profile resolves with its counter at zero.
pub proof fn lemma_initialize_starts_at_zero(accounts: Map<Seq<u8>, Account>, program: Seq<u8>, authority: Key)
    requires
        initialize_result(accounts, program, authority) is Ok,
    ensures
        resolve_profile_result(initialize_result(accounts, program, authority)->Ok_0, program, authority@)
            matches Ok((_, p)) && p.entry_count == 0 && p.authority == authority,
{
    let (a, b) = crate::address::profile_address(program, authority@)->Some_0;
    lemma_found_bump_reproduces(profile_seeds(authority@), program, a, b);
}

/// Editing an entry leaves every owner's counter where it was.
pub proof fn lemma_update_keeps_counter(accounts: Map<Seq<u8>, Account>, after: Map<Seq<u8>, Account>,
    program: Seq<u8>, signer: Seq<u8>, owner: Seq<u8>, sequence: u64, title: Seq<char>, message: Seq<char>,
    other: Seq<u8>)
    requires
        update_outcome(accounts, program, signer, owner, sequence, title, message) is Ok,
        resolve_entry_result(accounts, program, owner, sequence) matches Ok((a, _))
            && after == accounts.insert(a, after[a]) && after[a] is Entry,
        resolve_profile_result(accounts, program, other) is Ok,
    ensures
        resolve_profile_result(after, program, other) == resolve_profile_result(accounts, program, other),
{
    let a = resolve_entry_result(accounts, program, owner, sequence)->Ok_0.0;
    let pa = resolve_profile_result(accounts, program, other)->Ok_0.0;
    assert(pa != a);
    assert(after[pa] == accounts[pa]);
}

} // verus!
