use vstd::prelude::*;
use crate::key::Key;
use crate::account::{
    JournalEntry, JournalError, UserProfile, create_entry, create_outcome, edit_outcome,
};
use crate::address::{
    bump_reproduces, entry_address, entry_seeds, find_entry_address, find_profile_address,
    profile_address, profile_seeds, verify_entry_bump, verify_profile_bump,
};
use crate::ledger::{Account, Ledger};

verus! {

/// What the accounts become when `authority` initializes its profile.
pub open spec fn initialize_result(accounts: Map<Seq<u8>, Account>, program: Seq<u8>, authority: Key)
    -> Result<Map<Seq<u8>, Account>, JournalError>
{
    match profile_address(program, authority@) {
        None => Err(JournalError::WrongAddress),
        Some((a, b)) => if accounts.contains_key(a) {
            Err(JournalError::AlreadyInitialized)
        } else {
            Ok(accounts.insert(a, Account::Profile(UserProfile { authority, entry_count: 0, bump: b })))
        },
    }
}

/// The profile of `owner`, resolved at its derived address and checked against its bump.
pub open spec fn resolve_profile_result(accounts: Map<Seq<u8>, Account>, program: Seq<u8>, owner: Seq<u8>)
    -> Result<(Seq<u8>, UserProfile), JournalError>
{
    match profile_address(program, owner) {
        None => Err(JournalError::WrongAddress),
        Some((a, _)) => if !accounts.contains_key(a) {
            Err(JournalError::ProfileNotFound)
        } else {
            match accounts[a] {
                Account::Entry(_) => Err(JournalError::WrongAddress),
                Account::Profile(p) => if bump_reproduces(profile_seeds(owner), program, p.bump, a) {
                    Ok((a, p))
                } else {
                    Err(JournalError::WrongAddress)
                },
            }
        },
    }
}

/// The entry `sequence` of `owner`, resolved at its derived address and checked against its bump.
pub open spec fn resolve_entry_result(accounts: Map<Seq<u8>, Account>, program: Seq<u8>, owner: Seq<u8>, sequence: u64)
    -> Result<(Seq<u8>, JournalEntry), JournalError>
{
    match entry_address(program, owner, sequence) {
        None => Err(JournalError::WrongAddress),
        Some((a, _)) => if !accounts.contains_key(a) {
            Err(JournalError::NotFound)
        } else {
            match accounts[a] {
                Account::Profile(_) => Err(JournalError::WrongAddress),
                Account::Entry(e) => if bump_reproduces(entry_seeds(owner, sequence), program, e.bump, a) {
                    Ok((a, e))
                } else {
                    Err(JournalError::WrongAddress)
                },
            }
        },
    }
}

/// Where a new entry of `signer` goes: the profile's address, the profile,
/// and the entry's address and bump; or why none can be created.
pub open spec fn add_target(accounts: Map<Seq<u8>, Account>, program: Seq<u8>, signer: Seq<u8>)
    -> Result<(Seq<u8>, UserProfile, Seq<u8>, u8), JournalError>
{
    match resolve_profile_result(accounts, program, signer) {
        Err(e) => Err(e),
        Ok((pa, p)) => match entry_address(program, signer, p.entry_count) {
            None => Err(JournalError::WrongAddress),
            Some((ea, eb)) => if accounts.contains_key(ea) {
                Err(JournalError::AlreadyInitialized)
            } else {
                Ok((pa, p, ea, eb))
            },
        },
    }
}

/// The outcome of `signer` adding an entry: its sequence number, or the error.
pub open spec fn add_outcome(accounts: Map<Seq<u8>, Account>, program: Seq<u8>, signer: Seq<u8>,
    title: Seq<char>, message: Seq<char>) -> Result<u64, JournalError>
{
    match add_target(accounts, program, signer) {
        Err(e) => Err(e),
        Ok((_, p, _, _)) => create_outcome(p, signer, title, message),
    }
}

/// Whether `account` is an entry with exactly these fields.
pub open spec fn is_entry(account: Account, authority: Key, id: u64, title: Seq<char>, message: Seq<char>,
    timestamp: i64, bump: u8) -> bool
{
    match account {
        Account::Entry(e) => e.authority == authority && e.id == id && e.title@ == title
            && e.message@ == message && e.timestamp == timestamp && e.bump == bump,
        Account::Profile(_) => false,
    }
}

/// The outcome of `signer` editing entry `sequence` of `owner`.
pub open spec fn update_outcome(accounts: Map<Seq<u8>, Account>, program: Seq<u8>, signer: Seq<u8>,
    owner: Seq<u8>, sequence: u64, title: Seq<char>, message: Seq<char>) -> Result<(), JournalError>
{
    match resolve_entry_result(accounts, program, owner, sequence) {
        Err(e) => Err(e),
        Ok((_, e)) => edit_outcome(e, signer, title, message),
    }
}

/// The outcome of `signer` deleting entry `sequence` of `owner`.
pub open spec fn delete_outcome(accounts: Map<Seq<u8>, Account>, program: Seq<u8>, signer: Seq<u8>,
    owner: Seq<u8>, sequence: u64) -> Result<(), JournalError>
{
    match resolve_entry_result(accounts, program, owner, sequence) {
        Err(e) => Err(e),
        Ok((_, e)) => if e.authority@ != signer {
            Err(JournalError::Unauthorized)
        } else {
            Ok(())
        },
    }
}

/// Looks up the profile of `owner`.
pub fn resolve_profile(ledger: &Ledger, owner: &Key) -> (r: Result<(Key, UserProfile), JournalError>)
    requires
        ledger.wf(),
    ensures
        match resolve_profile_result(ledger@, ledger.program(), owner@) {
            Ok((a, p)) => r matches Ok((k, q)) && k@ == a && q == p,
            Err(e) => r == Err::<(Key, UserProfile), JournalError>(e),
        },
{
    let program = ledger.program_id();
    let (address, _) = match find_profile_address(&program, owner) {
        Some(found) => found,
        None => return Err(JournalError::WrongAddress),
    };
    match ledger.get(&address) {
        None => Err(JournalError::ProfileNotFound),
        Some(Account::Entry(_)) => Err(JournalError::WrongAddress),
        Some(Account::Profile(p)) => {
            if verify_profile_bump(&program, owner, p.bump, &address) {
                Ok((address, *p))
            } else {
                Err(JournalError::WrongAddress)
            }
        },
    }
}

/// Looks up entry `sequence` of `owner`.
pub fn resolve_entry<'a>(ledger: &'a Ledger, owner: &Key, sequence: u64) -> (r: Result<(Key, &'a JournalEntry), JournalError>)
    requires
        ledger.wf(),
    ensures
        match resolve_entry_result(ledger@, ledger.program(), owner@, sequence) {
            Ok((a, e)) => r matches Ok((k, x)) && k@ == a && *x == e,
            Err(err) => r matches Err(x) && x == err,
        },
{
    let program = ledger.program_id();
    let (address, _) = match find_entry_address(&program, owner, sequence) {
        Some(found) => found,
        None => return Err(JournalError::WrongAddress),
    };
    match ledger.get(&address) {
        None => Err(JournalError::NotFound),
        Some(Account::Profile(_)) => Err(JournalError::WrongAddress),
        Some(Account::Entry(e)) => {
            if verify_entry_bump(&program, owner, sequence, e.bump, &address) {
                Ok((address, e))
            } else {
                Err(JournalError::WrongAddress)
            }
        },
    }
}

/// Creates the profile of `authority`, with its counter at zero.
pub fn initialize_user_profile(ledger: &mut Ledger, authority: &Key) -> (r: Result<(), JournalError>)
    requires
        old(ledger).wf(),
    ensures
        final(ledger).wf(),
        final(ledger).program() == old(ledger).program(),
        match initialize_result(old(ledger)@, old(ledger).program(), *authority) {
            Ok(m) => r is Ok && final(ledger)@ == m,
            Err(e) => r == Err::<(), JournalError>(e) && final(ledger)@ == old(ledger)@,
        },
{
    let program = ledger.program_id();
    let (address, bump) = match find_profile_address(&program, authority) {
        Some(found) => found,
        None => return Err(JournalError::WrongAddress),
    };
    if ledger.get(&address).is_some() {
        return Err(JournalError::AlreadyInitialized);
    }
    ledger.put(address, Account::Profile(UserProfile::new(*authority, bump)));
    Ok(())
}

/// Adds the next entry of `signer`, stamped with `now`, and advances the
/// signer's counter; returns the entry's sequence number.
pub fn add_journal_entry(ledger: &mut Ledger, signer: &Key, title: String, message: String, now: i64)
    -> (r: Result<u64, JournalError>)
    requires
        old(ledger).wf(),
    ensures
        final(ledger).wf(),
        final(ledger).program() == old(ledger).program(),
        r == add_outcome(old(ledger)@, old(ledger).program(), signer@, title@, message@),
        r is Err ==> final(ledger)@ == old(ledger)@,
        r matches Ok(id) ==> (add_target(old(ledger)@, old(ledger).program(), signer@) matches Ok((pa, p, ea, eb))
            && final(ledger)@ == old(ledger)@
                .insert(pa, Account::Profile(UserProfile { entry_count: (id + 1) as u64, ..p }))
                .insert(ea, final(ledger)@[ea])
            && is_entry(final(ledger)@[ea], p.authority, id, title@, message@, now, eb)),
{
    let program = ledger.program_id();
    let (profile_address, mut profile) = resolve_profile(ledger, signer)?;
    let (entry_address, entry_bump) = match find_entry_address(&program, signer, profile.entry_count) {
        Some(found) => found,
        None => return Err(JournalError::WrongAddress),
    };
    if ledger.get(&entry_address).is_some() {
        return Err(JournalError::AlreadyInitialized);
    }
    let entry = create_entry(&mut profile, signer, title, message, now, entry_bump)?;
    let id = entry.id;
    ledger.put(profile_address, Account::Profile(profile));
    ledger.put(entry_address, Account::Entry(entry));
    Ok(id)
}

/// Replaces the title and message of entry `sequence` of `owner` on behalf of
/// `signer`, and stamps it with `now`.
pub fn update_journal_entry(ledger: &mut Ledger, signer: &Key, owner: &Key, sequence: u64, title: String,
    message: String, now: i64) -> (r: Result<(), JournalError>)
    requires
        old(ledger).wf(),
    ensures
        final(ledger).wf(),
        final(ledger).program() == old(ledger).program(),
        r == update_outcome(old(ledger)@, old(ledger).program(), signer@, owner@, sequence, title@, message@),
        r is Err ==> final(ledger)@ == old(ledger)@,
        r is Ok ==> (resolve_entry_result(old(ledger)@, old(ledger).program(), owner@, sequence) matches Ok((a, e))
            && final(ledger)@ == old(ledger)@.insert(a, final(ledger)@[a])
            && is_entry(final(ledger)@[a], e.authority, e.id, title@, message@, now, e.bump)),
{
    let (address, found) = resolve_entry(ledger, owner, sequence)?;
    let mut entry = found.duplicate();
    entry.edit(signer, title, message, now)?;
    ledger.put(address, Account::Entry(entry));
    Ok(())
}

/// Deletes entry `sequence` of `owner` on behalf of `signer`. The owner's
/// counter is left as it is: the sequence number is never given out again.
pub fn delete_journal_entry(ledger: &mut Ledger, signer: &Key, owner: &Key, sequence: u64) -> (r: Result<(), JournalError>)
    requires
        old(ledger).wf(),
    ensures
        final(ledger).wf(),
        final(ledger).program() == old(ledger).program(),
        r == delete_outcome(old(ledger)@, old(ledger).program(), signer@, owner@, sequence),
        r is Err ==> final(ledger)@ == old(ledger)@,
        r is Ok ==> (resolve_entry_result(old(ledger)@, old(ledger).program(), owner@, sequence) matches Ok((a, e))
            && final(ledger)@ == old(ledger)@.remove(a)),
{
    let (address, found) = resolve_entry(ledger, owner, sequence)?;
    if !found.authority.same_as(signer) {
        return Err(JournalError::Unauthorized);
    }
    ledger.take_out(&address);
    Ok(())
}

} // verus!
