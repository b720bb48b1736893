use vstd::prelude::*;
use vstd::string::StrSliceExecFns;
use crate::key::Key;

verus! {

/// The most characters a title may hold.
pub const MAX_TITLE_CHARS: usize = 50;

/// The most characters a message may hold.
pub const MAX_MESSAGE_CHARS: usize = 280;

/// The bytes that precede every account's fields and tag its kind.
pub const DISCRIMINATOR_LEN: usize = 8;

/// Why an operation was refused. A refused operation changes nothing.
#[derive(Clone, Copy, Debug, PartialEq, Eq, Structural)]
pub enum JournalError {
    /// The title holds more than `MAX_TITLE_CHARS` characters.
    TitleTooLong,
    /// The message holds more than `MAX_MESSAGE_CHARS` characters.
    MessageTooLong,
    /// The owner's sequence counter cannot advance further.
    Overflow,
    /// An account already exists at the address.
    AlreadyInitialized,
    /// No entry exists at the address.
    NotFound,
    /// The owner has no profile.
    ProfileNotFound,
    /// The stored bump does not reproduce the address, or no address exists.
    WrongAddress,
    /// The caller is not the account's owner.
    Unauthorized,
}

/// An owner's profile: the counter that numbers the owner's entries.
#[derive(Clone, Copy, Debug)]
pub struct UserProfile {
    pub authority: Key,
    /// The sequence number the next entry receives; the count of entries created.
    pub entry_count: u64,
    pub bump: u8,
}

/// One journal entry of an owner.
#[derive(Clone, Debug)]
pub struct JournalEntry {
    pub authority: Key,
    pub id: u64,
    pub title: String,
    pub message: String,
    pub timestamp: i64,
    pub bump: u8,
}

/// Serialized size of a string field that holds at most `max_chars` characters:
/// a four-byte length and one byte per character.
pub open spec fn text_space(max_chars: nat) -> nat {
    (4 + max_chars) as nat
}

impl UserProfile {
    /// Bytes of the fields: key, counter and bump.
    pub const INIT_SPACE: usize = 41;

    /// A fresh profile for `authority`, found at `bump`.
    pub fn new(authority: Key, bump: u8) -> (r: UserProfile)
        ensures
            r.authority == authority,
            r.entry_count == 0,
            r.bump == bump,
    {
        UserProfile { authority, entry_count: 0, bump }
    }

    /// Takes the next sequence number and advances the counter; fails with
    /// `Overflow`, changing nothing, when the counter is at its maximum.
    pub fn next_entry_id(&mut self) -> (r: Result<u64, JournalError>)
        ensures
            old(self).entry_count == u64::MAX ==> r == Err::<u64, JournalError>(JournalError::Overflow)
                && *final(self) == *old(self),
            old(self).entry_count < u64::MAX ==> r == Ok::<u64, JournalError>(old(self).entry_count)
                && final(self).entry_count == old(self).entry_count + 1
                && final(self).authority == old(self).authority
                && final(self).bump == old(self).bump,
    {
        let id = self.entry_count;
        match id.checked_add(1) {
            Some(next) => {
                self.entry_count = next;
                Ok(id)
            },
            None => Err(JournalError::Overflow),
        }
    }
}

/// Serialized size of an entry whose title and message hold at most
/// `title_len` and `message_len` characters, discriminator included.
pub open spec fn entry_space(title_len: nat, message_len: nat) -> nat {
    (DISCRIMINATOR_LEN + 32 + 8 + text_space(title_len) + text_space(message_len) + 8 + 1) as nat
}

/// Whether a title and a message are within their bounds.
pub open spec fn content_fits(title: Seq<char>, message: Seq<char>) -> bool {
    title.len() <= MAX_TITLE_CHARS && message.len() <= MAX_MESSAGE_CHARS
}

/// The error, if any, for a title and a message: the title is checked first.
pub open spec fn content_error(title: Seq<char>, message: Seq<char>) -> Option<JournalError> {
    if title.len() > MAX_TITLE_CHARS {
        Some(JournalError::TitleTooLong)
    } else if message.len() > MAX_MESSAGE_CHARS {
        Some(JournalError::MessageTooLong)
    } else {
        None
    }
}

/// Checks the character counts of a title and a message.
pub fn check_content(title: &String, message: &String) -> (r: Result<(), JournalError>)
    ensures
        match content_error(title@, message@) {
            Some(e) => r == Err::<(), JournalError>(e),
            None => r is Ok,
        },
{
    if title.as_str().unicode_len() > MAX_TITLE_CHARS {
        return Err(JournalError::TitleTooLong);
    }
    if message.as_str().unicode_len() > MAX_MESSAGE_CHARS {
        return Err(JournalError::MessageTooLong);
    }
    Ok(())
}

impl JournalEntry {
    /// Bytes of the fields at their largest: key, id, title, message, timestamp and bump.
    pub const INIT_SPACE: usize = 387;

    /// Bytes to allocate for an entry with the given character bounds,
    /// discriminator included.
    pub fn space(title_len: u32, message_len: u32) -> (r: usize)
        requires
            entry_space(title_len as nat, message_len as nat) <= usize::MAX,
        ensures
            r == entry_space(title_len as nat, message_len as nat),
    {
        8 + // discriminator
        32 + // authority
        8 + // id
        4 + title_len as usize + // title
        4 + message_len as usize + // message
        8 + // timestamp
        1 // bump
    }

    /// Bytes allocated for every entry: the size at the largest title and message.
    pub fn max_space() -> (r: usize)
        ensures
            r == entry_space(MAX_TITLE_CHARS as nat, MAX_MESSAGE_CHARS as nat),
            r == DISCRIMINATOR_LEN + JournalEntry::INIT_SPACE,
    {
        JournalEntry::space(MAX_TITLE_CHARS as u32, MAX_MESSAGE_CHARS as u32)
    }

    /// Replaces the content of an entry owned by `signer` and stamps it with `now`.
    /// The owner and the sequence number never change.
    pub fn edit(&mut self, signer: &Key, title: String, message: String, now: i64) -> (r: Result<(), JournalError>)
        ensures
            r == edit_outcome(*old(self), signer@, title@, message@),
            r is Ok ==> final(self).authority == old(self).authority
                && final(self).id == old(self).id
                && final(self).bump == old(self).bump
                && final(self).title@ == title@
                && final(self).message@ == message@
                && final(self).timestamp == now,
            r is Err ==> *final(self) == *old(self),
    {
        if !self.authority.same_as(signer) {
            return Err(JournalError::Unauthorized);
        }
        check_content(&title, &message)?;
        self.title = title;
        self.message = message;
        self.timestamp = now;
        Ok(())
    }
}

/// The outcome of editing `entry` on behalf of `signer`.
pub open spec fn edit_outcome(entry: JournalEntry, signer: Seq<u8>, title: Seq<char>, message: Seq<char>) -> Result<(), JournalError> {
    if entry.authority@ != signer {
        Err(JournalError::Unauthorized)
    } else {
        match content_error(title, message) {
            Some(e) => Err(e),
            None => Ok(()),
        }
    }
}

/// The outcome of creating an entry under `profile` on behalf of `signer`:
/// the sequence number it receives.
pub open spec fn create_outcome(profile: UserProfile, signer: Seq<u8>, title: Seq<char>, message: Seq<char>) -> Result<u64, JournalError> {
    if profile.authority@ != signer {
        Err(JournalError::Unauthorized)
    } else {
        match content_error(title, message) {
            Some(e) => Err(e),
            None => if profile.entry_count == u64::MAX {
                Err(JournalError::Overflow)
            } else {
                Ok(profile.entry_count)
            },
        }
    }
}

/// Creates the next entry of `profile` on behalf of `signer`, found at `bump`,
/// and advances the counter. Nothing changes when it fails.
pub fn create_entry(profile: &mut UserProfile, signer: &Key, title: String, message: String, now: i64, bump: u8)
    -> (r: Result<JournalEntry, JournalError>)
    ensures
        match create_outcome(*old(profile), signer@, title@, message@) {
            Ok(id) => r matches Ok(e) && e.id == id
                && e.authority == old(profile).authority
                && e.title@ == title@
                && e.message@ == message@
                && e.timestamp == now
                && e.bump == bump
                && final(profile).entry_count == id + 1
                && final(profile).authority == old(profile).authority
                && final(profile).bump == old(profile).bump,
            Err(err) => r matches Err(e2) && e2 == err && *final(profile) == *old(profile),
        },
{
    if !profile.authority.same_as(signer) {
        return Err(JournalError::Unauthorized);
    }
    check_content(&title, &message)?;
    let id = profile.next_entry_id()?;
    Ok(JournalEntry { authority: profile.authority, id, title, message, timestamp: now, bump })
}

} // verus!
