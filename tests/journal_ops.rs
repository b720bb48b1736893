use anchor_lang::solana_program::pubkey::Pubkey;
use journal::account::{check_content, create_entry, JournalEntry, JournalError, UserProfile};
use journal::address::{find_entry_address, find_profile_address, verify_entry_bump, verify_profile_bump};
use journal::journal::{
    add_journal_entry, delete_journal_entry, initialize_user_profile, resolve_entry, resolve_profile,
    update_journal_entry,
};
use journal::key::{to_le_bytes, Key};
use journal::ledger::Ledger;

fn key(b: u8) -> Key {
    Key::new([b; 32])
}

fn program() -> Key {
    key(200)
}

fn ledger_with(owners: &[u8]) -> Ledger {
    let mut l = Ledger::new(program());
    for o in owners {
        assert_eq!(initialize_user_profile(&mut l, &key(*o)), Ok(()));
    }
    l
}

fn text(c: char, n: usize) -> String {
    std::iter::repeat(c).take(n).collect()
}

#[test]
fn le_bytes_are_little_endian() {
    assert_eq!(to_le_bytes(0x0102), vec![2, 1, 0, 0, 0, 0, 0, 0]);
    assert_eq!(to_le_bytes(u64::MAX), vec![255; 8]);
}

#[test]
fn keys_compare_by_bytes() {
    assert!(key(3).same_as(&key(3)));
    let mut b = [3u8; 32];
    b[31] = 4;
    assert!(!key(3).same_as(&Key::new(b)));
}

#[test]
fn entry_space_counts_every_field() {
    assert_eq!(JournalEntry::space(0, 0), 65);
    assert_eq!(JournalEntry::space(50, 280), 395);
    assert_eq!(JournalEntry::max_space(), 8 + JournalEntry::INIT_SPACE);
    assert_eq!(UserProfile::INIT_SPACE, 41);
}

#[test]
fn profile_address_matches_find_program_address() {
    let owner = key(1);
    let (addr, bump) = find_profile_address(&program(), &owner).unwrap();
    let (expected, expected_bump) = Pubkey::find_program_address(
        &[b"user_profile", &owner.bytes],
        &Pubkey::new_from_array(program().bytes),
    );
    assert_eq!(addr.bytes, expected.to_bytes());
    assert_eq!(bump, expected_bump);
    assert!(verify_profile_bump(&program(), &owner, bump, &addr));
    assert!(!verify_profile_bump(&program(), &owner, bump.wrapping_sub(1), &addr));
}

#[test]
fn entry_address_matches_find_program_address() {
    let owner = key(1);
    let (addr, bump) = find_entry_address(&program(), &owner, 7).unwrap();
    let (expected, expected_bump) = Pubkey::find_program_address(
        &[b"journal_entry", &owner.bytes, &7u64.to_le_bytes()],
        &Pubkey::new_from_array(program().bytes),
    );
    assert_eq!(addr.bytes, expected.to_bytes());
    assert_eq!(bump, expected_bump);
    assert!(verify_entry_bump(&program(), &owner, 7, bump, &addr));
    let (other, _) = find_entry_address(&program(), &owner, 8).unwrap();
    assert!(!other.same_as(&addr));
    assert!(!verify_entry_bump(&program(), &owner, 8, bump, &addr));
}

#[test]
fn second_initialize_fails() {
    let mut l = ledger_with(&[1]);
    assert_eq!(initialize_user_profile(&mut l, &key(1)), Err(JournalError::AlreadyInitialized));
    let (_, p) = resolve_profile(&l, &key(1)).unwrap();
    assert_eq!(p.entry_count, 0);
    assert!(p.authority.same_as(&key(1)));
    assert_eq!(initialize_user_profile(&mut l, &key(2)), Ok(()));
}

#[test]
fn sequence_numbers_follow_the_counter() {
    let mut l = ledger_with(&[1, 2]);
    for n in 0..3u64 {
        assert_eq!(add_journal_entry(&mut l, &key(1), "t".to_string(), "m".to_string(), 10), Ok(n));
    }
    assert_eq!(add_journal_entry(&mut l, &key(2), "t".to_string(), "m".to_string(), 10), Ok(0));
    assert_eq!(resolve_profile(&l, &key(1)).unwrap().1.entry_count, 3);
    assert_eq!(resolve_profile(&l, &key(2)).unwrap().1.entry_count, 1);
}

#[test]
fn add_without_profile_fails() {
    let mut l = ledger_with(&[]);
    assert_eq!(
        add_journal_entry(&mut l, &key(1), "t".to_string(), "m".to_string(), 10),
        Err(JournalError::ProfileNotFound)
    );
}

#[test]
fn missing_entry_is_not_found() {
    let mut l = ledger_with(&[1]);
    assert_eq!(add_journal_entry(&mut l, &key(1), "t".to_string(), "m".to_string(), 10), Ok(0));
    assert_eq!(
        update_journal_entry(&mut l, &key(1), &key(1), 5, "x".to_string(), "y".to_string(), 11),
        Err(JournalError::NotFound)
    );
    assert_eq!(delete_journal_entry(&mut l, &key(1), &key(1), 5), Err(JournalError::NotFound));
    assert!(matches!(resolve_entry(&l, &key(1), 5), Err(JournalError::NotFound)));
    let (_, e) = resolve_entry(&l, &key(1), 0).unwrap();
    assert_eq!(e.title, "t");
    assert_eq!(e.timestamp, 10);
    assert_eq!(resolve_profile(&l, &key(1)).unwrap().1.entry_count, 1);
}

#[test]
fn create_then_resolve_round_trip() {
    let mut l = ledger_with(&[1]);
    let n = add_journal_entry(&mut l, &key(1), "t".to_string(), "m".to_string(), 42).unwrap();
    let (_, e) = resolve_entry(&l, &key(1), n).unwrap();
    assert_eq!(e.title, "t");
    assert_eq!(e.message, "m");
    assert!(e.authority.same_as(&key(1)));
    assert_eq!(e.id, n);
    assert_eq!(e.timestamp, 42);
}

#[test]
fn content_bounds_are_inclusive() {
    assert_eq!(check_content(&text('a', 50), &text('b', 280)), Ok(()));
    assert_eq!(check_content(&text('a', 51), &text('b', 280)), Err(JournalError::TitleTooLong));
    assert_eq!(check_content(&text('a', 50), &text('b', 281)), Err(JournalError::MessageTooLong));
    assert_eq!(check_content(&text('a', 51), &text('b', 281)), Err(JournalError::TitleTooLong));
    // characters are counted, not bytes
    assert_eq!(check_content(&text('é', 50), &text('ü', 280)), Ok(()));
}

#[test]
fn title_and_message_boundaries_through_add() {
    let mut l = ledger_with(&[1]);
    assert_eq!(add_journal_entry(&mut l, &key(1), text('a', 50), text('b', 280), 1), Ok(0));
    assert_eq!(
        add_journal_entry(&mut l, &key(1), text('a', 51), "m".to_string(), 1),
        Err(JournalError::TitleTooLong)
    );
    assert_eq!(
        add_journal_entry(&mut l, &key(1), "t".to_string(), text('b', 281), 1),
        Err(JournalError::MessageTooLong)
    );
    assert_eq!(resolve_profile(&l, &key(1)).unwrap().1.entry_count, 1);
    assert_eq!(
        update_journal_entry(&mut l, &key(1), &key(1), 0, text('a', 51), "m".to_string(), 2),
        Err(JournalError::TitleTooLong)
    );
    assert_eq!(
        update_journal_entry(&mut l, &key(1), &key(1), 0, "t".to_string(), text('b', 281), 2),
        Err(JournalError::MessageTooLong)
    );
    assert_eq!(resolve_entry(&l, &key(1), 0).unwrap().1.message, text('b', 280));
}

#[test]
fn counter_at_maximum_overflows() {
    let mut p = UserProfile::new(key(1), 254);
    p.entry_count = u64::MAX;
    let r = create_entry(&mut p, &key(1), "t".to_string(), "m".to_string(), 5, 253);
    assert!(matches!(r, Err(JournalError::Overflow)));
    assert_eq!(p.entry_count, u64::MAX);
    let mut q = UserProfile::new(key(1), 254);
    q.entry_count = u64::MAX;
    assert_eq!(q.next_entry_id(), Err(JournalError::Overflow));
    assert_eq!(q.entry_count, u64::MAX);
}

#[test]
fn counter_below_maximum_advances() {
    let mut p = UserProfile::new(key(1), 254);
    p.entry_count = u64::MAX - 1;
    let e = create_entry(&mut p, &key(1), "t".to_string(), "m".to_string(), 5, 253).unwrap();
    assert_eq!(e.id, u64::MAX - 1);
    assert_eq!(e.bump, 253);
    assert_eq!(p.entry_count, u64::MAX);
}

#[test]
fn create_entry_requires_the_owner() {
    let mut p = UserProfile::new(key(1), 254);
    let r = create_entry(&mut p, &key(2), "t".to_string(), "m".to_string(), 5, 253);
    assert!(matches!(r, Err(JournalError::Unauthorized)));
    assert_eq!(p.entry_count, 0);
}

#[test]
fn other_signer_cannot_update_or_delete() {
    let mut l = ledger_with(&[1, 2]);
    assert_eq!(add_journal_entry(&mut l, &key(1), "t".to_string(), "m".to_string(), 10), Ok(0));
    assert_eq!(
        update_journal_entry(&mut l, &key(2), &key(1), 0, "x".to_string(), "y".to_string(), 11),
        Err(JournalError::Unauthorized)
    );
    assert_eq!(delete_journal_entry(&mut l, &key(2), &key(1), 0), Err(JournalError::Unauthorized));
    let (_, e) = resolve_entry(&l, &key(1), 0).unwrap();
    assert_eq!(e.title, "t");
    assert_eq!(e.message, "m");
    assert_eq!(e.timestamp, 10);
}

#[test]
fn update_replaces_content_and_timestamp() {
    let mut l = ledger_with(&[1]);
    assert_eq!(add_journal_entry(&mut l, &key(1), "t".to_string(), "m".to_string(), 10), Ok(0));
    assert_eq!(
        update_journal_entry(&mut l, &key(1), &key(1), 0, "x".to_string(), "y".to_string(), 11),
        Ok(())
    );
    let (_, e) = resolve_entry(&l, &key(1), 0).unwrap();
    assert_eq!(e.title, "x");
    assert_eq!(e.message, "y");
    assert_eq!(e.timestamp, 11);
    assert_eq!(e.id, 0);
    assert!(e.authority.same_as(&key(1)));
}

#[test]
fn deleted_sequence_is_never_reused() {
    let mut l = ledger_with(&[1]);
    assert_eq!(add_journal_entry(&mut l, &key(1), "a".to_string(), "m".to_string(), 1), Ok(0));
    assert_eq!(add_journal_entry(&mut l, &key(1), "b".to_string(), "m".to_string(), 2), Ok(1));
    assert_eq!(delete_journal_entry(&mut l, &key(1), &key(1), 0), Ok(()));
    assert_eq!(
        update_journal_entry(&mut l, &key(1), &key(1), 0, "x".to_string(), "y".to_string(), 3),
        Err(JournalError::NotFound)
    );
    assert_eq!(delete_journal_entry(&mut l, &key(1), &key(1), 0), Err(JournalError::NotFound));
    assert_eq!(add_journal_entry(&mut l, &key(1), "c".to_string(), "m".to_string(), 4), Ok(2));
    assert!(matches!(resolve_entry(&l, &key(1), 0), Err(JournalError::NotFound)));
    assert_eq!(resolve_entry(&l, &key(1), 1).unwrap().1.title, "b");
    assert_eq!(resolve_entry(&l, &key(1), 2).unwrap().1.title, "c");
}
