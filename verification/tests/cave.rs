use token_cave::error::{AccountError, Error, TokenCaveError};
use token_cave::instructions::abort::Abort;
use token_cave::instructions::initialize::{CaveInfo, Initialize, CAVE_INFO_SIZE, MAX_LOCK_DURATION};
use token_cave::instructions::unlock::Unlock;
use token_cave::instructions::withdraw::Withdraw;
use token_cave::pda::find_pair;
use token_cave::pubkey::Pubkey;
use token_cave::token::{CloseAccount, Closure, SignerSeeds, TokenAccount, Transfer};
use token_cave::{abort, initialize, unlock, withdraw};

const PROGRAM_ID: Pubkey = Pubkey {
    bytes: [
        218, 7, 92, 178, 255, 94, 198, 129, 118, 19, 222, 83, 11, 105, 42, 135, 53, 71, 119, 105,
        218, 71, 67, 12, 189, 129, 84, 51, 92, 74, 131, 39,
    ],
};
const DEMO_TOKEN_DECIMALS: u8 = 6;
const ONE_DEMO_TOKEN: u64 = 10_u64.pow(DEMO_TOKEN_DECIMALS as u32);
const TEST_TIMELOCK_DURATION: u32 = 5;
const START: i64 = 1_700_000_000;

fn key(tag: u8) -> Pubkey {
    let mut bytes = [tag; 32];
    bytes[0] = 1;
    Pubkey { bytes }
}

fn mint() -> Pubkey {
    key(77)
}

/// A stand-in for the custody service: token accounts, moved as the requests say.
struct Ledger {
    accounts: Vec<TokenAccount>,
}

impl Ledger {
    fn new() -> Ledger {
        Ledger { accounts: Vec::new() }
    }

    fn open(&mut self, key: Pubkey, owner: Pubkey, amount: u64) -> TokenAccount {
        let account = TokenAccount { key, mint: mint(), owner, amount };
        self.accounts.push(account);
        account
    }

    fn get(&self, key: &Pubkey) -> Option<TokenAccount> {
        self.accounts.iter().copied().find(|a| a.key == *key)
    }

    fn balance(&self, key: &Pubkey) -> u64 {
        self.get(key).expect("no such token account").amount
    }

    fn transfer(&mut self, request: &Transfer) {
        let from = self.accounts.iter().position(|a| a.key == request.from).expect("from");
        assert_eq!(self.accounts[from].owner, request.authority);
        assert!(self.accounts[from].amount >= request.amount);
        self.accounts[from].amount -= request.amount;
        let to = self.accounts.iter().position(|a| a.key == request.to).expect("to");
        self.accounts[to].amount += request.amount;
    }

    fn close(&mut self, request: &CloseAccount) {
        let at = self.accounts.iter().position(|a| a.key == request.account).expect("account");
        assert_eq!(self.accounts[at].owner, request.authority);
        assert_eq!(self.accounts[at].amount, 0);
        self.accounts.remove(at);
    }

    fn settle(&mut self, closure: &Closure) {
        self.transfer(&closure.release.transfer);
        self.close(&closure.release.close);
    }
}

struct User {
    key: Pubkey,
    ata: Pubkey,
}

fn get_funded_user(ledger: &mut Ledger, tag: u8) -> User {
    let user = User { key: key(tag), ata: key(tag + 100) };
    ledger.open(user.ata, user.key, 100 * ONE_DEMO_TOKEN);
    user
}

struct Setup {
    ledger: Ledger,
    user: User,
    backup: User,
    cave: Pubkey,
    cave_info: Pubkey,
    bump: u8,
}

fn deposit() -> (Setup, Option<CaveInfo>) {
    let mut ledger = Ledger::new();
    let user = get_funded_user(&mut ledger, 2);
    let backup = get_funded_user(&mut ledger, 3);
    let pair = find_pair(&user.ata, &PROGRAM_ID).expect("no address for the cave");
    let mut record = None;
    let accounts = Initialize {
        cave: pair.holding,
        cave_info: pair.record,
        mint: mint(),
        depositor: user.key,
        depositor_token_account: ledger.get(&user.ata).unwrap(),
    };
    let transfer = initialize(
        &PROGRAM_ID,
        &mut record,
        &accounts,
        10 * ONE_DEMO_TOKEN,
        Some(backup.key),
        TEST_TIMELOCK_DURATION,
    )
    .expect("deposit refused");
    ledger.open(pair.holding, pair.record, 0);
    ledger.transfer(&transfer);
    let setup = Setup {
        ledger,
        user,
        backup,
        cave: pair.holding,
        cave_info: pair.record,
        bump: pair.record_bump,
    };
    (setup, record)
}

fn unlock_accounts(s: &Setup) -> Unlock {
    Unlock {
        cave: s.ledger.get(&s.cave).unwrap(),
        cave_info: s.cave_info,
        mint: mint(),
        depositor: s.user.key,
        depositor_token_account: s.ledger.get(&s.user.ata).unwrap(),
    }
}

fn withdraw_accounts(s: &Setup) -> Withdraw {
    Withdraw {
        cave: s.ledger.get(&s.cave).unwrap(),
        cave_info: s.cave_info,
        mint: mint(),
        depositor: s.user.key,
        depositor_token_account: s.ledger.get(&s.user.ata).unwrap(),
    }
}

fn abort_accounts(s: &Setup) -> Abort {
    Abort {
        cave: s.ledger.get(&s.cave).unwrap(),
        cave_info: s.cave_info,
        mint: mint(),
        depositor: s.user.key,
        backup: s.backup.key,
        depositor_token_account: s.ledger.get(&s.user.ata).unwrap(),
        backup_spl_account: s.ledger.get(&s.backup.ata).unwrap(),
    }
}

#[test]
fn test_deposit_unlock_withdraw() {
    println!("{CAVE_INFO_SIZE}");

    let (mut s, mut record) = deposit();

    // Verify deposit and info
    assert_eq!(10 * ONE_DEMO_TOKEN, s.ledger.balance(&s.cave), "incorrect balance");
    assert_eq!(90 * ONE_DEMO_TOKEN, s.ledger.balance(&s.user.ata));
    let cave_info_account: CaveInfo = record.unwrap();
    assert_eq!(cave_info_account.backup_address, Some(s.backup.key));
    assert_eq!(cave_info_account.timelock_duration, TEST_TIMELOCK_DURATION);
    assert_eq!(cave_info_account.unlock_request_time, i64::MIN);
    assert!(!cave_info_account.unlocking);

    // Unlock
    unlock(&PROGRAM_ID, &mut record, &unlock_accounts(&s), START).expect("unlock refused");

    // Verify unlock has begun
    let cave_info_account_post_unlock: CaveInfo = record.unwrap();
    assert!(cave_info_account_post_unlock.unlock_request_time > 0);
    assert!(cave_info_account_post_unlock.unlocking);

    // Withdraw (too early, and then on time)
    let early = withdraw(&PROGRAM_ID, &mut record, &withdraw_accounts(&s), START + 1);
    assert_eq!(early, Err(Error::Program(TokenCaveError::LockIsActive)));
    assert_eq!(record, Some(cave_info_account_post_unlock));
    let closure = withdraw(
        &PROGRAM_ID,
        &mut record,
        &withdraw_accounts(&s),
        START + 1 + TEST_TIMELOCK_DURATION as i64,
    )
    .expect("withdraw refused");
    s.ledger.settle(&closure);

    // Verify withdraw occurred
    assert_eq!(100 * ONE_DEMO_TOKEN, s.ledger.balance(&s.user.ata));
    assert_eq!(s.ledger.get(&s.cave), None);
    assert_eq!(record, None);
    assert_eq!(closure.refund_to, s.user.key);
}

#[test]
fn test_deposit_unlock_abort() {
    println!("{CAVE_INFO_SIZE}");

    let (mut s, mut record) = deposit();

    // Verify deposit and info
    assert_eq!(10 * ONE_DEMO_TOKEN, s.ledger.balance(&s.cave), "incorrect balance");
    assert_eq!(90 * ONE_DEMO_TOKEN, s.ledger.balance(&s.user.ata));
    let cave_info_account: CaveInfo = record.unwrap();
    assert_eq!(cave_info_account.backup_address, Some(s.backup.key));
    assert_eq!(cave_info_account.timelock_duration, TEST_TIMELOCK_DURATION);
    assert_eq!(cave_info_account.unlock_request_time, i64::MIN);
    assert!(!cave_info_account.unlocking);

    // Unlock
    unlock(&PROGRAM_ID, &mut record, &unlock_accounts(&s), START).expect("unlock refused");

    // Verify unlock has begun
    let cave_info_account_post_unlock: CaveInfo = record.unwrap();
    assert!(cave_info_account_post_unlock.unlock_request_time > 0);
    assert!(cave_info_account_post_unlock.unlocking);

    // Abort, at once
    let closure = abort(&PROGRAM_ID, &mut record, &abort_accounts(&s)).expect("abort refused");
    s.ledger.settle(&closure);

    // Verify abort occurred
    assert_eq!(90 * ONE_DEMO_TOKEN, s.ledger.balance(&s.user.ata));
    assert_eq!(110 * ONE_DEMO_TOKEN, s.ledger.balance(&s.backup.ata));
    assert_eq!(s.ledger.get(&s.cave), None);
    assert_eq!(record, None);
    assert_eq!(closure.refund_to, s.user.key);
}

#[test]
fn deposit_request_is_exact() {
    let mut ledger = Ledger::new();
    let user = get_funded_user(&mut ledger, 2);
    let pair = find_pair(&user.ata, &PROGRAM_ID).unwrap();
    let mut record = None;
    let accounts = Initialize {
        cave: pair.holding,
        cave_info: pair.record,
        mint: mint(),
        depositor: user.key,
        depositor_token_account: ledger.get(&user.ata).unwrap(),
    };
    let transfer = initialize(&PROGRAM_ID, &mut record, &accounts, 7, None, 0).unwrap();
    assert_eq!(
        transfer,
        Transfer { from: user.ata, to: pair.holding, authority: user.key, amount: 7, signer: None }
    );
    assert_eq!(
        record,
        Some(CaveInfo {
            backup_address: None,
            depositor: user.key,
            timelock_duration: 0,
            unlock_request_time: i64::MIN,
            unlocking: false,
        })
    );
}

#[test]
fn longest_lock_is_accepted_and_longer_refused() {
    assert_eq!(MAX_LOCK_DURATION, 604800);
    let mut ledger = Ledger::new();
    let user = get_funded_user(&mut ledger, 2);
    let pair = find_pair(&user.ata, &PROGRAM_ID).unwrap();
    let accounts = Initialize {
        cave: pair.holding,
        cave_info: pair.record,
        mint: mint(),
        depositor: user.key,
        depositor_token_account: ledger.get(&user.ata).unwrap(),
    };
    let mut record = None;
    let refused = initialize(&PROGRAM_ID, &mut record, &accounts, 1, None, MAX_LOCK_DURATION + 1);
    assert_eq!(refused, Err(Error::Program(TokenCaveError::DurationExceedsMaximum)));
    assert_eq!(record, None);
    let refused = initialize(&PROGRAM_ID, &mut record, &accounts, 1, None, u32::MAX);
    assert_eq!(refused, Err(Error::Program(TokenCaveError::DurationExceedsMaximum)));
    assert_eq!(record, None);
    assert!(initialize(&PROGRAM_ID, &mut record, &accounts, 1, None, MAX_LOCK_DURATION).is_ok());
    assert_eq!(record.unwrap().timelock_duration, MAX_LOCK_DURATION);
}

#[test]
fn handler_refuses_long_lock_whatever_the_accounts() {
    let accounts = Initialize {
        cave: key(9),
        cave_info: key(10),
        mint: mint(),
        depositor: key(2),
        depositor_token_account: TokenAccount { key: key(102), mint: mint(), owner: key(2), amount: 0 },
    };
    let refused =
        token_cave::instructions::initialize::handler(&accounts, 5, None, MAX_LOCK_DURATION + 1);
    assert_eq!(refused, Err(TokenCaveError::DurationExceedsMaximum));
    let opened =
        token_cave::instructions::initialize::handler(&accounts, 5, None, MAX_LOCK_DURATION).unwrap();
    assert_eq!(opened.transfer.amount, 5);
    assert_eq!(opened.transfer.to, key(9));
    assert!(!opened.cave_info.unlocking);
}

#[test]
fn a_cave_is_not_opened_twice() {
    let (mut s, mut record) = deposit();
    let before = record;
    let accounts = Initialize {
        cave: s.cave,
        cave_info: s.cave_info,
        mint: mint(),
        depositor: s.user.key,
        depositor_token_account: s.ledger.get(&s.user.ata).unwrap(),
    };
    let again = initialize(&PROGRAM_ID, &mut record, &accounts, 1, None, 1);
    assert_eq!(again, Err(Error::Account(AccountError::AccountAlreadyInitialized)));
    assert_eq!(record, before);
}

#[test]
fn opening_checks_both_addresses() {
    let mut ledger = Ledger::new();
    let user = get_funded_user(&mut ledger, 2);
    let pair = find_pair(&user.ata, &PROGRAM_ID).unwrap();
    let good = Initialize {
        cave: pair.holding,
        cave_info: pair.record,
        mint: mint(),
        depositor: user.key,
        depositor_token_account: ledger.get(&user.ata).unwrap(),
    };
    assert_eq!(good.check(&PROGRAM_ID), Ok(()));
    let mut record = None;
    let wrong_cave = Initialize { cave: key(50), ..good };
    assert_eq!(
        initialize(&PROGRAM_ID, &mut record, &wrong_cave, 1, None, 1),
        Err(Error::Account(AccountError::ConstraintSeeds))
    );
    let wrong_info = Initialize { cave_info: pair.holding, ..good };
    assert_eq!(
        initialize(&PROGRAM_ID, &mut record, &wrong_info, 1, None, 1),
        Err(Error::Account(AccountError::ConstraintSeeds))
    );
    assert_eq!(record, None);
    // under another program the same accounts do not fit
    assert_eq!(good.check(&key(200)), Err(AccountError::ConstraintSeeds));
}

#[test]
fn unlock_is_for_the_depositor_and_only_once() {
    let (mut s, mut record) = deposit();
    let opened = record;
    let stranger = Unlock { depositor: s.backup.key, ..unlock_accounts(&s) };
    assert_eq!(
        unlock(&PROGRAM_ID, &mut record, &stranger, START),
        Err(Error::Program(TokenCaveError::Unauthorized))
    );
    assert_eq!(record, opened);
    assert_eq!(unlock(&PROGRAM_ID, &mut record, &unlock_accounts(&s), START), Ok(()));
    let requested = record;
    assert_eq!(
        requested,
        Some(CaveInfo { unlock_request_time: START, unlocking: true, ..opened.unwrap() })
    );
    assert_eq!(
        unlock(&PROGRAM_ID, &mut record, &unlock_accounts(&s), START + 100),
        Err(Error::Program(TokenCaveError::UnlockAlreadyActive))
    );
    assert_eq!(record, requested);
    // a stranger is told so even while an unlock is on record
    assert_eq!(
        unlock(&PROGRAM_ID, &mut record, &stranger, START + 100),
        Err(Error::Program(TokenCaveError::Unauthorized))
    );
}

#[test]
fn withdraw_is_gated() {
    let (mut s, mut record) = deposit();
    // no unlock yet
    assert_eq!(
        withdraw(&PROGRAM_ID, &mut record, &withdraw_accounts(&s), i64::MAX),
        Err(Error::Program(TokenCaveError::DidNotRequestUnlock))
    );
    let stranger = Withdraw { depositor: s.backup.key, ..withdraw_accounts(&s) };
    assert_eq!(
        withdraw(&PROGRAM_ID, &mut record, &stranger, i64::MAX),
        Err(Error::Program(TokenCaveError::Unauthorized))
    );
    unlock(&PROGRAM_ID, &mut record, &unlock_accounts(&s), START).unwrap();
    let requested = record;
    // before, and at the very second the lock ends
    for now in [i64::MIN, 0, START - 1, START, START + 4, START + 5] {
        assert_eq!(
            withdraw(&PROGRAM_ID, &mut record, &withdraw_accounts(&s), now),
            Err(Error::Program(TokenCaveError::LockIsActive))
        );
        assert_eq!(record, requested);
    }
    assert_eq!(
        withdraw(&PROGRAM_ID, &mut record, &stranger, START + 6),
        Err(Error::Program(TokenCaveError::Unauthorized))
    );
    // one second later
    let closure = withdraw(&PROGRAM_ID, &mut record, &withdraw_accounts(&s), START + 6).unwrap();
    let signer = SignerSeeds { seed: s.cave, bump: s.bump };
    assert_eq!(
        closure.release.transfer,
        Transfer {
            from: s.cave,
            to: s.user.ata,
            authority: s.cave_info,
            amount: 10 * ONE_DEMO_TOKEN,
            signer: Some(signer),
        }
    );
    assert_eq!(
        closure.release.close,
        CloseAccount { account: s.cave, destination: s.user.ata, authority: s.cave_info, signer }
    );
    assert_eq!(closure.refund_to, s.user.key);
    assert_eq!(record, None);
}

#[test]
fn withdraw_takes_whatever_the_cave_holds() {
    let (mut s, mut record) = deposit();
    unlock(&PROGRAM_ID, &mut record, &unlock_accounts(&s), START).unwrap();
    let mut accounts = withdraw_accounts(&s);
    accounts.cave.amount = 123_456_789;
    let closure = withdraw(&PROGRAM_ID, &mut record, &accounts, START + 6).unwrap();
    assert_eq!(closure.release.transfer.amount, 123_456_789);
}

#[test]
fn abort_needs_no_wait_but_an_unlock() {
    let (mut s, mut record) = deposit();
    let opened = record;
    assert_eq!(
        abort(&PROGRAM_ID, &mut record, &abort_accounts(&s)),
        Err(Error::Program(TokenCaveError::DidNotRequestUnlock))
    );
    assert_eq!(record, opened);
    unlock(&PROGRAM_ID, &mut record, &unlock_accounts(&s), i64::MAX).unwrap();
    let closure = abort(&PROGRAM_ID, &mut record, &abort_accounts(&s)).unwrap();
    let signer = SignerSeeds { seed: s.cave, bump: s.bump };
    assert_eq!(
        closure.release.transfer,
        Transfer {
            from: s.cave,
            to: s.backup.ata,
            authority: s.cave_info,
            amount: 10 * ONE_DEMO_TOKEN,
            signer: Some(signer),
        }
    );
    assert_eq!(
        closure.release.close,
        CloseAccount { account: s.cave, destination: s.backup.ata, authority: s.cave_info, signer }
    );
    assert_eq!(closure.refund_to, s.user.key);
    assert_eq!(record, None);
}

#[test]
fn abort_checks_caller_backup_and_token_account_in_turn() {
    let (mut s, mut record) = deposit();
    unlock(&PROGRAM_ID, &mut record, &unlock_accounts(&s), START).unwrap();
    let requested = record;
    let good = abort_accounts(&s);

    let stranger = Abort { depositor: s.backup.key, ..good };
    assert_eq!(
        abort(&PROGRAM_ID, &mut record, &stranger),
        Err(Error::Program(TokenCaveError::Unauthorized))
    );
    // the depositor, but another backup than the one on record
    let other = Abort { backup: key(66), ..good };
    assert_eq!(
        abort(&PROGRAM_ID, &mut record, &other),
        Err(Error::Program(TokenCaveError::Unauthorized))
    );
    // the right backup, but a token account that is not the backup's
    let foreign = Abort { backup_spl_account: s.ledger.get(&s.user.ata).unwrap(), ..good };
    assert_eq!(
        abort(&PROGRAM_ID, &mut record, &foreign),
        Err(Error::Program(TokenCaveError::IncorrectBackupTokenAccount))
    );
    // a stranger with a foreign token account is told of the first fault
    let both = Abort { depositor: s.backup.key, ..foreign };
    assert_eq!(
        abort(&PROGRAM_ID, &mut record, &both),
        Err(Error::Program(TokenCaveError::Unauthorized))
    );
    assert_eq!(record, requested);
    assert!(abort(&PROGRAM_ID, &mut record, &good).is_ok());
}

#[test]
fn abort_without_backup_on_record_is_unauthorized() {
    let mut ledger = Ledger::new();
    let user = get_funded_user(&mut ledger, 2);
    let backup = get_funded_user(&mut ledger, 3);
    let pair = find_pair(&user.ata, &PROGRAM_ID).unwrap();
    let mut record = None;
    let opening = Initialize {
        cave: pair.holding,
        cave_info: pair.record,
        mint: mint(),
        depositor: user.key,
        depositor_token_account: ledger.get(&user.ata).unwrap(),
    };
    let transfer = initialize(&PROGRAM_ID, &mut record, &opening, 10, None, 5).unwrap();
    ledger.open(pair.holding, pair.record, 0);
    ledger.transfer(&transfer);
    let s = Setup {
        ledger,
        user,
        backup,
        cave: pair.holding,
        cave_info: pair.record,
        bump: pair.record_bump,
    };
    unlock(&PROGRAM_ID, &mut record, &unlock_accounts(&s), START).unwrap();
    assert_eq!(
        abort(&PROGRAM_ID, &mut record, &abort_accounts(&s)),
        Err(Error::Program(TokenCaveError::Unauthorized))
    );
    assert!(!record.unwrap().is_backup(&s.backup.key));
}

#[test]
fn nothing_works_on_a_closed_cave() {
    let (mut s, mut record) = deposit();
    unlock(&PROGRAM_ID, &mut record, &unlock_accounts(&s), START).unwrap();
    let u = unlock_accounts(&s);
    let w = withdraw_accounts(&s);
    let a = abort_accounts(&s);
    withdraw(&PROGRAM_ID, &mut record, &w, START + 6).unwrap();
    assert_eq!(record, None);
    let gone = Error::Account(AccountError::AccountNotInitialized);
    assert_eq!(unlock(&PROGRAM_ID, &mut record, &u, START + 7), Err(gone));
    assert_eq!(withdraw(&PROGRAM_ID, &mut record, &w, START + 7), Err(gone));
    assert_eq!(abort(&PROGRAM_ID, &mut record, &a), Err(gone));
    assert_eq!(record, None);

    let (mut s, mut record) = deposit();
    unlock(&PROGRAM_ID, &mut record, &unlock_accounts(&s), START).unwrap();
    abort(&PROGRAM_ID, &mut record, &a).unwrap();
    assert_eq!(unlock(&PROGRAM_ID, &mut record, &u, START + 7), Err(gone));
    assert_eq!(withdraw(&PROGRAM_ID, &mut record, &w, START + 7), Err(gone));
    assert_eq!(abort(&PROGRAM_ID, &mut record, &a), Err(gone));
}

#[test]
fn open_cave_accounts_are_checked_in_turn() {
    let (s, record) = deposit();
    let good = withdraw_accounts(&s);
    assert_eq!(good.check(&PROGRAM_ID), Ok(s.bump));
    assert_eq!(unlock_accounts(&s).check(&PROGRAM_ID), Ok(s.bump));
    assert_eq!(abort_accounts(&s).check(&PROGRAM_ID), Ok(s.bump));

    let mut other_source = good;
    other_source.depositor_token_account.key = s.backup.ata;
    assert_eq!(other_source.check(&PROGRAM_ID), Err(AccountError::ConstraintSeeds));

    let mut other_owner = good;
    other_owner.cave.owner = s.user.key;
    assert_eq!(other_owner.check(&PROGRAM_ID), Err(AccountError::ConstraintTokenOwner));

    let mut other_mint = good;
    other_mint.cave.mint = key(78);
    assert_eq!(other_mint.check(&PROGRAM_ID), Err(AccountError::ConstraintTokenMint));

    // owner is looked at before the asset
    let mut both = other_owner;
    both.cave.mint = key(78);
    assert_eq!(both.check(&PROGRAM_ID), Err(AccountError::ConstraintTokenOwner));

    // a record elsewhere: the cave is then not under that record either
    let mut elsewhere = good;
    elsewhere.cave_info = key(90);
    assert_eq!(elsewhere.check(&PROGRAM_ID), Err(AccountError::ConstraintTokenOwner));
    elsewhere.cave.owner = key(90);
    assert_eq!(elsewhere.check(&PROGRAM_ID), Err(AccountError::ConstraintSeeds));

    let mut kept = record;
    assert_eq!(
        withdraw(&PROGRAM_ID, &mut kept, &other_mint, START),
        Err(Error::Account(AccountError::ConstraintTokenMint))
    );
    assert_eq!(kept, record);
}

#[test]
fn is_backup_names_only_the_backup_on_record() {
    let with = CaveInfo {
        backup_address: Some(key(3)),
        depositor: key(2),
        timelock_duration: 5,
        unlock_request_time: i64::MIN,
        unlocking: false,
    };
    assert!(with.is_backup(&key(3)));
    assert!(!with.is_backup(&key(2)));
    let without = CaveInfo { backup_address: None, ..with };
    assert!(!without.is_backup(&key(3)));
}

#[test]
fn error_messages() {
    assert_eq!(TokenCaveError::DidNotRequestUnlock.message(), "Depositor did not request unlock");
    assert_eq!(TokenCaveError::Unauthorized.message(), "You are not the depositor");
    assert_eq!(TokenCaveError::LockIsActive.message(), "The lock duration has not yet elapsed");
    assert_eq!(
        TokenCaveError::UnlockAlreadyActive.message(),
        "There is already an unlock happening"
    );
    assert_eq!(
        TokenCaveError::DurationExceedsMaximum.message(),
        "The maximum allowed lock duration is MAX_TIMELOCK_DURATION. Refer to IDL"
    );
    assert_eq!(
        TokenCaveError::IncorrectBackupTokenAccount.message(),
        "You supplied a token account that does not belong to the backup address"
    );
}

#[test]
fn release_shows_the_records_authority() {
    let (s, mut record) = deposit();
    unlock(&PROGRAM_ID, &mut record, &unlock_accounts(&s), START).unwrap();
    let closure = abort(&PROGRAM_ID, &mut record, &abort_accounts(&s)).unwrap();
    let signer = closure.release.close.signer;
    assert_eq!(closure.release.transfer.signer, Some(signer));
    let made = anchor_lang::prelude::Pubkey::create_program_address(
        &[&signer.seed.bytes, &[signer.bump]],
        &anchor_lang::prelude::Pubkey::new_from_array(PROGRAM_ID.bytes),
    )
    .unwrap();
    assert_eq!(made.to_bytes(), closure.release.transfer.authority.bytes);
    assert_eq!(closure.release.close.authority, s.ledger.get(&s.cave).unwrap().owner);
}

#[test]
fn lock_that_ends_with_the_clock_never_opens() {
    let (s, mut record) = deposit();
    // the lock ends at the last second that the clock can show
    unlock(&PROGRAM_ID, &mut record, &unlock_accounts(&s), i64::MAX - 5).unwrap();
    assert_eq!(
        withdraw(&PROGRAM_ID, &mut record, &withdraw_accounts(&s), i64::MAX),
        Err(Error::Program(TokenCaveError::LockIsActive))
    );
    // the abort stays open
    assert!(abort(&PROGRAM_ID, &mut record, &abort_accounts(&s)).is_ok());
}

#[test]
fn unlock_at_the_earliest_time_of_the_clock() {
    let (s, mut record) = deposit();
    unlock(&PROGRAM_ID, &mut record, &unlock_accounts(&s), i64::MIN).unwrap();
    let requested = record.unwrap();
    assert!(requested.unlocking);
    assert_eq!(requested.unlock_request_time, i64::MIN);
    assert_eq!(
        withdraw(&PROGRAM_ID, &mut record, &withdraw_accounts(&s), i64::MIN + 5),
        Err(Error::Program(TokenCaveError::LockIsActive))
    );
    assert!(withdraw(&PROGRAM_ID, &mut record, &withdraw_accounts(&s), i64::MIN + 6).is_ok());
}

#[test]
fn a_cave_can_be_opened_again_once_it_is_emptied() {
    let (s, mut record) = deposit();
    unlock(&PROGRAM_ID, &mut record, &unlock_accounts(&s), START).unwrap();
    abort(&PROGRAM_ID, &mut record, &abort_accounts(&s)).unwrap();
    let accounts = Initialize {
        cave: s.cave,
        cave_info: s.cave_info,
        mint: mint(),
        depositor: s.user.key,
        depositor_token_account: s.ledger.get(&s.user.ata).unwrap(),
    };
    assert!(initialize(&PROGRAM_ID, &mut record, &accounts, 1, None, 1).is_ok());
    assert!(!record.unwrap().unlocking);
}

#[test]
fn handlers_decide_without_looking_at_addresses() {
    let depositor = key(2);
    let cave = TokenAccount { key: key(40), mint: mint(), owner: key(41), amount: 55 };
    let ata = TokenAccount { key: key(42), mint: mint(), owner: depositor, amount: 0 };
    let mut info = CaveInfo {
        backup_address: Some(key(3)),
        depositor,
        timelock_duration: 0,
        unlock_request_time: i64::MIN,
        unlocking: false,
    };
    let u = Unlock { cave, cave_info: key(41), mint: mint(), depositor, depositor_token_account: ata };
    assert_eq!(token_cave::instructions::unlock::handler(&u, &mut info, 10), Ok(()));
    assert_eq!(info.unlock_request_time, 10);
    assert_eq!(
        token_cave::instructions::unlock::handler(&u, &mut info, 11),
        Err(TokenCaveError::UnlockAlreadyActive)
    );
    assert_eq!(info.unlock_request_time, 10);

    let w = Withdraw { cave, cave_info: key(41), mint: mint(), depositor, depositor_token_account: ata };
    // a lock of no length is still closed at the second of the request
    assert_eq!(
        token_cave::instructions::withdraw::handler(&w, &info, 9, 10),
        Err(TokenCaveError::LockIsActive)
    );
    let out = token_cave::instructions::withdraw::handler(&w, &info, 9, 11).unwrap();
    assert_eq!(out, token_cave::token::release(&cave, &key(41), 9, &key(42)));
    assert_eq!(out.transfer.amount, 55);
    assert_eq!(out.close.signer, SignerSeeds { seed: key(40), bump: 9 });

    let backup_ata = TokenAccount { key: key(43), mint: mint(), owner: key(3), amount: 0 };
    let a = Abort {
        cave,
        cave_info: key(41),
        mint: mint(),
        depositor,
        backup: key(3),
        depositor_token_account: ata,
        backup_spl_account: backup_ata,
    };
    let out = token_cave::instructions::abort::handler(&a, &info, 9).unwrap();
    assert_eq!(out.transfer.to, key(43));
    assert_eq!(out.close.destination, key(43));
    assert_eq!(out.transfer.amount, 55);
}
