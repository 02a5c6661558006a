use std::collections::{BTreeMap, HashMap};

use rusty_key::crypto::{CryptoManager, CryptoPort};
use rusty_key::domain::{EncryptedEntry, MasterRecord, PlainEntryInput};
use rusty_key::errors::AppError;
use rusty_key::service::{entry_aad_bytes, RepoReply, RepoRequest, VaultOutcome, VaultService, VaultStep, VaultTask};

#[derive(Default)]
struct Memory {
    masters: HashMap<i64, MasterRecord>,
    entries: BTreeMap<(i64, String), EncryptedEntry>,
}

impl Memory {
    fn perform(&mut self, req: RepoRequest) -> RepoReply {
        match req {
            RepoRequest::GetMaster { user_id } => RepoReply::Master(Ok(self.masters.get(&user_id).cloned())),
            RepoRequest::UpsertMaster { user_id, record } => {
                self.masters.insert(user_id, record);
                RepoReply::Stored(Ok(()))
            },
            RepoRequest::GetEntry { user_id, service } => {
                RepoReply::Entry(Ok(self.entries.get(&(user_id, service)).cloned()))
            },
            RepoRequest::UpsertEntry { user_id, entry } => {
                self.entries.insert((user_id, entry.service.clone()), entry);
                RepoReply::Stored(Ok(()))
            },
            RepoRequest::ListServices { user_id } => RepoReply::Services(Ok(self
                .entries
                .keys()
                .filter(|(u, _)| *u == user_id)
                .map(|(_, s)| s.clone())
                .collect())),
            RepoRequest::DeleteEntry { user_id, service } => {
                RepoReply::Deleted(Ok(self.entries.remove(&(user_id, service)).is_some()))
            },
        }
    }
}

fn run(vault: &VaultService<(), CryptoManager>, store: &mut Memory, start: (VaultTask, VaultStep)) -> Result<VaultOutcome, AppError> {
    let (mut task, mut step) = start;
    loop {
        match step {
            VaultStep::Finish(r) => return r,
            VaultStep::Ask(req) => {
                let reply = store.perform(req);
                assert!(task.expects(&reply));
                let next = vault.resume(task, reply);
                task = next.0;
                step = next.1;
            },
        }
    }
}

fn entry(service: &str, login: &str, password: &str, note: Option<&str>) -> PlainEntryInput {
    PlainEntryInput {
        service: service.to_string(),
        login: login.to_string(),
        password: password.to_string(),
        note: note.map(|n| n.to_string()),
    }
}

#[test]
fn entries_need_a_master_password() {
    let vault = VaultService::new((), CryptoManager);
    let mut store = Memory::default();
    assert_eq!(run(&vault, &mut store, vault.has_master(1)).unwrap_err_flag(), false);
    let r = run(&vault, &mut store, vault.add_entry(1, entry("g", "l", "p", None), "m"));
    assert_eq!(r.unwrap_err(), AppError::MasterPasswordNotSet);
    let r = run(&vault, &mut store, vault.get_entry(1, "g", "m"));
    assert_eq!(r.unwrap_err(), AppError::MasterPasswordNotSet);
    let r = run(&vault, &mut store, vault.verify_current_master(1, "m"));
    assert_eq!(r.unwrap_err(), AppError::MasterPasswordNotSet);
    let r = run(&vault, &mut store, vault.set_master(1, "", None));
    assert_eq!(r.unwrap_err(), AppError::EmptyMasterPassword);
    let r = run(&vault, &mut store, vault.add_entry(1, entry(" ", "l", "p", None), "m"));
    assert_eq!(r.unwrap_err(), AppError::EmptyServiceName);
}

trait FlagOf {
    fn unwrap_err_flag(self) -> bool;
}

impl FlagOf for Result<VaultOutcome, AppError> {
    fn unwrap_err_flag(self) -> bool {
        match self {
            Ok(VaultOutcome::Flag(b)) => b,
            other => panic!("{:?}", other),
        }
    }
}

#[test]
fn added_entries_come_back_and_rotate_with_the_master_password() {
    let vault = VaultService::new((), CryptoManager);
    let mut store = Memory::default();
    run(&vault, &mut store, vault.set_master(7, "first", None)).unwrap();
    assert!(run(&vault, &mut store, vault.has_master(7)).unwrap_err_flag());
    assert!(matches!(run(&vault, &mut store, vault.verify_current_master(7, "first")), Ok(VaultOutcome::Done)));
    assert_eq!(
        run(&vault, &mut store, vault.verify_current_master(7, "second")).unwrap_err(),
        AppError::InvalidMasterPassword
    );
    run(&vault, &mut store, vault.add_entry(7, entry("mail", "me@x", "pw", Some("a note")), "first")).unwrap();
    run(&vault, &mut store, vault.add_entry(7, entry("bank", "id", "pin", None), "first")).unwrap();
    assert_eq!(
        run(&vault, &mut store, vault.add_entry(7, entry("x", "l", "p", None), "wrong")).unwrap_err(),
        AppError::InvalidMasterPassword
    );
    match run(&vault, &mut store, vault.get_entry(7, "mail", "first")) {
        Ok(VaultOutcome::Entry(v)) => {
            assert_eq!((v.service.as_str(), v.login.as_str(), v.password.as_str()), ("mail", "me@x", "pw"));
            assert_eq!(v.note.as_deref(), Some("a note"));
        },
        other => panic!("{:?}", other),
    }
    assert_eq!(run(&vault, &mut store, vault.get_entry(7, "none", "first")).unwrap_err(), AppError::EntryNotFound);
    // a change of master password needs the current one
    assert_eq!(
        run(&vault, &mut store, vault.set_master(7, "second", None)).unwrap_err(),
        AppError::CurrentMasterPasswordRequired
    );
    assert_eq!(
        run(&vault, &mut store, vault.set_master(7, "second", Some("nope"))).unwrap_err(),
        AppError::InvalidMasterPassword
    );
    assert_eq!(
        run(&vault, &mut store, vault.set_master(7, "second", Some(""))).unwrap_err(),
        AppError::InvalidMasterPassword
    );
    run(&vault, &mut store, vault.set_master(7, "second", Some("first"))).unwrap();
    match run(&vault, &mut store, vault.get_entry(7, "bank", "second")) {
        Ok(VaultOutcome::Entry(v)) => {
            assert_eq!((v.login.as_str(), v.password.as_str(), v.note.clone()), ("id", "pin", None));
        },
        other => panic!("{:?}", other),
    }
    assert_eq!(run(&vault, &mut store, vault.get_entry(7, "bank", "first")).unwrap_err(), AppError::InvalidMasterPassword);
    match run(&vault, &mut store, vault.list_services(7)) {
        Ok(VaultOutcome::Services(s)) => assert_eq!(s, vec!["bank".to_string(), "mail".to_string()]),
        other => panic!("{:?}", other),
    }
    assert!(run(&vault, &mut store, vault.delete_entry(7, "bank")).unwrap_err_flag());
    assert!(!run(&vault, &mut store, vault.delete_entry(7, "bank")).unwrap_err_flag());
}

#[test]
fn an_entry_of_one_user_does_not_open_for_another() {
    let vault = VaultService::new((), CryptoManager);
    let mut store = Memory::default();
    run(&vault, &mut store, vault.set_master(1, "m", None)).unwrap();
    run(&vault, &mut store, vault.set_master(2, "m", None)).unwrap();
    run(&vault, &mut store, vault.add_entry(1, entry("g", "l", "p", None), "m")).unwrap();
    let moved = store.entries.get(&(1, "g".to_string())).cloned().unwrap();
    store.entries.insert((2, "g".to_string()), moved);
    assert_eq!(run(&vault, &mut store, vault.get_entry(2, "g", "m")).unwrap_err(), AppError::Crypto);
}

#[test]
fn storage_errors_come_through() {
    let vault = VaultService::new((), CryptoManager);
    let (task, _) = vault.list_services(3);
    let (_, step) = vault.resume(task, RepoReply::Services(Err(AppError::Storage("down".to_string()))));
    assert!(matches!(step, VaultStep::Finish(Err(AppError::Storage(m))) if m == "down"));
}

#[test]
fn the_associated_data_names_user_and_service() {
    assert_eq!(entry_aad_bytes(-42, "mail"), b"-42:mail".to_vec());
}

#[test]
fn crypto_manager_round_trip() {
    let c = CryptoManager;
    let rec = c.create_master_record("pw").unwrap();
    assert!(rec.hash.starts_with("$argon2id$"));
    assert_eq!(rec.key_salt.len(), 22);
    assert!(c.verify_master_password("pw", &rec).unwrap());
    assert!(!c.verify_master_password("other", &rec).unwrap());
    let broken = MasterRecord { hash: "not a phc string".to_string(), ..rec.clone() };
    assert_eq!(c.verify_master_password("pw", &broken).unwrap_err(), AppError::Crypto);
    let k1 = c.derive_entry_key("pw", &rec.key_salt).unwrap();
    let k2 = c.derive_entry_key("pw", &rec.key_salt).unwrap();
    let k3 = c.derive_entry_key("pw2", &rec.key_salt).unwrap();
    assert_eq!(k1, k2);
    assert_ne!(k1, k3);
    assert_eq!(c.derive_entry_key("pw", b"short").unwrap_err(), AppError::Crypto);
    let f = c.encrypt(&k1, b"secret", b"1:g").unwrap();
    assert_eq!(f.nonce.len(), 12);
    assert_ne!(f.cipher, b"secret".to_vec());
    assert_eq!(f.cipher.len(), 6 + 16);
    assert_eq!(c.decrypt(&k1, &f, b"1:g").unwrap(), b"secret".to_vec());
    assert_eq!(c.decrypt(&k1, &f, b"2:g").unwrap_err(), AppError::Crypto);
    assert_eq!(c.decrypt(&k3, &f, b"1:g").unwrap_err(), AppError::Crypto);
}

#[test]
fn a_fresh_record_is_always_made_for_an_ordinary_password() {
    let c = CryptoManager;
    for pw in ["a", "пароль", "with space"] {
        let rec = c.create_master_record(pw).unwrap();
        let salt = std::str::from_utf8(&rec.master_salt).unwrap();
        assert_eq!(salt.len(), 22);
        assert!(salt.chars().all(|ch| ch.is_ascii_alphanumeric() || ch == '+' || ch == '/'));
        assert!(matches!(salt.chars().last(), Some('A' | 'Q' | 'g' | 'w')));
        assert!(c.verify_master_password(pw, &rec).unwrap());
    }
}
