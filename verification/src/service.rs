use vstd::prelude::*;
use vstd::utf8::{decode_utf8, encode_utf8, valid_utf8};
use crate::crypto::CryptoPort;
use crate::domain::{EncryptedEntry, EncryptedField, MasterRecord, PlainEntryInput, PlainEntryView, validation_error};
use crate::errors::AppError;
use crate::text::{i64_text, int_text, push_char};

verus! {

/// The texts of an entry.
pub struct EntryText {
    pub service: Seq<char>,
    pub login: Seq<char>,
    pub password: Seq<char>,
    pub note: Option<Seq<char>>,
}

/// The text of an optional string.
pub open spec fn opt_text(o: Option<String>) -> Option<Seq<char>> {
    match o {
        Some(s) => Some(s@),
        None => None,
    }
}

/// The texts of an entry as typed.
pub open spec fn input_text(i: PlainEntryInput) -> EntryText {
    EntryText { service: i.service@, login: i.login@, password: i.password@, note: opt_text(i.note) }
}

/// The texts of an opened entry.
pub open spec fn view_text(v: PlainEntryView) -> EntryText {
    EntryText { service: v.service@, login: v.login@, password: v.password@, note: opt_text(v.note) }
}

/// The associated data that binds a sealed field to its owner and its
/// service: the UTF-8 bytes of `"{user_id}:{service}"`.
pub open spec fn entry_aad(user_id: i64, service: Seq<char>) -> Seq<u8> {
    encode_utf8(int_text(user_id as int) + seq![':'] + service)
}

/// Whether `e` holds `t` sealed under `key` for `user_id`: the service in
/// clear, each other text as its UTF-8 bytes.
pub open spec fn entry_seals<C: CryptoPort>(key: Seq<u8>, user_id: i64, t: EntryText, e: EncryptedEntry) -> bool {
    let aad = entry_aad(user_id, e.service@);
    &&& e.service@ == t.service
    &&& C::sealed(key, encode_utf8(t.login), aad, e.login)
    &&& C::sealed(key, encode_utf8(t.password), aad, e.password)
    &&& match (t.note, e.note) {
        (None, None) => true,
        (Some(n), Some(f)) => C::sealed(key, encode_utf8(n), aad, f),
        _ => false,
    }
}

/// The text that opening `f` gives, where it opens to UTF-8.
pub open spec fn opened_text<C: CryptoPort>(key: Seq<u8>, f: EncryptedField, aad: Seq<u8>) -> Option<Seq<char>> {
    match C::opened(key, f, aad) {
        Some(p) => if valid_utf8(p) {
            Some(decode_utf8(p))
        } else {
            None
        },
        None => None,
    }
}

/// The texts that opening `e` gives, where every field opens to UTF-8.
pub open spec fn opened_entry<C: CryptoPort>(key: Seq<u8>, user_id: i64, e: EncryptedEntry) -> Option<EntryText> {
    let aad = entry_aad(user_id, e.service@);
    let login = opened_text::<C>(key, e.login, aad);
    let password = opened_text::<C>(key, e.password, aad);
    let note: Option<Option<Seq<char>>> = match e.note {
        None => Some(None),
        Some(f) => match opened_text::<C>(key, f, aad) {
            Some(n) => Some(Some(n)),
            None => None,
        },
    };
    if login is Some && password is Some && note is Some {
        Some(EntryText { service: e.service@, login: login->0, password: password->0, note: note->0 })
    } else {
        None
    }
}

/// Whether every text of `t` can be sealed.
pub open spec fn text_sealable<C: CryptoPort>(t: EntryText) -> bool {
    &&& C::sealable(encode_utf8(t.login).len())
    &&& C::sealable(encode_utf8(t.password).len())
    &&& match t.note {
        Some(n) => C::sealable(encode_utf8(n).len()),
        None => true,
    }
}

/// The plaintext bytes that opening each field of `e` gives.
pub open spec fn opened_bytes<C: CryptoPort>(key: Seq<u8>, user_id: i64, e: EncryptedEntry) -> Option<(Seq<u8>, Seq<u8>, Option<Seq<u8>>)> {
    let aad = entry_aad(user_id, e.service@);
    let login = C::opened(key, e.login, aad);
    let password = C::opened(key, e.password, aad);
    let note: Option<Option<Seq<u8>>> = match e.note {
        None => Some(None),
        Some(f) => match C::opened(key, f, aad) {
            Some(n) => Some(Some(n)),
            None => None,
        },
    };
    if login is Some && password is Some && note is Some {
        Some((login->0, password->0, note->0))
    } else {
        None
    }
}

/// Whether `e2` seals under `key` the same bytes as `bytes`, for the service of `e`.
pub open spec fn resealed<C: CryptoPort>(key: Seq<u8>, user_id: i64, e: EncryptedEntry, bytes: (Seq<u8>, Seq<u8>, Option<Seq<u8>>), e2: EncryptedEntry) -> bool {
    let aad = entry_aad(user_id, e.service@);
    &&& e2.service@ == e.service@
    &&& C::sealed(key, bytes.0, aad, e2.login)
    &&& C::sealed(key, bytes.1, aad, e2.password)
    &&& match (bytes.2, e2.note) {
        (None, None) => true,
        (Some(n), Some(f)) => C::sealed(key, n, aad, f),
        _ => false,
    }
}

/// Whether all plaintexts in `bytes` can be sealed.
pub open spec fn bytes_sealable<C: CryptoPort>(bytes: (Seq<u8>, Seq<u8>, Option<Seq<u8>>)) -> bool {
    &&& C::sealable(bytes.0.len())
    &&& C::sealable(bytes.1.len())
    &&& match bytes.2 {
        Some(n) => C::sealable(n.len()),
        None => true,
    }
}

} // verus!

verus! {

/// The bytes of `"{user_id}:{service}"`.
pub fn entry_aad_bytes(user_id: i64, service: &str) -> (v: Vec<u8>)
    ensures
        v@ == entry_aad(user_id, service@),
{
    let mut s = i64_text(user_id);
    push_char(&mut s, ':');
    s.append(service);
    assert(s@ =~= int_text(user_id as int) + seq![':'] + service@);
    let t: &str = s.as_str();
    vstd::slice::slice_to_vec(t.as_bytes())
}

/// Opens one field and reads it as UTF-8.
fn open_field<C: CryptoPort>(crypto: &C, key: &[u8; 32], f: &EncryptedField, aad: &[u8]) -> (r: Result<String, AppError>)
    ensures
        r matches Ok(s) ==> opened_text::<C>(key@, *f, aad@) == Some(s@),
        r is Err ==> opened_text::<C>(key@, *f, aad@) is None && r == Err::<String, AppError>(AppError::Crypto),
        forall|t: Seq<char>| #[trigger]
            C::sealed(key@, encode_utf8(t), aad@, *f) ==> (r matches Ok(s) && s@ == t),
{
    let bytes = match crypto.decrypt(key, f, aad) {
        Ok(b) => b,
        Err(_) => return Err(AppError::Crypto),
    };
    let ghost p = bytes@;
    proof {
        assert forall|t: Seq<char>| #[trigger] C::sealed(key@, encode_utf8(t), aad@, *f) implies p == encode_utf8(t)
            && valid_utf8(p) && decode_utf8(p) == t by {
            vstd::utf8::encode_utf8_valid_utf8(t);
            vstd::utf8::encode_utf8_decode_utf8(t);
        }
    }
    match crate::text::utf8_string(bytes) {
        Some(s) => Ok(s),
        None => Err(AppError::Crypto),
    }
}

} // verus!

verus! {

/// Opens every field of a stored entry.
fn open_entry<C: CryptoPort>(crypto: &C, key: &[u8; 32], user_id: i64, e: &EncryptedEntry) -> (r: Result<PlainEntryView, AppError>)
    ensures
        match opened_entry::<C>(key@, user_id, *e) {
            Some(t) => r matches Ok(v) && view_text(v) == t,
            None => r == Err::<PlainEntryView, AppError>(AppError::Crypto),
        },
        forall|t: EntryText| #[trigger]
            entry_seals::<C>(key@, user_id, t, *e) ==> (r matches Ok(v) && view_text(v) == t),
{
    let aad = entry_aad_bytes(user_id, e.service.as_str());
    let ghost a = entry_aad(user_id, e.service@);
    let login = match open_field(crypto, key, &e.login, aad.as_slice()) {
        Ok(s) => s,
        Err(_) => return Err(AppError::Crypto),
    };
    let password = match open_field(crypto, key, &e.password, aad.as_slice()) {
        Ok(s) => s,
        Err(_) => return Err(AppError::Crypto),
    };
    let note = match &e.note {
        None => None,
        Some(f) => match open_field(crypto, key, f, aad.as_slice()) {
            Ok(s) => Some(s),
            Err(_) => return Err(AppError::Crypto),
        },
    };
    let v = PlainEntryView { service: e.service.clone(), login, password, note };
    proof {
        assert forall|t: EntryText| #[trigger] entry_seals::<C>(key@, user_id, t, *e) implies view_text(v) == t by {
            assert(C::sealed(key@, encode_utf8(t.login), a, e.login));
            assert(C::sealed(key@, encode_utf8(t.password), a, e.password));
            match (t.note, e.note) {
                (Some(n), Some(f)) => {
                    assert(C::sealed(key@, encode_utf8(n), a, f));
                },
                _ => {},
            }
        }
    }
    Ok(v)
}

/// Seals the login, the password and the note of an entry for `user_id`.
fn seal_entry<C: CryptoPort>(crypto: &C, key: &[u8; 32], user_id: i64, input: &PlainEntryInput) -> (r: Result<EncryptedEntry, AppError>)
    ensures
        r is Ok <==> text_sealable::<C>(input_text(*input)),
        r matches Ok(e) ==> entry_seals::<C>(key@, user_id, input_text(*input), e),
        r is Err ==> r == Err::<EncryptedEntry, AppError>(AppError::Crypto),
{
    let aad = entry_aad_bytes(user_id, input.service.as_str());
    let login_text: &str = input.login.as_str();
    let login = match crypto.encrypt(key, login_text.as_bytes(), aad.as_slice()) {
        Ok(f) => f,
        Err(_) => return Err(AppError::Crypto),
    };
    let password_text: &str = input.password.as_str();
    let password = match crypto.encrypt(key, password_text.as_bytes(), aad.as_slice()) {
        Ok(f) => f,
        Err(_) => return Err(AppError::Crypto),
    };
    let note = match &input.note {
        None => None,
        Some(n) => {
            let note_text: &str = n.as_str();
            match crypto.encrypt(key, note_text.as_bytes(), aad.as_slice()) {
                Ok(f) => Some(f),
                Err(_) => return Err(AppError::Crypto),
            }
        },
    };
    Ok(EncryptedEntry { service: input.service.clone(), login, password, note })
}

/// Opens every field of `e` under `old_key` and seals the same bytes under `new_key`.
fn reseal_entry<C: CryptoPort>(crypto: &C, old_key: &[u8; 32], new_key: &[u8; 32], user_id: i64, e: &EncryptedEntry) -> (r: Result<EncryptedEntry, AppError>)
    ensures
        match opened_bytes::<C>(old_key@, user_id, *e) {
            Some(b) => if bytes_sealable::<C>(b) {
                r matches Ok(e2) && resealed::<C>(new_key@, user_id, *e, b, e2)
            } else {
                r == Err::<EncryptedEntry, AppError>(AppError::Crypto)
            },
            None => r == Err::<EncryptedEntry, AppError>(AppError::Crypto),
        },
        forall|t: EntryText| #[trigger]
            entry_seals::<C>(old_key@, user_id, t, *e) ==> (r matches Ok(e2) && entry_seals::<C>(new_key@, user_id, t, e2)),
{
    let aad = entry_aad_bytes(user_id, e.service.as_str());
    let ghost a = entry_aad(user_id, e.service@);
    let login = match crypto.decrypt(old_key, &e.login, aad.as_slice()) {
        Ok(p) => p,
        Err(_) => return Err(AppError::Crypto),
    };
    let password = match crypto.decrypt(old_key, &e.password, aad.as_slice()) {
        Ok(p) => p,
        Err(_) => return Err(AppError::Crypto),
    };
    let note = match &e.note {
        None => None,
        Some(f) => match crypto.decrypt(old_key, f, aad.as_slice()) {
            Ok(p) => Some(p),
            Err(_) => return Err(AppError::Crypto),
        },
    };
    proof {
        assert forall|t: EntryText| #[trigger] entry_seals::<C>(old_key@, user_id, t, *e) implies login@ == encode_utf8(t.login)
            && password@ == encode_utf8(t.password) && match t.note {
                Some(n) => note matches Some(p) && p@ == encode_utf8(n),
                None => note is None,
            } && text_sealable::<C>(t) by {
            assert(C::sealed(old_key@, encode_utf8(t.login), a, e.login));
            assert(C::sealed(old_key@, encode_utf8(t.password), a, e.password));
            C::lemma_sealed_is_sealable(old_key@, encode_utf8(t.login), a, e.login);
            C::lemma_sealed_is_sealable(old_key@, encode_utf8(t.password), a, e.password);
            match (t.note, e.note) {
                (Some(n), Some(f)) => {
                    assert(C::sealed(old_key@, encode_utf8(n), a, f));
                    C::lemma_sealed_is_sealable(old_key@, encode_utf8(n), a, f);
                },
                _ => {},
            }
        }
    }
    let login2 = match crypto.encrypt(new_key, login.as_slice(), aad.as_slice()) {
        Ok(f) => f,
        Err(_) => return Err(AppError::Crypto),
    };
    let password2 = match crypto.encrypt(new_key, password.as_slice(), aad.as_slice()) {
        Ok(f) => f,
        Err(_) => return Err(AppError::Crypto),
    };
    let note2 = match &note {
        None => None,
        Some(p) => match crypto.encrypt(new_key, p.as_slice(), aad.as_slice()) {
            Ok(f) => Some(f),
            Err(_) => return Err(AppError::Crypto),
        },
    };
    Ok(EncryptedEntry { service: e.service.clone(), login: login2, password: password2, note: note2 })
}

} // verus!

verus! {

/// A request that the vault hands to the caller to perform on its store.
#[derive(Debug)]
pub enum RepoRequest {
    GetMaster { user_id: i64 },
    UpsertMaster { user_id: i64, record: MasterRecord },
    GetEntry { user_id: i64, service: String },
    UpsertEntry { user_id: i64, entry: EncryptedEntry },
    ListServices { user_id: i64 },
    DeleteEntry { user_id: i64, service: String },
}

/// What the store answered to a request.
#[derive(Debug)]
pub enum RepoReply {
    Master(Result<Option<MasterRecord>, AppError>),
    Entry(Result<Option<EncryptedEntry>, AppError>),
    Services(Result<Vec<String>, AppError>),
    Deleted(Result<bool, AppError>),
    Stored(Result<(), AppError>),
}

/// What a finished operation gives.
#[derive(Debug)]
pub enum VaultOutcome {
    Done,
    Flag(bool),
    Entry(PlainEntryView),
    Services(Vec<String>),
}

/// The next thing to do: perform a request, or report the result.
#[derive(Debug)]
pub enum VaultStep {
    Ask(RepoRequest),
    Finish(Result<VaultOutcome, AppError>),
}

/// A change of master password in progress: the entries are opened with the
/// old key and sealed again with the new one.
#[derive(Debug)]
pub struct Rotation {
    pub current: String,
    pub new_master: String,
    pub old_record: MasterRecord,
    pub new_record: MasterRecord,
    pub old_key: [u8; 32],
    pub new_key: [u8; 32],
}

/// Where an operation stands, and what it waits for.
#[derive(Debug)]
pub enum Stage {
    HasMaster,
    VerifyMaster { master_password: String },
    SetMaster { new_master: String, current: Option<String> },
    CreateMaster,
    RotateList { rotation: Rotation },
    RotateFetch { rotation: Rotation, services: Vec<String>, next: usize },
    RotateStore { rotation: Rotation, services: Vec<String>, next: usize },
    RotateCommit,
    AddEntry { input: PlainEntryInput, master_password: String },
    AddStore,
    GetMaster { service: String, master_password: String },
    GetFetch { master_password: String, record: MasterRecord },
    ListServices,
    DeleteEntry,
    Over,
}

/// An operation of the vault for one user.
#[derive(Debug)]
pub struct VaultTask {
    pub user_id: i64,
    pub stage: Stage,
}

/// The kinds of answer of the store.
#[derive(Debug)]
pub enum ReplyKind {
    Master,
    Entry,
    Services,
    Deleted,
    Stored,
    Nothing,
}

/// The kind of answer that a stage waits for.
pub open spec fn awaited(stage: Stage) -> ReplyKind {
    match stage {
        Stage::HasMaster | Stage::VerifyMaster { .. } | Stage::SetMaster { .. } | Stage::AddEntry { .. }
        | Stage::GetMaster { .. } => ReplyKind::Master,
        Stage::CreateMaster | Stage::RotateStore { .. } | Stage::RotateCommit | Stage::AddStore => ReplyKind::Stored,
        Stage::RotateList { .. } | Stage::ListServices => ReplyKind::Services,
        Stage::RotateFetch { .. } | Stage::GetFetch { .. } => ReplyKind::Entry,
        Stage::DeleteEntry => ReplyKind::Deleted,
        Stage::Over => ReplyKind::Nothing,
    }
}

/// The kind of an answer.
pub open spec fn reply_kind(reply: RepoReply) -> ReplyKind {
    match reply {
        RepoReply::Master(_) => ReplyKind::Master,
        RepoReply::Entry(_) => ReplyKind::Entry,
        RepoReply::Services(_) => ReplyKind::Services,
        RepoReply::Deleted(_) => ReplyKind::Deleted,
        RepoReply::Stored(_) => ReplyKind::Stored,
    }
}

/// What the keys of a rotation are made of.
pub open spec fn rotation_wf<C: CryptoPort>(r: Rotation) -> bool {
    &&& r.current@.len() > 0
    &&& C::verdict(r.current@, r.old_record) == Some(true)
    &&& r.old_key@ == C::entry_key(r.current@, r.old_record.key_salt@)
    &&& C::verdict(r.new_master@, r.new_record) == Some(true)
    &&& C::key_derivable(r.new_master@, r.new_record.key_salt@)
    &&& r.new_key@ == C::entry_key(r.new_master@, r.new_record.key_salt@)
}

/// What holds of an operation while it is under way.
pub open spec fn task_wf<C: CryptoPort>(t: VaultTask) -> bool {
    match t.stage {
        Stage::RotateList { rotation } => rotation_wf::<C>(rotation),
        Stage::RotateFetch { rotation, services, next } => rotation_wf::<C>(rotation) && next < services.len(),
        Stage::RotateStore { rotation, services, next } => rotation_wf::<C>(rotation) && next < services.len(),
        _ => true,
    }
}

/// The operation has ended with `r`.
pub open spec fn finished(t: VaultTask, n: VaultTask, step: VaultStep, r: Result<VaultOutcome, AppError>) -> bool {
    &&& n == VaultTask { user_id: t.user_id, stage: Stage::Over }
    &&& step == VaultStep::Finish(r)
}

/// The operation has ended with an error.
pub open spec fn failed(t: VaultTask, n: VaultTask, step: VaultStep, e: AppError) -> bool {
    finished(t, n, step, Err(e))
}

/// The operation has ended with the opened texts `text`.
pub open spec fn finished_entry(t: VaultTask, n: VaultTask, step: VaultStep, text: EntryText) -> bool {
    &&& n == VaultTask { user_id: t.user_id, stage: Stage::Over }
    &&& step matches VaultStep::Finish(Ok(VaultOutcome::Entry(v))) && view_text(v) == text
}

/// The operation goes on at `stage` and asks for `req`.
pub open spec fn asks(t: VaultTask, n: VaultTask, step: VaultStep, stage: Stage, req: RepoRequest) -> bool {
    &&& n == VaultTask { user_id: t.user_id, stage }
    &&& step == VaultStep::Ask(req)
}

/// The operation ends as the store's write ended.
pub open spec fn stored_outcome(r: Result<(), AppError>) -> Result<VaultOutcome, AppError> {
    match r {
        Ok(_) => Ok(VaultOutcome::Done),
        Err(e) => Err(e),
    }
}

/// The step after the master record of a change of master password was read.
pub open spec fn set_master_post<C: CryptoPort>(t: VaultTask, n: VaultTask, step: VaultStep, new_master: String, current: Option<String>, old: MasterRecord) -> bool {
    match current {
        None => failed(t, n, step, AppError::CurrentMasterPasswordRequired),
        Some(c) => if c@.len() == 0 {
            failed(t, n, step, AppError::InvalidMasterPassword)
        } else {
            match C::verdict(c@, old) {
                None => failed(t, n, step, AppError::Crypto),
                Some(false) => failed(t, n, step, AppError::InvalidMasterPassword),
                Some(true) => if !C::key_derivable(c@, old.key_salt@) || !C::creatable(new_master@) {
                    failed(t, n, step, AppError::Crypto)
                } else {
                    &&& n.user_id == t.user_id
                    &&& step == VaultStep::Ask(RepoRequest::ListServices { user_id: t.user_id })
                    &&& n.stage matches Stage::RotateList { rotation }
                    &&& rotation.current == c
                    &&& rotation.new_master == new_master
                    &&& rotation.old_record == old
                },
            }
        },
    }
}

/// The step after an entry to be sealed again was read.
pub open spec fn rotate_fetch_post<C: CryptoPort>(t: VaultTask, n: VaultTask, step: VaultStep, rotation: Rotation, services: Vec<String>, next: usize, enc: EncryptedEntry) -> bool {
    &&& match opened_bytes::<C>(rotation.old_key@, t.user_id, enc) {
        Some(b) => if bytes_sealable::<C>(b) {
            &&& n == VaultTask { user_id: t.user_id, stage: Stage::RotateStore { rotation, services, next } }
            &&& step matches VaultStep::Ask(RepoRequest::UpsertEntry { user_id, entry }) && user_id == t.user_id
                && resealed::<C>(rotation.new_key@, t.user_id, enc, b, entry)
        } else {
            failed(t, n, step, AppError::Crypto)
        },
        None => failed(t, n, step, AppError::Crypto),
    }
    &&& forall|text: EntryText| #[trigger]
        entry_seals::<C>(rotation.old_key@, t.user_id, text, enc) ==> (step matches VaultStep::Ask(
            RepoRequest::UpsertEntry { entry, .. },
        ) && entry_seals::<C>(rotation.new_key@, t.user_id, text, entry))
}

/// The step after the master record for a new entry was read.
pub open spec fn add_entry_post<C: CryptoPort>(t: VaultTask, n: VaultTask, step: VaultStep, input: PlainEntryInput, master: String, rec: MasterRecord) -> bool {
    match C::verdict(master@, rec) {
        None => failed(t, n, step, AppError::Crypto),
        Some(false) => failed(t, n, step, AppError::InvalidMasterPassword),
        Some(true) => if !C::key_derivable(master@, rec.key_salt@) || !text_sealable::<C>(input_text(input)) {
            failed(t, n, step, AppError::Crypto)
        } else {
            &&& n == VaultTask { user_id: t.user_id, stage: Stage::AddStore }
            &&& step matches VaultStep::Ask(RepoRequest::UpsertEntry { user_id, entry }) && user_id == t.user_id
                && entry_seals::<C>(C::entry_key(master@, rec.key_salt@), t.user_id, input_text(input), entry)
        },
    }
}

/// The step after a stored entry was read to be opened.
pub open spec fn get_fetch_post<C: CryptoPort>(t: VaultTask, n: VaultTask, step: VaultStep, master: String, rec: MasterRecord, enc: EncryptedEntry) -> bool {
    let key = C::entry_key(master@, rec.key_salt@);
    &&& if !C::key_derivable(master@, rec.key_salt@) {
        failed(t, n, step, AppError::Crypto)
    } else {
        match opened_entry::<C>(key, t.user_id, enc) {
            Some(text) => finished_entry(t, n, step, text),
            None => failed(t, n, step, AppError::Crypto),
        }
    }
    &&& forall|text: EntryText| #[trigger]
        entry_seals::<C>(key, t.user_id, text, enc) ==> C::key_derivable(master@, rec.key_salt@)
            ==> finished_entry(t, n, step, text)
}

/// What one step of an operation does with the answer of the store.
pub open spec fn resume_post<C: CryptoPort>(t: VaultTask, reply: RepoReply, n: VaultTask, step: VaultStep) -> bool {
    match t.stage {
        Stage::HasMaster => match reply {
            RepoReply::Master(Ok(o)) => finished(t, n, step, Ok(VaultOutcome::Flag(o is Some))),
            RepoReply::Master(Err(e)) => failed(t, n, step, e),
            _ => false,
        },
        Stage::VerifyMaster { master_password } => match reply {
            RepoReply::Master(Err(e)) => failed(t, n, step, e),
            RepoReply::Master(Ok(None)) => failed(t, n, step, AppError::MasterPasswordNotSet),
            RepoReply::Master(Ok(Some(rec))) => if master_password@.len() == 0 {
                failed(t, n, step, AppError::InvalidMasterPassword)
            } else {
                match C::verdict(master_password@, rec) {
                    None => failed(t, n, step, AppError::Crypto),
                    Some(false) => failed(t, n, step, AppError::InvalidMasterPassword),
                    Some(true) => finished(t, n, step, Ok(VaultOutcome::Done)),
                }
            },
            _ => false,
        },
        Stage::SetMaster { new_master, current } => match reply {
            RepoReply::Master(Err(e)) => failed(t, n, step, e),
            RepoReply::Master(Ok(None)) => if C::creatable(new_master@) {
                &&& n == VaultTask { user_id: t.user_id, stage: Stage::CreateMaster }
                &&& step matches VaultStep::Ask(RepoRequest::UpsertMaster { user_id, record })
                    && user_id == t.user_id && C::verdict(new_master@, record) == Some(true)
                    && C::key_derivable(new_master@, record.key_salt@)
            } else {
                failed(t, n, step, AppError::Crypto)
            },
            RepoReply::Master(Ok(Some(old))) => set_master_post::<C>(t, n, step, new_master, current, old),
            _ => false,
        },
        Stage::CreateMaster | Stage::RotateCommit | Stage::AddStore => match reply {
            RepoReply::Stored(r) => finished(t, n, step, stored_outcome(r)),
            _ => false,
        },
        Stage::RotateList { rotation } => match reply {
            RepoReply::Services(Err(e)) => failed(t, n, step, e),
            RepoReply::Services(Ok(list)) => if list.len() == 0 {
                asks(t, n, step, Stage::RotateCommit, RepoRequest::UpsertMaster { user_id: t.user_id, record: rotation.new_record })
            } else {
                &&& n == VaultTask { user_id: t.user_id, stage: Stage::RotateFetch { rotation, services: list, next: 0 } }
                &&& step == VaultStep::Ask(RepoRequest::GetEntry { user_id: t.user_id, service: list@[0] })
            },
            _ => false,
        },
        Stage::RotateFetch { rotation, services, next } => match reply {
            RepoReply::Entry(Err(e)) => failed(t, n, step, e),
            RepoReply::Entry(Ok(None)) => failed(t, n, step, AppError::EntryNotFound),
            RepoReply::Entry(Ok(Some(enc))) => rotate_fetch_post::<C>(t, n, step, rotation, services, next, enc),
            _ => false,
        },
        Stage::RotateStore { rotation, services, next } => match reply {
            RepoReply::Stored(Err(e)) => failed(t, n, step, e),
            RepoReply::Stored(Ok(_)) => if next + 1 < services.len() {
                &&& n == VaultTask { user_id: t.user_id, stage: Stage::RotateFetch { rotation, services, next: (next + 1) as usize } }
                &&& step == VaultStep::Ask(RepoRequest::GetEntry { user_id: t.user_id, service: services@[next + 1] })
            } else {
                asks(t, n, step, Stage::RotateCommit, RepoRequest::UpsertMaster { user_id: t.user_id, record: rotation.new_record })
            },
            _ => false,
        },
        Stage::AddEntry { input, master_password } => match reply {
            RepoReply::Master(Err(e)) => failed(t, n, step, e),
            RepoReply::Master(Ok(None)) => failed(t, n, step, AppError::MasterPasswordNotSet),
            RepoReply::Master(Ok(Some(rec))) => add_entry_post::<C>(t, n, step, input, master_password, rec),
            _ => false,
        },
        Stage::GetMaster { service, master_password } => match reply {
            RepoReply::Master(Err(e)) => failed(t, n, step, e),
            RepoReply::Master(Ok(None)) => failed(t, n, step, AppError::MasterPasswordNotSet),
            RepoReply::Master(Ok(Some(rec))) => match C::verdict(master_password@, rec) {
                None => failed(t, n, step, AppError::Crypto),
                Some(false) => failed(t, n, step, AppError::InvalidMasterPassword),
                Some(true) => asks(t, n, step, Stage::GetFetch { master_password, record: rec }, RepoRequest::GetEntry { user_id: t.user_id, service }),
            },
            _ => false,
        },
        Stage::GetFetch { master_password, record } => match reply {
            RepoReply::Entry(Err(e)) => failed(t, n, step, e),
            RepoReply::Entry(Ok(None)) => failed(t, n, step, AppError::EntryNotFound),
            RepoReply::Entry(Ok(Some(enc))) => get_fetch_post::<C>(t, n, step, master_password, record, enc),
            _ => false,
        },
        Stage::ListServices => match reply {
            RepoReply::Services(Ok(list)) => finished(t, n, step, Ok(VaultOutcome::Services(list))),
            RepoReply::Services(Err(e)) => failed(t, n, step, e),
            _ => false,
        },
        Stage::DeleteEntry => match reply {
            RepoReply::Deleted(Ok(b)) => finished(t, n, step, Ok(VaultOutcome::Flag(b))),
            RepoReply::Deleted(Err(e)) => failed(t, n, step, e),
            _ => false,
        },
        Stage::Over => false,
    }
}

} // verus!

verus! {

/// The vault: a store of sealed entries (held here, reached by the caller,
/// who performs the requests that an operation asks for) and the
/// cryptography that seals and opens them.
pub struct VaultService<R, C> {
    repo: R,
    crypto: C,
}

impl<R, C> VaultService<R, C> {
    pub closed spec fn spec_repo(&self) -> R {
        self.repo
    }

    pub closed spec fn spec_crypto(&self) -> C {
        self.crypto
    }

    /// Assembles a vault from its store and its cryptography.
    pub fn new(repo: R, crypto: C) -> (s: Self)
        ensures
            s.spec_repo() == repo,
            s.spec_crypto() == crypto,
    {
        VaultService { repo, crypto }
    }

    /// The store that the caller performs requests on.
    pub fn repo(&self) -> (r: &R)
        ensures
            *r == self.spec_repo(),
    {
        &self.repo
    }
}

impl VaultTask {
    /// Whether the operation waits for an answer like `reply`.
    pub fn expects(&self, reply: &RepoReply) -> (b: bool)
        ensures
            b == (awaited(self.stage) == reply_kind(*reply)),
    {
        match (&self.stage, reply) {
            (Stage::HasMaster, RepoReply::Master(_)) => true,
            (Stage::VerifyMaster { .. }, RepoReply::Master(_)) => true,
            (Stage::SetMaster { .. }, RepoReply::Master(_)) => true,
            (Stage::AddEntry { .. }, RepoReply::Master(_)) => true,
            (Stage::GetMaster { .. }, RepoReply::Master(_)) => true,
            (Stage::CreateMaster, RepoReply::Stored(_)) => true,
            (Stage::RotateStore { .. }, RepoReply::Stored(_)) => true,
            (Stage::RotateCommit, RepoReply::Stored(_)) => true,
            (Stage::AddStore, RepoReply::Stored(_)) => true,
            (Stage::RotateList { .. }, RepoReply::Services(_)) => true,
            (Stage::ListServices, RepoReply::Services(_)) => true,
            (Stage::RotateFetch { .. }, RepoReply::Entry(_)) => true,
            (Stage::GetFetch { .. }, RepoReply::Entry(_)) => true,
            (Stage::DeleteEntry, RepoReply::Deleted(_)) => true,
            _ => false,
        }
    }
}

impl<R, C: CryptoPort> VaultService<R, C> {
    /// Starts asking whether `user_id` has set a master password.
    pub fn has_master(&self, user_id: i64) -> (r: (VaultTask, VaultStep))
        ensures
            r.0 == (VaultTask { user_id, stage: Stage::HasMaster }),
            r.1 == VaultStep::Ask(RepoRequest::GetMaster { user_id }),
    {
        (VaultTask { user_id, stage: Stage::HasMaster }, VaultStep::Ask(RepoRequest::GetMaster { user_id }))
    }

    /// Starts checking `master_password` against the one that `user_id` set.
    pub fn verify_current_master(&self, user_id: i64, master_password: &str) -> (r: (VaultTask, VaultStep))
        ensures
            r.0.user_id == user_id,
            r.0.stage matches Stage::VerifyMaster { master_password: m } && m@ == master_password@,
            r.1 == VaultStep::Ask(RepoRequest::GetMaster { user_id }),
    {
        (
            VaultTask { user_id, stage: Stage::VerifyMaster { master_password: master_password.to_string() } },
            VaultStep::Ask(RepoRequest::GetMaster { user_id }),
        )
    }

    /// Starts setting a master password for `user_id`: the first time
    /// directly; later only with the current one, and then every entry is
    /// sealed again under the key of the new one. An empty new password is
    /// refused at once.
    pub fn set_master(&self, user_id: i64, new_master_password: &str, current_master_password: Option<&str>) -> (r: (VaultTask, VaultStep))
        ensures
            new_master_password@.len() == 0 ==> r.0 == (VaultTask { user_id, stage: Stage::Over }) && r.1
                == VaultStep::Finish(Err(AppError::EmptyMasterPassword)),
            new_master_password@.len() > 0 ==> {
                &&& r.0.user_id == user_id
                &&& r.0.stage matches Stage::SetMaster { new_master, current } && new_master@
                    == new_master_password@ && opt_text(current) == match current_master_password {
                    Some(c) => Some(c@),
                    None => None::<Seq<char>>,
                }
                &&& r.1 == VaultStep::Ask(RepoRequest::GetMaster { user_id })
            },
    {
        if new_master_password.is_empty() {
            return (VaultTask { user_id, stage: Stage::Over }, VaultStep::Finish(Err(AppError::EmptyMasterPassword)));
        }
        let current = match current_master_password {
            Some(c) => Some(c.to_string()),
            None => None,
        };
        (
            VaultTask { user_id, stage: Stage::SetMaster { new_master: new_master_password.to_string(), current } },
            VaultStep::Ask(RepoRequest::GetMaster { user_id }),
        )
    }

    /// Starts adding an entry for `user_id`. An entry that does not validate
    /// is refused at once.
    pub fn add_entry(&self, user_id: i64, input: PlainEntryInput, master_password: &str) -> (r: (VaultTask, VaultStep))
        ensures
            match validation_error(input.service@, input.login@, input.password@) {
                Some(e) => r.0 == (VaultTask { user_id, stage: Stage::Over }) && r.1 == VaultStep::Finish(Err(e)),
                None => {
                    &&& r.0.user_id == user_id
                    &&& r.0.stage matches Stage::AddEntry { input: i, master_password: m } && i == input
                        && m@ == master_password@
                    &&& r.1 == VaultStep::Ask(RepoRequest::GetMaster { user_id })
                },
            },
    {
        match input.validate() {
            Err(e) => (VaultTask { user_id, stage: Stage::Over }, VaultStep::Finish(Err(e))),
            Ok(input) => (
                VaultTask { user_id, stage: Stage::AddEntry { input, master_password: master_password.to_string() } },
                VaultStep::Ask(RepoRequest::GetMaster { user_id }),
            ),
        }
    }

    /// Starts opening the entry of `user_id` for `service`.
    pub fn get_entry(&self, user_id: i64, service: &str, master_password: &str) -> (r: (VaultTask, VaultStep))
        ensures
            r.0.user_id == user_id,
            r.0.stage matches Stage::GetMaster { service: s, master_password: m } && s@ == service@ && m@
                == master_password@,
            r.1 == VaultStep::Ask(RepoRequest::GetMaster { user_id }),
    {
        (
            VaultTask {
                user_id,
                stage: Stage::GetMaster { service: service.to_string(), master_password: master_password.to_string() },
            },
            VaultStep::Ask(RepoRequest::GetMaster { user_id }),
        )
    }

    /// Starts listing the services of `user_id`.
    pub fn list_services(&self, user_id: i64) -> (r: (VaultTask, VaultStep))
        ensures
            r.0 == (VaultTask { user_id, stage: Stage::ListServices }),
            r.1 == VaultStep::Ask(RepoRequest::ListServices { user_id }),
    {
        (VaultTask { user_id, stage: Stage::ListServices }, VaultStep::Ask(RepoRequest::ListServices { user_id }))
    }

    /// Starts deleting the entry of `user_id` for `service`.
    pub fn delete_entry(&self, user_id: i64, service: &str) -> (r: (VaultTask, VaultStep))
        ensures
            r.0 == (VaultTask { user_id, stage: Stage::DeleteEntry }),
            r.1 matches VaultStep::Ask(RepoRequest::DeleteEntry { user_id: u, service: s }) && u == user_id
                && s@ == service@,
    {
        (
            VaultTask { user_id, stage: Stage::DeleteEntry },
            VaultStep::Ask(RepoRequest::DeleteEntry { user_id, service: service.to_string() }),
        )
    }
}

} // verus!

verus! {

fn end_with(user_id: i64, r: Result<VaultOutcome, AppError>) -> (out: (VaultTask, VaultStep))
    ensures
        out.0 == (VaultTask { user_id, stage: Stage::Over }),
        out.1 == VaultStep::Finish(r),
{
    (VaultTask { user_id, stage: Stage::Over }, VaultStep::Finish(r))
}

impl<R, C: CryptoPort> VaultService<R, C> {
    fn on_verify(&self, user_id: i64, master_password: String, r: Result<Option<MasterRecord>, AppError>) -> (out: (VaultTask, VaultStep))
        ensures
            resume_post::<C>(
                VaultTask { user_id, stage: Stage::VerifyMaster { master_password } },
                RepoReply::Master(r),
                out.0,
                out.1,
            ),
    {
        let record = match r {
            Err(e) => return end_with(user_id, Err(e)),
            Ok(None) => return end_with(user_id, Err(AppError::MasterPasswordNotSet)),
            Ok(Some(rec)) => rec,
        };
        if master_password.as_str().is_empty() {
            return end_with(user_id, Err(AppError::InvalidMasterPassword));
        }
        match self.crypto.verify_master_password(master_password.as_str(), &record) {
            Err(_) => end_with(user_id, Err(AppError::Crypto)),
            Ok(false) => end_with(user_id, Err(AppError::InvalidMasterPassword)),
            Ok(true) => end_with(user_id, Ok(VaultOutcome::Done)),
        }
    }

    fn on_set_master(&self, user_id: i64, new_master: String, current: Option<String>, r: Result<Option<MasterRecord>, AppError>) -> (out: (VaultTask, VaultStep))
        ensures
            resume_post::<C>(
                VaultTask { user_id, stage: Stage::SetMaster { new_master, current } },
                RepoReply::Master(r),
                out.0,
                out.1,
            ),
            task_wf::<C>(out.0),
    {
        let old_record = match r {
            Err(e) => return end_with(user_id, Err(e)),
            Ok(None) => {
                return match self.crypto.create_master_record(new_master.as_str()) {
                    Ok(record) => (
                        VaultTask { user_id, stage: Stage::CreateMaster },
                        VaultStep::Ask(RepoRequest::UpsertMaster { user_id, record }),
                    ),
                    Err(_) => end_with(user_id, Err(AppError::Crypto)),
                };
            },
            Ok(Some(rec)) => rec,
        };
        let ghost cur = current;
        let current = match current {
            None => return end_with(user_id, Err(AppError::CurrentMasterPasswordRequired)),
            Some(c) => c,
        };
        if current.as_str().is_empty() {
            return end_with(user_id, Err(AppError::InvalidMasterPassword));
        }
        match self.crypto.verify_master_password(current.as_str(), &old_record) {
            Err(_) => return end_with(user_id, Err(AppError::Crypto)),
            Ok(false) => return end_with(user_id, Err(AppError::InvalidMasterPassword)),
            Ok(true) => {},
        }
        let old_key = match self.crypto.derive_entry_key(current.as_str(), old_record.key_salt.as_slice()) {
            Ok(k) => k,
            Err(_) => return end_with(user_id, Err(AppError::Crypto)),
        };
        let new_record = match self.crypto.create_master_record(new_master.as_str()) {
            Ok(rec) => rec,
            Err(_) => return end_with(user_id, Err(AppError::Crypto)),
        };
        let new_key = match self.crypto.derive_entry_key(new_master.as_str(), new_record.key_salt.as_slice()) {
            Ok(k) => k,
            Err(_) => return end_with(user_id, Err(AppError::Crypto)),
        };
        let rotation = Rotation { current, new_master, old_record, new_record, old_key, new_key };
        (VaultTask { user_id, stage: Stage::RotateList { rotation } }, VaultStep::Ask(RepoRequest::ListServices { user_id }))
    }

    fn on_rotate_list(&self, user_id: i64, rotation: Rotation, r: Result<Vec<String>, AppError>) -> (out: (VaultTask, VaultStep))
        requires
            rotation_wf::<C>(rotation),
        ensures
            resume_post::<C>(VaultTask { user_id, stage: Stage::RotateList { rotation } }, RepoReply::Services(r), out.0, out.1),
            task_wf::<C>(out.0),
    {
        let services = match r {
            Err(e) => return end_with(user_id, Err(e)),
            Ok(list) => list,
        };
        if services.len() == 0 {
            let record = rotation.new_record;
            return (VaultTask { user_id, stage: Stage::RotateCommit }, VaultStep::Ask(RepoRequest::UpsertMaster { user_id, record }));
        }
        let service = services[0].clone();
        (
            VaultTask { user_id, stage: Stage::RotateFetch { rotation, services, next: 0 } },
            VaultStep::Ask(RepoRequest::GetEntry { user_id, service }),
        )
    }

    fn on_rotate_fetch(&self, user_id: i64, rotation: Rotation, services: Vec<String>, next: usize, r: Result<Option<EncryptedEntry>, AppError>) -> (out: (VaultTask, VaultStep))
        requires
            rotation_wf::<C>(rotation),
            next < services.len(),
        ensures
            resume_post::<C>(
                VaultTask { user_id, stage: Stage::RotateFetch { rotation, services, next } },
                RepoReply::Entry(r),
                out.0,
                out.1,
            ),
            task_wf::<C>(out.0),
    {
        let enc = match r {
            Err(e) => return end_with(user_id, Err(e)),
            Ok(None) => return end_with(user_id, Err(AppError::EntryNotFound)),
            Ok(Some(enc)) => enc,
        };
        match reseal_entry(&self.crypto, &rotation.old_key, &rotation.new_key, user_id, &enc) {
            Ok(entry) => (
                VaultTask { user_id, stage: Stage::RotateStore { rotation, services, next } },
                VaultStep::Ask(RepoRequest::UpsertEntry { user_id, entry }),
            ),
            Err(_) => end_with(user_id, Err(AppError::Crypto)),
        }
    }

    fn on_rotate_store(&self, user_id: i64, rotation: Rotation, services: Vec<String>, next: usize, r: Result<(), AppError>) -> (out: (VaultTask, VaultStep))
        requires
            rotation_wf::<C>(rotation),
            next < services.len(),
        ensures
            resume_post::<C>(
                VaultTask { user_id, stage: Stage::RotateStore { rotation, services, next } },
                RepoReply::Stored(r),
                out.0,
                out.1,
            ),
            task_wf::<C>(out.0),
    {
        if let Err(e) = r {
            return end_with(user_id, Err(e));
        }
        if next + 1 < services.len() {
            let service = services[next + 1].clone();
            (
                VaultTask { user_id, stage: Stage::RotateFetch { rotation, services, next: next + 1 } },
                VaultStep::Ask(RepoRequest::GetEntry { user_id, service }),
            )
        } else {
            let record = rotation.new_record;
            (VaultTask { user_id, stage: Stage::RotateCommit }, VaultStep::Ask(RepoRequest::UpsertMaster { user_id, record }))
        }
    }

    fn on_add(&self, user_id: i64, input: PlainEntryInput, master_password: String, r: Result<Option<MasterRecord>, AppError>) -> (out: (VaultTask, VaultStep))
        ensures
            resume_post::<C>(
                VaultTask { user_id, stage: Stage::AddEntry { input, master_password } },
                RepoReply::Master(r),
                out.0,
                out.1,
            ),
    {
        let record = match r {
            Err(e) => return end_with(user_id, Err(e)),
            Ok(None) => return end_with(user_id, Err(AppError::MasterPasswordNotSet)),
            Ok(Some(rec)) => rec,
        };
        match self.crypto.verify_master_password(master_password.as_str(), &record) {
            Err(_) => return end_with(user_id, Err(AppError::Crypto)),
            Ok(false) => return end_with(user_id, Err(AppError::InvalidMasterPassword)),
            Ok(true) => {},
        }
        let key = match self.crypto.derive_entry_key(master_password.as_str(), record.key_salt.as_slice()) {
            Ok(k) => k,
            Err(_) => return end_with(user_id, Err(AppError::Crypto)),
        };
        match seal_entry(&self.crypto, &key, user_id, &input) {
            Ok(entry) => (VaultTask { user_id, stage: Stage::AddStore }, VaultStep::Ask(RepoRequest::UpsertEntry { user_id, entry })),
            Err(_) => end_with(user_id, Err(AppError::Crypto)),
        }
    }

    fn on_get_master(&self, user_id: i64, service: String, master_password: String, r: Result<Option<MasterRecord>, AppError>) -> (out: (VaultTask, VaultStep))
        ensures
            resume_post::<C>(
                VaultTask { user_id, stage: Stage::GetMaster { service, master_password } },
                RepoReply::Master(r),
                out.0,
                out.1,
            ),
    {
        let record = match r {
            Err(e) => return end_with(user_id, Err(e)),
            Ok(None) => return end_with(user_id, Err(AppError::MasterPasswordNotSet)),
            Ok(Some(rec)) => rec,
        };
        match self.crypto.verify_master_password(master_password.as_str(), &record) {
            Err(_) => end_with(user_id, Err(AppError::Crypto)),
            Ok(false) => end_with(user_id, Err(AppError::InvalidMasterPassword)),
            Ok(true) => (
                VaultTask { user_id, stage: Stage::GetFetch { master_password, record } },
                VaultStep::Ask(RepoRequest::GetEntry { user_id, service }),
            ),
        }
    }

    fn on_get_fetch(&self, user_id: i64, master_password: String, record: MasterRecord, r: Result<Option<EncryptedEntry>, AppError>) -> (out: (VaultTask, VaultStep))
        ensures
            resume_post::<C>(
                VaultTask { user_id, stage: Stage::GetFetch { master_password, record } },
                RepoReply::Entry(r),
                out.0,
                out.1,
            ),
    {
        let enc = match r {
            Err(e) => return end_with(user_id, Err(e)),
            Ok(None) => return end_with(user_id, Err(AppError::EntryNotFound)),
            Ok(Some(enc)) => enc,
        };
        let key = match self.crypto.derive_entry_key(master_password.as_str(), record.key_salt.as_slice()) {
            Ok(k) => k,
            Err(_) => return end_with(user_id, Err(AppError::Crypto)),
        };
        match open_entry(&self.crypto, &key, user_id, &enc) {
            Ok(view) => end_with(user_id, Ok(VaultOutcome::Entry(view))),
            Err(_) => end_with(user_id, Err(AppError::Crypto)),
        }
    }
}

} // verus!

verus! {

impl<R, C: CryptoPort> VaultService<R, C> {
    /// Takes the operation one step further with the store's answer to the
    /// request it asked for last.
    pub fn resume(&self, task: VaultTask, reply: RepoReply) -> (out: (VaultTask, VaultStep))
        requires
            task_wf::<C>(task),
            awaited(task.stage) == reply_kind(reply),
        ensures
            resume_post::<C>(task, reply, out.0, out.1),
            task_wf::<C>(out.0),
    {
        let user_id = task.user_id;
        match task.stage {
            Stage::HasMaster => match reply {
                RepoReply::Master(Ok(o)) => end_with(user_id, Ok(VaultOutcome::Flag(o.is_some()))),
                RepoReply::Master(Err(e)) => end_with(user_id, Err(e)),
                _ => {
                    assert(false);
                    end_with(user_id, Err(AppError::Crypto))
                },
            },
            Stage::VerifyMaster { master_password } => match reply {
                RepoReply::Master(r) => self.on_verify(user_id, master_password, r),
                _ => {
                    assert(false);
                    end_with(user_id, Err(AppError::Crypto))
                },
            },
            Stage::SetMaster { new_master, current } => match reply {
                RepoReply::Master(r) => self.on_set_master(user_id, new_master, current, r),
                _ => {
                    assert(false);
                    end_with(user_id, Err(AppError::Crypto))
                },
            },
            Stage::CreateMaster | Stage::RotateCommit | Stage::AddStore => match reply {
                RepoReply::Stored(Ok(_)) => end_with(user_id, Ok(VaultOutcome::Done)),
                RepoReply::Stored(Err(e)) => end_with(user_id, Err(e)),
                _ => {
                    assert(false);
                    end_with(user_id, Err(AppError::Crypto))
                },
            },
            Stage::RotateList { rotation } => match reply {
                RepoReply::Services(r) => self.on_rotate_list(user_id, rotation, r),
                _ => {
                    assert(false);
                    end_with(user_id, Err(AppError::Crypto))
                },
            },
            Stage::RotateFetch { rotation, services, next } => match reply {
                RepoReply::Entry(r) => self.on_rotate_fetch(user_id, rotation, services, next, r),
                _ => {
                    assert(false);
                    end_with(user_id, Err(AppError::Crypto))
                },
            },
            Stage::RotateStore { rotation, services, next } => match reply {
                RepoReply::Stored(r) => self.on_rotate_store(user_id, rotation, services, next, r),
                _ => {
                    assert(false);
                    end_with(user_id, Err(AppError::Crypto))
                },
            },
            Stage::AddEntry { input, master_password } => match reply {
                RepoReply::Master(r) => self.on_add(user_id, input, master_password, r),
                _ => {
                    assert(false);
                    end_with(user_id, Err(AppError::Crypto))
                },
            },
            Stage::GetMaster { service, master_password } => match reply {
                RepoReply::Master(r) => self.on_get_master(user_id, service, master_password, r),
                _ => {
                    assert(false);
                    end_with(user_id, Err(AppError::Crypto))
                },
            },
            Stage::GetFetch { master_password, record } => match reply {
                RepoReply::Entry(r) => self.on_get_fetch(user_id, master_password, record, r),
                _ => {
                    assert(false);
                    end_with(user_id, Err(AppError::Crypto))
                },
            },
            Stage::ListServices => match reply {
                RepoReply::Services(Ok(list)) => end_with(user_id, Ok(VaultOutcome::Services(list))),
                RepoReply::Services(Err(e)) => end_with(user_id, Err(e)),
                _ => {
                    assert(false);
                    end_with(user_id, Err(AppError::Crypto))
                },
            },
            Stage::DeleteEntry => match reply {
                RepoReply::Deleted(Ok(b)) => end_with(user_id, Ok(VaultOutcome::Flag(b))),
                RepoReply::Deleted(Err(e)) => end_with(user_id, Err(e)),
                _ => {
                    assert(false);
                    end_with(user_id, Err(AppError::Crypto))
                },
            },
            Stage::Over => {
                assert(false);
                end_with(user_id, Err(AppError::Crypto))
            },
        }
    }
}

} // verus!
