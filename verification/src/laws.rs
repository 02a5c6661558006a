use vstd::prelude::*;
use crate::bot::{
    ActionView, CallView, ChangeView, PendingView, decision, list_reply, master_to_save_text, not_understood_text,
    step1_text,
};
use crate::crypto::CryptoPort;
use crate::domain::{EncryptedEntry, MasterRecord, PlainEntryInput, drawn_password, special_chars};
use crate::draws::DrawLog;
use crate::service::{
    bytes_sealable, entry_aad, opened_bytes, opened_entry, resealed, EntryText, RepoReply, RepoRequest, Rotation, Stage, VaultOutcome, VaultStep, VaultTask, entry_seals,
    input_text, resume_post, rotation_wf, view_text, awaited, reply_kind, task_wf,
};
use crate::text::{joined, parsed_bool, parsed_usize, trimmed, words};

verus! {

/// The user that a request is made for.
pub open spec fn request_user(req: RepoRequest) -> i64 {
    match req {
        RepoRequest::GetMaster { user_id } => user_id,
        RepoRequest::UpsertMaster { user_id, .. } => user_id,
        RepoRequest::GetEntry { user_id, .. } => user_id,
        RepoRequest::UpsertEntry { user_id, .. } => user_id,
        RepoRequest::ListServices { user_id } => user_id,
        RepoRequest::DeleteEntry { user_id, .. } => user_id,
    }
}

/// An operation stays with its user: every step keeps the user of the operation,
/// and every request it asks for is made for that user.
pub proof fn law_operation_stays_with_user<C: CryptoPort>(t: VaultTask, reply: RepoReply, n: VaultTask, step: VaultStep)
    requires
        task_wf::<C>(t),
        awaited(t.stage) == reply_kind(reply),
        resume_post::<C>(t, reply, n, step),
    ensures
        n.user_id == t.user_id,
        step matches VaultStep::Ask(req) ==> request_user(req) == t.user_id,
{
}

/// What the vault gives back is what was added: an entry that adding sealed
/// under a master record, read back with the same master password while that
/// record stands, opens to the texts that were added.
pub proof fn law_get_returns_added<C: CryptoPort>(
    user_id: i64,
    input: PlainEntryInput,
    master: String,
    rec: MasterRecord,
    added: VaultTask,
    entry: EncryptedEntry,
    service: String,
    get_master: String,
    fetched: VaultTask,
    fetch_step: VaultStep,
    opened: VaultTask,
    open_step: VaultStep,
)
    requires
        resume_post::<C>(
            VaultTask { user_id, stage: Stage::AddEntry { input, master_password: master } },
            RepoReply::Master(Ok(Some(rec))),
            added,
            VaultStep::Ask(RepoRequest::UpsertEntry { user_id, entry }),
        ),
        get_master@ == master@,
        resume_post::<C>(
            VaultTask { user_id, stage: Stage::GetMaster { service, master_password: get_master } },
            RepoReply::Master(Ok(Some(rec))),
            fetched,
            fetch_step,
        ),
        resume_post::<C>(fetched, RepoReply::Entry(Ok(Some(entry))), opened, open_step),
    ensures
        fetch_step == VaultStep::Ask(RepoRequest::GetEntry { user_id, service }),
        open_step matches VaultStep::Finish(Ok(VaultOutcome::Entry(v))) && view_text(v) == input_text(input),
{
    assert(C::verdict(master@, rec) == Some(true));
    assert(fetched == VaultTask { user_id, stage: Stage::GetFetch { master_password: get_master, record: rec } });
}

/// Changing the master password keeps every entry: an entry that held some
/// texts under the old key is sealed again so that the new master password
/// and the new record open it to the same texts.
pub proof fn law_rotation_keeps_entries<C: CryptoPort>(
    user_id: i64,
    rotation: Rotation,
    services: Vec<String>,
    next: usize,
    enc: EncryptedEntry,
    text: EntryText,
    stored: VaultTask,
    resealed: EncryptedEntry,
    new_master: String,
    opened: VaultTask,
    open_step: VaultStep,
)
    requires
        rotation_wf::<C>(rotation),
        next < services.len(),
        entry_seals::<C>(rotation.old_key@, user_id, text, enc),
        resume_post::<C>(
            VaultTask { user_id, stage: Stage::RotateFetch { rotation, services, next } },
            RepoReply::Entry(Ok(Some(enc))),
            stored,
            VaultStep::Ask(RepoRequest::UpsertEntry { user_id, entry: resealed }),
        ),
        new_master@ == rotation.new_master@,
        resume_post::<C>(
            VaultTask { user_id, stage: Stage::GetFetch { master_password: new_master, record: rotation.new_record } },
            RepoReply::Entry(Ok(Some(resealed))),
            opened,
            open_step,
        ),
    ensures
        entry_seals::<C>(rotation.new_key@, user_id, text, resealed),
        open_step matches VaultStep::Finish(Ok(VaultOutcome::Entry(v))) && view_text(v) == text,
{
}

/// Opening and sealing again under another key keeps what an entry opens to.
proof fn lemma_resealed_opens_alike<C: CryptoPort>(
    old_key: Seq<u8>,
    new_key: Seq<u8>,
    user_id: i64,
    enc: EncryptedEntry,
    b: (Seq<u8>, Seq<u8>, Option<Seq<u8>>),
    e2: EncryptedEntry,
)
    requires
        opened_bytes::<C>(old_key, user_id, enc) == Some(b),
        resealed::<C>(new_key, user_id, enc, b, e2),
    ensures
        opened_entry::<C>(new_key, user_id, e2) == opened_entry::<C>(old_key, user_id, enc),
{
    let aad = entry_aad(user_id, enc.service@);
    C::lemma_sealed_opens(new_key, b.0, aad, e2.login);
    C::lemma_sealed_opens(new_key, b.1, aad, e2.password);
    match (b.2, e2.note) {
        (Some(n), Some(f)) => C::lemma_sealed_opens(new_key, n, aad, f),
        _ => {},
    }
}

/// What opens can all be sealed again.
proof fn lemma_opened_bytes_sealable<C: CryptoPort>(key: Seq<u8>, user_id: i64, enc: EncryptedEntry)
    requires
        opened_bytes::<C>(key, user_id, enc) is Some,
    ensures
        bytes_sealable::<C>(opened_bytes::<C>(key, user_id, enc)->0),
{
    let aad = entry_aad(user_id, enc.service@);
    C::lemma_opened_is_sealable(key, enc.login, aad);
    C::lemma_opened_is_sealable(key, enc.password, aad);
    match enc.note {
        Some(f) => C::lemma_opened_is_sealable(key, f, aad),
        None => {},
    }
}

/// The answers of a faithful store during a change of master password: the
/// list of services, then for each service its entry and the confirmation of
/// its new version, then the confirmation of the new record.
pub open spec fn rotation_reply(services: Vec<String>, encs: Seq<EncryptedEntry>, k: int) -> RepoReply {
    if k == 0 {
        RepoReply::Services(Ok(services))
    } else if k % 2 == 1 && k < 2 * services@.len() {
        RepoReply::Entry(Ok(Some(encs[(k - 1) / 2])))
    } else {
        RepoReply::Stored(Ok(()))
    }
}

/// The run of a change of master password, step by step, up to the `i`-th service.
proof fn lemma_rotation_prefix<C: CryptoPort>(
    user_id: i64,
    rotation: Rotation,
    services: Vec<String>,
    encs: Seq<EncryptedEntry>,
    texts: Seq<EntryText>,
    tasks: Seq<VaultTask>,
    steps: Seq<VaultStep>,
    i: int,
)
    requires
        rotation_wf::<C>(rotation),
        encs.len() == services@.len(),
        texts.len() == services@.len(),
        forall|j: int| 0 <= j < services@.len() ==> opened_entry::<C>(rotation.old_key@, user_id, #[trigger] encs[j]) == Some(texts[j]),
        tasks.len() == 2 * services@.len() + 3,
        steps.len() == 2 * services@.len() + 3,
        tasks[0] == (VaultTask { user_id, stage: Stage::RotateList { rotation } }),
        forall|k: int| 0 <= k < 2 * services@.len() + 2 ==> #[trigger] resume_post::<C>(tasks[k], rotation_reply(services, encs, k), tasks[k + 1], steps[k + 1]),
        0 <= i <= services@.len(),
    ensures
        i < services@.len() ==> tasks[2 * i + 1] == (VaultTask { user_id, stage: Stage::RotateFetch { rotation, services, next: i as usize } }),
        i < services@.len() ==> steps[2 * i + 1] == VaultStep::Ask(RepoRequest::GetEntry { user_id, service: services@[i] }),
        i == services@.len() ==> tasks[2 * i + 1] == (VaultTask { user_id, stage: Stage::RotateCommit }),
        i == services@.len() ==> steps[2 * i + 1] == VaultStep::Ask(RepoRequest::UpsertMaster { user_id, record: rotation.new_record }),
        forall|j: int| 0 <= j < i ==> (#[trigger] steps[2 * j + 2] matches VaultStep::Ask(RepoRequest::UpsertEntry { user_id: u, entry })
            && u == user_id && opened_entry::<C>(rotation.new_key@, user_id, entry) == Some(texts[j])),
    decreases i,
{
    if i == 0 {
        assert(resume_post::<C>(tasks[0], rotation_reply(services, encs, 0), tasks[1], steps[1]));
    } else {
        lemma_rotation_prefix::<C>(user_id, rotation, services, encs, texts, tasks, steps, i - 1);
        let p = i - 1;
        let k = 2 * p + 1;
        assert(rotation_reply(services, encs, k) == RepoReply::Entry(Ok(Some(encs[p]))));
        assert(resume_post::<C>(tasks[k], rotation_reply(services, encs, k), tasks[k + 1], steps[k + 1]));
        assert(opened_entry::<C>(rotation.old_key@, user_id, encs[p]) == Some(texts[p]));
        let b = opened_bytes::<C>(rotation.old_key@, user_id, encs[p])->0;
        lemma_opened_bytes_sealable::<C>(rotation.old_key@, user_id, encs[p]);
        assert(tasks[k + 1] == VaultTask { user_id, stage: Stage::RotateStore { rotation, services, next: p as usize } });
        let e2 = steps[k + 1]->Ask_0->UpsertEntry_entry;
        lemma_resealed_opens_alike::<C>(rotation.old_key@, rotation.new_key@, user_id, encs[p], b, e2);
        assert(rotation_reply(services, encs, k + 1) == RepoReply::Stored(Ok(())));
        assert(resume_post::<C>(tasks[k + 1], rotation_reply(services, encs, k + 1), tasks[k + 2], steps[k + 2]));
        assert forall|j: int| 0 <= j < i implies (#[trigger] steps[2 * j + 2] matches VaultStep::Ask(RepoRequest::UpsertEntry { user_id: u, entry })
            && u == user_id && opened_entry::<C>(rotation.new_key@, user_id, entry) == Some(texts[j])) by {
            if j < p {
            } else {
                assert(j == p);
                assert(2 * j + 2 == k + 1);
            }
        }
    }
}

/// A change of master password keeps every entry: when every listed entry
/// opens under the old key and the store answers faithfully, the run asks
/// for each service in the order listed, writes it sealed again so that the
/// new key opens it to the same texts, then writes the new record and ends
/// with success.
pub proof fn law_rotation_keeps_all_entries<C: CryptoPort>(
    user_id: i64,
    rotation: Rotation,
    services: Vec<String>,
    encs: Seq<EncryptedEntry>,
    texts: Seq<EntryText>,
    tasks: Seq<VaultTask>,
    steps: Seq<VaultStep>,
)
    requires
        rotation_wf::<C>(rotation),
        encs.len() == services@.len(),
        texts.len() == services@.len(),
        forall|j: int| 0 <= j < services@.len() ==> opened_entry::<C>(rotation.old_key@, user_id, #[trigger] encs[j]) == Some(texts[j]),
        tasks.len() == 2 * services@.len() + 3,
        steps.len() == 2 * services@.len() + 3,
        tasks[0] == (VaultTask { user_id, stage: Stage::RotateList { rotation } }),
        forall|k: int| 0 <= k < 2 * services@.len() + 2 ==> #[trigger] resume_post::<C>(tasks[k], rotation_reply(services, encs, k), tasks[k + 1], steps[k + 1]),
    ensures
        forall|i: int| 0 <= i < services@.len() ==> #[trigger] steps[2 * i + 1] == VaultStep::Ask(RepoRequest::GetEntry { user_id, service: services@[i] }),
        forall|i: int| 0 <= i < services@.len() ==> (#[trigger] steps[2 * i + 2] matches VaultStep::Ask(RepoRequest::UpsertEntry { user_id: u, entry })
            && u == user_id && opened_entry::<C>(rotation.new_key@, user_id, entry) == Some(texts[i])),
        steps[2 * services@.len() + 1int] == VaultStep::Ask(RepoRequest::UpsertMaster { user_id, record: rotation.new_record }),
        steps[2 * services@.len() + 2int] == VaultStep::Finish(Ok(VaultOutcome::Done)),
        rotation.new_key@ == C::entry_key(rotation.new_master@, rotation.new_record.key_salt@),
        C::verdict(rotation.new_master@, rotation.new_record) == Some(true),
        C::key_derivable(rotation.new_master@, rotation.new_record.key_salt@),
{
    let n = services@.len() as int;
    assert forall|i: int| 0 <= i < n implies #[trigger] steps[2 * i + 1] == VaultStep::Ask(RepoRequest::GetEntry { user_id, service: services@[i] }) by {
        lemma_rotation_prefix::<C>(user_id, rotation, services, encs, texts, tasks, steps, i);
    }
    lemma_rotation_prefix::<C>(user_id, rotation, services, encs, texts, tasks, steps, n);
    let k = 2 * n + 1;
    assert(rotation_reply(services, encs, k) == RepoReply::Stored(Ok(())));
    assert(resume_post::<C>(tasks[k], rotation_reply(services, encs, k), tasks[k + 1], steps[k + 1]));
}

/// A master password that was set is accepted: the record that a first
/// setting stores passes the check of the same password.
pub proof fn law_set_master_is_accepted<C: CryptoPort>(
    user_id: i64,
    new_master: String,
    current: Option<String>,
    created: VaultTask,
    record: MasterRecord,
    master: String,
    checked: VaultTask,
    check_step: VaultStep,
)
    requires
        resume_post::<C>(
            VaultTask { user_id, stage: Stage::SetMaster { new_master, current } },
            RepoReply::Master(Ok(None)),
            created,
            VaultStep::Ask(RepoRequest::UpsertMaster { user_id, record }),
        ),
        master@ == new_master@,
        master@.len() > 0,
        resume_post::<C>(
            VaultTask { user_id, stage: Stage::VerifyMaster { master_password: master } },
            RepoReply::Master(Ok(Some(record))),
            checked,
            check_step,
        ),
    ensures
        check_step == VaultStep::Finish(Ok(VaultOutcome::Done)),
{
}

/// After a change of master password, the record that it stores passes the
/// check of the new password.
pub proof fn law_new_master_is_accepted<C: CryptoPort>(
    user_id: i64,
    rotation: Rotation,
    master: String,
    checked: VaultTask,
    check_step: VaultStep,
)
    requires
        rotation_wf::<C>(rotation),
        master@ == rotation.new_master@,
        master@.len() > 0,
        resume_post::<C>(
            VaultTask { user_id, stage: Stage::VerifyMaster { master_password: master } },
            RepoReply::Master(Ok(Some(rotation.new_record))),
            checked,
            check_step,
        ),
    ensures
        check_step == VaultStep::Finish(Ok(VaultOutcome::Done)),
{
}

/// Whether a message is a command.
pub open spec fn is_command(text: Seq<char>) -> bool {
    trimmed(text).len() > 0 && trimmed(text)[0] == '/'
}

/// A command never drops the waiting dialog: it keeps it or starts another.
pub proof fn law_command_keeps_dialog(text: Seq<char>, pending: Option<PendingView>)
    requires
        is_command(text),
    ensures
        !(decision(text, pending).pending is Clear),
{
}

/// The step-by-step dialog of adding: after the service, the login, the
/// password and the note (`-` for none) come in four messages, the next
/// message is taken as the master password and the entry is added with the
/// trimmed texts; that last message is then deleted.
pub proof fn law_add_dialog(t1: Seq<char>, t2: Seq<char>, t3: Seq<char>, t4: Seq<char>, t5: Seq<char>)
    requires
        !is_command(t1),
        !is_command(t2),
        !is_command(t3),
        !is_command(t4),
        !is_command(t5),
    ensures
        ({
            let d1 = decision(t1, Some(PendingView::AddAwaitService));
            let p1 = d1.pending->Replace_0;
            let d2 = decision(t2, Some(p1));
            let p2 = d2.pending->Replace_0;
            let d3 = decision(t3, Some(p2));
            let p3 = d3.pending->Replace_0;
            let d4 = decision(t4, Some(p3));
            let p4 = d4.pending->Replace_0;
            let d5 = decision(t5, Some(p4));
            &&& d1.pending is Replace && d2.pending is Replace && d3.pending is Replace && d4.pending is Replace
            &&& d5.pending is Clear
            &&& d5.delete_message
            &&& d5.action == ActionView::Call(
                CallView::AddEntry {
                    entry: EntryText {
                        service: trimmed(t1),
                        login: trimmed(t2),
                        password: trimmed(t3),
                        note: if trimmed(t4) == "-"@ {
                            None
                        } else {
                            Some(trimmed(t4))
                        },
                    },
                    master: trimmed(t5),
                },
            )
        }),
{
}


/// The command names, as the dialog compares them.
proof fn lemma_command_names()
    ensures
        "/gen"@ != "/start"@,
        "/gen"@ != "/help"@,
        "/gen"@ != "/set_master"@,
        "/gen"@ != "/add"@,
        "/gen"@ != "/get"@,
        "/gen"@ != "/list"@,
        "/gen"@ != "/delete"@,
        "/add"@ != "/start"@,
        "/add"@ != "/help"@,
        "/add"@ != "/set_master"@,
{
    reveal_strlit("/gen");
    reveal_strlit("/start");
    reveal_strlit("/help");
    reveal_strlit("/set_master");
    reveal_strlit("/add");
    reveal_strlit("/get");
    reveal_strlit("/list");
    reveal_strlit("/delete");
    assert("/gen"@.len() == 4);
    assert("/add"@.len() == 4);
    assert("/start"@.len() == 6);
    assert("/help"@.len() == 5);
    assert("/set_master"@.len() == 11);
    assert("/list"@.len() == 5);
    assert("/delete"@.len() == 7);
    assert("/get"@.len() == 4);
    assert("/gen"@[3] == 'n' && "/get"@[3] == 't' && "/add"@[1] == 'a' && "/gen"@[1] == 'g');
}

/// `/gen` reads its arguments: a length given as a number is the length
/// asked for (20 otherwise), and a `true` or `false` given after it decides
/// whether a special character is asked for (yes otherwise). The waiting
/// dialog stays.
pub proof fn law_gen_reads_its_arguments(text: Seq<char>, pending: Option<PendingView>)
    requires
        is_command(text),
        words(trimmed(text)).len() > 0,
        words(trimmed(text))[0] == "/gen"@,
    ensures
        ({
            let ws = words(trimmed(text));
            let d = decision(text, pending);
            &&& d.pending is Keep
            &&& !d.delete_message
            &&& d.action matches ActionView::Generate { length, with_special } && {
                &&& (ws.len() > 1 && parsed_usize(ws[1]) is Some ==> length == parsed_usize(ws[1])->0)
                &&& (!(ws.len() > 1 && parsed_usize(ws[1]) is Some) ==> length == 20)
                &&& (ws.len() > 2 && parsed_bool(ws[2]) == Some(true) ==> with_special)
                &&& (ws.len() > 2 && parsed_bool(ws[2]) == Some(false) ==> !with_special)
                &&& (!(ws.len() > 2 && parsed_bool(ws[2]) is Some) ==> with_special)
            }
        }),
{
    lemma_command_names();
}

/// `/add` with a service, a login and a password waits for the master
/// password with exactly these; every further word belongs to the note,
/// joined with single spaces, and there is a note exactly when there is a
/// further word. With fewer words the step-by-step dialog starts.
pub proof fn law_add_reads_its_arguments(text: Seq<char>, pending: Option<PendingView>)
    requires
        is_command(text),
        words(trimmed(text)).len() > 0,
        words(trimmed(text))[0] == "/add"@,
    ensures
        ({
            let ws = words(trimmed(text));
            let d = decision(text, pending);
            &&& ws.len() >= 4 ==> {
                &&& d.pending matches ChangeView::Replace(PendingView::AddAwaitMaster { service, login, password, note })
                    && service == ws[1] && login == ws[2] && password == ws[3]
                    && (note is None <==> ws.len() == 4)
                    && (ws.len() == 5 ==> note == Some(ws[4]))
                    && (ws.len() > 4 ==> note == Some(joined(ws.subrange(4, ws.len() as int), " "@)))
                &&& d.action == ActionView::Say(master_to_save_text())
            }
            &&& ws.len() < 4 ==> d.pending == ChangeView::Replace(PendingView::AddAwaitService) && d.action
                == ActionView::Say(step1_text())
        }),
{
    lemma_command_names();
    let ws = words(trimmed(text));
    if ws.len() == 5 {
        assert(ws.subrange(4, 5) =~= seq![ws[4]]);
    }
}

/// Where `piece` stands in `s`.
pub open spec fn occurs_at(s: Seq<char>, piece: Seq<char>, k: int) -> bool {
    0 <= k && k + piece.len() <= s.len() && s.subrange(k, k + piece.len()) == piece
}

/// Whether `piece` stands whole somewhere in `s`.
pub open spec fn holds_piece(s: Seq<char>, piece: Seq<char>) -> bool {
    exists|k: int| occurs_at(s, piece, k)
}

/// Every part stands whole in the joined text.
proof fn lemma_joined_holds_part(parts: Seq<Seq<char>>, sep: Seq<char>, i: int) -> (k: int)
    requires
        0 <= i < parts.len(),
    ensures
        occurs_at(joined(parts, sep), parts[i], k),
    decreases parts.len(),
{
    if parts.len() == 1 {
        assert(joined(parts, sep).subrange(0, parts[0].len() as int) =~= parts[0]);
        0
    } else {
        let front = parts.drop_last();
        let j = joined(front, sep);
        let whole = joined(parts, sep);
        assert(whole == j + sep + parts.last());
        if i == parts.len() - 1 {
            let k: int = (j.len() + sep.len()) as int;
            assert(whole.subrange(k, k + parts[i].len()) =~= parts[i]);
            k
        } else {
            let k = lemma_joined_holds_part(front, sep, i);
            assert(front[i] == parts[i]);
            assert(whole.subrange(k, k + parts[i].len()) =~= j.subrange(k, k + parts[i].len()));
            k
        }
    }
}

/// The answer to `/list` says the list is empty exactly when it is; a list
/// that is not empty is shown after its heading with every service in it.
pub proof fn law_list_reply_shows_every_service(list: Seq<Seq<char>>)
    ensures
        (list_reply(list) == "👾 Список пуст."@) <==> list.len() == 0,
        list.len() > 0 ==> list_reply(list).take("📋 Сервисы:\n- "@.len() as int) == "📋 Сервисы:\n- "@,
        forall|i: int| 0 <= i < list.len() ==> holds_piece(list_reply(list), #[trigger] list[i]),
        list.len() == 1 ==> list_reply(list) == "📋 Сервисы:\n- "@ + list[0],
{
    reveal_strlit("👾 Список пуст.");
    reveal_strlit("📋 Сервисы:\n- ");
    let head = "📋 Сервисы:\n- "@;
    if list.len() > 0 {
        let r = list_reply(list);
        assert(r == head + joined(list, "\n- "@));
        assert(r[0] == head[0]);
        assert(head[0] != "👾 Список пуст."@[0]);
        assert(r.take(head.len() as int) =~= head);
    }
    assert forall|i: int| 0 <= i < list.len() implies holds_piece(list_reply(list), #[trigger] list[i]) by {
        let r = list_reply(list);
        let k = lemma_joined_holds_part(list, "\n- "@, i);
        let jn = joined(list, "\n- "@);
        assert(r == head + jn);
        assert(occurs_at(jn, list[i], k));
        assert(r.subrange(head.len() + k, head.len() + k + list[i].len()) =~= jn.subrange(k, k + list[i].len()));
        assert(occurs_at(r, list[i], head.len() + k));
    }
}

/// A message that answers a waiting dialog performs an operation of the
/// vault exactly when the dialog waited for a password (a new master
/// password, or the master password to save or to open an entry); such an
/// answer ends the dialog and is deleted, any other answer moves the dialog
/// on and is kept.
pub proof fn law_password_answer_ends_dialog(t: Seq<char>, p: PendingView)
    requires
        !is_command(t),
    ensures
        ({
            let d = decision(t, Some(p));
            &&& (d.action is Call) <==> (p is SetMaster || p is AddAwaitMaster || p is GetAwaitMaster)
            &&& (d.action is Call) <==> (d.pending is Clear)
            &&& (d.action is Call) <==> d.delete_message
            &&& !(d.action is Call) ==> d.pending is Replace
            &&& (p matches PendingView::GetAwaitMaster { service } ==> d.action == ActionView::Call(
                CallView::GetEntry { service, master: trimmed(t) },
            ))
            &&& (p is SetMaster ==> d.action == ActionView::Call(CallView::SetMaster { master: trimmed(t) }))
        }),
{
}

/// The waiting dialog after a change.
pub open spec fn after_change(before: Option<PendingView>, c: ChangeView) -> Option<PendingView> {
    match c {
        ChangeView::Keep => before,
        ChangeView::Clear => None,
        ChangeView::Replace(p) => Some(p),
    }
}

/// Once the master password to open an entry has been given, the next
/// ordinary message is not taken for a password again: it is not understood.
pub proof fn law_open_dialog_ends_after_password(service: Seq<char>, t1: Seq<char>, t2: Seq<char>)
    requires
        !is_command(t1),
        !is_command(t2),
    ensures
        ({
            let before = Some(PendingView::GetAwaitMaster { service });
            let d1 = decision(t1, before);
            let d2 = decision(t2, after_change(before, d1.pending));
            &&& after_change(before, d1.pending) is None
            &&& d2.action == ActionView::Say(not_understood_text())
            &&& !d2.delete_message
        }),
{
}

/// Every character of a generated password is a draw of its own: the call draws
/// exactly one byte per character, and the character at each position `i` (but
/// the one replaced by a special character) is the `i`-th byte drawn during the
/// call. With a special character, exactly two numbers are picked: the position
/// replaced and the special character put there; without, none.
pub proof fn law_each_character_is_its_own_draw(
    p: Seq<char>,
    length: nat,
    with_special: bool,
    before: DrawLog,
    after: DrawLog,
)
    requires
        drawn_password(p, length, with_special, before, after),
    ensures
        p.len() == length,
        after.bytes().len() == before.bytes().len() + length,
        forall|i: int| 0 <= i < before.bytes().len() ==> after.bytes()[i] == before.bytes()[i],
        !with_special ==> after.picks() == before.picks(),
        !with_special ==> forall|i: int|
            0 <= i < length ==> p[i] == after.bytes()[before.bytes().len() + i] as char,
        with_special ==> after.picks().len() == before.picks().len() + 2,
        with_special ==> after.picks()[before.picks().len() as int] < length,
        with_special ==> after.picks()[before.picks().len() + 1int] < special_chars().len(),
        with_special ==> forall|i: int|
            0 <= i < length && i != after.picks()[before.picks().len() as int] ==> p[i] == after.bytes()[
                before.bytes().len() + i
            ] as char,
        with_special ==> p[after.picks()[before.picks().len() as int] as int] == special_chars()[after.picks()[
            before.picks().len() + 1int
        ] as int],
{
    let n = before.bytes().len();
    let k = before.picks().len();
    assert forall|i: int| 0 <= i < n implies after.bytes()[i] == before.bytes()[i] by {
        assert(after.bytes().take(n as int)[i] == after.bytes()[i]);
    }
    if !with_special {
        assert(after.picks() =~= after.picks().take(k as int));
    }
}

} // verus!
