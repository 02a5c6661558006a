use vstd::prelude::*;
use crate::crypto::CryptoPort;
use crate::domain::{PlainEntryInput, generate_password, length_error_text, password_shape};
use crate::errors::{AppError, error_text};
use crate::service::{EntryText, VaultOutcome, VaultService, VaultStep, VaultTask, opt_text, input_text, view_text};
use crate::text::{
    joined, parse_bool, parse_usize, parsed_bool, parsed_usize, same_text, split_words, texts, trim_text,
    trimmed, words, join_texts,
};

verus! {

/// A dialog that waits for the user's next message.
#[derive(Clone, Debug)]
pub enum PendingAction {
    SetMaster,
    AddAwaitService,
    AddAwaitLogin { service: String },
    AddAwaitPassword { service: String, login: String },
    AddAwaitNote { service: String, login: String, password: String },
    AddAwaitMaster { service: String, login: String, password: String, note: Option<String> },
    GetAwaitMaster { service: String },
}

/// The texts of a waiting dialog.
pub enum PendingView {
    SetMaster,
    AddAwaitService,
    AddAwaitLogin { service: Seq<char> },
    AddAwaitPassword { service: Seq<char>, login: Seq<char> },
    AddAwaitNote { service: Seq<char>, login: Seq<char>, password: Seq<char> },
    AddAwaitMaster { service: Seq<char>, login: Seq<char>, password: Seq<char>, note: Option<Seq<char>> },
    GetAwaitMaster { service: Seq<char> },
}

impl View for PendingAction {
    type V = PendingView;

    open spec fn view(&self) -> PendingView {
        match *self {
            PendingAction::SetMaster => PendingView::SetMaster,
            PendingAction::AddAwaitService => PendingView::AddAwaitService,
            PendingAction::AddAwaitLogin { service } => PendingView::AddAwaitLogin { service: service@ },
            PendingAction::AddAwaitPassword { service, login } => PendingView::AddAwaitPassword {
                service: service@,
                login: login@,
            },
            PendingAction::AddAwaitNote { service, login, password } => PendingView::AddAwaitNote {
                service: service@,
                login: login@,
                password: password@,
            },
            PendingAction::AddAwaitMaster { service, login, password, note } => PendingView::AddAwaitMaster {
                service: service@,
                login: login@,
                password: password@,
                note: opt_text(note),
            },
            PendingAction::GetAwaitMaster { service } => PendingView::GetAwaitMaster { service: service@ },
        }
    }
}

/// An operation of the vault that a message asks for.
#[derive(Debug)]
pub enum VaultCall {
    SetMaster { master: String },
    AddEntry { input: PlainEntryInput, master: String },
    GetEntry { service: String, master: String },
    ListServices,
    DeleteEntry { service: String },
}

/// The texts of an operation asked for.
pub enum CallView {
    SetMaster { master: Seq<char> },
    AddEntry { entry: EntryText, master: Seq<char> },
    GetEntry { service: Seq<char>, master: Seq<char> },
    ListServices,
    DeleteEntry { service: Seq<char> },
}

impl View for VaultCall {
    type V = CallView;

    open spec fn view(&self) -> CallView {
        match *self {
            VaultCall::SetMaster { master } => CallView::SetMaster { master: master@ },
            VaultCall::AddEntry { input, master } => CallView::AddEntry { entry: input_text(input), master: master@ },
            VaultCall::GetEntry { service, master } => CallView::GetEntry { service: service@, master: master@ },
            VaultCall::ListServices => CallView::ListServices,
            VaultCall::DeleteEntry { service } => CallView::DeleteEntry { service: service@ },
        }
    }
}

/// Which operation of the vault a call is.
#[derive(Clone, Copy, Debug, PartialEq, Eq)]
pub enum CallKind {
    SetMaster,
    AddEntry,
    GetEntry,
    ListServices,
    DeleteEntry,
}

/// The kind of a call.
pub open spec fn call_kind(call: CallView) -> CallKind {
    match call {
        CallView::SetMaster { .. } => CallKind::SetMaster,
        CallView::AddEntry { .. } => CallKind::AddEntry,
        CallView::GetEntry { .. } => CallKind::GetEntry,
        CallView::ListServices => CallKind::ListServices,
        CallView::DeleteEntry { .. } => CallKind::DeleteEntry,
    }
}

impl VaultCall {
    /// Which operation this call is.
    pub fn kind(&self) -> (k: CallKind)
        ensures
            k == call_kind(self@),
    {
        match self {
            VaultCall::SetMaster { .. } => CallKind::SetMaster,
            VaultCall::AddEntry { .. } => CallKind::AddEntry,
            VaultCall::GetEntry { .. } => CallKind::GetEntry,
            VaultCall::ListServices => CallKind::ListServices,
            VaultCall::DeleteEntry { .. } => CallKind::DeleteEntry,
        }
    }
}

/// What becomes of the waiting dialog of a chat.
#[derive(Debug)]
pub enum PendingChange {
    Keep,
    Clear,
    Replace(PendingAction),
}

/// The texts of a change of the waiting dialog.
pub enum ChangeView {
    Keep,
    Clear,
    Replace(PendingView),
}

impl View for PendingChange {
    type V = ChangeView;

    open spec fn view(&self) -> ChangeView {
        match *self {
            PendingChange::Keep => ChangeView::Keep,
            PendingChange::Clear => ChangeView::Clear,
            PendingChange::Replace(p) => ChangeView::Replace(p@),
        }
    }
}

/// How a message is answered.
#[derive(Debug)]
pub enum BotAction {
    /// Send this text.
    Say(String),
    /// Perform this operation of the vault and send what `call_reply` makes of
    /// its result, for the kind of the call.
    Call(VaultCall),
    /// Send what `password_reply` makes.
    Generate { length: usize, with_special: bool },
}

/// The texts of an answer.
pub enum ActionView {
    Say(Seq<char>),
    Call(CallView),
    Generate { length: usize, with_special: bool },
}

impl View for BotAction {
    type V = ActionView;

    open spec fn view(&self) -> ActionView {
        match *self {
            BotAction::Say(s) => ActionView::Say(s@),
            BotAction::Call(c) => ActionView::Call(c@),
            BotAction::Generate { length, with_special } => ActionView::Generate { length, with_special },
        }
    }
}

/// What is done with one message: the change of the waiting dialog, the
/// answer, and whether the message is then deleted (it held a password).
#[derive(Debug)]
pub struct BotDecision {
    pub pending: PendingChange,
    pub action: BotAction,
    pub delete_message: bool,
}

/// The texts of a decision.
pub struct DecisionView {
    pub pending: ChangeView,
    pub action: ActionView,
    pub delete_message: bool,
}

impl View for BotDecision {
    type V = DecisionView;

    open spec fn view(&self) -> DecisionView {
        DecisionView { pending: self.pending@, action: self.action@, delete_message: self.delete_message }
    }
}

pub open spec fn start_text() -> Seq<char> {
    "🗝️ Rusty Key хранит секреты в зашифрованном виде.\n‼️ Важно: если Telegram-аккаунт скомпрометирован, данные тоже в зоне риска."@
}

pub open spec fn help_text() -> Seq<char> {
    "/start - начало;\n/help - шпаргалка по командам (мы тут);\n/set_master [master] - установка мастер-пароля;\n/add [service] [login] [password] [note?] - добавить запись указав через пробел: название сервиса, логин, пароль и текст заметки (необязательно). Пример: /add google example@example.com nCOzFyBxXdmDE3rD заметка;\n/get [service] - получить запись по названию сервиса;\n/list - список записей;\n/delete [service] - удалить запись по названию сервиса;\n/gen [len] [special:true|false] - сгенерировать пароль, указав через пробел: длину пароля и использовать ли спец. символы (!@#$%^&*()-_=+[]{};:,.?). Пример: /gen 16 true."@
}

pub open spec fn not_understood_text() -> Seq<char> {
    "🤷 Не понимаю Ваше сообщение.\n🛟 Используйте /help для списка команд."@
}

pub open spec fn enter_master_text() -> Seq<char> {
    "🔑 Введите новый мастер-пароль следующим сообщением."@
}

pub open spec fn step1_text() -> Seq<char> {
    "1️⃣ Шаг 1/4: отправьте название сервиса."@
}

pub open spec fn step2_text() -> Seq<char> {
    "2️⃣ Шаг 2/4: отправьте логин."@
}

pub open spec fn step3_text() -> Seq<char> {
    "3️⃣ Шаг 3/4: отправьте пароль записи."@
}

pub open spec fn step4_text() -> Seq<char> {
    "4️⃣ Шаг 4/4: отправьте заметку или '-' чтобы пропустить."@
}

pub open spec fn master_to_save_text() -> Seq<char> {
    "🔐 Введите мастер-пароль для сохранения записи."@
}

pub open spec fn master_to_open_text() -> Seq<char> {
    "🔐 Введите мастер-пароль для расшифровки записи."@
}

pub open spec fn get_usage_text() -> Seq<char> {
    "👉 Пример использования: /get google"@
}

pub open spec fn delete_usage_text() -> Seq<char> {
    "👉 Пример использования: /delete google"@
}

pub open spec fn unknown_command_text() -> Seq<char> {
    "🤷‍♂️ Неизвестная команда. Используйте /help."@
}

/// The default length of a generated password.
pub const DEFAULT_GEN_LENGTH: usize = 20;

/// A decision that only sends a text.
pub open spec fn say(pending: ChangeView, text: Seq<char>) -> DecisionView {
    DecisionView { pending, action: ActionView::Say(text), delete_message: false }
}

/// What a command, split into its words, asks for.
pub open spec fn command_decision(ws: Seq<Seq<char>>) -> DecisionView {
    let cmd = if ws.len() > 0 {
        ws[0]
    } else {
        Seq::empty()
    };
    if cmd == "/start"@ {
        say(ChangeView::Keep, start_text())
    } else if cmd == "/help"@ {
        say(ChangeView::Keep, help_text())
    } else if cmd == "/set_master"@ {
        if ws.len() > 1 {
            DecisionView {
                pending: ChangeView::Keep,
                action: ActionView::Call(CallView::SetMaster { master: ws[1] }),
                delete_message: false,
            }
        } else {
            say(ChangeView::Replace(PendingView::SetMaster), enter_master_text())
        }
    } else if cmd == "/add"@ {
        if ws.len() >= 4 {
            let note = if ws.len() > 4 {
                Some(joined(ws.subrange(4, ws.len() as int), " "@))
            } else {
                None
            };
            say(
                ChangeView::Replace(PendingView::AddAwaitMaster { service: ws[1], login: ws[2], password: ws[3], note }),
                master_to_save_text(),
            )
        } else {
            say(ChangeView::Replace(PendingView::AddAwaitService), step1_text())
        }
    } else if cmd == "/get"@ {
        if ws.len() > 1 {
            say(ChangeView::Replace(PendingView::GetAwaitMaster { service: ws[1] }), master_to_open_text())
        } else {
            say(ChangeView::Keep, get_usage_text())
        }
    } else if cmd == "/list"@ {
        DecisionView { pending: ChangeView::Keep, action: ActionView::Call(CallView::ListServices), delete_message: false }
    } else if cmd == "/delete"@ {
        if ws.len() > 1 {
            DecisionView {
                pending: ChangeView::Keep,
                action: ActionView::Call(CallView::DeleteEntry { service: ws[1] }),
                delete_message: false,
            }
        } else {
            say(ChangeView::Keep, delete_usage_text())
        }
    } else if cmd == "/gen"@ {
        let length = if ws.len() > 1 && parsed_usize(ws[1]) is Some {
            parsed_usize(ws[1])->0
        } else {
            DEFAULT_GEN_LENGTH
        };
        let with_special = if ws.len() > 2 && parsed_bool(ws[2]) is Some {
            parsed_bool(ws[2])->0
        } else {
            true
        };
        DecisionView {
            pending: ChangeView::Keep,
            action: ActionView::Generate { length, with_special },
            delete_message: false,
        }
    } else {
        say(ChangeView::Keep, unknown_command_text())
    }
}

/// What a message of text `t` does to a dialog that waits for it.
pub open spec fn pending_decision(p: PendingView, t: Seq<char>) -> DecisionView {
    match p {
        PendingView::SetMaster => DecisionView {
            pending: ChangeView::Clear,
            action: ActionView::Call(CallView::SetMaster { master: t }),
            delete_message: true,
        },
        PendingView::AddAwaitService => say(ChangeView::Replace(PendingView::AddAwaitLogin { service: t }), step2_text()),
        PendingView::AddAwaitLogin { service } => say(
            ChangeView::Replace(PendingView::AddAwaitPassword { service, login: t }),
            step3_text(),
        ),
        PendingView::AddAwaitPassword { service, login } => say(
            ChangeView::Replace(PendingView::AddAwaitNote { service, login, password: t }),
            step4_text(),
        ),
        PendingView::AddAwaitNote { service, login, password } => say(
            ChangeView::Replace(
                PendingView::AddAwaitMaster {
                    service,
                    login,
                    password,
                    note: if t == "-"@ {
                        None
                    } else {
                        Some(t)
                    },
                },
            ),
            master_to_save_text(),
        ),
        PendingView::AddAwaitMaster { service, login, password, note } => DecisionView {
            pending: ChangeView::Clear,
            action: ActionView::Call(
                CallView::AddEntry { entry: EntryText { service, login, password, note }, master: t },
            ),
            delete_message: true,
        },
        PendingView::GetAwaitMaster { service } => DecisionView {
            pending: ChangeView::Clear,
            action: ActionView::Call(CallView::GetEntry { service, master: t }),
            delete_message: true,
        },
    }
}

/// What is done with a message of text `text` in a chat whose waiting
/// dialog is `pending`: the text is trimmed; a text that starts with `/` is
/// a command and leaves the dialog as it is unless the command starts one;
/// any other text goes to the waiting dialog, or is not understood.
pub open spec fn decision(text: Seq<char>, pending: Option<PendingView>) -> DecisionView {
    let t = trimmed(text);
    if t.len() > 0 && t[0] == '/' {
        command_decision(words(t))
    } else {
        match pending {
            Some(p) => pending_decision(p, t),
            None => say(ChangeView::Keep, not_understood_text()),
        }
    }
}

/// The texts of an optional waiting dialog.
pub open spec fn opt_pending(p: Option<PendingAction>) -> Option<PendingView> {
    match p {
        Some(a) => Some(a@),
        None => None,
    }
}

} // verus!

verus! {

fn say_text(pending: PendingChange, text: &str) -> (d: BotDecision)
    ensures
        d@ == say(pending@, text@),
{
    BotDecision { pending, action: BotAction::Say(String::from_str(text)), delete_message: false }
}

fn command(t: &str) -> (d: BotDecision)
    ensures
        d@ == command_decision(words(t@)),
{
    let ws = split_words(t);
    let n = ws.len();
    let ghost w = words(t@);
    assert(w.len() == n);
    assert(forall|i: int| 0 <= i < n ==> #[trigger] w[i] == ws@[i]@);
    let empty = String::new();
    let cmd: &str = if n > 0 {
        ws[0].as_str()
    } else {
        empty.as_str()
    };
    assert(cmd@ == (if w.len() > 0 {
        w[0]
    } else {
        Seq::<char>::empty()
    }));
    if same_text(cmd, "/start") {
        return say_text(PendingChange::Keep, "🗝️ Rusty Key хранит секреты в зашифрованном виде.\n‼️ Важно: если Telegram-аккаунт скомпрометирован, данные тоже в зоне риска.");
    }
    if same_text(cmd, "/help") {
        return say_text(PendingChange::Keep, "/start - начало;\n/help - шпаргалка по командам (мы тут);\n/set_master [master] - установка мастер-пароля;\n/add [service] [login] [password] [note?] - добавить запись указав через пробел: название сервиса, логин, пароль и текст заметки (необязательно). Пример: /add google example@example.com nCOzFyBxXdmDE3rD заметка;\n/get [service] - получить запись по названию сервиса;\n/list - список записей;\n/delete [service] - удалить запись по названию сервиса;\n/gen [len] [special:true|false] - сгенерировать пароль, указав через пробел: длину пароля и использовать ли спец. символы (!@#$%^&*()-_=+[]{};:,.?). Пример: /gen 16 true.");
    }
    if same_text(cmd, "/set_master") {
        if n > 1 {
            return BotDecision {
                pending: PendingChange::Keep,
                action: BotAction::Call(VaultCall::SetMaster { master: ws[1].clone() }),
                delete_message: false,
            };
        }
        return say_text(PendingChange::Replace(PendingAction::SetMaster), "🔑 Введите новый мастер-пароль следующим сообщением.");
    }
    if same_text(cmd, "/add") {
        if n >= 4 {
            let note = if n > 4 {
                let rest = vstd::slice::slice_subrange(ws.as_slice(), 4, n);
                assert(texts(rest@) =~= w.subrange(4, n as int));
                Some(join_texts(rest, " "))
            } else {
                None
            };
            let pending = PendingAction::AddAwaitMaster {
                service: ws[1].clone(),
                login: ws[2].clone(),
                password: ws[3].clone(),
                note,
            };
            return say_text(PendingChange::Replace(pending), "🔐 Введите мастер-пароль для сохранения записи.");
        }
        return say_text(PendingChange::Replace(PendingAction::AddAwaitService), "1️⃣ Шаг 1/4: отправьте название сервиса.");
    }
    if same_text(cmd, "/get") {
        if n > 1 {
            let pending = PendingAction::GetAwaitMaster { service: ws[1].clone() };
            return say_text(PendingChange::Replace(pending), "🔐 Введите мастер-пароль для расшифровки записи.");
        }
        return say_text(PendingChange::Keep, "👉 Пример использования: /get google");
    }
    if same_text(cmd, "/list") {
        return BotDecision {
            pending: PendingChange::Keep,
            action: BotAction::Call(VaultCall::ListServices),
            delete_message: false,
        };
    }
    if same_text(cmd, "/delete") {
        if n > 1 {
            return BotDecision {
                pending: PendingChange::Keep,
                action: BotAction::Call(VaultCall::DeleteEntry { service: ws[1].clone() }),
                delete_message: false,
            };
        }
        return say_text(PendingChange::Keep, "👉 Пример использования: /delete google");
    }
    if same_text(cmd, "/gen") {
        let length = if n > 1 {
            match parse_usize(ws[1].as_str()) {
                Some(v) => v,
                None => DEFAULT_GEN_LENGTH,
            }
        } else {
            DEFAULT_GEN_LENGTH
        };
        let with_special = if n > 2 {
            match parse_bool(ws[2].as_str()) {
                Some(b) => b,
                None => true,
            }
        } else {
            true
        };
        return BotDecision {
            pending: PendingChange::Keep,
            action: BotAction::Generate { length, with_special },
            delete_message: false,
        };
    }
    say_text(PendingChange::Keep, "🤷‍♂️ Неизвестная команда. Используйте /help.")
}

fn continue_dialog(p: PendingAction, t: String) -> (d: BotDecision)
    ensures
        d@ == pending_decision(p@, t@),
{
    match p {
        PendingAction::SetMaster => BotDecision {
            pending: PendingChange::Clear,
            action: BotAction::Call(VaultCall::SetMaster { master: t }),
            delete_message: true,
        },
        PendingAction::AddAwaitService => say_text(
            PendingChange::Replace(PendingAction::AddAwaitLogin { service: t }),
            "2️⃣ Шаг 2/4: отправьте логин.",
        ),
        PendingAction::AddAwaitLogin { service } => say_text(
            PendingChange::Replace(PendingAction::AddAwaitPassword { service, login: t }),
            "3️⃣ Шаг 3/4: отправьте пароль записи.",
        ),
        PendingAction::AddAwaitPassword { service, login } => say_text(
            PendingChange::Replace(PendingAction::AddAwaitNote { service, login, password: t }),
            "4️⃣ Шаг 4/4: отправьте заметку или '-' чтобы пропустить.",
        ),
        PendingAction::AddAwaitNote { service, login, password } => {
            let note = if same_text(t.as_str(), "-") {
                None
            } else {
                Some(t)
            };
            say_text(
                PendingChange::Replace(PendingAction::AddAwaitMaster { service, login, password, note }),
                "🔐 Введите мастер-пароль для сохранения записи.",
            )
        },
        PendingAction::AddAwaitMaster { service, login, password, note } => BotDecision {
            pending: PendingChange::Clear,
            action: BotAction::Call(
                VaultCall::AddEntry { input: PlainEntryInput { service, login, password, note }, master: t },
            ),
            delete_message: true,
        },
        PendingAction::GetAwaitMaster { service } => BotDecision {
            pending: PendingChange::Clear,
            action: BotAction::Call(VaultCall::GetEntry { service, master: t }),
            delete_message: true,
        },
    }
}

/// Decides what to do with a message of text `text` in a chat whose waiting
/// dialog is `pending`.
pub fn decide(text: &str, pending: Option<PendingAction>) -> (d: BotDecision)
    ensures
        d@ == decision(text@, opt_pending(pending)),
{
    let t = trim_text(text);
    let ts: &str = t.as_str();
    if ts.unicode_len() > 0 && ts.get_char(0) == '/' {
        return command(ts);
    }
    match pending {
        Some(p) => continue_dialog(p, t),
        None => say_text(PendingChange::Keep, "🤷 Не понимаю Ваше сообщение.\n🛟 Используйте /help для списка команд."),
    }
}

} // verus!

verus! {

/// The answer to an operation that failed.
pub open spec fn error_reply(e: AppError) -> Seq<char> {
    match e {
        AppError::MasterPasswordNotSet => "🔑 Сначала установите мастер-пароль через /set_master."@,
        AppError::InvalidMasterPassword => "❌ Неверный мастер-пароль."@,
        AppError::EntryNotFound => "🤷‍♂️ Запись не найдена."@,
        _ => "❌ Ошибка: "@ + error_text(e),
    }
}

/// The answer that shows an opened entry.
pub open spec fn entry_reply(t: EntryText) -> Seq<char> {
    "service: "@ + t.service + "\nlogin: "@ + t.login + "\npassword: "@ + t.password + match t.note {
        Some(n) => "\nnote: "@ + n,
        None => Seq::<char>::empty(),
    }
}

/// The answer that lists the services.
pub open spec fn list_reply(list: Seq<Seq<char>>) -> Seq<char> {
    if list.len() == 0 {
        "👾 Список пуст."@
    } else {
        "📋 Сервисы:\n- "@ + joined(list, "\n- "@)
    }
}

/// The answer to an operation of the vault that ended with `r`.
pub open spec fn call_reply_text(kind: CallKind, r: Result<VaultOutcome, AppError>) -> Seq<char> {
    match r {
        Err(e) => error_reply(e),
        Ok(VaultOutcome::Done) => match kind {
            CallKind::SetMaster => "🔒 Мастер-пароль установлен/обновлён."@,
            _ => "✅ Запись сохранена."@,
        },
        Ok(VaultOutcome::Flag(deleted)) => if deleted {
            "✅ Запись удалена."@
        } else {
            "🤷‍♂️ Запись не найдена."@
        },
        Ok(VaultOutcome::Entry(v)) => entry_reply(view_text(v)),
        Ok(VaultOutcome::Services(list)) => list_reply(texts(list@)),
    }
}

/// The text before a generated password in its answer.
pub open spec fn generated_prefix() -> Seq<char> {
    "✨ Сгенерированный пароль:\n"@
}

/// The answer to a request for a password, given what the generator gave.
pub open spec fn generated_reply_text(r: Result<String, AppError>) -> Seq<char> {
    match r {
        Ok(p) => generated_prefix() + p@,
        Err(e) => error_reply(e),
    }
}

/// The answer to an operation that failed.
pub fn error_reply_string(e: AppError) -> (s: String)
    ensures
        s@ == error_reply(e),
{
    match e {
        AppError::MasterPasswordNotSet => String::from_str("🔑 Сначала установите мастер-пароль через /set_master."),
        AppError::InvalidMasterPassword => String::from_str("❌ Неверный мастер-пароль."),
        AppError::EntryNotFound => String::from_str("🤷‍♂️ Запись не найдена."),
        other => {
            let m = other.message();
            String::from_str("❌ Ошибка: ").concat(m.as_str())
        },
    }
}

/// Shows an opened entry.
pub fn entry_reply_string(v: &crate::domain::PlainEntryView) -> (s: String)
    ensures
        s@ == entry_reply(view_text(*v)),
{
    let mut s = String::from_str("service: ");
    s.append(v.service.as_str());
    s.append("\nlogin: ");
    s.append(v.login.as_str());
    s.append("\npassword: ");
    s.append(v.password.as_str());
    match &v.note {
        Some(n) => {
            s.append("\nnote: ");
            s.append(n.as_str());
        },
        None => {},
    }
    assert(s@ =~= entry_reply(view_text(*v)));
    s
}

/// Lists the services.
pub fn list_reply_string(list: &Vec<String>) -> (s: String)
    ensures
        s@ == list_reply(texts(list@)),
{
    if list.len() == 0 {
        String::from_str("👾 Список пуст.")
    } else {
        let joined_text = join_texts(list.as_slice(), "\n- ");
        String::from_str("📋 Сервисы:\n- ").concat(joined_text.as_str())
    }
}

/// The answer to an operation of the vault that ended with `r`.
pub fn call_reply(kind: CallKind, r: Result<VaultOutcome, AppError>) -> (s: String)
    ensures
        s@ == call_reply_text(kind, r),
{
    match r {
        Err(e) => error_reply_string(e),
        Ok(VaultOutcome::Done) => match kind {
            CallKind::SetMaster => String::from_str("🔒 Мастер-пароль установлен/обновлён."),
            _ => String::from_str("✅ Запись сохранена."),
        },
        Ok(VaultOutcome::Flag(deleted)) => if deleted {
            String::from_str("✅ Запись удалена.")
        } else {
            String::from_str("🤷‍♂️ Запись не найдена.")
        },
        Ok(VaultOutcome::Entry(v)) => entry_reply_string(&v),
        Ok(VaultOutcome::Services(list)) => list_reply_string(&list),
    }
}

/// The answer to a request for a password, given what the generator gave.
pub fn generated_reply(r: Result<String, AppError>) -> (s: String)
    ensures
        s@ == generated_reply_text(r),
{
    match r {
        Ok(p) => String::from_str("✨ Сгенерированный пароль:\n").concat(p.as_str()),
        Err(e) => error_reply_string(e),
    }
}

/// Generates a password and answers with it: `length` in `8..=128` gives the
/// prefix and a password of that shape; any other length gives the error.
pub fn password_reply(length: usize, with_special: bool) -> (s: String)
    ensures
        (8 <= length <= 128) ==> {
            &&& s@.len() == generated_prefix().len() + length
            &&& s@.take(generated_prefix().len() as int) == generated_prefix()
            &&& password_shape(s@.skip(generated_prefix().len() as int), length as nat, with_special)
        },
        !(8 <= length <= 128) ==> s@ == "❌ Ошибка: "@ + "неверный аргумент: "@ + length_error_text(),
{
    let r = generate_password(length, with_special);
    let ghost g = r;
    let s = generated_reply(r);
    proof {
        match g {
            Ok(p) => {
                assert(s@.take(generated_prefix().len() as int) =~= generated_prefix());
                assert(s@.skip(generated_prefix().len() as int) =~= p@);
            },
            Err(e) => {},
        }
    }
    s
}

} // verus!

verus! {

/// Starts the operation of the vault that a message asked for. A new master
/// password given in the chat is set without a current one.
pub fn start_call<R, C: CryptoPort>(vault: &VaultService<R, C>, user_id: i64, call: VaultCall) -> (r: (VaultTask, VaultStep))
    ensures
        match call {
            VaultCall::SetMaster { master } => if master@.len() == 0 {
                r.0 == (VaultTask { user_id, stage: crate::service::Stage::Over }) && r.1 == VaultStep::Finish(
                    Err(AppError::EmptyMasterPassword),
                )
            } else {
                &&& r.0.user_id == user_id
                &&& r.0.stage matches crate::service::Stage::SetMaster { new_master, current } && new_master@
                    == master@ && current is None
                &&& r.1 == VaultStep::Ask(crate::service::RepoRequest::GetMaster { user_id })
            },
            VaultCall::AddEntry { input, master } => match crate::domain::validation_error(
                input.service@,
                input.login@,
                input.password@,
            ) {
                Some(e) => r.0 == (VaultTask { user_id, stage: crate::service::Stage::Over }) && r.1
                    == VaultStep::Finish(Err(e)),
                None => {
                    &&& r.0.user_id == user_id
                    &&& r.0.stage matches crate::service::Stage::AddEntry { input: i, master_password: m }
                        && i == input && m@ == master@
                    &&& r.1 == VaultStep::Ask(crate::service::RepoRequest::GetMaster { user_id })
                },
            },
            VaultCall::GetEntry { service, master } => {
                &&& r.0.user_id == user_id
                &&& r.0.stage matches crate::service::Stage::GetMaster { service: s, master_password: m }
                    && s@ == service@ && m@ == master@
                &&& r.1 == VaultStep::Ask(crate::service::RepoRequest::GetMaster { user_id })
            },
            VaultCall::ListServices => {
                &&& r.0 == (VaultTask { user_id, stage: crate::service::Stage::ListServices })
                &&& r.1 == VaultStep::Ask(crate::service::RepoRequest::ListServices { user_id })
            },
            VaultCall::DeleteEntry { service } => {
                &&& r.0 == (VaultTask { user_id, stage: crate::service::Stage::DeleteEntry })
                &&& r.1 matches VaultStep::Ask(crate::service::RepoRequest::DeleteEntry { user_id: u, service: s })
                    && u == user_id && s@ == service@
            },
        },
{
    match call {
        VaultCall::SetMaster { master } => vault.set_master(user_id, master.as_str(), None),
        VaultCall::AddEntry { input, master } => vault.add_entry(user_id, input, master.as_str()),
        VaultCall::GetEntry { service, master } => vault.get_entry(user_id, service.as_str(), master.as_str()),
        VaultCall::ListServices => vault.list_services(user_id),
        VaultCall::DeleteEntry { service } => vault.delete_entry(user_id, service.as_str()),
    }
}

} // verus!
