use rusty_key::bot::{call_reply, decide, BotAction, CallKind, PendingAction, PendingChange, VaultCall};
use rusty_key::config::Settings;
use rusty_key::domain::{PlainEntryInput, PlainEntryView};
use rusty_key::errors::AppError;
use rusty_key::service::VaultOutcome;

fn said(action: &BotAction) -> &str {
    match action {
        BotAction::Say(s) => s.as_str(),
        other => panic!("not a text: {:?}", other),
    }
}

#[test]
fn start_and_help_leave_the_dialog() {
    let d = decide("  /start ", Some(PendingAction::AddAwaitService));
    assert!(matches!(d.pending, PendingChange::Keep));
    assert!(said(&d.action).starts_with("🗝️ Rusty Key"));
    let d = decide("/help", None);
    assert!(said(&d.action).starts_with("/start - начало;"));
    assert!(!d.delete_message);
}

#[test]
fn unknown_and_not_understood() {
    let d = decide("/nope", None);
    assert_eq!(said(&d.action), "🤷‍♂️ Неизвестная команда. Используйте /help.");
    let d = decide("hello", None);
    assert_eq!(said(&d.action), "🤷 Не понимаю Ваше сообщение.\n🛟 Используйте /help для списка команд.");
    assert!(matches!(d.pending, PendingChange::Keep));
}

#[test]
fn set_master_inline_and_by_dialog() {
    let d = decide("/set_master s3cret", None);
    assert!(matches!(&d.action, BotAction::Call(VaultCall::SetMaster { master }) if master == "s3cret"));
    let d = decide("/set_master", None);
    assert!(matches!(d.pending, PendingChange::Replace(PendingAction::SetMaster)));
    assert_eq!(said(&d.action), "🔑 Введите новый мастер-пароль следующим сообщением.");
    let d = decide("  s3cret  ", Some(PendingAction::SetMaster));
    assert!(matches!(d.pending, PendingChange::Clear));
    assert!(matches!(&d.action, BotAction::Call(VaultCall::SetMaster { master }) if master == "s3cret"));
    assert!(d.delete_message);
}

#[test]
fn add_inline_joins_the_note() {
    let d = decide("/add google me@x.com pw my  long\tnote", None);
    match d.pending {
        PendingChange::Replace(PendingAction::AddAwaitMaster { service, login, password, note }) => {
            assert_eq!(service, "google");
            assert_eq!(login, "me@x.com");
            assert_eq!(password, "pw");
            assert_eq!(note.as_deref(), Some("my long note"));
        },
        other => panic!("{:?}", other),
    }
    assert_eq!(said(&d.action), "🔐 Введите мастер-пароль для сохранения записи.");
    let d = decide("/add google me pw", None);
    assert!(matches!(d.pending, PendingChange::Replace(PendingAction::AddAwaitMaster { note: None, .. })));
    let d = decide("/add google me", None);
    assert!(matches!(d.pending, PendingChange::Replace(PendingAction::AddAwaitService)));
    assert_eq!(said(&d.action), "1️⃣ Шаг 1/4: отправьте название сервиса.");
}

#[test]
fn add_dialog_in_four_steps() {
    let mut pending = PendingAction::AddAwaitService;
    let texts = [" google ", "me", "pw 1", "-"];
    let replies = [
        "2️⃣ Шаг 2/4: отправьте логин.",
        "3️⃣ Шаг 3/4: отправьте пароль записи.",
        "4️⃣ Шаг 4/4: отправьте заметку или '-' чтобы пропустить.",
        "🔐 Введите мастер-пароль для сохранения записи.",
    ];
    for (t, r) in texts.iter().zip(replies.iter()) {
        let d = decide(t, Some(pending));
        assert_eq!(said(&d.action), *r);
        pending = match d.pending {
            PendingChange::Replace(p) => p,
            other => panic!("{:?}", other),
        };
    }
    let d = decide("master", Some(pending));
    assert!(matches!(d.pending, PendingChange::Clear));
    assert!(d.delete_message);
    match d.action {
        BotAction::Call(VaultCall::AddEntry { input, master }) => {
            assert_eq!(input.service, "google");
            assert_eq!(input.login, "me");
            assert_eq!(input.password, "pw 1");
            assert_eq!(input.note, None);
            assert_eq!(master, "master");
        },
        other => panic!("{:?}", other),
    }
}

#[test]
fn a_command_in_a_dialog_keeps_it() {
    let d = decide("/list", Some(PendingAction::AddAwaitLogin { service: "g".to_string() }));
    assert!(matches!(d.pending, PendingChange::Keep));
    assert!(matches!(d.action, BotAction::Call(VaultCall::ListServices)));
}

#[test]
fn get_and_delete() {
    let d = decide("/get google", None);
    assert!(matches!(&d.pending, PendingChange::Replace(PendingAction::GetAwaitMaster { service }) if service == "google"));
    assert_eq!(said(&d.action), "🔐 Введите мастер-пароль для расшифровки записи.");
    let d = decide("/get", None);
    assert_eq!(said(&d.action), "👉 Пример использования: /get google");
    let d = decide("m", Some(PendingAction::GetAwaitMaster { service: "google".to_string() }));
    assert!(matches!(&d.action, BotAction::Call(VaultCall::GetEntry { service, master }) if service == "google" && master == "m"));
    assert!(d.delete_message);
    let d = decide("/delete google", None);
    assert!(matches!(&d.action, BotAction::Call(VaultCall::DeleteEntry { service }) if service == "google"));
    let d = decide("/delete", None);
    assert_eq!(said(&d.action), "👉 Пример использования: /delete google");
}

#[test]
fn gen_arguments_and_defaults() {
    assert!(matches!(decide("/gen 16 false", None).action, BotAction::Generate { length: 16, with_special: false }));
    assert!(matches!(decide("/gen", None).action, BotAction::Generate { length: 20, with_special: true }));
    assert!(matches!(decide("/gen x no", None).action, BotAction::Generate { length: 20, with_special: true }));
    assert!(matches!(decide("/gen +9", None).action, BotAction::Generate { length: 9, with_special: true }));
}

#[test]
fn replies_to_operations() {
    let set = VaultCall::SetMaster { master: "m".to_string() }.kind();
    assert_eq!(set, CallKind::SetMaster);
    assert_eq!(call_reply(set, Ok(VaultOutcome::Done)), "🔒 Мастер-пароль установлен/обновлён.");
    let add = VaultCall::AddEntry {
        input: PlainEntryInput { service: "g".into(), login: "l".into(), password: "p".into(), note: None },
        master: "m".to_string(),
    }
    .kind();
    assert_eq!(call_reply(add, Ok(VaultOutcome::Done)), "✅ Запись сохранена.");
    let del = VaultCall::DeleteEntry { service: "g".to_string() }.kind();
    assert_eq!(call_reply(del, Ok(VaultOutcome::Flag(true))), "✅ Запись удалена.");
    assert_eq!(call_reply(del, Ok(VaultOutcome::Flag(false))), "🤷‍♂️ Запись не найдена.");
    let list = VaultCall::ListServices.kind();
    assert_eq!(call_reply(list, Ok(VaultOutcome::Services(vec![]))), "👾 Список пуст.");
    assert_eq!(
        call_reply(list, Ok(VaultOutcome::Services(vec!["a".into(), "b".into()]))),
        "📋 Сервисы:\n- a\n- b"
    );
    let get = VaultCall::GetEntry { service: "g".into(), master: "m".into() }.kind();
    let view = PlainEntryView { service: "g".into(), login: "l".into(), password: "p".into(), note: Some("n".into()) };
    assert_eq!(call_reply(get, Ok(VaultOutcome::Entry(view))), "service: g\nlogin: l\npassword: p\nnote: n");
    let view = PlainEntryView { service: "g".into(), login: "l".into(), password: "p".into(), note: None };
    assert_eq!(call_reply(get, Ok(VaultOutcome::Entry(view))), "service: g\nlogin: l\npassword: p");
}

#[test]
fn replies_to_errors() {
    let get = VaultCall::GetEntry { service: "g".into(), master: "m".into() }.kind();
    assert_eq!(call_reply(get, Err(AppError::MasterPasswordNotSet)), "🔑 Сначала установите мастер-пароль через /set_master.");
    assert_eq!(call_reply(get, Err(AppError::InvalidMasterPassword)), "❌ Неверный мастер-пароль.");
    assert_eq!(call_reply(get, Err(AppError::EntryNotFound)), "🤷‍♂️ Запись не найдена.");
    assert_eq!(call_reply(get, Err(AppError::Crypto)), "❌ Ошибка: ошибка криптографии");
    assert_eq!(
        call_reply(get, Err(AppError::CurrentMasterPasswordRequired)),
        "❌ Ошибка: для смены мастер-пароля требуется подтверждение текущего"
    );
}

#[test]
fn settings_need_a_token() {
    assert_eq!(Settings::from_values(None, None).err().unwrap(), "BOT_TOKEN environment variable is required");
    let s = Settings::from_values(Some("t".into()), None).ok().unwrap();
    assert_eq!(s.bot_token, "t");
    assert_eq!(s.database_url, "sqlite://rusty_key.db");
    let s = Settings::from_values(Some("t".into()), Some("sqlite://x.db".into())).ok().unwrap();
    assert_eq!(s.database_url, "sqlite://x.db");
}
