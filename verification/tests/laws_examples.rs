use rusty_key::bot::{decide, BotAction, PendingAction, PendingChange};

#[test]
fn a_command_never_drops_the_dialog() {
    for cmd in ["/start", "/help", "/list", "/gen", "/get", "/delete", "/foo", "  /add x"] {
        let d = decide(cmd, Some(PendingAction::AddAwaitLogin { service: "s".to_string() }));
        assert!(!matches!(d.pending, PendingChange::Clear), "{}", cmd);
    }
}

#[test]
fn only_password_messages_are_deleted() {
    let d = decide("x", Some(PendingAction::AddAwaitService));
    assert!(!d.delete_message);
    let d = decide("x", Some(PendingAction::SetMaster));
    assert!(d.delete_message && matches!(d.action, BotAction::Call(_)));
}
