use trusty_tail::dialogue::{
    settle, DialogueUpdate,
    message_text, plan_callback, plan_message, CallbackCommand, CallbackError, MessageCommand, Step,
};
use trusty_tail::types::BotDialogState;

fn names(steps: &[Step]) -> Vec<String> {
    steps
        .iter()
        .map(|s| match s {
            Step::MarkAlive => "mark_alive".to_string(),
            Step::ShowStartInfo => "start".to_string(),
            Step::ShowMenu => "menu".to_string(),
            Step::SetEmergencyInfo(t) => format!("set_emergency:{}", t),
            Step::ShowEmergencyInfo => "emergency".to_string(),
            Step::AskForEmergencyInfo => "ask_emergency".to_string(),
            Step::AcceptInvite(t) => format!("accept:{}", t),
            Step::AskForInvite => "ask_invite".to_string(),
            Step::SetMonitoring(b) => format!("monitoring:{}", b),
            Step::ConfirmAlive => "confirm_alive".to_string(),
            Step::SendText(t) => format!("text:{}", t),
        })
        .collect()
}

#[test]
fn start_marks_alive_and_shows_start_and_menu() {
    let p = plan_message(Some("/start".to_string()), Some(MessageCommand::Start), None);
    assert_eq!(names(&p.steps), vec!["mark_alive", "start", "menu"]);
    assert_eq!(p.next_state, None);
}

#[test]
fn menu_command_shows_menu() {
    let p = plan_message(Some("/menu".to_string()), Some(MessageCommand::Menu), Some(BotDialogState::Idle));
    assert_eq!(names(&p.steps), vec!["menu"]);
    assert_eq!(p.next_state, None);
}

#[test]
fn im_ok_command_does_nothing() {
    let p = plan_message(Some("/im_ok".to_string()), Some(MessageCommand::ImOk), None);
    assert!(p.steps.is_empty());
    assert_eq!(p.next_state, None);
}

#[test]
fn awaited_emergency_text_is_stored_then_shown() {
    let p = plan_message(
        Some("Feed the cat twice a day".to_string()),
        None,
        Some(BotDialogState::WaitingEmergencyText),
    );
    assert_eq!(names(&p.steps), vec!["set_emergency:Feed the cat twice a day", "emergency"]);
    assert_eq!(p.next_state, None);
}

#[test]
fn awaited_invite_code_is_accepted_then_menu() {
    let p = plan_message(Some("aB3dE5fG".to_string()), None, Some(BotDialogState::WaitingForInvite));
    assert_eq!(names(&p.steps), vec!["accept:aB3dE5fG", "menu"]);
    assert_eq!(p.next_state, None);
}

#[test]
fn idle_text_is_not_found_then_menu() {
    let p = plan_message(Some("hello".to_string()), None, Some(BotDialogState::Idle));
    assert_eq!(names(&p.steps), vec!["text:Команда не найдена", "menu"]);
    assert_eq!(p.next_state, None);
}

#[test]
fn text_without_dialogue_does_nothing() {
    let p = plan_message(Some("hello".to_string()), None, None);
    assert!(p.steps.is_empty());
    assert_eq!(p.next_state, None);
}

#[test]
fn message_without_text_stores_empty_text() {
    let p = plan_message(None, None, Some(BotDialogState::WaitingEmergencyText));
    assert_eq!(names(&p.steps), vec!["set_emergency:", "emergency"]);
    assert_eq!(message_text(None), "");
    assert_eq!(message_text(Some("x".to_string())), "x");
}

#[test]
fn command_wins_over_awaited_text() {
    let p = plan_message(Some("/menu".to_string()), Some(MessageCommand::Menu), Some(BotDialogState::WaitingEmergencyText));
    assert_eq!(names(&p.steps), vec!["menu"]);
    let q = plan_message(Some("/menu".to_string()), Some(MessageCommand::Menu), Some(BotDialogState::WaitingForInvite));
    assert_eq!(names(&q.steps), vec!["menu"]);
}

#[test]
fn callback_without_chat_is_refused() {
    let r = plan_callback(None, Some(5), Some(CallbackCommand::Enable)).unwrap_err();
    assert_eq!(r.error, CallbackError::NoChatId);
    assert!(r.steps.is_empty());
    assert_eq!(r.error.message(), "No chat id");
}

#[test]
fn callback_without_message_is_refused() {
    let r = plan_callback(Some(1), None, Some(CallbackCommand::Enable)).unwrap_err();
    assert_eq!(r.error, CallbackError::NoMessageId);
    assert!(r.steps.is_empty());
    assert_eq!(r.error.message(), "No message id");
}

#[test]
fn callback_chat_is_checked_before_message() {
    let r = plan_callback(None, None, None).unwrap_err();
    assert_eq!(r.error, CallbackError::NoChatId);
}

#[test]
fn unknown_callback_says_so_and_shows_menu() {
    let r = plan_callback(Some(1), Some(2), None).unwrap_err();
    assert_eq!(r.error, CallbackError::UnknownCommand);
    assert_eq!(names(&r.steps), vec!["text:Команда не найдена", "menu"]);
    assert_eq!(r.error.message(), "Unknown command");
}

#[test]
fn each_callback_command_has_its_step_and_state() {
    let cases = [
        (CallbackCommand::Enable, "monitoring:true", None),
        (CallbackCommand::Disable, "monitoring:false", None),
        (CallbackCommand::EmergencyInfo, "emergency", None),
        (CallbackCommand::AskForEmergencyInfo, "ask_emergency", Some(BotDialogState::WaitingEmergencyText)),
        (CallbackCommand::MainMenu, "menu", None),
        (CallbackCommand::AskForInvite, "ask_invite", Some(BotDialogState::WaitingForInvite)),
        (CallbackCommand::MarkAlive, "confirm_alive", None),
    ];
    for (cmd, step, state) in cases {
        let p = plan_callback(Some(10), Some(20), Some(cmd)).unwrap();
        assert_eq!(names(&p.steps), vec![step]);
        assert_eq!(p.next_state, state);
    }
}

#[test]
fn asked_emergency_text_is_stored_next() {
    let asked = plan_callback(Some(10), Some(20), Some(CallbackCommand::AskForEmergencyInfo)).unwrap();
    let p = plan_message(Some("Keys are under the mat".to_string()), None, asked.next_state);
    assert_eq!(names(&p.steps)[0], "set_emergency:Keys are under the mat");
}

#[test]
fn asked_invite_code_is_accepted_next() {
    let asked = plan_callback(Some(10), Some(20), Some(CallbackCommand::AskForInvite)).unwrap();
    let p = plan_message(Some("Zz9Yy8Xx".to_string()), None, asked.next_state);
    assert_eq!(names(&p.steps)[0], "accept:Zz9Yy8Xx");
}

#[test]
fn settled_dialogue_follows_the_plan_unless_a_step_failed() {
    assert_eq!(settle(None, true), DialogueUpdate::End);
    assert_eq!(
        settle(Some(BotDialogState::WaitingForInvite), true),
        DialogueUpdate::WaitFor(BotDialogState::WaitingForInvite)
    );
    assert_eq!(settle(Some(BotDialogState::WaitingEmergencyText), false), DialogueUpdate::Keep);
    assert_eq!(settle(None, false), DialogueUpdate::Keep);
}
