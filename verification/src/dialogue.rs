use vstd::prelude::*;

use crate::keyboards::{emergency_info_keyboard, alive_keyboard, main_keyboard, menu_keyboard, owner_menu_keyboard};
use crate::types::{opt_view, BotDialogState};

verus! {

/// The commands a user types: `/start`, `/menu`, `/im_ok`.
#[derive(Debug, Clone, Copy, PartialEq, Eq, Structural)]
pub enum MessageCommand {
    Start,
    Menu,
    ImOk,
}

/// The commands the buttons send back: `/enable`, `/disable`, `/emergency_info`,
/// `/ask_for_emergency_info`, `/main_menu`, `/ask_for_invite`, `/mark_alive`.
#[derive(Debug, Clone, Copy, PartialEq, Eq, Structural)]
pub enum CallbackCommand {
    Enable,
    Disable,
    EmergencyInfo,
    AskForEmergencyInfo,
    MainMenu,
    AskForInvite,
    MarkAlive,
}

/// The data a button sends back to give the command `cmd`.
pub open spec fn callback_data(cmd: CallbackCommand) -> Seq<char> {
    match cmd {
        CallbackCommand::Enable => "/enable"@,
        CallbackCommand::Disable => "/disable"@,
        CallbackCommand::EmergencyInfo => "/emergency_info"@,
        CallbackCommand::AskForEmergencyInfo => "/ask_for_emergency_info"@,
        CallbackCommand::MainMenu => "/main_menu"@,
        CallbackCommand::AskForInvite => "/ask_for_invite"@,
        CallbackCommand::MarkAlive => "/mark_alive"@,
    }
}

/// One piece of work the bot does for a chat while it answers an update.
#[derive(Debug)]
pub enum Step {
    /// Record that the owner is well, now.
    MarkAlive,
    /// Record that the owner is well, now, and send the welcome message with
    /// its keyboard.
    ShowStartInfo,
    /// Send the main menu.
    ShowMenu,
    /// Store the text as the chat's emergency text.
    SetEmergencyInfo(String),
    /// Send the stored emergency text with its keyboard.
    ShowEmergencyInfo,
    /// Ask the owner to write the emergency text.
    AskForEmergencyInfo,
    /// Take the text as an invite code and join its owner as a contact.
    AcceptInvite(String),
    /// Ask for an invite code.
    AskForInvite,
    /// Switch monitoring on or off and put the short keyboard, which shows
    /// the new state, under the message whose button was pressed.
    SetMonitoring(bool),
    /// Record that the owner is well and remove the question it answers.
    ConfirmAlive,
    /// Send this text.
    SendText(String),
}

/// A step as the contracts see it.
pub enum StepView {
    MarkAlive,
    ShowStartInfo,
    ShowMenu,
    SetEmergencyInfo(Seq<char>),
    ShowEmergencyInfo,
    AskForEmergencyInfo,
    AcceptInvite(Seq<char>),
    AskForInvite,
    SetMonitoring(bool),
    ConfirmAlive,
    SendText(Seq<char>),
}

impl View for Step {
    type V = StepView;

    open spec fn view(&self) -> StepView {
        match self {
            Step::MarkAlive => StepView::MarkAlive,
            Step::ShowStartInfo => StepView::ShowStartInfo,
            Step::ShowMenu => StepView::ShowMenu,
            Step::SetEmergencyInfo(t) => StepView::SetEmergencyInfo(t@),
            Step::ShowEmergencyInfo => StepView::ShowEmergencyInfo,
            Step::AskForEmergencyInfo => StepView::AskForEmergencyInfo,
            Step::AcceptInvite(t) => StepView::AcceptInvite(t@),
            Step::AskForInvite => StepView::AskForInvite,
            Step::SetMonitoring(b) => StepView::SetMonitoring(*b),
            Step::ConfirmAlive => StepView::ConfirmAlive,
            Step::SendText(t) => StepView::SendText(t@),
        }
    }
}

/// What the bot does for an update: the steps, in order, and then where the
/// dialogue goes (`None`: it ends, and the chat is back to idle).
/// A step that fails stops the rest, and the dialogue is then left as it was
/// (see `settle`).
#[derive(Debug)]
pub struct Plan {
    pub steps: Vec<Step>,
    pub next_state: Option<BotDialogState>,
}

pub open spec fn steps_view(steps: Seq<Step>) -> Seq<StepView> {
    steps.map_values(|s: Step| s@)
}

impl View for Plan {
    type V = (Seq<StepView>, Option<BotDialogState>);

    open spec fn view(&self) -> (Seq<StepView>, Option<BotDialogState>) {
        (steps_view(self.steps@), self.next_state)
    }
}

/// What the bot answers to text it cannot place.
pub open spec fn not_found_text() -> Seq<char> {
    "Команда не найдена"@
}

/// The text of a message, or nothing for a message without text.
pub open spec fn text_or_empty(text: Option<Seq<char>>) -> Seq<char> {
    match text {
        Some(t) => t,
        None => ""@,
    }
}

/// The steps for a message: a command is answered first, whatever the
/// dialogue waits for; otherwise the text goes where the dialogue waits for it.
pub open spec fn message_steps(
    text: Seq<char>,
    command: Option<MessageCommand>,
    state: Option<BotDialogState>,
) -> Seq<StepView> {
    match command {
        Some(MessageCommand::Start) => seq![StepView::MarkAlive, StepView::ShowStartInfo, StepView::ShowMenu],
        Some(MessageCommand::Menu) => seq![StepView::ShowMenu],
        Some(MessageCommand::ImOk) => seq![],
        None => match state {
            Some(BotDialogState::WaitingEmergencyText) => seq![StepView::SetEmergencyInfo(text), StepView::ShowEmergencyInfo],
            Some(BotDialogState::WaitingForInvite) => seq![StepView::AcceptInvite(text), StepView::ShowMenu],
            Some(BotDialogState::Idle) => seq![StepView::SendText(not_found_text()), StepView::ShowMenu],
            None => seq![],
        },
    }
}

/// The whole answer to a message: every message ends the dialogue.
pub open spec fn message_plan(
    text: Seq<char>,
    command: Option<MessageCommand>,
    state: Option<BotDialogState>,
) -> (Seq<StepView>, Option<BotDialogState>) {
    (message_steps(text, command, state), None)
}

/// The text of a message, or an empty text where the message has none.
pub fn message_text(text: Option<String>) -> (t: String)
    ensures
        t@ == text_or_empty(opt_view(text)),
{
    match text {
        Some(t) => t,
        None => String::from_str(""),
    }
}

/// Decides what to do with a message: `text` is its text, `command` the
/// command the text is (if it is one), `state` where the dialogue of the chat
/// stands (`None` if the chat has no dialogue).
pub fn plan_message(
    text: Option<String>,
    command: Option<MessageCommand>,
    state: Option<BotDialogState>,
) -> (p: Plan)
    ensures
        p@ == message_plan(text_or_empty(opt_view(text)), command, state),
{
    let ghost t = text_or_empty(opt_view(text));
    let mut steps: Vec<Step> = Vec::new();
    match command {
        Some(MessageCommand::Start) => {
            steps.push(Step::MarkAlive);
            steps.push(Step::ShowStartInfo);
            steps.push(Step::ShowMenu);
        },
        Some(MessageCommand::Menu) => {
            steps.push(Step::ShowMenu);
        },
        Some(MessageCommand::ImOk) => {},
        None => match state {
            Some(BotDialogState::WaitingEmergencyText) => {
                steps.push(Step::SetEmergencyInfo(message_text(text)));
                steps.push(Step::ShowEmergencyInfo);
            },
            Some(BotDialogState::WaitingForInvite) => {
                steps.push(Step::AcceptInvite(message_text(text)));
                steps.push(Step::ShowMenu);
            },
            Some(BotDialogState::Idle) => {
                steps.push(Step::SendText(String::from_str("Команда не найдена")));
                steps.push(Step::ShowMenu);
            },
            None => {},
        },
    }
    let p = Plan { steps, next_state: None };
    assert(steps_view(p.steps@) =~= message_steps(t, command, state));
    p
}

/// Why the bot refuses a button press.
#[derive(Debug, Clone, Copy, PartialEq, Eq, Structural)]
pub enum CallbackError {
    /// The press comes from no known chat.
    NoChatId,
    /// The press comes from no known message.
    NoMessageId,
    /// The button's data names no command.
    UnknownCommand,
}

impl CallbackError {
    /// The text the refusal is reported with.
    pub fn message(&self) -> (s: String)
        ensures
            s@ == callback_error_text(*self),
    {
        match self {
            CallbackError::NoChatId => String::from_str("No chat id"),
            CallbackError::NoMessageId => String::from_str("No message id"),
            CallbackError::UnknownCommand => String::from_str("Unknown command"),
        }
    }
}

pub open spec fn callback_error_text(e: CallbackError) -> Seq<char> {
    match e {
        CallbackError::NoChatId => "No chat id"@,
        CallbackError::NoMessageId => "No message id"@,
        CallbackError::UnknownCommand => "Unknown command"@,
    }
}

/// A refused button press: the steps the bot still does to answer it, and why
/// it was refused. The dialogue is left as it was.
#[derive(Debug)]
pub struct Rejection {
    pub steps: Vec<Step>,
    pub error: CallbackError,
}

/// The steps for a button that names `cmd`.
pub open spec fn callback_steps(cmd: CallbackCommand) -> Seq<StepView> {
    match cmd {
        CallbackCommand::Enable => seq![StepView::SetMonitoring(true)],
        CallbackCommand::Disable => seq![StepView::SetMonitoring(false)],
        CallbackCommand::EmergencyInfo => seq![StepView::ShowEmergencyInfo],
        CallbackCommand::AskForEmergencyInfo => seq![StepView::AskForEmergencyInfo],
        CallbackCommand::MainMenu => seq![StepView::ShowMenu],
        CallbackCommand::AskForInvite => seq![StepView::AskForInvite],
        CallbackCommand::MarkAlive => seq![StepView::ConfirmAlive],
    }
}

/// Where the dialogue goes after a button that names `cmd`: the two buttons
/// that ask for a text make the dialogue wait for it; every other ends it.
pub open spec fn callback_next_state(cmd: CallbackCommand) -> Option<BotDialogState> {
    match cmd {
        CallbackCommand::AskForEmergencyInfo => Some(BotDialogState::WaitingEmergencyText),
        CallbackCommand::AskForInvite => Some(BotDialogState::WaitingForInvite),
        _ => None,
    }
}

pub open spec fn callback_plan(cmd: CallbackCommand) -> (Seq<StepView>, Option<BotDialogState>) {
    (callback_steps(cmd), callback_next_state(cmd))
}

/// The answer to a button press that names no command: say so, show the menu.
pub open spec fn unknown_command_steps() -> Seq<StepView> {
    seq![StepView::SendText(not_found_text()), StepView::ShowMenu]
}

/// Decides what to do with a button press: `chat_id` and `message_id` say
/// where the pressed button is (if known), `command` the command its data
/// names (if any). The chat is looked at before the message, the message
/// before the command.
pub fn plan_callback(
    chat_id: Option<i64>,
    message_id: Option<i32>,
    command: Option<CallbackCommand>,
) -> (r: Result<Plan, Rejection>)
    ensures
        chat_id is None ==> (r matches Err(j) && j.error == CallbackError::NoChatId
            && j.steps@.len() == 0),
        chat_id is Some && message_id is None ==> (r matches Err(j) && j.error
            == CallbackError::NoMessageId && j.steps@.len() == 0),
        chat_id is Some && message_id is Some && command is None ==> (r matches Err(j) && j.error
            == CallbackError::UnknownCommand && steps_view(j.steps@) == unknown_command_steps()),
        r is Ok <==> (chat_id is Some && message_id is Some && command is Some),
        r matches Ok(p) ==> p@ == callback_plan(command->0),
{
    if chat_id.is_none() {
        return Err(Rejection { steps: Vec::new(), error: CallbackError::NoChatId });
    }
    if message_id.is_none() {
        return Err(Rejection { steps: Vec::new(), error: CallbackError::NoMessageId });
    }
    let cmd = match command {
        Some(c) => c,
        None => {
            let mut steps: Vec<Step> = Vec::new();
            steps.push(Step::SendText(String::from_str("Команда не найдена")));
            steps.push(Step::ShowMenu);
            assert(steps_view(steps@) =~= unknown_command_steps());
            return Err(Rejection { steps, error: CallbackError::UnknownCommand });
        },
    };
    let mut steps: Vec<Step> = Vec::new();
    let next_state = match cmd {
        CallbackCommand::Enable => {
            steps.push(Step::SetMonitoring(true));
            None
        },
        CallbackCommand::Disable => {
            steps.push(Step::SetMonitoring(false));
            None
        },
        CallbackCommand::EmergencyInfo => {
            steps.push(Step::ShowEmergencyInfo);
            None
        },
        CallbackCommand::AskForEmergencyInfo => {
            steps.push(Step::AskForEmergencyInfo);
            Some(BotDialogState::WaitingEmergencyText)
        },
        CallbackCommand::MainMenu => {
            steps.push(Step::ShowMenu);
            None
        },
        CallbackCommand::AskForInvite => {
            steps.push(Step::AskForInvite);
            Some(BotDialogState::WaitingForInvite)
        },
        CallbackCommand::MarkAlive => {
            steps.push(Step::ConfirmAlive);
            None
        },
    };
    let p = Plan { steps, next_state };
    assert(steps_view(p.steps@) =~= callback_steps(cmd));
    Ok(p)
}

/// How the dialogue of a chat changes once the bot answered an update.
#[derive(Debug, PartialEq, Eq, Structural)]
pub enum DialogueUpdate {
    /// The dialogue stays as it was.
    Keep,
    /// The dialogue now waits as this state says.
    WaitFor(BotDialogState),
    /// The dialogue ends; the chat is back to idle.
    End,
}

/// The change of the dialogue after the steps of a plan were performed in
/// order: where a step failed (and the steps after it were not performed)
/// the dialogue stays as it was; otherwise it goes where the plan says.
pub open spec fn settled(next_state: Option<BotDialogState>, all_steps_done: bool) -> DialogueUpdate {
    if !all_steps_done {
        DialogueUpdate::Keep
    } else {
        match next_state {
            Some(s) => DialogueUpdate::WaitFor(s),
            None => DialogueUpdate::End,
        }
    }
}

/// The change of the dialogue after a plan with `next_state` was performed:
/// `all_steps_done` says whether every step succeeded.
pub fn settle(next_state: Option<BotDialogState>, all_steps_done: bool) -> (u: DialogueUpdate)
    ensures
        u == settled(next_state, all_steps_done),
{
    if !all_steps_done {
        DialogueUpdate::Keep
    } else {
        match next_state {
            Some(s) => DialogueUpdate::WaitFor(s),
            None => DialogueUpdate::End,
        }
    }
}

/// A failure leaves the dialogue alone: whatever the plan, a failed step
/// keeps the dialogue where it was, and a button press that fails after an
/// "ask" keeps the chat from waiting for a text it was not asked for.
pub proof fn lemma_failure_keeps_dialogue(next_state: Option<BotDialogState>)
    ensures
        settled(next_state, false) == DialogueUpdate::Keep,
        settled(callback_plan(CallbackCommand::AskForEmergencyInfo).1, false) == DialogueUpdate::Keep,
        settled(callback_plan(CallbackCommand::AskForEmergencyInfo).1, true)
            == DialogueUpdate::WaitFor(BotDialogState::WaitingEmergencyText),
{
}

/// Every message ends the dialogue: whatever the chat was waiting for, it
/// waits for nothing once a message is answered.
pub proof fn lemma_message_ends_dialogue(
    text: Seq<char>,
    command: Option<MessageCommand>,
    state: Option<BotDialogState>,
)
    ensures
        message_plan(text, command, state).1 == None::<BotDialogState>,
{
}

/// A command is answered the same way whatever the dialogue waits for.
pub proof fn lemma_commands_come_first(
    text: Seq<char>,
    command: MessageCommand,
    state1: Option<BotDialogState>,
    state2: Option<BotDialogState>,
)
    ensures
        message_plan(text, Some(command), state1) == message_plan(text, Some(command), state2),
{
}

/// A message is stored as the emergency text exactly when it is no command
/// and the dialogue waits for that text; then it is stored as written, first.
pub proof fn lemma_emergency_text_only_when_awaited(
    text: Seq<char>,
    command: Option<MessageCommand>,
    state: Option<BotDialogState>,
)
    ensures
        forall|i: int|
            0 <= i < message_steps(text, command, state).len()
                && (#[trigger] message_steps(text, command, state)[i]) is SetEmergencyInfo
                ==> command is None && state == Some(BotDialogState::WaitingEmergencyText)
                && message_steps(text, command, state)[i] == StepView::SetEmergencyInfo(text),
        (command is None && state == Some(BotDialogState::WaitingEmergencyText))
            ==> message_steps(text, command, state)[0] == StepView::SetEmergencyInfo(text),
{
}

/// A message is taken as an invite code exactly when it is no command and
/// the dialogue waits for a code; then it is taken as written, first.
pub proof fn lemma_invite_code_only_when_awaited(
    text: Seq<char>,
    command: Option<MessageCommand>,
    state: Option<BotDialogState>,
)
    ensures
        forall|i: int|
            0 <= i < message_steps(text, command, state).len()
                && (#[trigger] message_steps(text, command, state)[i]) is AcceptInvite
                ==> command is None && state == Some(BotDialogState::WaitingForInvite)
                && message_steps(text, command, state)[i] == StepView::AcceptInvite(text),
        (command is None && state == Some(BotDialogState::WaitingForInvite))
            ==> message_steps(text, command, state)[0] == StepView::AcceptInvite(text),
{
}

/// After the button that asks for the emergency text, the next message that
/// is no command is stored as that text; after the button that asks for an
/// invite code, it is taken as the code.
pub proof fn lemma_asked_text_is_taken(text: Seq<char>)
    ensures
        message_steps(text, None, callback_plan(CallbackCommand::AskForEmergencyInfo).1)[0]
            == StepView::SetEmergencyInfo(text),
        message_steps(text, None, callback_plan(CallbackCommand::AskForInvite).1)[0]
            == StepView::AcceptInvite(text),
{
}

/// Only the two buttons that ask for a text leave the dialogue waiting.
pub proof fn lemma_only_questions_wait(cmd: CallbackCommand)
    ensures
        callback_next_state(cmd) is Some <==> (cmd == CallbackCommand::AskForEmergencyInfo
            || cmd == CallbackCommand::AskForInvite),
{
}

/// The command that switches monitoring to `!enabled`.
pub open spec fn toggle_command(enabled: bool) -> CallbackCommand {
    if enabled { CallbackCommand::Disable } else { CallbackCommand::Enable }
}

/// The switch on each menu offers the opposite of the current state: its
/// button sends the command that switches monitoring to `!enabled`.
pub proof fn lemma_toggle_flips_monitoring(enabled: bool)
    ensures
        menu_keyboard(enabled)[1][0].1 == callback_data(toggle_command(enabled)),
        owner_menu_keyboard(enabled)[2][0].1 == callback_data(toggle_command(enabled)),
        main_keyboard(enabled)[1][0].1 == callback_data(toggle_command(enabled)),
        callback_steps(toggle_command(enabled)) == seq![StepView::SetMonitoring(!enabled)],
{
}

/// Whether `data` is what the button of some command sends.
pub open spec fn names_command(data: Seq<char>) -> bool {
    exists|c: CallbackCommand| callback_data(c) == data
}

/// Whether every button of a keyboard sends the data of some command.
pub open spec fn all_buttons_are_commands(k: Seq<Seq<(Seq<char>, Seq<char>)>>) -> bool {
    forall|i: int, j: int|
        0 <= i < k.len() && 0 <= j < k[i].len() ==> names_command(#[trigger] k[i][j].1)
}

/// Every button of the main menu, of the emergency text and of the daily
/// question leads to a command the bot answers.
pub proof fn lemma_menu_buttons_are_commands(enabled: bool)
    ensures
        all_buttons_are_commands(menu_keyboard(enabled)),
        all_buttons_are_commands(emergency_info_keyboard()),
        all_buttons_are_commands(alive_keyboard()),
{
    assert(callback_data(CallbackCommand::EmergencyInfo) == menu_keyboard(enabled)[0][0].1);
    assert(callback_data(toggle_command(enabled)) == menu_keyboard(enabled)[1][0].1);
    assert(callback_data(CallbackCommand::AskForInvite) == menu_keyboard(enabled)[2][0].1);
    assert(callback_data(CallbackCommand::MainMenu) == emergency_info_keyboard()[0][0].1);
    assert(callback_data(CallbackCommand::AskForEmergencyInfo) == emergency_info_keyboard()[1][0].1);
    assert(callback_data(CallbackCommand::MarkAlive) == alive_keyboard()[0][0].1);
}

/// In an idle dialogue every message that is no command, whatever its text
/// (an unknown command such as `/help` too), is answered with "Команда не
/// найдена" and then the menu, and the dialogue ends.
pub proof fn lemma_idle_text_is_not_found(text: Seq<char>)
    ensures
        message_steps(text, None, Some(BotDialogState::Idle)) == seq![
            StepView::SendText("Команда не найдена"@),
            StepView::ShowMenu,
        ],
        message_plan(text, None, Some(BotDialogState::Idle)).1 == None::<BotDialogState>,
{
}

} // verus!
