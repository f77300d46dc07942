use vstd::prelude::*;

use crate::types::opt_view;
use crate::keyboards::{
    alive_keyboard, emergency_info_keyboard, get_alive_keyboard, get_emergency_info_keyboard,
    get_menu_keyboard, get_owner_menu_keyboard, get_secondary_menu_keyboard, get_start_keyboard,
    menu_keyboard, owner_menu_keyboard, secondary_menu_keyboard, start_keyboard, ButtonView, Keyboard,
};
use crate::monitoring::monitoring_after_alert;
use crate::texts::{
    alert_emergency_text, alert_emergency_text_of, alert_username, alert_username_text,
    format_owners, invite_code_text, invite_code_text_of, owners_text, strings_view,
};

verus! {

/// A value handed to a message template under a name.
#[derive(Debug)]
pub struct TemplateVar {
    pub name: String,
    pub value: String,
}

impl View for TemplateVar {
    type V = (Seq<char>, Seq<char>);

    open spec fn view(&self) -> (Seq<char>, Seq<char>) {
        (self.name@, self.value@)
    }
}

/// What a message says: a template rendered with values, or a plain text.
#[derive(Debug)]
pub enum Body {
    Template { name: String, vars: Vec<TemplateVar> },
    Text(String),
}

pub enum BodyView {
    Template { name: Seq<char>, vars: Seq<(Seq<char>, Seq<char>)> },
    Text(Seq<char>),
}

impl View for Body {
    type V = BodyView;

    open spec fn view(&self) -> BodyView {
        match self {
            Body::Template { name, vars } => BodyView::Template {
                name: name@,
                vars: vars@.map_values(|v: TemplateVar| v@),
            },
            Body::Text(t) => BodyView::Text(t@),
        }
    }
}

/// A message the bot sends: what it says, the keyboard under it, whether
/// its text is HTML, and whether links in it may show a preview.
#[derive(Debug)]
pub struct Screen {
    pub body: Body,
    pub keyboard: Option<Keyboard>,
    pub html: bool,
    pub link_previews: bool,
}

pub struct ScreenView {
    pub body: BodyView,
    pub keyboard: Option<Seq<Seq<ButtonView>>>,
    pub html: bool,
    pub link_previews: bool,
}

impl View for Screen {
    type V = ScreenView;

    open spec fn view(&self) -> ScreenView {
        ScreenView {
            body: self.body@,
            keyboard: match self.keyboard {
                Some(k) => Some(k@),
                None => None,
            },
            html: self.html,
            link_previews: self.link_previews,
        }
    }
}

pub open spec fn template(name: Seq<char>, vars: Seq<(Seq<char>, Seq<char>)>) -> BodyView {
    BodyView::Template { name, vars }
}

fn var(name: &str, value: String) -> (v: TemplateVar)
    ensures
        v@ == (name@, value@),
{
    TemplateVar { name: String::from_str(name), value }
}

fn template_body(name: &str, vars: Vec<TemplateVar>) -> (b: Body)
    ensures
        b@ == template(name@, vars@.map_values(|v: TemplateVar| v@)),
{
    Body::Template { name: String::from_str(name), vars }
}

fn no_vars() -> (v: Vec<TemplateVar>)
    ensures
        v@.map_values(|x: TemplateVar| x@) == Seq::<(Seq<char>, Seq<char>)>::empty(),
{
    let v: Vec<TemplateVar> = Vec::new();
    assert(v@.map_values(|x: TemplateVar| x@) =~= Seq::<(Seq<char>, Seq<char>)>::empty());
    v
}

fn one_var(name: &str, value: String) -> (v: Vec<TemplateVar>)
    ensures
        v@.map_values(|x: TemplateVar| x@) == seq![(name@, value@)],
{
    let ghost value_view = value@;
    let mut v: Vec<TemplateVar> = Vec::new();
    v.push(var(name, value));
    assert(v@.map_values(|x: TemplateVar| x@) =~= seq![(name@, value_view)]);
    v
}

fn two_vars(name1: &str, value1: String, name2: &str, value2: String) -> (v: Vec<TemplateVar>)
    ensures
        v@.map_values(|x: TemplateVar| x@) == seq![(name1@, value1@), (name2@, value2@)],
{
    let ghost view1 = value1@;
    let ghost view2 = value2@;
    let mut v: Vec<TemplateVar> = Vec::new();
    v.push(var(name1, value1));
    v.push(var(name2, value2));
    assert(v@.map_values(|x: TemplateVar| x@) =~= seq![(name1@, view1), (name2@, view2)]);
    v
}

/// The main menu, for a chat whose monitoring is `enabled`.
pub open spec fn menu_screen(enabled: bool) -> ScreenView {
    ScreenView {
        body: template("menu.html"@, seq![]),
        keyboard: Some(menu_keyboard(enabled)),
        html: true,
        link_previews: true,
    }
}

/// The message that shows the main menu.
pub fn show_menu(enabled: bool) -> (s: Screen)
    ensures
        s@ == menu_screen(enabled),
{
    Screen {
        body: template_body("menu.html", no_vars()),
        keyboard: Some(get_menu_keyboard(enabled)),
        html: true,
        link_previews: true,
    }
}

/// The emergency text of the chat, when there is one, is handed to the
/// template; without one the template gets no value.
pub open spec fn emergency_info_screen(text: Option<Seq<char>>) -> ScreenView {
    ScreenView {
        body: template(
            "emergency_info.html"@,
            match text {
                Some(t) => seq![("emergency_text"@, t)],
                None => seq![],
            },
        ),
        keyboard: Some(emergency_info_keyboard()),
        html: true,
        link_previews: true,
    }
}

/// The message that shows the stored emergency text (`None`: none stored).
pub fn show_emergency_info(text: Option<String>) -> (s: Screen)
    ensures
        s@ == emergency_info_screen(opt_view(text)),
{
    let vars = match text {
        Some(t) => one_var("emergency_text", t),
        None => no_vars(),
    };
    Screen {
        body: template_body("emergency_info.html", vars),
        keyboard: Some(get_emergency_info_keyboard()),
        html: true,
        link_previews: true,
    }
}

pub open spec fn emergency_info_fill_screen() -> ScreenView {
    ScreenView {
        body: template("emergency_info_fill.html"@, seq![]),
        keyboard: None,
        html: true,
        link_previews: true,
    }
}

/// The message that asks the owner for the emergency text.
pub fn ask_for_emergency_info() -> (s: Screen)
    ensures
        s@ == emergency_info_fill_screen(),
{
    Screen {
        body: template_body("emergency_info_fill.html", no_vars()),
        keyboard: None,
        html: true,
        link_previews: true,
    }
}

pub open spec fn invite_prompt_screen() -> ScreenView {
    ScreenView {
        body: BodyView::Text("Пожалуйста отправьте код приглашения следующим сообщением."@),
        keyboard: None,
        html: false,
        link_previews: true,
    }
}

/// The message that asks for an invite code.
pub fn ask_for_invite() -> (s: Screen)
    ensures
        s@ == invite_prompt_screen(),
{
    Screen {
        body: Body::Text(String::from_str("Пожалуйста отправьте код приглашения следующим сообщением.")),
        keyboard: None,
        html: false,
        link_previews: true,
    }
}

pub open spec fn unknown_invite_screen() -> ScreenView {
    ScreenView {
        body: BodyView::Text("Неизвестный код приглашения."@),
        keyboard: None,
        html: false,
        link_previews: true,
    }
}

/// The answer to an invite code that belongs to no owner.
pub fn unknown_invite() -> (s: Screen)
    ensures
        s@ == unknown_invite_screen(),
{
    Screen {
        body: Body::Text(String::from_str("Неизвестный код приглашения.")),
        keyboard: None,
        html: false,
        link_previews: true,
    }
}

/// The menu of an emergency contact: the owners it watches over.
pub open spec fn contact_menu_screen(primary_owners: Seq<Seq<char>>) -> ScreenView {
    ScreenView {
        body: template("contact_menu.html"@, seq![("primary_owners"@, owners_text(primary_owners))]),
        keyboard: Some(secondary_menu_keyboard()),
        html: true,
        link_previews: false,
    }
}

/// The message that shows the contact menu, given the usernames of the
/// owners the chat watches over.
pub fn show_contact_menu(primary_owners: &Vec<String>) -> (s: Screen)
    ensures
        s@ == contact_menu_screen(strings_view(primary_owners@)),
{
    Screen {
        body: template_body("contact_menu.html", one_var("primary_owners", format_owners(primary_owners))),
        keyboard: Some(get_secondary_menu_keyboard()),
        html: true,
        link_previews: false,
    }
}

/// The menu of an owner: its contacts and the code that invites new ones.
pub open spec fn owner_menu_screen(
    secondary_owners: Seq<Seq<char>>,
    invite_code: Option<Seq<char>>,
    enabled: bool,
) -> ScreenView {
    ScreenView {
        body: template(
            "owner_menu.html"@,
            seq![
                ("secondary_owners"@, owners_text(secondary_owners)),
                ("invite_code"@, invite_code_text_of(invite_code)),
            ],
        ),
        keyboard: Some(owner_menu_keyboard(enabled)),
        html: true,
        link_previews: false,
    }
}

/// The message that shows the owner menu, given the usernames of the
/// owner's contacts, the owner's invite code (if one could be had) and
/// whether monitoring is on.
pub fn show_owner_menu(secondary_owners: &Vec<String>, invite_code: Option<String>, enabled: bool) -> (s: Screen)
    ensures
        s@ == owner_menu_screen(strings_view(secondary_owners@), opt_view(invite_code), enabled),
{
    Screen {
        body: template_body(
            "owner_menu.html",
            two_vars(
                "secondary_owners",
                format_owners(secondary_owners),
                "invite_code",
                invite_code_text(invite_code),
            ),
        ),
        keyboard: Some(get_owner_menu_keyboard(enabled)),
        html: true,
        link_previews: false,
    }
}

pub open spec fn start_screen() -> ScreenView {
    ScreenView {
        body: template("start.html"@, seq![]),
        keyboard: Some(start_keyboard()),
        html: true,
        link_previews: true,
    }
}

/// The welcome message.
pub fn show_start_info() -> (s: Screen)
    ensures
        s@ == start_screen(),
{
    Screen {
        body: template_body("start.html", no_vars()),
        keyboard: Some(get_start_keyboard()),
        html: true,
        link_previews: true,
    }
}

pub open spec fn alive_question_screen() -> ScreenView {
    ScreenView {
        body: BodyView::Text("Пожалуйста подтвердите, что с вами все хорошо 🙏"@),
        keyboard: Some(alive_keyboard()),
        html: false,
        link_previews: true,
    }
}

/// The daily question to an owner whose last confirmation is overdue.
pub fn alive_question() -> (s: Screen)
    ensures
        s@ == alive_question_screen(),
{
    Screen {
        body: Body::Text(String::from_str("Пожалуйста подтвердите, что с вами все хорошо 🙏")),
        keyboard: Some(get_alive_keyboard()),
        html: false,
        link_previews: true,
    }
}

pub open spec fn alert_owner_screen() -> ScreenView {
    ScreenView {
        body: template("alert_owner.html"@, seq![]),
        keyboard: None,
        html: false,
        link_previews: true,
    }
}

/// The message to the owner once the contacts are alerted.
pub fn alert_owner() -> (s: Screen)
    ensures
        s@ == alert_owner_screen(),
{
    Screen {
        body: template_body("alert_owner.html", no_vars()),
        keyboard: None,
        html: false,
        link_previews: true,
    }
}

/// The alert to the contacts: who is missing and what they left to know.
pub open spec fn alert_contact_screen(username: Option<Seq<char>>, emergency_text: Option<Seq<char>>) -> ScreenView {
    ScreenView {
        body: template(
            "alert_contact.html"@,
            seq![
                ("username"@, alert_username_text(username)),
                ("emergency_text"@, alert_emergency_text_of(emergency_text)),
            ],
        ),
        keyboard: None,
        html: true,
        link_previews: true,
    }
}

/// The alert to the contacts, given the owner's username and emergency text
/// as stored (each `None` where none is stored).
pub fn alert_contact(username: Option<String>, emergency_text: Option<String>) -> (s: Screen)
    ensures
        s@ == alert_contact_screen(opt_view(username), opt_view(emergency_text)),
{
    Screen {
        body: template_body(
            "alert_contact.html",
            two_vars(
                "username",
                alert_username(username),
                "emergency_text",
                alert_emergency_text(emergency_text),
            ),
        ),
        keyboard: None,
        html: true,
        link_previews: true,
    }
}

/// What the bot does when an owner has been silent too long: tell the owner,
/// set monitoring to `monitoring_after`, and send the alert to every contact.
#[derive(Debug)]
pub struct AlertPlan {
    pub owner_message: Screen,
    pub monitoring_after: bool,
    pub contact_message: Screen,
}

/// The alert about an owner, given the owner's username and emergency text
/// as stored (each `None` where none is stored). Monitoring is switched off.
pub fn plan_alert(username: Option<String>, emergency_text: Option<String>) -> (p: AlertPlan)
    ensures
        p.owner_message@ == alert_owner_screen(),
        p.monitoring_after == monitoring_after_alert(),
        p.contact_message@ == alert_contact_screen(opt_view(username), opt_view(emergency_text)),
{
    AlertPlan {
        owner_message: alert_owner(),
        monitoring_after: false,
        contact_message: alert_contact(username, emergency_text),
    }
}

/// The emergency text screen shows the whole stored text, unchanged, under
/// the name `emergency_text`, whatever its length.
pub proof fn lemma_emergency_info_shows_whole_text(text: Seq<char>)
    ensures
        emergency_info_screen(Some(text)).body == (BodyView::Template {
            name: "emergency_info.html"@,
            vars: seq![("emergency_text"@, text)],
        }),
{
}

/// The alert to the contacts carries the owner's mention and the whole
/// stored emergency text, unchanged, whatever its length.
pub proof fn lemma_alert_carries_owner_and_whole_text(username: Seq<char>, text: Seq<char>)
    ensures
        alert_contact_screen(Some(username), Some(text)).body == (BodyView::Template {
            name: "alert_contact.html"@,
            vars: seq![("username"@, "@"@ + username), ("emergency_text"@, text)],
        }),
{
}

} // verus!
