use vstd::prelude::*;

verus! {

/// A button under a message: the text it shows and the data it sends back
/// to the bot when pressed.
#[derive(Debug)]
pub struct Button {
    pub text: String,
    pub data: String,
}

/// What a button is: its text and its callback data.
pub type ButtonView = (Seq<char>, Seq<char>);

impl View for Button {
    type V = ButtonView;

    open spec fn view(&self) -> ButtonView {
        (self.text@, self.data@)
    }
}

/// The buttons under a message, row by row.
#[derive(Debug)]
pub struct Keyboard {
    pub rows: Vec<Vec<Button>>,
}

impl View for Keyboard {
    type V = Seq<Seq<ButtonView>>;

    open spec fn view(&self) -> Seq<Seq<ButtonView>> {
        self.rows@.map_values(|row: Vec<Button>| row@.map_values(|b: Button| b@))
    }
}

/// A button that sends `data` back when pressed.
pub fn callback_button(text: &str, data: &str) -> (b: Button)
    ensures
        b@ == (text@, data@),
{
    Button { text: String::from_str(text), data: String::from_str(data) }
}

impl Keyboard {
    /// A keyboard without buttons.
    pub fn new() -> (k: Keyboard)
        ensures
            k@ == Seq::<Seq<ButtonView>>::empty(),
    {
        let k = Keyboard { rows: Vec::new() };
        assert(k@ =~= Seq::<Seq<ButtonView>>::empty());
        k
    }

    /// Adds a row that holds the one button `b`, below the others.
    pub fn push_row(&mut self, b: Button)
        ensures
            final(self)@ == old(self)@.push(seq![b@]),
    {
        let ghost b_view = b@;
        let mut row: Vec<Button> = Vec::new();
        row.push(b);
        assert(row@.map_values(|x: Button| x@) =~= seq![b_view]);
        self.rows.push(row);
        assert(self@ =~~= old(self)@.push(seq![b_view]));
    }
}

/// The button that switches monitoring: it offers to turn monitoring off
/// while it is on, and on while it is off.
pub open spec fn toggle_data(enabled: bool) -> Seq<char> {
    if enabled { "/disable"@ } else { "/enable"@ }
}

/// The main menu: emergency text, the monitoring switch, accepting an invite.
pub open spec fn menu_keyboard(enabled: bool) -> Seq<Seq<ButtonView>> {
    seq![
        seq![("⚠️️ Экстренная информация"@, "/emergency_info"@)],
        seq![if enabled { ("✅ Включено"@, "/disable"@) } else { ("❌️ Выключено"@, "/enable"@) }],
        seq![("🤝 Принять приглашение"@, "/ask_for_invite"@)],
    ]
}

/// The keyboard of the main menu, for a chat whose monitoring is `enabled`.
pub fn get_menu_keyboard(enabled: bool) -> (k: Keyboard)
    ensures
        k@ == menu_keyboard(enabled),
{
    let mut k = Keyboard::new();
    k.push_row(callback_button("⚠️️ Экстренная информация", "/emergency_info"));
    if enabled {
        k.push_row(callback_button("✅ Включено", "/disable"));
    } else {
        k.push_row(callback_button("❌️ Выключено", "/enable"));
    }
    k.push_row(callback_button("🤝 Принять приглашение", "/ask_for_invite"));
    k
}

/// The owner menu: back to the contact menu, emergency text, the monitoring switch.
pub open spec fn owner_menu_keyboard(enabled: bool) -> Seq<Seq<ButtonView>> {
    seq![
        seq![("👈 Меню резервного контакта"@, "/contact_menu"@)],
        seq![("⚠️️ Экстренная информация"@, "/emergency_info"@)],
        seq![if enabled { ("🔔 Выключить мониторинг"@, "/disable"@) } else { ("🔕 Включить мониторинг"@, "/enable"@) }],
    ]
}

/// The keyboard of the owner menu, for a chat whose monitoring is `enabled`.
pub fn get_owner_menu_keyboard(enabled: bool) -> (k: Keyboard)
    ensures
        k@ == owner_menu_keyboard(enabled),
{
    let mut k = Keyboard::new();
    k.push_row(callback_button("👈 Меню резервного контакта", "/contact_menu"));
    k.push_row(callback_button("⚠️️ Экстренная информация", "/emergency_info"));
    if enabled {
        k.push_row(callback_button("🔔 Выключить мониторинг", "/disable"));
    } else {
        k.push_row(callback_button("🔕 Включить мониторинг", "/enable"));
    }
    k
}

/// The short keyboard put under a message once monitoring was switched.
pub open spec fn main_keyboard(enabled: bool) -> Seq<Seq<ButtonView>> {
    seq![
        seq![("✍️ Экстренный текст"@, "/get_emergency_text"@)],
        seq![if enabled { ("✅ Включено"@, "/disable"@) } else { ("❌️ Выключено"@, "/enable"@) }],
    ]
}

/// The short keyboard: emergency text and the monitoring switch.
pub fn get_main_keyboard(enabled: bool) -> (k: Keyboard)
    ensures
        k@ == main_keyboard(enabled),
{
    let mut k = Keyboard::new();
    k.push_row(callback_button("✍️ Экстренный текст", "/get_emergency_text"));
    if enabled {
        k.push_row(callback_button("✅ Включено", "/disable"));
    } else {
        k.push_row(callback_button("❌️ Выключено", "/enable"));
    }
    k
}

/// The menu of an emergency contact: to the owner menu, accepting an invite.
pub open spec fn secondary_menu_keyboard() -> Seq<Seq<ButtonView>> {
    seq![
        seq![("👈 Меню владельца питомца"@, "/owner_menu"@)],
        seq![("🤝 Принять приглашение"@, "/ask_for_invite"@)],
    ]
}

/// The keyboard of the emergency contact's menu.
pub fn get_secondary_menu_keyboard() -> (k: Keyboard)
    ensures
        k@ == secondary_menu_keyboard(),
{
    let mut k = Keyboard::new();
    k.push_row(callback_button("👈 Меню владельца питомца", "/owner_menu"));
    k.push_row(callback_button("🤝 Принять приглашение", "/ask_for_invite"));
    k
}

/// Under the emergency text: back to the main menu, or write a new text.
pub open spec fn emergency_info_keyboard() -> Seq<Seq<ButtonView>> {
    seq![
        seq![("👈 Главное меню"@, "/main_menu"@)],
        seq![("✍️ Задать экстренную информацию"@, "/ask_for_emergency_info"@)],
    ]
}

/// The keyboard under the emergency text.
pub fn get_emergency_info_keyboard() -> (k: Keyboard)
    ensures
        k@ == emergency_info_keyboard(),
{
    let mut k = Keyboard::new();
    k.push_row(callback_button("👈 Главное меню", "/main_menu"));
    k.push_row(callback_button("✍️ Задать экстренную информацию", "/ask_for_emergency_info"));
    k
}

/// The welcome message offers the two menus: for owners and for contacts.
pub open spec fn start_keyboard() -> Seq<Seq<ButtonView>> {
    seq![
        seq![("🐶 Меню для владельцев питомцев"@, "/owner_menu"@)],
        seq![("🛟 Меню для резервных контактов"@, "/contact_menu"@)],
    ]
}

/// The keyboard under the welcome message.
pub fn get_start_keyboard() -> (k: Keyboard)
    ensures
        k@ == start_keyboard(),
{
    let mut k = Keyboard::new();
    k.push_row(callback_button("🐶 Меню для владельцев питомцев", "/owner_menu"));
    k.push_row(callback_button("🛟 Меню для резервных контактов", "/contact_menu"));
    k
}

/// The daily question has one answer: all is well.
pub open spec fn alive_keyboard() -> Seq<Seq<ButtonView>> {
    seq![seq![("👍 Все хорошо"@, "/mark_alive"@)]]
}

/// The keyboard under the daily question.
pub fn get_alive_keyboard() -> (k: Keyboard)
    ensures
        k@ == alive_keyboard(),
{
    let mut k = Keyboard::new();
    k.push_row(callback_button("👍 Все хорошо", "/mark_alive"));
    k
}

} // verus!
