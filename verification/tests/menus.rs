use trusty_tail::screens::plan_alert;
use trusty_tail::keyboards::{
    get_alive_keyboard, get_emergency_info_keyboard, get_main_keyboard, get_menu_keyboard,
    get_owner_menu_keyboard, get_secondary_menu_keyboard, get_start_keyboard, Keyboard,
};
use trusty_tail::screens::{
    alert_contact, alert_owner, alive_question, ask_for_emergency_info, ask_for_invite,
    show_contact_menu, show_emergency_info, show_menu, show_owner_menu, show_start_info,
    unknown_invite, Body, Screen,
};

fn rows(k: &Keyboard) -> Vec<Vec<(String, String)>> {
    k.rows
        .iter()
        .map(|r| r.iter().map(|b| (b.text.clone(), b.data.clone())).collect())
        .collect()
}

fn datas(k: &Keyboard) -> Vec<String> {
    k.rows.iter().flat_map(|r| r.iter().map(|b| b.data.clone())).collect()
}

fn template(s: &Screen) -> (String, Vec<(String, String)>) {
    match &s.body {
        Body::Template { name, vars } => (
            name.clone(),
            vars.iter().map(|v| (v.name.clone(), v.value.clone())).collect(),
        ),
        Body::Text(t) => panic!("plain text {}", t),
    }
}

fn text(s: &Screen) -> String {
    match &s.body {
        Body::Text(t) => t.clone(),
        Body::Template { name, .. } => panic!("template {}", name),
    }
}

#[test]
fn menu_keyboard_when_enabled() {
    let k = get_menu_keyboard(true);
    assert_eq!(
        rows(&k),
        vec![
            vec![("⚠️️ Экстренная информация".to_string(), "/emergency_info".to_string())],
            vec![("✅ Включено".to_string(), "/disable".to_string())],
            vec![("🤝 Принять приглашение".to_string(), "/ask_for_invite".to_string())],
        ]
    );
}

#[test]
fn menu_keyboard_when_disabled() {
    let k = get_menu_keyboard(false);
    assert_eq!(rows(&k)[1], vec![("❌️ Выключено".to_string(), "/enable".to_string())]);
    assert_eq!(k.rows.len(), 3);
}

#[test]
fn owner_menu_keyboard_switch() {
    assert_eq!(
        datas(&get_owner_menu_keyboard(true)),
        vec!["/contact_menu", "/emergency_info", "/disable"]
    );
    let k = get_owner_menu_keyboard(false);
    assert_eq!(rows(&k)[2], vec![("🔕 Включить мониторинг".to_string(), "/enable".to_string())]);
}

#[test]
fn main_keyboard_switch() {
    assert_eq!(datas(&get_main_keyboard(true)), vec!["/get_emergency_text", "/disable"]);
    assert_eq!(datas(&get_main_keyboard(false)), vec!["/get_emergency_text", "/enable"]);
}

#[test]
fn fixed_keyboards() {
    assert_eq!(datas(&get_secondary_menu_keyboard()), vec!["/owner_menu", "/ask_for_invite"]);
    assert_eq!(datas(&get_emergency_info_keyboard()), vec!["/main_menu", "/ask_for_emergency_info"]);
    assert_eq!(datas(&get_start_keyboard()), vec!["/owner_menu", "/contact_menu"]);
    assert_eq!(
        rows(&get_alive_keyboard()),
        vec![vec![("👍 Все хорошо".to_string(), "/mark_alive".to_string())]]
    );
}

#[test]
fn menu_screen() {
    let s = show_menu(true);
    assert_eq!(template(&s), ("menu.html".to_string(), vec![]));
    assert!(s.html);
    assert!(s.link_previews);
    assert_eq!(datas(s.keyboard.as_ref().unwrap())[1], "/disable");
}

#[test]
fn emergency_info_screen_with_and_without_text() {
    let s = show_emergency_info(Some("Call the vet".to_string()));
    assert_eq!(
        template(&s),
        (
            "emergency_info.html".to_string(),
            vec![("emergency_text".to_string(), "Call the vet".to_string())]
        )
    );
    let t = show_emergency_info(None);
    assert_eq!(template(&t), ("emergency_info.html".to_string(), vec![]));
    assert_eq!(datas(t.keyboard.as_ref().unwrap()), vec!["/main_menu", "/ask_for_emergency_info"]);
}

#[test]
fn question_screens() {
    let s = ask_for_emergency_info();
    assert_eq!(template(&s), ("emergency_info_fill.html".to_string(), vec![]));
    assert!(s.keyboard.is_none());
    assert!(s.html);
    let i = ask_for_invite();
    assert_eq!(text(&i), "Пожалуйста отправьте код приглашения следующим сообщением.");
    assert!(!i.html);
    assert_eq!(text(&unknown_invite()), "Неизвестный код приглашения.");
}

#[test]
fn contact_menu_screen_lists_owners() {
    let s = show_contact_menu(&vec!["alice".to_string(), "bob".to_string()]);
    assert_eq!(
        template(&s),
        ("contact_menu.html".to_string(), vec![("primary_owners".to_string(), "@alice\n@bob".to_string())])
    );
    assert!(!s.link_previews);
    let e = show_contact_menu(&vec![]);
    assert_eq!(template(&e).1[0].1, "Нет контактов");
}

#[test]
fn owner_menu_screen_shows_contacts_and_code() {
    let s = show_owner_menu(&vec!["carol".to_string()], Some("Ab12Cd34".to_string()), false);
    assert_eq!(
        template(&s),
        (
            "owner_menu.html".to_string(),
            vec![
                ("secondary_owners".to_string(), "@carol".to_string()),
                ("invite_code".to_string(), "Ab12Cd34".to_string())
            ]
        )
    );
    assert_eq!(datas(s.keyboard.as_ref().unwrap())[2], "/enable");
    let e = show_owner_menu(&vec![], None, true);
    assert_eq!(template(&e).1[1].1, "Ошибка");
}

#[test]
fn start_and_alert_screens() {
    let s = show_start_info();
    assert_eq!(template(&s), ("start.html".to_string(), vec![]));
    assert_eq!(datas(s.keyboard.as_ref().unwrap()), vec!["/owner_menu", "/contact_menu"]);
    let o = alert_owner();
    assert_eq!(template(&o), ("alert_owner.html".to_string(), vec![]));
    assert!(!o.html);
    let q = alive_question();
    assert_eq!(text(&q), "Пожалуйста подтвердите, что с вами все хорошо 🙏");
    assert_eq!(datas(q.keyboard.as_ref().unwrap()), vec!["/mark_alive"]);
}

#[test]
fn alert_contact_screen_names_owner_and_text() {
    let s = alert_contact(Some("dave".to_string()), Some("Dog food in the cupboard".to_string()));
    assert_eq!(
        template(&s),
        (
            "alert_contact.html".to_string(),
            vec![
                ("username".to_string(), "@dave".to_string()),
                ("emergency_text".to_string(), "Dog food in the cupboard".to_string())
            ]
        )
    );
    assert!(s.html);
    let d = alert_contact(None, None);
    assert_eq!(
        template(&d).1,
        vec![
            ("username".to_string(), "Владелец питомца".to_string()),
            ("emergency_text".to_string(), "(Текст на экстренный случай не задан)".to_string())
        ]
    );
}

#[test]
fn alert_plan_switches_monitoring_off() {
    let p = plan_alert(Some("gina".to_string()), None);
    assert!(!p.monitoring_after);
    assert_eq!(template(&p.owner_message), ("alert_owner.html".to_string(), vec![]));
    assert_eq!(
        template(&p.contact_message).1,
        vec![
            ("username".to_string(), "@gina".to_string()),
            ("emergency_text".to_string(), "(Текст на экстренный случай не задан)".to_string())
        ]
    );
}
