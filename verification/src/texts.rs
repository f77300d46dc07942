use vstd::prelude::*;

use crate::types::opt_view;

verus! {

/// How a user is named in a message: `@` and the username.
pub open spec fn mention(username: Seq<char>) -> Seq<char> {
    "@"@ + username
}

/// The mentions of the users, one line each, in the given order.
pub open spec fn mention_lines(usernames: Seq<Seq<char>>) -> Seq<char>
    decreases usernames.len(),
{
    if usernames.len() == 0 {
        Seq::empty()
    } else if usernames.len() == 1 {
        mention(usernames[0])
    } else {
        mention_lines(usernames.drop_last()) + "\n"@ + mention(usernames.last())
    }
}

/// What a menu shows for a list of people: their mentions, one per line,
/// or "Нет контактов" when there is nobody.
pub open spec fn owners_text(usernames: Seq<Seq<char>>) -> Seq<char> {
    if usernames.len() == 0 {
        "Нет контактов"@
    } else {
        mention_lines(usernames)
    }
}

pub open spec fn strings_view(v: Seq<String>) -> Seq<Seq<char>> {
    v.map_values(|s: String| s@)
}

/// The people of a menu (the owners a contact watches over, or the
/// contacts of an owner) as one text.
pub fn format_owners(usernames: &Vec<String>) -> (s: String)
    ensures
        s@ == owners_text(strings_view(usernames@)),
{
    let ghost names = strings_view(usernames@);
    if usernames.len() == 0 {
        return String::from_str("Нет контактов");
    }
    let mut res = String::new();
    let mut i: usize = 0;
    assert(names.take(0) =~= Seq::<Seq<char>>::empty());
    while i < usernames.len()
        invariant
            0 <= i <= usernames.len(),
            names == strings_view(usernames@),
            res@ == mention_lines(names.take(i as int)),
        decreases usernames.len() - i,
    {
        let ghost before = res@;
        if i > 0 {
            res.append("\n");
        }
        res.append("@");
        res.append(usernames[i].as_str());
        proof {
            let next = names.take(i + 1);
            assert(next.drop_last() =~= names.take(i as int));
            assert(next.last() == usernames@[i as int]@);
            if i == 0 {
                assert(before =~= Seq::<char>::empty());
                assert(res@ =~= mention(next[0]));
            } else {
                assert(res@ =~= mention_lines(next.drop_last()) + "\n"@ + mention(next.last()));
            }
        }
        i = i + 1;
    }
    assert(names.take(usernames.len() as int) =~= names);
    res
}

/// The name under which a chat is recorded: its username, or "Unknown"
/// for a user without one.
pub fn profile_username(username: Option<String>) -> (s: String)
    ensures
        s@ == (match opt_view(username) {
            Some(u) => u,
            None => "Unknown"@,
        }),
{
    match username {
        Some(u) => u,
        None => String::from_str("Unknown"),
    }
}

/// How the alert to the contacts names the owner: by mention, or as
/// "Владелец питомца" when the owner has no recorded profile.
pub open spec fn alert_username_text(username: Option<Seq<char>>) -> Seq<char> {
    match username {
        Some(u) => mention(u),
        None => "Владелец питомца"@,
    }
}

/// The owner as the alert to the contacts names them.
pub fn alert_username(username: Option<String>) -> (s: String)
    ensures
        s@ == alert_username_text(opt_view(username)),
{
    match username {
        Some(u) => {
            let mut s = String::from_str("@");
            s.append(u.as_str());
            s
        },
        None => String::from_str("Владелец питомца"),
    }
}

/// The emergency text the alert carries: the owner's, or a note that the
/// owner wrote none.
pub open spec fn alert_emergency_text_of(text: Option<Seq<char>>) -> Seq<char> {
    match text {
        Some(t) => t,
        None => "(Текст на экстренный случай не задан)"@,
    }
}

/// The emergency text for the alert.
pub fn alert_emergency_text(text: Option<String>) -> (s: String)
    ensures
        s@ == alert_emergency_text_of(opt_view(text)),
{
    match text {
        Some(t) => t,
        None => String::from_str("(Текст на экстренный случай не задан)"),
    }
}

/// The invite code the owner menu shows: the code, or "Ошибка" when no code
/// could be had.
pub open spec fn invite_code_text_of(code: Option<Seq<char>>) -> Seq<char> {
    match code {
        Some(c) => c,
        None => "Ошибка"@,
    }
}

/// The invite code as the owner menu shows it.
pub fn invite_code_text(code: Option<String>) -> (s: String)
    ensures
        s@ == invite_code_text_of(opt_view(code)),
{
    match code {
        Some(c) => c,
        None => String::from_str("Ошибка"),
    }
}

/// The characters with the Unicode `White_Space` property.
pub open spec fn is_white_space(c: char) -> bool {
    let n = c as u32;
    ||| (0x09 <= n && n <= 0x0D)
    ||| n == 0x20
    ||| n == 0x85
    ||| n == 0xA0
    ||| n == 0x1680
    ||| (0x2000 <= n && n <= 0x200A)
    ||| n == 0x2028
    ||| n == 0x2029
    ||| n == 0x202F
    ||| n == 0x205F
    ||| n == 0x3000
}

/// The text without its leading white space.
pub open spec fn trim_start(s: Seq<char>) -> Seq<char>
    decreases s.len(),
{
    if s.len() > 0 && is_white_space(s[0]) {
        trim_start(s.drop_first())
    } else {
        s
    }
}

/// The text without its trailing white space.
pub open spec fn trim_end(s: Seq<char>) -> Seq<char>
    decreases s.len(),
{
    if s.len() > 0 && is_white_space(s.last()) {
        trim_end(s.drop_last())
    } else {
        s
    }
}

/// The text without leading and trailing white space.
pub open spec fn trimmed(s: Seq<char>) -> Seq<char> {
    trim_end(trim_start(s))
}

/// The text without leading and trailing white space (`str::trim`, which
/// removes the characters with the Unicode `White_Space` property at both
/// ends, as its documentation says).
#[verifier::external_body]
fn trim(s: &str) -> (r: &str)
    ensures
        r@ == trimmed(s@),
{
    s.trim()
}

/// The text to send to every chat, from what was given: the given text
/// without white space at its ends, or nothing when no other character is
/// left.
pub fn text_for_everyone(input: &str) -> (r: Option<String>)
    ensures
        r is None <==> trimmed(input@).len() == 0,
        r matches Some(t) ==> t@ == trimmed(input@),
{
    let t = trim(input);
    if t.is_empty() {
        None
    } else {
        Some(String::from_str(t))
    }
}

/// The alert carries the owner's stored emergency text unchanged, whatever
/// its length.
pub proof fn lemma_alert_carries_whole_text(text: Seq<char>)
    ensures
        alert_emergency_text_of(Some(text)) == text,
{
}

/// The list of one person is that person's mention, `@` and the username.
pub proof fn lemma_owners_text_of_one(username: Seq<char>)
    ensures
        owners_text(seq![username]) == seq!['@'] + username,
{
    reveal_strlit("@");
    assert(seq![username][0] == username);
}

/// Adding a person to a nonempty list adds exactly one line to its text: a
/// line break and the new mention, after the text of the others, whatever
/// the number of people.
pub proof fn lemma_owners_text_grows_by_one_line(usernames: Seq<Seq<char>>, username: Seq<char>)
    requires
        usernames.len() >= 1,
    ensures
        owners_text(usernames.push(username)) == owners_text(usernames) + seq!['\n'] + seq!['@']
            + username,
{
    reveal_strlit("@");
    reveal_strlit("\n");
    let next = usernames.push(username);
    assert(next.drop_last() =~= usernames);
    assert(next.last() == username);
}

} // verus!
