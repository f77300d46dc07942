use vstd::prelude::*;

verus! {

/// Whether monitoring is on for a chat, given the switch stored for it
/// (`None`: nothing stored, or it could not be read): off unless stored on.
pub fn is_enabled(stored: Option<bool>) -> (r: bool)
    ensures
        r == (stored == Some(true)),
{
    match stored {
        Some(enabled) => enabled,
        None => false,
    }
}

/// How long an owner may stay silent before the bot asks: one day, in seconds.
pub const CONFIRM_AFTER_SECS: i64 = 86400;

/// How long an owner may stay silent before the contacts are alerted: two
/// days, in seconds.
pub const ALERT_AFTER_SECS: i64 = 172800;

/// The moment before which a last confirmation is too old to skip the daily
/// question, for the time `now` (seconds since the epoch).
pub fn confirmation_cutoff(now: i64) -> (c: i64)
    requires
        now >= i64::MIN + CONFIRM_AFTER_SECS,
    ensures
        c == now - CONFIRM_AFTER_SECS,
{
    now - CONFIRM_AFTER_SECS
}

/// The moment before which a last confirmation is too old to hold back the
/// alert, for the time `now` (seconds since the epoch).
pub fn alert_cutoff(now: i64) -> (c: i64)
    requires
        now >= i64::MIN + ALERT_AFTER_SECS,
    ensures
        c == now - ALERT_AFTER_SECS,
{
    now - ALERT_AFTER_SECS
}

pub open spec fn overdue(last_alive: Option<i64>, cutoff: int) -> bool {
    match last_alive {
        Some(t) => t < cutoff,
        None => true,
    }
}

/// Whether an owner whose last confirmation is `last_alive` (`None`: never
/// confirmed) is overdue at `cutoff`: never confirmed, or confirmed before it.
pub fn is_overdue(last_alive: Option<i64>, cutoff: i64) -> (r: bool)
    ensures
        r == overdue(last_alive, cutoff as int),
{
    match last_alive {
        Some(t) => t < cutoff,
        None => true,
    }
}

/// An owner whom the contacts are alerted about has been asked first: at
/// any time, being overdue for the alert implies being overdue for the
/// daily question.
pub proof fn lemma_alert_implies_question(last_alive: Option<i64>, now: i64)
    requires
        now >= i64::MIN + ALERT_AFTER_SECS,
    ensures
        overdue(last_alive, now - ALERT_AFTER_SECS) ==> overdue(last_alive, now - CONFIRM_AFTER_SECS),
{
}

/// An owner who confirmed within the last day is neither asked nor alerted.
pub proof fn lemma_recent_confirmation_is_quiet(last_alive: i64, now: i64)
    requires
        now >= i64::MIN + ALERT_AFTER_SECS,
        last_alive >= now - CONFIRM_AFTER_SECS,
    ensures
        !overdue(Some(last_alive), now - CONFIRM_AFTER_SECS),
        !overdue(Some(last_alive), now - ALERT_AFTER_SECS),
{
}

/// An owner is watched over when monitoring is on and at least one
/// emergency contact has joined.
pub open spec fn active_owner(enabled: bool, contacts: nat) -> bool {
    enabled && contacts > 0
}

/// Whether an owner is watched over, given whether monitoring is on and how
/// many emergency contacts the owner has.
pub fn is_active_owner(enabled: bool, contacts: u64) -> (r: bool)
    ensures
        r == active_owner(enabled, contacts as nat),
{
    enabled && contacts > 0
}

/// Where the monitoring switch of an owner stands once the contacts were
/// alerted: off.
pub open spec fn monitoring_after_alert() -> bool {
    false
}

/// Whether an owner is due at `cutoff`: watched over (monitoring stored as
/// on, at least one contact) and silent since before the cutoff (or never
/// heard from).
pub open spec fn due(stored: Option<bool>, contacts: nat, last_alive: Option<i64>, cutoff: int) -> bool {
    active_owner(stored == Some(true), contacts) && overdue(last_alive, cutoff)
}

/// Whether to ask an owner whether all is well, at `now`: the owner is
/// watched over and has not confirmed for a day. `stored` is the stored
/// monitoring switch, `contacts` the number of emergency contacts,
/// `last_alive` the last confirmation (`None`: never).
pub fn should_ask(stored: Option<bool>, contacts: u64, last_alive: Option<i64>, now: i64) -> (r: bool)
    requires
        now >= i64::MIN + CONFIRM_AFTER_SECS,
    ensures
        r == due(stored, contacts as nat, last_alive, now - CONFIRM_AFTER_SECS),
{
    is_active_owner(is_enabled(stored), contacts) && is_overdue(last_alive, confirmation_cutoff(now))
}

/// Whether to alert the contacts of an owner, at `now`: the owner is
/// watched over and has not confirmed for two days.
pub fn should_alert(stored: Option<bool>, contacts: u64, last_alive: Option<i64>, now: i64) -> (r: bool)
    requires
        now >= i64::MIN + ALERT_AFTER_SECS,
    ensures
        r == due(stored, contacts as nat, last_alive, now - ALERT_AFTER_SECS),
{
    is_active_owner(is_enabled(stored), contacts) && is_overdue(last_alive, alert_cutoff(now))
}

/// An owner whose contacts are alerted has been asked first: at any time,
/// being due for the alert implies being due for the daily question.
pub proof fn lemma_alerted_owner_was_asked(
    stored: Option<bool>,
    contacts: nat,
    last_alive: Option<i64>,
    now: i64,
)
    requires
        now >= i64::MIN + ALERT_AFTER_SECS,
    ensures
        due(stored, contacts, last_alive, now - ALERT_AFTER_SECS) ==> due(
            stored,
            contacts,
            last_alive,
            now - CONFIRM_AFTER_SECS,
        ),
{
}

/// Once alerted, an owner is due for nothing more: with monitoring switched
/// off, neither question nor alert comes, whatever the contacts and silence.
pub proof fn lemma_alert_ends_monitoring(contacts: nat, last_alive: Option<i64>, cutoff: int)
    ensures
        !due(Some(monitoring_after_alert()), contacts, last_alive, cutoff),
{
}

/// An owner is watched over exactly when monitoring is on and there is at
/// least one contact, whatever their number: more contacts never stop the
/// watch, and without monitoring or contacts nobody is watched over.
pub proof fn lemma_watched_with_monitoring_and_any_contacts(enabled: bool, contacts: nat)
    ensures
        active_owner(enabled, contacts) <==> (enabled && contacts >= 1),
        active_owner(enabled, contacts) ==> active_owner(enabled, contacts + 1),
        !active_owner(false, contacts),
        !active_owner(enabled, 0),
{
}

/// An owner with monitoring on, any positive number of contacts and no
/// confirmation since the cutoff is due, for both the question and the
/// alert; with monitoring not stored as on, no owner is ever due.
pub proof fn lemma_due_owners(contacts: nat, last_alive: Option<i64>, cutoff: int)
    ensures
        contacts >= 1 && (last_alive is None || last_alive->0 < cutoff) ==> due(
            Some(true),
            contacts,
            last_alive,
            cutoff,
        ),
        !due(Some(false), contacts, last_alive, cutoff),
        !due(None, contacts, last_alive, cutoff),
        !due(Some(true), 0, last_alive, cutoff),
        last_alive matches Some(t) && t >= cutoff ==> !due(Some(true), contacts, last_alive, cutoff),
{
}

} // verus!
