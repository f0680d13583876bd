//! The bookkeeping behind the `org.freedesktop.Notifications` interface:
//! id assignment, which notifications are live, and the events handed from
//! the D-Bus side to the window side.

use vstd::prelude::*;
use std::collections::HashSet;
use crate::text::{chars_of, string_of};

verus! {

broadcast use vstd::std_specs::hash::group_hash_axioms;

/// Events sent from the D-Bus thread to the GTK main thread.
#[derive(Debug, Clone)]
pub enum DbusEvent {
    /// A new notification arrived.
    Show {
        id: u32,
        app_name: String,
        app_icon: String,
        summary: String,
        body: String,
        /// Unique bus name of the client that created the notification; the
        /// `NotificationClosed` signal is directed back to it.
        client: Option<String>,
        /// -1 = use default, 0 = never expire, >0 = milliseconds.
        expire_timeout: i32,
        /// From the `urgency` hint: 0 low, 1 normal, 2 critical.
        urgency: u8,
    },
    /// Close a notification (e.g. via CloseNotification).
    Close { id: u32, reason: u32 },
}

/// Reason code of `NotificationClosed` for a `CloseNotification` call.
pub const CLOSED_BY_CALL: u32 = 3;

/// The urgency a notification gets: its `urgency` hint (a byte), normal (1)
/// when the hint is absent or not a byte.
pub fn urgency_from_hint(hint: Option<u8>) -> (u: u8)
    ensures
        u == match hint {
            Some(b) => b,
            None => 1,
        },
{
    match hint {
        Some(b) => b,
        None => 1,
    }
}

/// Id assignment and liveness tracking.
#[derive(Debug)]
pub struct NotificationIds {
    next_id: u32,
    live: HashSet<u32>,
}

/// The mathematical value of [`NotificationIds`].
pub struct NotificationIdsView {
    /// The id the next notification gets.
    pub next_id: u32,
    /// The ids of the notifications not closed yet.
    pub live: Set<u32>,
}

impl View for NotificationIds {
    type V = NotificationIdsView;

    closed spec fn view(&self) -> NotificationIdsView {
        NotificationIdsView { next_id: self.next_id, live: self.live@ }
    }
}

/// The id after `id`, wrapping to 0 after `u32::MAX` (an atomic counter's
/// `fetch_add`).
pub open spec fn next_after(id: u32) -> u32 {
    if id == u32::MAX {
        0
    } else {
        (id + 1) as u32
    }
}

/// Assigning an id: the arriving notification gets the next id, which
/// becomes live.
pub open spec fn assign_spec(v: NotificationIdsView) -> (NotificationIdsView, u32) {
    (NotificationIdsView { next_id: next_after(v.next_id), live: v.live.insert(v.next_id) }, v.next_id)
}

/// `CloseNotification(id)`: the ids after the call and whether a close
/// event is emitted (exactly when `id` was live).
pub open spec fn close_spec(v: NotificationIdsView, id: u32) -> (NotificationIdsView, bool) {
    (NotificationIdsView { live: v.live.remove(id), ..v }, v.live.contains(id))
}

impl NotificationIds {
    /// Ids start at 1; nothing is live.
    pub fn new() -> (r: Self)
        ensures
            r@.next_id == 1,
            r@.live == Set::<u32>::empty(),
    {
        NotificationIds { next_id: 1, live: HashSet::new() }
    }

    /// Assigns the id of an arriving notification and marks it live.
    pub fn assign(&mut self) -> (id: u32)
        ensures
            (final(self)@, id) == assign_spec(old(self)@),
    {
        let id = self.next_id;
        self.next_id = if id == u32::MAX {
            0
        } else {
            id + 1
        };
        self.live.insert(id);
        id
    }

    /// A `Notify` call: the notification gets the next id, which becomes
    /// live, and the event that shows it carries that id, the arguments as
    /// given and the urgency from the hint.
    pub fn notify(
        &mut self,
        app_name: String,
        app_icon: String,
        summary: String,
        body: String,
        client: Option<String>,
        expire_timeout: i32,
        urgency_hint: Option<u8>,
    ) -> (r: (u32, DbusEvent))
        ensures
            (final(self)@, r.0) == assign_spec(old(self)@),
            r.1 == (DbusEvent::Show {
                id: r.0,
                app_name,
                app_icon,
                summary,
                body,
                client,
                expire_timeout,
                urgency: match urgency_hint {
                    Some(b) => b,
                    None => 1,
                },
            }),
    {
        let id = self.assign();
        let urgency = urgency_from_hint(urgency_hint);
        (id, DbusEvent::Show { id, app_name, app_icon, summary, body, client, expire_timeout, urgency })
    }

    /// Whether `id` names a notification not closed yet.
    pub fn is_live(&self, id: u32) -> (b: bool)
        ensures
            b == self@.live.contains(id),
    {
        self.live.contains(&id)
    }

    /// A `CloseNotification(id)` call: a live id stops being live and yields
    /// the close event (reason 3); an unknown id is ignored.
    pub fn close(&mut self, id: u32) -> (e: Option<DbusEvent>)
        ensures
            old(self)@.live.contains(id) ==> (e matches Some(DbusEvent::Close { id: i, reason: r })
                && i == id && r == CLOSED_BY_CALL),
            (final(self)@, e is Some) == close_spec(old(self)@, id),
    {
        if self.live.contains(&id) {
            self.live.remove(&id);
            Some(DbusEvent::Close { id, reason: CLOSED_BY_CALL })
        } else {
            proof {
                assert(old(self)@.live.remove(id) =~= old(self)@.live);
            }
            None
        }
    }
}

/// Closing a notification twice emits one close event: the second call is
/// ignored and changes nothing.
pub proof fn law_close_twice_ignored(v: NotificationIdsView, id: u32)
    ensures
        !close_spec(close_spec(v, id).0, id).1,
        close_spec(close_spec(v, id).0, id).0 == close_spec(v, id).0,
{
    assert(v.live.remove(id).remove(id) =~= v.live.remove(id));
}

/// Consecutive notifications get consecutive ids (wrapping after
/// `u32::MAX`), and an assigned id is live until it is closed.
pub proof fn law_ids_consecutive_and_live(v: NotificationIdsView)
    ensures
        assign_spec(assign_spec(v).0).1 == next_after(assign_spec(v).1),
        assign_spec(v).0.live.contains(assign_spec(v).1),
        !close_spec(assign_spec(v).0, assign_spec(v).1).0.live.contains(assign_spec(v).1),
{
}

/// The ids state after `k` arrivals, starting from `v`.
pub open spec fn after_arrivals(v: NotificationIdsView, k: nat) -> NotificationIdsView
    decreases k,
{
    if k == 0 {
        v
    } else {
        assign_spec(after_arrivals(v, (k - 1) as nat)).0
    }
}

/// A fresh server numbers notifications 1, 2, 3, ... in arrival order: the
/// `k`-th arrival gets id `k`, and after `k` arrivals (none closed) exactly
/// the ids `1..=k` are live.
pub proof fn law_ids_count_from_one(k: nat)
    requires
        1 <= k <= u32::MAX,
    ensures
        ({
            let fresh = NotificationIdsView { next_id: 1, live: Set::<u32>::empty() };
            &&& assign_spec(after_arrivals(fresh, (k - 1) as nat)).1 == k
            &&& after_arrivals(fresh, k).live == Set::new(|i: u32| 1 <= i <= k)
        }),
{
    let fresh = NotificationIdsView { next_id: 1, live: Set::<u32>::empty() };
    lemma_after_arrivals(fresh, k);
}

proof fn lemma_after_arrivals(fresh: NotificationIdsView, k: nat)
    requires
        fresh == (NotificationIdsView { next_id: 1, live: Set::<u32>::empty() }),
        k <= u32::MAX,
    ensures
        after_arrivals(fresh, k).next_id == k + 1 || (k == u32::MAX && after_arrivals(
            fresh,
            k,
        ).next_id == 0),
        after_arrivals(fresh, k).live == Set::new(|i: u32| 1 <= i <= k),
    decreases k,
{
    if k == 0 {
        assert(Set::new(|i: u32| 1 <= i <= 0) =~= Set::<u32>::empty());
    } else {
        lemma_after_arrivals(fresh, (k - 1) as nat);
        let prev = after_arrivals(fresh, (k - 1) as nat);
        assert(prev.next_id == k);
        assert(after_arrivals(fresh, k).live =~= Set::new(|i: u32| 1 <= i <= k));
    }
}

/// The capabilities the server announces.
pub fn capabilities() -> (r: Vec<String>)
    ensures
        r@.len() == 1,
        r@[0]@ == "body"@,
{
    let mut r: Vec<String> = Vec::new();
    r.push(string_of(&chars_of("body")));
    r
}

/// `GetServerInformation`: name, vendor, version, spec version.
pub fn server_information(version: &str) -> (r: (String, String, String, String))
    ensures
        r.0@ == "dunst-in-gtk"@,
        r.1@ == "dunst-in-gtk"@,
        r.2@ == version@,
        r.3@ == "1.2"@,
{
    (
        string_of(&chars_of("dunst-in-gtk")),
        string_of(&chars_of("dunst-in-gtk")),
        string_of(&chars_of(version)),
        string_of(&chars_of("1.2")),
    )
}

} // verus!
