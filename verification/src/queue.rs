//! Notification queue logic: which notifications display now and which
//! wait, honoring `notification_limit` and do-not-disturb.
//!
//! - Notifications arrive in order; up to `limit` display at once (0 =
//!   unlimited). Excess notifications wait in a FIFO queue.
//! - While do-not-disturb is active, arrivals go straight to the queue.
//! - When a displayed notification closes, the oldest waiting notification
//!   is promoted (and the daemon displays it).
//! - `replaces_id` updates an existing waiting notification in place.

use vstd::prelude::*;
use std::collections::VecDeque;

verus! {

/// Everything needed to (re)create a notification window later.
#[derive(Debug)]
pub struct Pending {
    pub id: u32,
    pub app_name: String,
    pub app_icon: String,
    pub summary: String,
    pub body: String,
    pub actions: Vec<(String, String)>,
    pub client: Option<String>,
    pub expire_timeout: i32,
    pub urgency: u8,
}

/// The mathematical value of a [`Pending`].
pub struct PendingView {
    pub id: u32,
    pub app_name: Seq<char>,
    pub app_icon: Seq<char>,
    pub summary: Seq<char>,
    pub body: Seq<char>,
    pub actions: Seq<(Seq<char>, Seq<char>)>,
    pub client: Option<Seq<char>>,
    pub expire_timeout: i32,
    pub urgency: u8,
}

pub open spec fn pair_views(v: Seq<(String, String)>) -> Seq<(Seq<char>, Seq<char>)> {
    v.map_values(|p: (String, String)| (p.0@, p.1@))
}

pub open spec fn opt_view(o: Option<String>) -> Option<Seq<char>> {
    match o {
        Some(s) => Some(s@),
        None => None,
    }
}

impl View for Pending {
    type V = PendingView;

    open spec fn view(&self) -> PendingView {
        PendingView {
            id: self.id,
            app_name: self.app_name@,
            app_icon: self.app_icon@,
            summary: self.summary@,
            body: self.body@,
            actions: pair_views(self.actions@),
            client: opt_view(self.client),
            expire_timeout: self.expire_timeout,
            urgency: self.urgency,
        }
    }
}

fn copy_actions(v: &Vec<(String, String)>) -> (r: Vec<(String, String)>)
    ensures
        pair_views(r@) == pair_views(v@),
{
    let mut r: Vec<(String, String)> = Vec::new();
    let mut i: usize = 0;
    while i < v.len()
        invariant
            i <= v.len(),
            pair_views(r@) == pair_views(v@).subrange(0, i as int),
        decreases v.len() - i,
    {
        let a = v[i].0.clone();
        let b = v[i].1.clone();
        let ghost prev = pair_views(r@);
        r.push((a, b));
        assert(pair_views(r@) =~= prev.push((v@[i as int].0@, v@[i as int].1@)));
        assert(pair_views(v@).subrange(0, i + 1) =~= pair_views(v@).subrange(0, i as int).push(
            (v@[i as int].0@, v@[i as int].1@),
        ));
        i = i + 1;
    }
    assert(pair_views(v@).subrange(0, v.len() as int) =~= pair_views(v@));
    r
}

impl Clone for Pending {
    fn clone(&self) -> (c: Self)
        ensures
            c@ == self@,
    {
        let client = match &self.client {
            Some(s) => Some(s.clone()),
            None => None,
        };
        Pending {
            id: self.id,
            app_name: self.app_name.clone(),
            app_icon: self.app_icon.clone(),
            summary: self.summary.clone(),
            body: self.body.clone(),
            actions: copy_actions(&self.actions),
            client,
            expire_timeout: self.expire_timeout,
            urgency: self.urgency,
        }
    }
}

/// What the daemon should do with an arriving notification.
#[derive(Debug, Clone, Copy, PartialEq, Eq, Structural)]
pub enum NotifyAction {
    /// Display the notification immediately.
    ShowNow,
    /// Queue it (limit reached or do-not-disturb active).
    Queue,
}

/// The queue's bookkeeping.
#[derive(Debug)]
pub struct QueueState {
    /// Max simultaneously displayed notifications; 0 = unlimited.
    limit: usize,
    /// How many are currently displayed (tracked by the daemon).
    displayed: usize,
    /// Do-not-disturb: while active, everything queues.
    paused: bool,
    waiting: VecDeque<Pending>,
}

/// The mathematical value of a [`QueueState`].
pub struct QueueView {
    pub limit: usize,
    pub displayed: usize,
    pub paused: bool,
    pub waiting: Seq<PendingView>,
}

pub open spec fn pending_views(s: Seq<Pending>) -> Seq<PendingView> {
    s.map_values(|p: Pending| p@)
}

impl View for QueueState {
    type V = QueueView;

    closed spec fn view(&self) -> QueueView {
        QueueView {
            limit: self.limit,
            displayed: self.displayed,
            paused: self.paused,
            waiting: pending_views(self.waiting@),
        }
    }
}

/// Whether there is room to display one more notification.
pub open spec fn has_room(limit: usize, displayed: usize) -> bool {
    limit == 0 || displayed < limit
}

/// An arrival must wait: do-not-disturb is on or the limit is reached.
pub open spec fn must_queue(q: QueueView) -> bool {
    q.paused || !has_room(q.limit, q.displayed)
}

/// The queue after a notification arrives, and what to do with it.
pub open spec fn notify_spec(q: QueueView, p: PendingView) -> (QueueView, NotifyAction) {
    if must_queue(q) {
        (QueueView { waiting: q.waiting.push(p), ..q }, NotifyAction::Queue)
    } else {
        (QueueView { displayed: (q.displayed + 1) as usize, ..q }, NotifyAction::ShowNow)
    }
}

/// Position of the first waiting notification with id `id`.
pub open spec fn find_id(s: Seq<PendingView>, id: u32) -> Option<int>
    decreases s.len(),
{
    if s.len() == 0 {
        None
    } else if s[0].id == id {
        Some(0)
    } else {
        match find_id(s.drop_first(), id) {
            Some(i) => Some(i + 1),
            None => None,
        }
    }
}

/// The queue after a displayed notification closed, and the notification
/// to display in its place: the oldest waiting one, unless do-not-disturb
/// is on or there is still no room.
pub open spec fn display_closed_spec(q: QueueView) -> (QueueView, Option<PendingView>) {
    let d = if q.displayed == 0 {
        0usize
    } else {
        (q.displayed - 1) as usize
    };
    if !q.paused && has_room(q.limit, d) && q.waiting.len() > 0 {
        (QueueView { displayed: d, waiting: q.waiting.drop_first(), ..q }, Some(q.waiting[0]))
    } else {
        (QueueView { displayed: d, ..q }, None)
    }
}

/// How many waiting notifications leaving do-not-disturb promotes: as many
/// as fit under the limit, all of them when unlimited.
pub open spec fn promote_count(q: QueueView) -> int {
    let n = q.waiting.len() as int;
    if q.limit == 0 {
        n
    } else if q.displayed >= q.limit {
        0
    } else if q.limit - q.displayed < n {
        q.limit - q.displayed
    } else {
        n
    }
}

/// The queue after do-not-disturb is set to `paused`, and the notifications
/// to display now (oldest first).
pub open spec fn set_paused_spec(q: QueueView, paused: bool) -> (QueueView, Seq<PendingView>) {
    if paused {
        (QueueView { paused: true, ..q }, Seq::empty())
    } else {
        let k = promote_count(q);
        (
            QueueView {
                paused: false,
                displayed: (q.displayed + k) as usize,
                waiting: q.waiting.subrange(k, q.waiting.len() as int),
                ..q
            },
            q.waiting.subrange(0, k),
        )
    }
}

/// The queue after removing the first waiting notification with id `id`,
/// and that notification.
pub open spec fn remove_waiting_spec(q: QueueView, id: u32) -> (QueueView, Option<PendingView>) {
    match find_id(q.waiting, id) {
        Some(i) => (QueueView { waiting: q.waiting.remove(i), ..q }, Some(q.waiting[i])),
        None => (q, None),
    }
}

/// The queue after replacing the first waiting notification with id `id`,
/// and whether there was one.
pub open spec fn replace_waiting_spec(q: QueueView, id: u32, p: PendingView) -> (QueueView, bool) {
    match find_id(q.waiting, id) {
        Some(i) => (QueueView { waiting: q.waiting.update(i, p), ..q }, true),
        None => (q, false),
    }
}

proof fn lemma_find_id(s: Seq<PendingView>, id: u32, i: int)
    requires
        0 <= i <= s.len(),
        forall|j: int| 0 <= j < i ==> (#[trigger] s[j]).id != id,
    ensures
        i < s.len() && s[i].id == id ==> find_id(s, id) == Some(i),
        i == s.len() ==> find_id(s, id) is None,
    decreases i,
{
    if i > 0 {
        lemma_find_id(s.drop_first(), id, i - 1);
    }
}

impl QueueState {
    /// An empty queue that displays up to `limit` notifications at once
    /// (0 = unlimited).
    pub fn new(limit: usize) -> (q: Self)
        ensures
            q@ == (QueueView { limit, displayed: 0, paused: false, waiting: Seq::empty() }),
    {
        let q = Self { limit, displayed: 0, paused: false, waiting: VecDeque::new() };
        assert(q@.waiting =~= Seq::<PendingView>::empty());
        q
    }

    /// A new notification arrived (or a replace that missed). Returns what
    /// the daemon should do. On `ShowNow` the caller keeps the data and
    /// displays it; on `Queue` a copy is stored here.
    pub fn notify(&mut self, pending: &Pending) -> (a: NotifyAction)
        requires
            must_queue(old(self)@) || old(self)@.displayed < usize::MAX,
        ensures
            (final(self)@, a) == notify_spec(old(self)@, pending@),
    {
        if self.paused || (self.limit > 0 && self.displayed >= self.limit) {
            let ghost before = self@.waiting;
            self.waiting.push_back(pending.clone());
            assert(self@.waiting =~= before.push(pending@));
            NotifyAction::Queue
        } else {
            self.displayed = self.displayed + 1;
            NotifyAction::ShowNow
        }
    }

    /// A waiting notification was replaced by id; returns true on hit.
    pub fn replace_waiting(&mut self, id: u32, pending: Pending) -> (hit: bool)
        ensures
            (final(self)@, hit) == replace_waiting_spec(old(self)@, id, pending@),
    {
        let ghost w = self@.waiting;
        let mut i: usize = 0;
        while i < self.waiting.len()
            invariant
                i <= self.waiting@.len(),
                w == pending_views(self.waiting@),
                self@ == old(self)@,
                forall|j: int| 0 <= j < i ==> (#[trigger] w[j]).id != id,
            decreases self.waiting@.len() - i,
        {
            assert(w[i as int] == self.waiting@[i as int]@);
            if self.waiting[i].id == id {
                proof {
                    lemma_find_id(w, id, i as int);
                }
                let _ = self.waiting.remove(i);
                self.waiting.insert(i, pending);
                assert(self@.waiting =~= w.update(i as int, pending@));
                return true;
            }
            i = i + 1;
        }
        proof {
            lemma_find_id(w, id, i as int);
        }
        false
    }

    /// A displayed notification closed; promote the oldest waiting one if
    /// any and there is room.
    pub fn display_closed(&mut self) -> (p: Option<Pending>)
        ensures
            (final(self)@, match p {
                Some(x) => Some(x@),
                None => None,
            }) == display_closed_spec(old(self)@),
    {
        self.displayed = if self.displayed == 0 {
            0
        } else {
            self.displayed - 1
        };
        if self.paused {
            // Keep waiting; do-not-disturb means nothing new displays.
            return None;
        }
        if self.limit == 0 || self.displayed < self.limit {
            let ghost before = self@.waiting;
            let r = self.waiting.pop_front();
            assert(self@.waiting =~= if before.len() > 0 {
                before.drop_first()
            } else {
                before
            });
            return r;
        }
        None
    }

    /// Called when the daemon actually displayed a promoted notification.
    pub fn display_started(&mut self)
        requires
            old(self)@.displayed < usize::MAX,
        ensures
            final(self)@ == (QueueView { displayed: (old(self)@.displayed + 1) as usize, ..old(self)@ }),
    {
        self.displayed = self.displayed + 1;
    }

    /// Toggle do-not-disturb; returns the notifications to display now (the
    /// daemon creates their windows), up to the limit.
    pub fn set_paused(&mut self, paused: bool) -> (promote: Vec<Pending>)
        requires
            old(self)@.displayed + promote_count(old(self)@) <= usize::MAX || paused,
        ensures
            (final(self)@, pending_views(promote@)) == set_paused_spec(old(self)@, paused),
    {
        self.paused = paused;
        if paused {
            let v: Vec<Pending> = Vec::new();
            assert(pending_views(v@) =~= Seq::<PendingView>::empty());
            return v;
        }
        let ghost q0 = old(self)@;
        let ghost k = promote_count(q0);
        let mut promote: Vec<Pending> = Vec::new();
        let mut i: usize = 0;
        while self.limit == 0 || self.displayed < self.limit
            invariant_except_break
                0 <= i <= k,
                self.limit == q0.limit,
                !self.paused,
                self.displayed == q0.displayed + i,
                pending_views(self.waiting@) == q0.waiting.subrange(i as int, q0.waiting.len() as int),
                pending_views(promote@) == q0.waiting.subrange(0, i as int),
                q0.displayed + k <= usize::MAX,
                k == promote_count(q0),
            ensures
                self.limit == q0.limit,
                !self.paused,
                self.displayed == q0.displayed + k,
                pending_views(self.waiting@) == q0.waiting.subrange(k, q0.waiting.len() as int),
                pending_views(promote@) == q0.waiting.subrange(0, k),
            decreases self.waiting@.len(),
        {
            let ghost wv = pending_views(self.waiting@);
            match self.waiting.pop_front() {
                Some(p) => {
                    assert(wv[0] == p@);
                    assert(pending_views(self.waiting@) =~= wv.drop_first());
                    assert(i < k);
                    self.displayed = self.displayed + 1;
                    let ghost pv = pending_views(promote@);
                    promote.push(p);
                    assert(pending_views(promote@) =~= pv.push(p@));
                    i = i + 1;
                    assert(q0.waiting.subrange(0, i as int) =~= q0.waiting.subrange(0, i - 1).push(
                        q0.waiting[i - 1],
                    ));
                    assert(pending_views(self.waiting@) =~= q0.waiting.subrange(
                        i as int,
                        q0.waiting.len() as int,
                    ));
                },
                None => {
                    assert(i == k);
                    break;
                },
            }
        }
        proof {
            assert(self@.waiting =~= q0.waiting.subrange(k, q0.waiting.len() as int));
        }
        promote
    }

    /// Whether do-not-disturb is on.
    pub fn paused(&self) -> (b: bool)
        ensures
            b == self@.paused,
    {
        self.paused
    }

    /// How many notifications are displayed.
    pub fn displayed_len(&self) -> (n: usize)
        ensures
            n == self@.displayed,
    {
        self.displayed
    }

    /// How many notifications wait.
    pub fn waiting_len(&self) -> (n: usize)
        ensures
            n == self@.waiting.len(),
    {
        self.waiting.len()
    }

    /// Remove a waiting notification by id (e.g. CloseNotification); returns
    /// it if found.
    pub fn remove_waiting(&mut self, id: u32) -> (p: Option<Pending>)
        ensures
            (final(self)@, match p {
                Some(x) => Some(x@),
                None => None,
            }) == remove_waiting_spec(old(self)@, id),
    {
        let ghost w = self@.waiting;
        let mut i: usize = 0;
        while i < self.waiting.len()
            invariant
                i <= self.waiting@.len(),
                w == pending_views(self.waiting@),
                self@ == old(self)@,
                forall|j: int| 0 <= j < i ==> (#[trigger] w[j]).id != id,
            decreases self.waiting@.len() - i,
        {
            assert(w[i as int] == self.waiting@[i as int]@);
            if self.waiting[i].id == id {
                proof {
                    lemma_find_id(w, id, i as int);
                }
                let r = self.waiting.remove(i);
                assert(self@.waiting =~= w.remove(i as int));
                return r;
            }
            i = i + 1;
        }
        proof {
            lemma_find_id(w, id, i as int);
        }
        None
    }
}

/// While do-not-disturb is on, every arrival waits, at the end of the queue,
/// and nothing more is displayed.
pub proof fn law_paused_arrivals_wait(q: QueueView, p: PendingView)
    requires
        q.paused,
    ensures
        notify_spec(q, p).1 == NotifyAction::Queue,
        notify_spec(q, p).0.waiting == q.waiting.push(p),
        notify_spec(q, p).0.displayed == q.displayed,
{
}

/// With no limit and do-not-disturb off, every arrival displays at once.
pub proof fn law_unlimited_shows_everything(q: QueueView, p: PendingView)
    requires
        q.limit == 0,
        !q.paused,
    ensures
        notify_spec(q, p).1 == NotifyAction::ShowNow,
        notify_spec(q, p).0.waiting == q.waiting,
{
}

/// Closing a displayed notification promotes the oldest waiting one (first
/// in, first out) when do-not-disturb is off and the close makes room.
pub proof fn law_close_promotes_oldest(q: QueueView)
    requires
        !q.paused,
        q.waiting.len() > 0,
        q.limit == 0 || q.displayed <= q.limit,
    ensures
        display_closed_spec(q).1 == Some(q.waiting[0]),
        display_closed_spec(q).0.waiting == q.waiting.drop_first(),
{
}

/// While do-not-disturb is on, closing a notification promotes nothing and
/// the queue keeps waiting.
pub proof fn law_paused_close_promotes_nothing(q: QueueView)
    requires
        q.paused,
    ensures
        display_closed_spec(q).1 is None,
        display_closed_spec(q).0.waiting == q.waiting,
{
}

/// Leaving do-not-disturb moves the oldest waiting notifications to the
/// display in order: nothing is lost or duplicated, and the displayed count
/// grows by the number promoted.
pub proof fn law_unpause_conserves(q: QueueView)
    requires
        q.displayed + promote_count(q) <= usize::MAX,
    ensures
        ({
            let (q2, promoted) = set_paused_spec(q, false);
            &&& promoted + q2.waiting == q.waiting
            &&& q2.displayed == q.displayed + promoted.len()
            &&& q2.displayed + q2.waiting.len() == q.displayed + q.waiting.len()
            &&& !q2.paused
        }),
{
    let k = promote_count(q);
    assert(q.waiting.subrange(0, k) + q.waiting.subrange(k, q.waiting.len() as int) =~= q.waiting);
}

/// After leaving do-not-disturb nothing waits while there is room: either
/// the queue is empty or the limit is reached.
pub proof fn law_unpause_fills_room(q: QueueView)
    requires
        q.displayed + promote_count(q) <= usize::MAX,
    ensures
        ({
            let q2 = set_paused_spec(q, false).0;
            q2.waiting.len() == 0 || (q2.limit > 0 && q2.displayed >= q2.limit)
        }),
{
}

/// Leaving do-not-disturb never displays more than the limit allows: with a
/// positive limit that is not exceeded yet, the displayed count stays
/// within it, and when the limit is already reached nothing is promoted
/// and nothing else changes but the flag.
pub proof fn law_unpause_respects_limit(q: QueueView)
    requires
        q.limit > 0,
    ensures
        ({
            let (q2, promoted) = set_paused_spec(q, false);
            &&& q.displayed <= q.limit ==> q2.displayed <= q.limit
            &&& q.displayed >= q.limit ==> promoted.len() == 0 && q2 == (QueueView {
                paused: false,
                ..q
            })
        }),
{
    if q.displayed >= q.limit {
        assert(q.waiting.subrange(0, q.waiting.len() as int) =~= q.waiting);
    }
}

/// Leaving do-not-disturb promotes exactly as many waiting notifications as
/// there is room for: all of them when unlimited, else the fewer of the
/// waiting count and the free places under the limit.
pub proof fn law_unpause_promotes_what_fits(q: QueueView)
    ensures
        ({
            let promoted = set_paused_spec(q, false).1;
            let n = q.waiting.len() as int;
            let room = q.limit - q.displayed;
            &&& q.limit == 0 ==> promoted.len() == n
            &&& q.limit > 0 && room <= 0 ==> promoted.len() == 0
            &&& q.limit > 0 && 0 < room <= n ==> promoted.len() == room
            &&& q.limit > 0 && room > n ==> promoted.len() == n
        }),
{
}

/// A notification that had to wait can be taken back out by its id, which
/// restores the queue as it was (when no earlier waiting notification has
/// the same id).
pub proof fn law_queue_then_remove_roundtrip(q: QueueView, p: PendingView)
    requires
        must_queue(q),
        find_id(q.waiting, p.id) is None,
    ensures
        remove_waiting_spec(notify_spec(q, p).0, p.id) == (q, Some(p)),
{
    let w = q.waiting.push(p);
    lemma_find_id_none_all(q.waiting, p.id);
    assert forall|j: int| 0 <= j < q.waiting.len() implies (#[trigger] w[j]).id != p.id by {
        assert(w[j] == q.waiting[j]);
    }
    lemma_find_id(w, p.id, q.waiting.len() as int);
    assert(w.remove(q.waiting.len() as int) =~= q.waiting);
}

proof fn lemma_find_id_none_all(s: Seq<PendingView>, id: u32)
    requires
        find_id(s, id) is None,
    ensures
        forall|j: int| 0 <= j < s.len() ==> (#[trigger] s[j]).id != id,
    decreases s.len(),
{
    if s.len() > 0 {
        lemma_find_id_none_all(s.drop_first(), id);
        assert forall|j: int| 0 <= j < s.len() implies (#[trigger] s[j]).id != id by {
            if j > 0 {
                assert(s[j] == s.drop_first()[j - 1]);
            }
        }
    }
}

proof fn lemma_find_id_some(s: Seq<PendingView>, id: u32)
    ensures
        find_id(s, id) matches Some(i) ==> 0 <= i < s.len() && s[i].id == id,
    decreases s.len(),
{
    if s.len() > 0 && s[0].id != id {
        lemma_find_id_some(s.drop_first(), id);
    }
}

/// Replacing a waiting notification keeps the queue's length and the
/// position of every notification; only the replaced entry changes.
pub proof fn law_replace_in_place(q: QueueView, id: u32, p: PendingView)
    ensures
        ({
            let (q2, hit) = replace_waiting_spec(q, id, p);
            &&& q2.waiting.len() == q.waiting.len()
            &&& q2.displayed == q.displayed
            &&& hit <==> exists|i: int| 0 <= i < q.waiting.len() && q.waiting[i].id == id
            &&& forall|i: int|
                0 <= i < q.waiting.len() ==> (#[trigger] q2.waiting[i] == q.waiting[i] || (
                q.waiting[i].id == id && q2.waiting[i] == p))
        }),
{
    lemma_find_id_some(q.waiting, id);
    if find_id(q.waiting, id) is None {
        lemma_find_id_none_all(q.waiting, id);
    }
}

/// One call on a queue, by its view.
pub enum QueueOp {
    Notify(PendingView),
    DisplayClosed,
    DisplayStarted,
    SetPaused(bool),
    RemoveWaiting(u32),
    ReplaceWaiting(u32, PendingView),
}

/// The queue after one call, as the methods' contracts state it.
pub open spec fn apply_op(q: QueueView, op: QueueOp) -> QueueView {
    match op {
        QueueOp::Notify(p) => notify_spec(q, p).0,
        QueueOp::DisplayClosed => display_closed_spec(q).0,
        QueueOp::DisplayStarted => QueueView { displayed: (q.displayed + 1) as usize, ..q },
        QueueOp::SetPaused(b) => set_paused_spec(q, b).0,
        QueueOp::RemoveWaiting(id) => remove_waiting_spec(q, id).0,
        QueueOp::ReplaceWaiting(id, p) => replace_waiting_spec(q, id, p).0,
    }
}

/// The queue after a sequence of calls.
pub open spec fn run_ops(q: QueueView, ops: Seq<QueueOp>) -> QueueView
    decreases ops.len(),
{
    if ops.len() == 0 {
        q
    } else {
        apply_op(run_ops(q, ops.drop_last()), ops.last())
    }
}

/// The value the last `set_paused` call in `ops` set, or `before` when
/// there is none.
pub open spec fn last_set_paused(ops: Seq<QueueOp>, before: bool) -> bool
    decreases ops.len(),
{
    if ops.len() == 0 {
        before
    } else {
        match ops.last() {
            QueueOp::SetPaused(b) => b,
            _ => last_set_paused(ops.drop_last(), before),
        }
    }
}

/// Do-not-disturb is what the last `set_paused` call set (off for a new
/// queue): no other call changes it.
pub proof fn law_paused_follows_last_set(q: QueueView, ops: Seq<QueueOp>)
    ensures
        run_ops(q, ops).paused == last_set_paused(ops, q.paused),
    decreases ops.len(),
{
    if ops.len() > 0 {
        law_paused_follows_last_set(q, ops.drop_last());
    }
}

} // verus!
