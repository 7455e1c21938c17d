use vstd::prelude::*;
use crate::text::str_eq;

verus! {

/// How serious a notification is.
#[derive(Clone, Copy, PartialEq, Eq, Structural, Debug)]
pub enum ToastKind {
    Info,
    Warning,
    Error,
}

/// At most this many notifications are shown at once.
pub const TOAST_LIMIT: usize = 5;

/// The fill colour of a notification of this kind, as red, green and blue.
pub fn toast_background(kind: ToastKind) -> (c: (u8, u8, u8))
    ensures
        c == match kind {
            ToastKind::Info => (40u8, 40u8, 60u8),
            ToastKind::Warning => (80u8, 60u8, 20u8),
            ToastKind::Error => (80u8, 20u8, 20u8),
        },
{
    match kind {
        ToastKind::Info => (40, 40, 60),
        ToastKind::Warning => (80, 60, 20),
        ToastKind::Error => (80, 20, 20),
    }
}

/// The border and icon colour of a notification of this kind.
pub fn toast_accent(kind: ToastKind) -> (c: (u8, u8, u8))
    ensures
        c == match kind {
            ToastKind::Info => (100u8, 160u8, 255u8),
            ToastKind::Warning => (255u8, 200u8, 60u8),
            ToastKind::Error => (255u8, 80u8, 80u8),
        },
{
    match kind {
        ToastKind::Info => (100, 160, 255),
        ToastKind::Warning => (255, 200, 60),
        ToastKind::Error => (255, 80, 80),
    }
}

/// The icon shown before a notification of this kind.
pub fn toast_icon(kind: ToastKind) -> (s: &'static str)
    ensures
        s@ == match kind {
            ToastKind::Info => "ℹ"@,
            ToastKind::Warning => "⚠"@,
            ToastKind::Error => "✕"@,
        },
{
    match kind {
        ToastKind::Info => "ℹ",
        ToastKind::Warning => "⚠",
        ToastKind::Error => "✕",
    }
}

/// One notification on screen: its text, its kind, and the time (in
/// milliseconds of the caller's clock) at which it disappears.
pub struct Toast {
    pub message: String,
    pub kind: ToastKind,
    pub expires_at: u64,
}

/// A notification as a value: text, kind, expiry.
pub type ToastEntry = (Seq<char>, ToastKind, u64);

/// A notification's value.
pub open spec fn entry_of(t: Toast) -> ToastEntry {
    (t.message@, t.kind, t.expires_at)
}

/// The notifications on screen, oldest first.
pub struct ToastManager {
    pub toasts: Vec<Toast>,
}

impl View for ToastManager {
    type V = Seq<ToastEntry>;

    open spec fn view(&self) -> Seq<ToastEntry> {
        self.toasts@.map_values(|t: Toast| entry_of(t))
    }
}

/// `i` is the first place of `s` that shows the text `msg`.
pub open spec fn first_match(s: Seq<ToastEntry>, msg: Seq<char>, i: int) -> bool {
    &&& 0 <= i < s.len()
    &&& s[i].0 == msg
    &&& forall|j: int| 0 <= j < i ==> s[j].0 != msg
}

/// Whether some notification in `s` shows the text `msg`.
pub open spec fn shows(s: Seq<ToastEntry>, msg: Seq<char>) -> bool {
    exists|i: int| 0 <= i < s.len() && s[i].0 == msg
}

/// The notifications after `msg` of kind `kind` is posted to expire at `exp`: a
/// notification already showing the same text only gets the new expiry (and keeps
/// its kind); otherwise the new one joins at the end and, past the limit, the
/// oldest leaves.
pub open spec fn posted(s: Seq<ToastEntry>, msg: Seq<char>, kind: ToastKind, exp: u64) -> Seq<
    ToastEntry,
> {
    if shows(s, msg) {
        let i = choose|i: int| first_match(s, msg, i);
        s.update(i, (msg, s[i].1, exp))
    } else {
        let p = s.push((msg, kind, exp));
        if p.len() > TOAST_LIMIT { p.drop_first() } else { p }
    }
}

/// The notifications still on screen at time `now`.
pub open spec fn live_at(s: Seq<ToastEntry>, now: u64) -> Seq<ToastEntry> {
    s.filter(alive(now))
}

/// A notification is still on screen at `now` when it expires later.
pub open spec fn alive(now: u64) -> spec_fn(ToastEntry) -> bool {
    |e: ToastEntry| e.2 > now
}

/// No two notifications show the same text, and there are no more than the limit.
pub open spec fn toasts_ok(s: Seq<ToastEntry>) -> bool {
    &&& s.len() <= TOAST_LIMIT
    &&& forall|i: int, j: int| 0 <= i < j < s.len() ==> s[i].0 != s[j].0
}

/// A first match is the only first match.
proof fn lemma_first_match_unique(s: Seq<ToastEntry>, msg: Seq<char>, i: int)
    requires
        first_match(s, msg, i),
    ensures
        (choose|k: int| first_match(s, msg, k)) == i,
{
    let k = choose|k: int| first_match(s, msg, k);
    assert(first_match(s, msg, k));
    if k < i {
        assert(s[k].0 != msg);
    }
    if i < k {
        assert(s[i].0 != msg);
    }
}

impl ToastManager {
    /// No notifications.
    pub fn new() -> (m: ToastManager)
        ensures
            m@ == Seq::<ToastEntry>::empty(),
    {
        let m = ToastManager { toasts: Vec::new() };
        assert(m@ =~= Seq::<ToastEntry>::empty());
        m
    }

    /// How many notifications are on screen.
    pub fn len(&self) -> (n: usize)
        ensures
            n == self@.len(),
    {
        self.toasts.len()
    }

    /// Posts `message` as a notification of kind `kind` that disappears at
    /// `expires_at`.
    pub fn add_kind(&mut self, message: String, kind: ToastKind, expires_at: u64)
        ensures
            final(self)@ == posted(old(self)@, message@, kind, expires_at),
    {
        let ghost s = self@;
        let n = self.toasts.len();
        let mut i: usize = 0;
        while i < n
            invariant
                n == self.toasts@.len(),
                s == self@,
                s == old(self)@,
                s.len() == n,
                0 <= i <= n,
                forall|j: int| 0 <= j < i ==> s[j].0 != message@,
            decreases n - i,
        {
            assert(s[i as int] == entry_of(self.toasts@[i as int]));
            if str_eq(self.toasts[i].message.as_str(), message.as_str()) {
                proof {
                    assert(first_match(s, message@, i as int));
                    lemma_first_match_unique(s, message@, i as int);
                }
                let old_kind = self.toasts[i].kind;
                self.toasts.set(i, Toast { message, kind: old_kind, expires_at });
                assert(self@ =~= posted(s, message@, kind, expires_at));
                return;
            }
            i = i + 1;
        }
        assert(!shows(s, message@));
        self.toasts.push(Toast { message, kind, expires_at });
        assert(self@ =~= s.push((message@, kind, expires_at)));
        if self.toasts.len() > TOAST_LIMIT {
            self.toasts.remove(0);
            assert(self@ =~= s.push((message@, kind, expires_at)).drop_first());
        }
    }

    /// Posts an information notification.
    pub fn add(&mut self, message: String, expires_at: u64)
        ensures
            final(self)@ == posted(old(self)@, message@, ToastKind::Info, expires_at),
    {
        self.add_kind(message, ToastKind::Info, expires_at);
    }

    /// Posts a warning.
    pub fn warn(&mut self, message: String, expires_at: u64)
        ensures
            final(self)@ == posted(old(self)@, message@, ToastKind::Warning, expires_at),
    {
        self.add_kind(message, ToastKind::Warning, expires_at);
    }

    /// Posts an error.
    pub fn error(&mut self, message: String, expires_at: u64)
        ensures
            final(self)@ == posted(old(self)@, message@, ToastKind::Error, expires_at),
    {
        self.add_kind(message, ToastKind::Error, expires_at);
    }

    /// Takes away the notifications that have expired by `now`, keeping the
    /// order of the others.
    pub fn prune(&mut self, now: u64)
        ensures
            final(self)@ == live_at(old(self)@, now),
    {
        let ghost s = self@;
        let mut kept: Vec<Toast> = Vec::new();
        let mut i: usize = 0;
        while i < self.toasts.len()
            invariant
                s == self@,
                i <= self.toasts@.len(),
                kept@.map_values(|t: Toast| entry_of(t)) == live_at(s.take(i as int), now),
            decreases self.toasts.len() - i,
        {
            let ghost kv = kept@.map_values(|t: Toast| entry_of(t));
            proof {
                reveal(Seq::filter);
                assert(s.take(i + 1).drop_last() =~= s.take(i as int));
                assert(s[i as int] == entry_of(self.toasts@[i as int]));
            }
            if self.toasts[i].expires_at > now {
                let t = Toast {
                    message: self.toasts[i].message.clone(),
                    kind: self.toasts[i].kind,
                    expires_at: self.toasts[i].expires_at,
                };
                kept.push(t);
                assert(kept@.map_values(|t: Toast| entry_of(t)) =~= kv.push(s[i as int]));
            }
            i = i + 1;
        }
        assert(s.take(i as int) =~= s);
        self.toasts = kept;
    }

    /// The notifications as values, oldest first.
    pub fn entries(&self) -> (v: Vec<(String, ToastKind, u64)>)
        ensures
            v@.len() == self@.len(),
            forall|i: int|
                0 <= i < v@.len() ==> (#[trigger] v@[i]).0@ == self@[i].0 && v@[i].1 == self@[i].1
                    && v@[i].2 == self@[i].2,
    {
        let mut v: Vec<(String, ToastKind, u64)> = Vec::new();
        let mut i: usize = 0;
        while i < self.toasts.len()
            invariant
                i <= self.toasts@.len(),
                v@.len() == i,
                forall|k: int|
                    0 <= k < i ==> (#[trigger] v@[k]).0@ == self@[k].0 && v@[k].1 == self@[k].1
                        && v@[k].2 == self@[k].2,
            decreases self.toasts.len() - i,
        {
            assert(self@[i as int] == entry_of(self.toasts@[i as int]));
            v.push((self.toasts[i].message.clone(), self.toasts[i].kind, self.toasts[i].expires_at));
            i = i + 1;
        }
        v
    }
}

/// Posting keeps the notifications free of repeated texts and within the limit,
/// and the posted text is on screen afterwards with the new expiry.
pub proof fn law_post_keeps_toasts_ok(s: Seq<ToastEntry>, msg: Seq<char>, kind: ToastKind, exp: u64)
    requires
        toasts_ok(s),
    ensures
        toasts_ok(posted(s, msg, kind, exp)),
        exists|i: int|
            0 <= i < posted(s, msg, kind, exp).len() && #[trigger] posted(s, msg, kind, exp)[i].0 == msg
                && posted(s, msg, kind, exp)[i].2 == exp,
{
    let r = posted(s, msg, kind, exp);
    if shows(s, msg) {
        let w = choose|i: int| 0 <= i < s.len() && s[i].0 == msg;
        assert(first_match(s, msg, w)) by {
            assert forall|j: int| 0 <= j < w implies s[j].0 != msg by {
                assert(s[j].0 != s[w].0);
            }
        }
        lemma_first_match_unique(s, msg, w);
        assert(r == s.update(w, (msg, s[w].1, exp)));
        assert(0 <= w < r.len() && r[w].0 == msg && r[w].2 == exp);
    } else {
        let p = s.push((msg, kind, exp));
        assert forall|i: int, j: int| 0 <= i < j < p.len() implies p[i].0 != p[j].0 by {
            if j == s.len() {
                assert(s[i].0 != msg);
            }
        }
        if p.len() > TOAST_LIMIT {
            assert(r == p.drop_first());
            assert(r[r.len() - 1] == p[p.len() - 1]);
        } else {
            assert(r == p);
        }
        assert(r[r.len() - 1].0 == msg && r[r.len() - 1].2 == exp);
    }
}

/// Taking away expired notifications keeps the others free of repeated texts
/// and within the limit, and leaves none that has expired.
pub proof fn law_prune_keeps_toasts_ok(s: Seq<ToastEntry>, now: u64)
    requires
        toasts_ok(s),
    ensures
        toasts_ok(live_at(s, now)),
        forall|i: int| 0 <= i < live_at(s, now).len() ==> #[trigger] live_at(s, now)[i].2 > now,
    decreases s.len(),
{
    reveal(Seq::filter);
    broadcast use vstd::seq_lib::group_filter_ensures;
    let f = live_at(s, now);
    if s.len() > 0 {
        let init = s.drop_last();
        law_prune_keeps_toasts_ok(init, now);
        let fi = live_at(init, now);
        assert forall|i: int, j: int| 0 <= i < j < f.len() implies f[i].0 != f[j].0 by {
            if s.last().2 > now && j == f.len() - 1 {
                assert(f =~= fi.push(s.last()));
                assert(fi[i] == f[i]);
                assert(fi.contains(f[i]));
                init.lemma_filter_contains_rev(alive(now), f[i]);
                let k = choose|k: int| 0 <= k < init.len() && init[k] == f[i];
                assert(s[k].0 != s[s.len() - 1].0);
            } else if s.last().2 > now {
                assert(f =~= fi.push(s.last()));
            } else {
                assert(f =~= fi);
            }
        }
        assert(f.len() <= s.len()) by {
            s.lemma_filter_len(alive(now));
        }
    }
}

} // verus!
