//! The broadcast registry: connected real-time subscribers, each with its
//! own message filter, and the fan-out decision for every broadcast.
//!
//! Sinks live with the transport; the registry knows each subscriber by its
//! id and decides who receives a serialized message. Filters are regular
//! expressions matched against the full serialized message text.

use vstd::prelude::*;
use vstd::string::StrSliceExecFns;

verus! {

/// Whether `pattern` is a regular expression that the regex crate compiles.
pub uninterp spec fn regex_compiles(pattern: Seq<char>) -> bool;

/// Whether the compiled `pattern` matches somewhere in `haystack`.
pub uninterp spec fn regex_finds(pattern: Seq<char>, haystack: Seq<char>) -> bool;

/// Whether `needle` occurs in `haystack` as a contiguous run.
pub open spec fn contains(haystack: Seq<char>, needle: Seq<char>) -> bool {
    exists|i: int|
        0 <= i && i + needle.len() <= haystack.len() && #[trigger] haystack.subrange(
            i,
            i + needle.len(),
        ) == needle
}

/// A pattern made of ASCII letters and digits only: every character of it
/// is a literal that matches itself.
pub open spec fn is_literal(pattern: Seq<char>) -> bool {
    forall|i: int|
        0 <= i < pattern.len() ==> {
            let c = #[trigger] pattern[i];
            ('a' <= c && c <= 'z') || ('A' <= c && c <= 'Z') || ('0' <= c && c <= '9')
        }
}

/// Longest letters-and-digits pattern that is known to compile: far below
/// the regex crate's default limits (10 MiB of compiled program, nesting
/// depth 250), which a literal cannot reach at this length.
pub const LITERAL_PATTERN_MAX_LEN: usize = 256;

/// Relies on `regex::Regex::new`: `Ok` exactly for a pattern that compiles
/// within the default size limit. A pattern of ASCII letters and digits
/// holds no meta character, so a short one always compiles.
#[verifier::external_body]
fn pattern_compiles(pattern: &str) -> (r: bool)
    ensures
        r == regex_compiles(pattern@),
        is_literal(pattern@) && pattern@.len() <= LITERAL_PATTERN_MAX_LEN ==> r,
{
    regex::Regex::new(pattern).is_ok()
}

/// Relies on `regex::Regex::is_match` on the regex that `regex::Regex::new`
/// compiles from `pattern`: true exactly when the regex matches anywhere in
/// the haystack. A pattern of ASCII letters and digits matches itself
/// literally and case-sensitively, so it then matches exactly where it
/// occurs as a substring. The pattern is compiled anew on each call, so
/// that the result is stated over the pattern text itself.
#[verifier::external_body]
fn pattern_finds(pattern: &str, haystack: &str) -> (r: bool)
    requires
        regex_compiles(pattern@),
    ensures
        r == regex_finds(pattern@, haystack@),
        is_literal(pattern@) ==> r == contains(haystack@, pattern@),
{
    regex::Regex::new(pattern).map_or(false, |re| re.is_match(haystack))
}

/// A subscriber's message filter.
#[derive(Debug, PartialEq, Eq)]
pub enum MessageFilter {
    /// No pattern (or an empty one): every message.
    Everything,
    /// A compiled pattern: the messages it matches somewhere.
    Pattern(String),
    /// A pattern that did not compile: no message.
    Nothing,
}

/// The mathematical content of a filter.
pub enum FilterView {
    Everything,
    Pattern(Seq<char>),
    Nothing,
}

impl View for MessageFilter {
    type V = FilterView;

    open spec fn view(&self) -> FilterView {
        match self {
            MessageFilter::Everything => FilterView::Everything,
            MessageFilter::Pattern(p) => FilterView::Pattern(p@),
            MessageFilter::Nothing => FilterView::Nothing,
        }
    }
}

impl MessageFilter {
    /// A copy of this filter.
    pub fn duplicate(&self) -> (r: MessageFilter)
        ensures
            r@ == self@,
    {
        match self {
            MessageFilter::Everything => MessageFilter::Everything,
            MessageFilter::Pattern(p) => MessageFilter::Pattern(p.clone()),
            MessageFilter::Nothing => MessageFilter::Nothing,
        }
    }
}

/// The filter that a connection's optional pattern asks for.
pub open spec fn filter_for(pattern: Option<Seq<char>>) -> FilterView {
    match pattern {
        None => FilterView::Everything,
        Some(p) => if p.len() == 0 {
            FilterView::Everything
        } else if regex_compiles(p) {
            FilterView::Pattern(p)
        } else {
            FilterView::Nothing
        },
    }
}

/// Whether a filter lets a message through: its pattern must match
/// somewhere in the serialized text or in the message's logical name.
pub open spec fn accepts(f: FilterView, message: Seq<char>, name: Seq<char>) -> bool {
    match f {
        FilterView::Everything => true,
        FilterView::Pattern(p) => regex_finds(p, message) || regex_finds(p, name),
        FilterView::Nothing => false,
    }
}

/// One connected subscriber: the id that the transport knows it by, and
/// its filter.
#[derive(Debug)]
pub struct Subscriber {
    pub id: u64,
    pub filter: MessageFilter,
}

/// The mathematical content of a subscriber.
pub struct SubscriberView {
    pub id: u64,
    pub filter: FilterView,
}

impl View for Subscriber {
    type V = SubscriberView;

    open spec fn view(&self) -> SubscriberView {
        SubscriberView { id: self.id, filter: self.filter@ }
    }
}

/// The ids of the subscribers that receive the message with serialized text
/// `message` and logical name `name`, in registration order.
pub open spec fn recipients_of(s: Seq<SubscriberView>, message: Seq<char>, name: Seq<char>) -> Seq<u64>
    decreases s.len(),
{
    if s.len() == 0 {
        Seq::empty()
    } else {
        let prev = recipients_of(s.drop_last(), message, name);
        if accepts(s.last().filter, message, name) {
            prev.push(s.last().id)
        } else {
            prev
        }
    }
}

/// The subscribers whose id is not among `ids`.
pub open spec fn remove_ids(s: Seq<SubscriberView>, ids: Seq<u64>) -> Seq<SubscriberView>
    decreases s.len(),
{
    if s.len() == 0 {
        s
    } else {
        let prev = remove_ids(s.drop_last(), ids);
        if ids.contains(s.last().id) {
            prev
        } else {
            prev.push(s.last())
        }
    }
}

/// The registry of connected real-time subscribers.
#[derive(Debug)]
pub struct WebsocketManager {
    clients: Vec<Subscriber>,
    next_id: u64,
}

impl View for WebsocketManager {
    type V = Seq<SubscriberView>;

    closed spec fn view(&self) -> Seq<SubscriberView> {
        self.clients@.map_values(|c: Subscriber| c@)
    }
}

impl WebsocketManager {
    /// The id that the next registration receives.
    pub closed spec fn next(&self) -> u64 {
        self.next_id
    }

    /// Ids are distinct and below the next one; every stored pattern compiles.
    pub open spec fn wf(&self) -> bool {
        registry_ok(self@, self.next())
    }

    /// An empty registry.
    pub fn new() -> (r: WebsocketManager)
        ensures
            r.wf(),
            r@.len() == 0,
            r.next() == 0,
    {
        let r = WebsocketManager { clients: Vec::new(), next_id: 0 };
        assert(r@ =~= Seq::<SubscriberView>::empty());
        r
    }

    /// How many subscribers are connected.
    pub fn get_client_count(&self) -> (r: usize)
        ensures
            r == self@.len(),
    {
        self.clients.len()
    }

    /// Whether a broadcast has anyone to reach, and so whether its message
    /// needs to be serialized at all.
    pub fn needs_message(&self) -> (r: bool)
        ensures
            r == (self@.len() > 0),
    {
        self.clients.len() > 0
    }

    /// Builds the filter that a connection's optional pattern asks for: an
    /// absent or empty pattern matches everything, one that does not compile
    /// matches nothing.
    pub fn compile_filter(pattern: Option<&str>) -> (r: MessageFilter)
        ensures
            r@ == filter_for(
                match pattern {
                    Some(p) => Some(p@),
                    None => None,
                },
            ),
            match pattern {
                Some(p) => is_literal(p@) && 0 < p@.len() <= LITERAL_PATTERN_MAX_LEN
                    ==> regex_compiles(p@),
                None => true,
            },
    {
        match pattern {
            None => MessageFilter::Everything,
            Some(p) => {
                if p.unicode_len() == 0 {
                    MessageFilter::Everything
                } else if pattern_compiles(p) {
                    MessageFilter::Pattern(p.to_owned())
                } else {
                    MessageFilter::Nothing
                }
            },
        }
    }

    /// Adds a subscriber with the filter its pattern asks for, and returns
    /// its id; `None`, with nothing changed, once every id has been given out.
    pub fn register(&mut self, pattern: Option<&str>) -> (r: Option<u64>)
        requires
            old(self).wf(),
        ensures
            final(self).wf(),
            old(self).next() == u64::MAX ==> r is None && final(self)@ == old(self)@
                && final(self).next() == old(self).next(),
            old(self).next() < u64::MAX ==> match pattern {
                Some(p) => is_literal(p@) && 0 < p@.len() <= LITERAL_PATTERN_MAX_LEN
                    ==> regex_compiles(p@),
                None => true,
            },
            old(self).next() < u64::MAX ==> r == Some(old(self).next()) && final(self).next()
                == old(self).next() + 1 && final(self)@ == old(self)@.push(
                SubscriberView {
                    id: old(self).next(),
                    filter: filter_for(
                        match pattern {
                            Some(p) => Some(p@),
                            None => None,
                        },
                    ),
                },
            ),
    {
        if self.next_id == u64::MAX {
            return None;
        }
        let id = self.next_id;
        let filter = WebsocketManager::compile_filter(pattern);
        let ghost before = self@;
        self.clients.push(Subscriber { id, filter });
        self.next_id = id + 1;
        assert(self@ =~= before.push(self.clients@.last()@));
        Some(id)
    }

    /// Removes the subscriber with id `id`; removing an id that is not
    /// registered changes nothing.
    pub fn deregister(&mut self, id: u64)
        requires
            old(self).wf(),
        ensures
            final(self).wf(),
            final(self)@ == remove_ids(old(self)@, seq![id]),
            final(self).next() == old(self).next(),
    {
        let mut ids: Vec<u64> = Vec::new();
        ids.push(id);
        assert(ids@ =~= seq![id]);
        self.remove_failed(&ids);
    }

    /// The ids of the subscribers that receive a message, in registration
    /// order: `message` is its serialized text and `name` its logical name
    /// (`"temperature"`, `"pwm"`, ...). A subscriber without a pattern
    /// receives every message; one whose pattern is letters and digits only
    /// receives exactly the messages whose text or name contains it.
    pub fn send(&self, message: &str, name: &str) -> (r: Vec<u64>)
        requires
            self.wf(),
        ensures
            r@ == recipients_of(self@, message@, name@),
            forall|k: int|
                0 <= k < self@.len() && (#[trigger] self@[k]).filter is Pattern && is_literal(
                    self@[k].filter->Pattern_0,
                ) ==> (accepts(self@[k].filter, message@, name@) == (contains(
                    message@,
                    self@[k].filter->Pattern_0,
                ) || contains(name@, self@[k].filter->Pattern_0))),
            contains(message@, name@) ==> forall|k: int|
                0 <= k < self@.len() && (#[trigger] self@[k]).filter is Pattern && is_literal(
                    self@[k].filter->Pattern_0,
                ) ==> (accepts(self@[k].filter, message@, name@) == contains(
                    message@,
                    self@[k].filter->Pattern_0,
                )),
    {
        let mut out: Vec<u64> = Vec::new();
        let mut i: usize = 0;
        while i < self.clients.len()
            invariant
                self.wf(),
                i <= self@.len(),
                out@ == recipients_of(self@.take(i as int), message@, name@),
                forall|k: int|
                    0 <= k < i && (#[trigger] self@[k]).filter is Pattern && is_literal(
                        self@[k].filter->Pattern_0,
                    ) ==> (accepts(self@[k].filter, message@, name@) == (contains(
                        message@,
                        self@[k].filter->Pattern_0,
                    ) || contains(name@, self@[k].filter->Pattern_0))),
            decreases self@.len() - i,
        {
            let c = &self.clients[i];
            assert(self@[i as int] == c@);
            let hit = match &c.filter {
                MessageFilter::Everything => true,
                MessageFilter::Pattern(p) => pattern_finds(p.as_str(), message) || pattern_finds(
                    p.as_str(),
                    name,
                ),
                MessageFilter::Nothing => false,
            };
            assert(self@.take(i as int + 1).drop_last() =~= self@.take(i as int));
            if hit {
                out.push(c.id);
            }
            i = i + 1;
        }
        assert(self@.take(i as int) =~= self@);
        proof {
            if contains(message@, name@) {
                assert forall|k: int|
                    0 <= k < self@.len() && (#[trigger] self@[k]).filter is Pattern && is_literal(
                        self@[k].filter->Pattern_0,
                    ) implies (accepts(self@[k].filter, message@, name@) == contains(
                    message@,
                    self@[k].filter->Pattern_0,
                )) by {
                    let p = self@[k].filter->Pattern_0;
                    if contains(name@, p) {
                        lemma_contains_trans(message@, name@, p);
                    }
                }
            }
        }
        out
    }

    /// Removes the subscribers whose delivery failed (an implicit disconnect).
    pub fn remove_failed(&mut self, failed: &Vec<u64>)
        requires
            old(self).wf(),
        ensures
            final(self).wf(),
            final(self)@ == remove_ids(old(self)@, failed@),
            final(self).next() == old(self).next(),
    {
        let mut kept: Vec<Subscriber> = Vec::new();
        let ghost all = self@;
        let mut i: usize = 0;
        while i < self.clients.len()
            invariant
                self@ == all,
                i <= all.len(),
                kept@.map_values(|c: Subscriber| c@) == remove_ids(all.take(i as int), failed@),
            decreases all.len() - i,
        {
            let c = &self.clients[i];
            let ghost before = kept@;
            assert(all.take(i as int + 1).drop_last() =~= all.take(i as int));
            let mut gone = false;
            let mut j: usize = 0;
            while j < failed.len()
                invariant
                    j <= failed@.len(),
                    gone == failed@.take(j as int).contains(c.id),
                decreases failed@.len() - j,
            {
                let ghost pre = failed@.take(j as int);
                let ghost post = failed@.take(j as int + 1);
                assert(post =~= pre.push(failed@[j as int]));
                if failed[j] == c.id {
                    gone = true;
                    assert(post[j as int] == c.id);
                } else {
                    assert(post.contains(c.id) ==> pre.contains(c.id)) by {
                        if post.contains(c.id) {
                            let k = choose|k: int| 0 <= k < post.len() && post[k] == c.id;
                            assert(pre[k] == c.id);
                        }
                    }
                    assert(pre.contains(c.id) ==> post.contains(c.id)) by {
                        if pre.contains(c.id) {
                            let k = choose|k: int| 0 <= k < pre.len() && pre[k] == c.id;
                            assert(post[k] == c.id);
                        }
                    }
                }
                j = j + 1;
            }
            assert(failed@.take(j as int) =~= failed@);
            if !gone {
                kept.push(Subscriber { id: c.id, filter: c.filter.duplicate() });
                assert(kept@.map_values(|c: Subscriber| c@) =~= before.map_values(
                    |c: Subscriber| c@,
                ).push(all[i as int]));
            }
            i = i + 1;
        }
        assert(all.take(i as int) =~= all);
        proof {
            lemma_remove_ids_ok(all, failed@, self.next());
        }
        self.clients = kept;
    }
}

/// The registry invariant over a sequence of subscribers.
pub open spec fn registry_ok(s: Seq<SubscriberView>, next: u64) -> bool {
    &&& forall|i: int, j: int| 0 <= i < j < s.len() ==> #[trigger] s[i].id != #[trigger] s[j].id
    &&& forall|i: int| 0 <= i < s.len() ==> #[trigger] s[i].id < next
    &&& forall|i: int|
        0 <= i < s.len() && (#[trigger] s[i]).filter is Pattern ==> regex_compiles(
            s[i].filter->Pattern_0,
        )
}

/// Removing subscribers keeps the registry invariant, and keeps only
/// subscribers that were there.
proof fn lemma_remove_ids_ok(s: Seq<SubscriberView>, ids: Seq<u64>, next: u64)
    requires
        registry_ok(s, next),
    ensures
        registry_ok(remove_ids(s, ids), next),
        forall|k: int|
            0 <= k < remove_ids(s, ids).len() ==> exists|j: int|
                0 <= j < s.len() && #[trigger] remove_ids(s, ids)[k] == s[j],
    decreases s.len(),
{
    if s.len() > 0 {
        let t = s.drop_last();
        assert(registry_ok(t, next)) by {
            assert forall|i: int, j: int| 0 <= i < j < t.len() implies #[trigger] t[i].id
                != #[trigger] t[j].id by {
                assert(t[i] == s[i] && t[j] == s[j]);
            }
            assert forall|i: int| 0 <= i < t.len() implies #[trigger] t[i].id < next by {
                assert(t[i] == s[i]);
            }
            assert forall|i: int|
                0 <= i < t.len() && (#[trigger] t[i]).filter is Pattern implies regex_compiles(
                t[i].filter->Pattern_0,
            ) by {
                assert(t[i] == s[i]);
            }
        }
        lemma_remove_ids_ok(t, ids, next);
        let rt = remove_ids(t, ids);
        let r = remove_ids(s, ids);
        let n = s.len() - 1;
        assert forall|k: int| 0 <= k < rt.len() implies exists|j: int|
            0 <= j < n && #[trigger] rt[k] == s[j] by {
            let j = choose|j: int| 0 <= j < t.len() && #[trigger] rt[k] == t[j];
            assert(t[j] == s[j]);
        }
        if !ids.contains(s.last().id) {
            assert(r == rt.push(s.last()));
            assert forall|k: int| 0 <= k < r.len() implies exists|j: int|
                0 <= j < s.len() && #[trigger] r[k] == s[j] by {
                if k == rt.len() {
                    assert(r[k] == s[n]);
                } else {
                    assert(r[k] == rt[k]);
                    let j = choose|j: int| 0 <= j < n && #[trigger] rt[k] == s[j];
                    assert(r[k] == s[j]);
                }
            }
            assert forall|i: int, j: int| 0 <= i < j < r.len() implies #[trigger] r[i].id
                != #[trigger] r[j].id by {
                if j == rt.len() {
                    assert(r[i] == rt[i]);
                    let a = choose|a: int| 0 <= a < n && #[trigger] rt[i] == s[a];
                    assert(r[j] == s[n]);
                    assert(s[a].id != s[n].id);
                } else {
                    assert(r[i] == rt[i] && r[j] == rt[j]);
                }
            }
            assert forall|i: int| 0 <= i < r.len() implies #[trigger] r[i].id < next by {
                let a = choose|a: int| 0 <= a < s.len() && #[trigger] r[i] == s[a];
            }
            assert forall|i: int|
                0 <= i < r.len() && (#[trigger] r[i]).filter is Pattern implies regex_compiles(
                r[i].filter->Pattern_0,
            ) by {
                let a = choose|a: int| 0 <= a < s.len() && #[trigger] r[i] == s[a];
            }
        } else {
            assert(r == rt);
        }
    }
}

/// Deregistering is idempotent: removing the same ids a second time leaves
/// the subscribers as the first removal left them.
pub proof fn lemma_deregister_idempotent(s: Seq<SubscriberView>, ids: Seq<u64>)
    ensures
        remove_ids(remove_ids(s, ids), ids) == remove_ids(s, ids),
    decreases s.len(),
{
    if s.len() > 0 {
        let t = s.drop_last();
        lemma_deregister_idempotent(t, ids);
        let rt = remove_ids(t, ids);
        if !ids.contains(s.last().id) {
            let r = rt.push(s.last());
            assert(r.drop_last() =~= rt);
        }
    }
}

/// A broadcast with no subscriber reaches nobody, and asks for no message.
pub proof fn lemma_idle_broadcast(reg: WebsocketManager, message: Seq<char>, name: Seq<char>)
    requires
        reg@.len() == 0,
    ensures
        recipients_of(reg@, message, name) == Seq::<u64>::empty(),
{
}

/// A registered subscriber receives a message exactly when its filter lets
/// the message through: always without a pattern, never with a pattern that
/// did not compile, and otherwise when the pattern matches the message.
pub proof fn lemma_recipient_iff_accepted(
    s: Seq<SubscriberView>,
    next: u64,
    message: Seq<char>,
    name: Seq<char>,
    k: int,
)
    requires
        registry_ok(s, next),
        0 <= k < s.len(),
    ensures
        recipients_of(s, message, name).contains(s[k].id) <==> accepts(s[k].filter, message, name),
    decreases s.len(),
{
    lemma_recipients_registered(s, message, name);
    let t = s.drop_last();
    let n = s.len() - 1;
    let rt = recipients_of(t, message, name);
    let r = recipients_of(s, message, name);
    assert(registry_ok(t, next)) by {
        assert forall|i: int, j: int| 0 <= i < j < t.len() implies #[trigger] t[i].id
            != #[trigger] t[j].id by {
            assert(t[i] == s[i] && t[j] == s[j]);
        }
        assert forall|i: int| 0 <= i < t.len() implies #[trigger] t[i].id < next by {
            assert(t[i] == s[i]);
        }
        assert forall|i: int|
            0 <= i < t.len() && (#[trigger] t[i]).filter is Pattern implies regex_compiles(
            t[i].filter->Pattern_0,
        ) by {
            assert(t[i] == s[i]);
        }
    }
    lemma_recipients_registered(t, message, name);
    if k == n {
        // the last subscriber's id occurs nowhere before it
        assert(!rt.contains(s[k].id)) by {
            if rt.contains(s[k].id) {
                let a = choose|a: int| 0 <= a < rt.len() && rt[a] == s[k].id;
                let b = choose|b: int| 0 <= b < t.len() && #[trigger] t[b].id == rt[a];
                assert(t[b] == s[b]);
            }
        }
        if accepts(s.last().filter, message, name) {
            assert(r == rt.push(s[k].id));
            assert(r[rt.len() as int] == s[k].id);
        } else {
            assert(r == rt);
        }
    } else {
        assert(t[k] == s[k]);
        lemma_recipient_iff_accepted(t, next, message, name, k);
        if accepts(s.last().filter, message, name) {
            assert(r == rt.push(s[n].id));
            assert(s[n].id != s[k].id);
            if rt.contains(s[k].id) {
                let a = choose|a: int| 0 <= a < rt.len() && rt[a] == s[k].id;
                assert(r[a] == s[k].id);
            }
            if r.contains(s[k].id) {
                let a = choose|a: int| 0 <= a < r.len() && r[a] == s[k].id;
                assert(a < rt.len());
                assert(rt[a] == s[k].id);
            }
        } else {
            assert(r == rt);
        }
    }
}

/// Every recipient is a registered subscriber.
proof fn lemma_recipients_registered(s: Seq<SubscriberView>, message: Seq<char>, name: Seq<char>)
    ensures
        forall|a: int|
            #![trigger recipients_of(s, message, name)[a]]
            0 <= a < recipients_of(s, message, name).len() ==> exists|b: int|
                0 <= b < s.len() && #[trigger] s[b].id == recipients_of(s, message, name)[a],
    decreases s.len(),
{
    if s.len() > 0 {
        let t = s.drop_last();
        lemma_recipients_registered(t, message, name);
        let rt = recipients_of(t, message, name);
        let r = recipients_of(s, message, name);
        let n = s.len() - 1;
        if accepts(s.last().filter, message, name) {
            assert(r == rt.push(s[n].id));
        } else {
            assert(r == rt);
        }
        assert forall|a: int| #![trigger r[a]] 0 <= a < r.len() implies exists|b: int|
            0 <= b < s.len() && #[trigger] s[b].id == r[a] by {
            if a < rt.len() {
                assert(r[a] == rt[a]);
                let b = choose|b: int| 0 <= b < t.len() && #[trigger] t[b].id == rt[a];
                assert(s[b] == t[b]);
                assert(s[b].id == r[a]);
            } else {
                assert(r[a] == s[n].id);
            }
        }
    } else {
        assert(recipients_of(s, message, name).len() == 0);
    }
}

/// A run inside a run of `m` is a run of `m`.
pub proof fn lemma_contains_trans(m: Seq<char>, n: Seq<char>, p: Seq<char>)
    requires
        contains(m, n),
        contains(n, p),
    ensures
        contains(m, p),
{
    let i = choose|i: int|
        0 <= i && i + n.len() <= m.len() && #[trigger] m.subrange(i, i + n.len()) == n;
    let j = choose|j: int|
        0 <= j && j + p.len() <= n.len() && #[trigger] n.subrange(j, j + p.len()) == p;
    assert forall|t: int| 0 <= t < p.len() implies #[trigger] m.subrange(
        i + j,
        i + j + p.len(),
    )[t] == p[t] by {
        assert(p[t] == n.subrange(j, j + p.len())[t]);
        assert(n[j + t] == m.subrange(i, i + n.len())[j + t]);
    }
    assert(m.subrange(i + j, i + j + p.len()) =~= p);
}

} // verus!
