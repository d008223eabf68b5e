//! The headers that every request carries, as a list of names and values in
//! which a name occurs at most once.

use vstd::prelude::*;

verus! {

/// The desktop-browser user agent that requests present.
pub const USER_AGENT: &'static str = "Mozilla/5.0 (Windows NT 10.0; Win64; x64) AppleWebKit/537.36 (KHTML, like Gecko) Chrome/120.0.0.0 Safari/537.36";

/// The site the requests claim to come from, as `Referer`.
pub const REFERER: &'static str = "https://www.bilibili.com/";

/// The site's origin, as `Origin`.
pub const ORIGIN: &'static str = "https://www.bilibili.com";

/// A header as a name and a value.
pub type HeaderView = (Seq<char>, Seq<char>);

/// No name occurs twice.
pub open spec fn unique_names(h: Seq<HeaderView>) -> bool {
    forall|i: int, j: int| 0 <= i < h.len() && 0 <= j < h.len() && #[trigger] h[i].0 == #[trigger] h[j].0 ==> i == j
}

/// Some entry has the name `name`.
pub open spec fn has_name(h: Seq<HeaderView>, name: Seq<char>) -> bool {
    exists|i: int| 0 <= i < h.len() && #[trigger] h[i].0 == name
}

/// The list after setting `name` to `value`: the entry of that name is
/// overwritten in place, or a new one is appended.
pub open spec fn set_spec(h: Seq<HeaderView>, name: Seq<char>, value: Seq<char>) -> Seq<HeaderView> {
    if has_name(h, name) {
        let i = choose|i: int| 0 <= i < h.len() && #[trigger] h[i].0 == name;
        h.update(i, (name, value))
    } else {
        h.push((name, value))
    }
}

/// The list after adding the user agent.
pub open spec fn with_user_agent_spec(h: Seq<HeaderView>) -> Seq<HeaderView> {
    set_spec(h, "User-Agent"@, USER_AGENT@)
}

/// The list after adding the user agent, `Referer` and `Origin`.
pub open spec fn with_bilibili_headers_spec(h: Seq<HeaderView>) -> Seq<HeaderView> {
    set_spec(set_spec(with_user_agent_spec(h), "Referer"@, REFERER@), "Origin"@, ORIGIN@)
}

/// Some entry is `name` with `value`.
pub open spec fn has_entry(h: Seq<HeaderView>, name: Seq<char>, value: Seq<char>) -> bool {
    exists|i: int| 0 <= i < h.len() && #[trigger] h[i] == (name, value)
}

proof fn lemma_set_unique(h: Seq<HeaderView>, name: Seq<char>, value: Seq<char>)
    requires
        unique_names(h),
    ensures
        unique_names(set_spec(h, name, value)),
        has_entry(set_spec(h, name, value), name, value),
{
    let r = set_spec(h, name, value);
    if has_name(h, name) {
        let i = choose|i: int| 0 <= i < h.len() && #[trigger] h[i].0 == name;
        assert(r[i] == (name, value));
        assert forall|a: int, b: int| 0 <= a < r.len() && 0 <= b < r.len() && #[trigger] r[a].0 == #[trigger] r[b].0 implies a == b by {
            if a != i && b != i {
                assert(h[a].0 == h[b].0);
            } else if a == i && b != i {
                assert(h[b].0 == h[i].0);
            } else if a != i && b == i {
                assert(h[a].0 == h[i].0);
            }
        }
    } else {
        assert(r[h.len() as int] == (name, value));
        assert forall|a: int, b: int| 0 <= a < r.len() && 0 <= b < r.len() && #[trigger] r[a].0 == #[trigger] r[b].0 implies a == b by {
            if a < h.len() && b < h.len() {
                assert(h[a].0 == h[b].0);
            } else if a < h.len() {
                assert(h[a].0 == name);
            } else if b < h.len() {
                assert(h[b].0 == name);
            }
        }
    }
}

proof fn lemma_set_keeps(h: Seq<HeaderView>, name: Seq<char>, value: Seq<char>, n2: Seq<char>, v2: Seq<char>)
    requires
        unique_names(h),
        has_entry(h, n2, v2),
        n2 != name,
    ensures
        has_entry(set_spec(h, name, value), n2, v2),
{
    let r = set_spec(h, name, value);
    let j = choose|j: int| 0 <= j < h.len() && #[trigger] h[j] == (n2, v2);
    if has_name(h, name) {
        let i = choose|i: int| 0 <= i < h.len() && #[trigger] h[i].0 == name;
        assert(i != j);
        assert(r[j] == (n2, v2));
    } else {
        assert(r[j] == (n2, v2));
    }
}

proof fn lemma_set_present(h: Seq<HeaderView>, name: Seq<char>, value: Seq<char>)
    requires
        unique_names(h),
        has_entry(h, name, value),
    ensures
        set_spec(h, name, value) == h,
{
    let j = choose|j: int| 0 <= j < h.len() && #[trigger] h[j] == (name, value);
    assert(h[j].0 == name);
    let i = choose|i: int| 0 <= i < h.len() && #[trigger] h[i].0 == name;
    assert(i == j);
    assert(set_spec(h, name, value) =~= h);
}

/// Decorating a list of headers twice gives what decorating it once gives:
/// the second pass only overwrites the three names with the values they
/// already have.
pub proof fn lemma_bilibili_headers_idempotent(h: Seq<HeaderView>)
    requires
        unique_names(h),
    ensures
        with_bilibili_headers_spec(with_bilibili_headers_spec(h)) == with_bilibili_headers_spec(h),
{
    reveal_strlit("User-Agent");
    reveal_strlit("Referer");
    reveal_strlit("Origin");
    let ua = "User-Agent"@;
    let rf = "Referer"@;
    let og = "Origin"@;
    assert(ua != rf && ua != og && rf != og) by {
        assert(ua.len() != rf.len() && ua.len() != og.len() && rf.len() != og.len());
    }
    let g1 = set_spec(h, ua, USER_AGENT@);
    lemma_set_unique(h, ua, USER_AGENT@);
    let g2 = set_spec(g1, rf, REFERER@);
    lemma_set_unique(g1, rf, REFERER@);
    lemma_set_keeps(g1, rf, REFERER@, ua, USER_AGENT@);
    let g = set_spec(g2, og, ORIGIN@);
    lemma_set_unique(g2, og, ORIGIN@);
    lemma_set_keeps(g2, og, ORIGIN@, ua, USER_AGENT@);
    lemma_set_keeps(g2, og, ORIGIN@, rf, REFERER@);
    assert(g == with_bilibili_headers_spec(h));
    lemma_set_present(g, ua, USER_AGENT@);
    lemma_set_present(g, rf, REFERER@);
    lemma_set_present(g, og, ORIGIN@);
}

/// The headers of an outbound request.
#[derive(Debug, Clone)]
pub struct RequestHeaders {
    entries: Vec<(String, String)>,
}

impl View for RequestHeaders {
    type V = Seq<HeaderView>;

    closed spec fn view(&self) -> Seq<HeaderView> {
        self.entries@.map_values(|e: (String, String)| (e.0@, e.1@))
    }
}

impl RequestHeaders {
    pub open spec fn wf(&self) -> bool {
        unique_names(self@)
    }

    /// No headers.
    pub fn new() -> (r: RequestHeaders)
        ensures
            r@ == Seq::<HeaderView>::empty(),
            r.wf(),
    {
        RequestHeaders { entries: Vec::new() }
    }

    /// The entries, in the order they were first set.
    pub fn entries(&self) -> (r: &Vec<(String, String)>)
        ensures
            r@.map_values(|e: (String, String)| (e.0@, e.1@)) == self@,
    {
        &self.entries
    }

    /// Sets `name` to `value`, overwriting an earlier value of that name.
    pub fn set(&mut self, name: &str, value: &str)
        requires
            old(self).wf(),
        ensures
            final(self).wf(),
            final(self)@ == set_spec(old(self)@, name@, value@),
    {
        let key = name.to_owned();
        let n = self.entries.len();
        let mut i: usize = 0;
        while i < n
            invariant
                n == self.entries@.len(),
                i <= n,
                self.wf(),
                *self == *old(self),
                forall|j: int| 0 <= j < i ==> (#[trigger] self@[j]).0 != name@,
                key@ == name@,
            decreases n - i,
        {
            if self.entries[i].0 == key {
                proof {
                    assert(self@[i as int].0 == name@);
                    assert(has_name(self@, name@));
                    let c = choose|c: int| 0 <= c < self@.len() && #[trigger] self@[c].0 == name@;
                    assert(c == i);
                }
                self.entries.set(i, (key, value.to_owned()));
                proof {
                    assert(self@ =~= set_spec(old(self)@, name@, value@));
                }
                return;
            }
            i = i + 1;
        }
        self.entries.push((key, value.to_owned()));
        proof {
            assert(!has_name(old(self)@, name@));
            assert(self@ =~= set_spec(old(self)@, name@, value@));
        }
    }

    /// Adds the desktop-browser user agent.
    pub fn with_user_agent(self) -> (r: RequestHeaders)
        requires
            self.wf(),
        ensures
            r.wf(),
            r@ == with_user_agent_spec(self@),
    {
        let mut h = self;
        h.set("User-Agent", USER_AGENT);
        h
    }

    /// Adds the user agent, a `Referer` of the site and an `Origin` of the
    /// same site. Later values overwrite earlier ones of the same name.
    pub fn with_bilibili_headers(self) -> (r: RequestHeaders)
        requires
            self.wf(),
        ensures
            r.wf(),
            r@ == with_bilibili_headers_spec(self@),
    {
        let mut h = self.with_user_agent();
        h.set("Referer", REFERER);
        h.set("Origin", ORIGIN);
        h
    }
}

} // verus!
