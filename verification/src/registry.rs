//! A runtime registry: a name-to-backend map with unique names.
//!
//! The gateway keeps one registry per capability (chat, embedding,
//! multimodal, image). Reads see a consistent snapshot, removal is
//! idempotent, and inserting an existing name overwrites its entry.
use vstd::prelude::*;

verus! {

/// Which backend implementation stands behind a registry entry.
///
/// The built-in backends are executed by this crate; a provider-loaded
/// backend is executed by the host around it and is identified here by the
/// configuration string it was loaded from.
#[derive(Debug)]
pub enum RuntimeHandle {
    Dummy,
    DummyEmbedding { dimension: usize },
    DummyImage,
    External { config: String },
}

impl RuntimeHandle {
    /// An owned copy of this handle.
    pub fn duplicate(&self) -> (r: RuntimeHandle)
        ensures
            r == *self,
    {
        match self {
            RuntimeHandle::Dummy => RuntimeHandle::Dummy,
            RuntimeHandle::DummyEmbedding { dimension } => RuntimeHandle::DummyEmbedding {
                dimension: *dimension,
            },
            RuntimeHandle::DummyImage => RuntimeHandle::DummyImage,
            RuntimeHandle::External { config } => RuntimeHandle::External {
                config: config.clone(),
            },
        }
    }
}

/// The first handle registered under `name` at or after position `i`.
pub open spec fn find_from(
    s: Seq<(String, RuntimeHandle)>,
    name: Seq<char>,
    i: int,
) -> Option<RuntimeHandle>
    decreases s.len() - i,
{
    if i < 0 || i >= s.len() {
        None
    } else if s[i].0@ == name {
        Some(s[i].1)
    } else {
        find_from(s, name, i + 1)
    }
}

/// A name-to-backend map for one capability.
pub struct Registry {
    entries: Vec<(String, RuntimeHandle)>,
}

impl Registry {
    /// The entries, in registration order.
    pub closed spec fn entries_seq(self) -> Seq<(String, RuntimeHandle)> {
        self.entries@
    }

    /// The handle registered under `name`, if any.
    pub open spec fn spec_lookup(self, name: Seq<char>) -> Option<RuntimeHandle> {
        find_from(self.entries_seq(), name, 0)
    }

    /// The registered names, in registration order.
    pub open spec fn spec_names(self) -> Seq<Seq<char>> {
        Seq::new(self.entries_seq().len(), |i: int| self.entries_seq()[i].0@)
    }

    /// Well-formed: no name is registered twice.
    pub open spec fn wf(self) -> bool {
        forall|i: int, j: int|
            0 <= i < j < self.entries_seq().len() ==> self.entries_seq()[i].0@
                != self.entries_seq()[j].0@
    }

    /// An empty registry.
    pub fn new() -> (r: Registry)
        ensures
            r.wf(),
            forall|m: Seq<char>| r.spec_lookup(m) is None,
            r.spec_names() == Seq::<Seq<char>>::empty(),
    {
        let r = Registry { entries: Vec::new() };
        proof {
            assert(r.spec_names() =~= Seq::<Seq<char>>::empty());
        }
        r
    }

    /// Look a name up; `None` when it is not registered.
    pub fn lookup(&self, name: &String) -> (r: Option<&RuntimeHandle>)
        ensures
            match r {
                Some(h) => self.spec_lookup(name@) == Some(*h),
                None => self.spec_lookup(name@) is None,
            },
    {
        let n = self.entries.len();
        let mut i: usize = 0;
        while i < n
            invariant
                n == self.entries@.len(),
                0 <= i <= n,
                find_from(self.entries@, name@, 0) == find_from(self.entries@, name@, i as int),
            decreases n - i,
        {
            if self.entries[i].0 == *name {
                return Some(&self.entries[i].1);
            }
            i = i + 1;
        }
        None
    }

    /// Whether a name is registered.
    pub fn contains(&self, name: &String) -> (r: bool)
        ensures
            r == (self.spec_lookup(name@) is Some),
    {
        self.lookup(name).is_some()
    }

    /// Register `handle` under `name`, replacing any previous entry.
    pub fn insert(&mut self, name: String, handle: RuntimeHandle)
        requires
            old(self).wf(),
        ensures
            final(self).wf(),
            forall|m: Seq<char>|
                final(self).spec_lookup(m) == if m == name@ {
                    Some(handle)
                } else {
                    old(self).spec_lookup(m)
                },
            forall|m: Seq<char>|
                final(self).spec_names().contains(m) <==> (m == name@
                    || old(self).spec_names().contains(m)),
    {
        let ghost gname = name@;
        let ghost ghandle = handle;
        self.remove(&name);
        proof {
            lemma_find_absent_all(self.entries@, gname);
        }
        let ghost pre = self.entries@;
        self.entries.push((name, handle));
        proof {
            let e = self.entries@[pre.len() as int];
            assert(self.entries@ == pre.push(e));
            assert(e.0@ == gname && e.1 == ghandle);
            assert forall|i: int, j: int|
                0 <= i < j < self.entries@.len() implies self.entries@[i].0@
                != self.entries@[j].0@ by {
                if j < pre.len() {
                    assert(self.entries@[i] == pre[i] && self.entries@[j] == pre[j]);
                } else {
                    assert(self.entries@[i] == pre[i]);
                }
            }
            assert forall|m: Seq<char>| #[trigger] find_from(self.entries@, m, 0) == (if m == gname {
                Some(ghandle)
            } else {
                find_from(pre, m, 0)
            }) by {
                lemma_find_push(pre, e, m, 0);
            }
            assert forall|m: Seq<char>| #[trigger] self.spec_names().contains(m) <==> (m == gname
                || old(self).spec_names().contains(m)) by {
                lemma_names_push(pre, e, m);
                assert(Seq::new(self.entries@.len(), |i: int| self.entries@[i].0@) =~= Seq::new(
                    pre.push(e).len(),
                    |i: int| pre.push(e)[i].0@,
                ));
            }
        }
    }

    /// Remove the entry under `name`; removing an absent name is a no-op.
    pub fn remove(&mut self, name: &String)
        requires
            old(self).wf(),
        ensures
            final(self).wf(),
            final(self).spec_lookup(name@) is None,
            forall|m: Seq<char>|
                m != name@ ==> final(self).spec_lookup(m) == old(self).spec_lookup(m),
            forall|m: Seq<char>|
                final(self).spec_names().contains(m) <==> (m != name@ && old(
                    self,
                ).spec_names().contains(m)),
    {
        let n = self.entries.len();
        let mut i: usize = 0;
        while i < n
            invariant
                old(self).wf(),
                self.entries@ == old(self).entries@,
                n == self.entries@.len(),
                0 <= i <= n,
                forall|j: int| 0 <= j < i ==> self.entries@[j].0@ != name@,
            decreases n - i,
        {
            if self.entries[i].0 == *name {
                let ghost pre = self.entries@;
                self.entries.remove(i);
                proof {
                    lemma_find_remove(pre, i as int, name@);
                    assert forall|m: Seq<char>| #[trigger] self.spec_names().contains(m) <==> (m
                        != name@ && old(self).spec_names().contains(m)) by {
                        lemma_names_remove(pre, i as int, m);
                    }
                }
                return ;
            }
            i = i + 1;
        }
        proof {
            lemma_find_beyond_absent(self.entries@, name@);
            assert forall|m: Seq<char>| #[trigger] self.spec_names().contains(m) <==> (m != name@
                && old(self).spec_names().contains(m)) by {
                if self.spec_names().contains(m) {
                    let k = choose|k: int|
                        0 <= k < self.spec_names().len() && self.spec_names()[k] == m;
                    assert(self.entries@[k].0@ == m);
                }
            }
        }
    }

    /// The registered names, in registration order.
    pub fn names(&self) -> (r: Vec<String>)
        ensures
            r@.len() == self.spec_names().len(),
            forall|i: int| 0 <= i < r@.len() ==> r@[i]@ == self.spec_names()[i],
    {
        let n = self.entries.len();
        let mut r: Vec<String> = Vec::new();
        let mut i: usize = 0;
        while i < n
            invariant
                n == self.entries@.len(),
                0 <= i <= n,
                r@.len() == i,
                forall|j: int| 0 <= j < i ==> r@[j]@ == self.entries@[j].0@,
            decreases n - i,
        {
            r.push(self.entries[i].0.clone());
            i = i + 1;
        }
        r
    }
}

/// A name found by `find_from` is one of the registered names, and the other
/// way round.
pub proof fn lemma_find_some_iff_name(s: Seq<(String, RuntimeHandle)>, name: Seq<char>, i: int)
    requires
        0 <= i <= s.len(),
    ensures
        find_from(s, name, i) is Some <==> exists|j: int| i <= j < s.len() && s[j].0@ == name,
    decreases s.len() - i,
{
    if i < s.len() {
        lemma_find_some_iff_name(s, name, i + 1);
    }
}

/// When no entry carries `name`, the search from any start fails.
proof fn lemma_find_beyond_absent(s: Seq<(String, RuntimeHandle)>, name: Seq<char>)
    requires
        forall|j: int| 0 <= j < s.len() ==> s[j].0@ != name,
    ensures
        find_from(s, name, 0) is None,
{
    lemma_find_some_iff_name(s, name, 0);
}

/// After a successful removal of the only entry named `name`, looking
/// `name` up fails and every other name is unaffected.
proof fn lemma_find_remove(s: Seq<(String, RuntimeHandle)>, i: int, name: Seq<char>)
    requires
        0 <= i < s.len(),
        s[i].0@ == name,
        forall|j1: int, j2: int| 0 <= j1 < j2 < s.len() ==> s[j1].0@ != s[j2].0@,
    ensures
        find_from(s.remove(i), name, 0) is None,
        forall|m: Seq<char>|
            m != name ==> #[trigger] find_from(s.remove(i), m, 0) == find_from(s, m, 0),
{
    let t = s.remove(i);
    assert forall|j: int| 0 <= j < t.len() implies t[j].0@ != name by {
        if j < i {
            assert(t[j] == s[j]);
        } else {
            assert(t[j] == s[j + 1]);
        }
    }
    lemma_find_beyond_absent(t, name);
    assert forall|m: Seq<char>| m != name implies #[trigger] find_from(t, m, 0) == find_from(
        s,
        m,
        0,
    ) by {
        lemma_find_remove_other(s, i, m, 0);
    }
}

/// Removing position `i` leaves the search for any other name unchanged,
/// seen from any start position.
proof fn lemma_find_remove_other(s: Seq<(String, RuntimeHandle)>, i: int, m: Seq<char>, k: int)
    requires
        0 <= i < s.len(),
        0 <= k <= s.len(),
        m != s[i].0@,
    ensures
        find_from(s.remove(i), m, if k <= i {
            k
        } else {
            k - 1
        }) == find_from(s, m, k),
    decreases s.len() - k,
{
    let t = s.remove(i);
    if k < s.len() {
        lemma_find_remove_other(s, i, m, k + 1);
        if k < i {
            assert(t[k] == s[k]);
        } else if k > i {
            assert(t[k - 1] == s[k]);
        }
    }
}

/// Appending an entry whose name is absent changes only that name's search.
proof fn lemma_find_push(
    s: Seq<(String, RuntimeHandle)>,
    e: (String, RuntimeHandle),
    m: Seq<char>,
    k: int,
)
    requires
        forall|j: int| 0 <= j < s.len() ==> s[j].0@ != e.0@,
        0 <= k <= s.len(),
    ensures
        find_from(s.push(e), m, k) == if m == e.0@ {
            Some(e.1)
        } else {
            find_from(s, m, k)
        },
    decreases s.len() - k,
{
    let t = s.push(e);
    if k < s.len() {
        assert(t[k] == s[k]);
        lemma_find_push(s, e, m, k + 1);
    } else {
        assert(t[k] == e);
        assert(find_from(s, m, k) is None);
        if m == e.0@ {
            assert(find_from(t, m, k) == Some(e.1));
        } else {
            assert(find_from(t, m, k) == find_from(t, m, k + 1));
            assert(find_from(t, m, k + 1) is None);
        }
    }
}

/// When every entry named `name` is gone, none remains at any position.
proof fn lemma_find_absent_all(s: Seq<(String, RuntimeHandle)>, name: Seq<char>)
    requires
        find_from(s, name, 0) is None,
    ensures
        forall|j: int| 0 <= j < s.len() ==> s[j].0@ != name,
{
    lemma_find_some_iff_name(s, name, 0);
}

/// Membership in the name list after appending an entry.
proof fn lemma_names_push(s: Seq<(String, RuntimeHandle)>, e: (String, RuntimeHandle), m: Seq<char>)
    ensures
        Seq::new(s.push(e).len(), |i: int| s.push(e)[i].0@).contains(m) <==> (m == e.0@ || Seq::new(
            s.len(),
            |i: int| s[i].0@,
        ).contains(m)),
{
    let names0 = Seq::new(s.len(), |i: int| s[i].0@);
    let names1 = Seq::new(s.push(e).len(), |i: int| s.push(e)[i].0@);
    if m == e.0@ {
        assert(names1[s.len() as int] == m);
    }
    if names0.contains(m) {
        let k = choose|k: int| 0 <= k < names0.len() && names0[k] == m;
        assert(names1[k] == m);
    }
    if names1.contains(m) && m != e.0@ {
        let k = choose|k: int| 0 <= k < names1.len() && names1[k] == m;
        assert(names0[k] == m);
    }
}

/// Membership in the name list after removing position `i`, when names are
/// unique.
proof fn lemma_names_remove(s: Seq<(String, RuntimeHandle)>, i: int, m: Seq<char>)
    requires
        0 <= i < s.len(),
        forall|j1: int, j2: int| 0 <= j1 < j2 < s.len() ==> s[j1].0@ != s[j2].0@,
    ensures
        Seq::new(s.remove(i).len(), |k: int| s.remove(i)[k].0@).contains(m) <==> (m != s[i].0@
            && Seq::new(s.len(), |k: int| s[k].0@).contains(m)),
{
    let t = s.remove(i);
    let names0 = Seq::new(s.len(), |k: int| s[k].0@);
    let names1 = Seq::new(t.len(), |k: int| t[k].0@);
    if names1.contains(m) {
        let k = choose|k: int| 0 <= k < names1.len() && names1[k] == m;
        if k < i {
            assert(names0[k] == m);
            assert(s[k].0@ != s[i].0@);
        } else {
            assert(t[k] == s[k + 1]);
            assert(names0[k + 1] == m);
            assert(s[i].0@ != s[k + 1].0@);
        }
    }
    if m != s[i].0@ && names0.contains(m) {
        let k = choose|k: int| 0 <= k < names0.len() && names0[k] == m;
        if k < i {
            assert(t[k] == s[k]);
            assert(names1[k] == m);
        } else {
            assert(k > i);
            assert(t[k - 1] == s[k]);
            assert(names1[k - 1] == m);
        }
    }
}

} // verus!
