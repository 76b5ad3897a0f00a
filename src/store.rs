use vstd::prelude::*;
use crate::registry::ProviderId;
use crate::session::KeyAttributes;
use crate::status::Status;

verus! {

/// The identity of a key as clients see it: application, backend and key name.
#[derive(Debug)]
pub struct KeyTriple {
    pub app_name: String,
    pub provider_id: ProviderId,
    pub key_name: String,
}

pub type TripleView = (Seq<char>, ProviderId, Seq<char>);

impl View for KeyTriple {
    type V = TripleView;

    open spec fn view(&self) -> TripleView {
        (self.app_name@, self.provider_id, self.key_name@)
    }
}

impl KeyTriple {
    pub fn new(app_name: String, provider_id: ProviderId, key_name: String) -> (r: KeyTriple)
        ensures
            r@ == (app_name@, provider_id, key_name@),
    {
        KeyTriple { app_name, provider_id, key_name }
    }

    pub fn duplicate(&self) -> (r: KeyTriple)
        ensures
            r@ == self@,
    {
        KeyTriple {
            app_name: self.app_name.clone(),
            provider_id: self.provider_id,
            key_name: self.key_name.clone(),
        }
    }

    pub fn same_as(&self, other: &KeyTriple) -> (r: bool)
        ensures
            r == (self@ == other@),
    {
        self.provider_id == other.provider_id && self.app_name == other.app_name
            && self.key_name == other.key_name
    }
}

/// What the store holds for a key: the backend's id for it and its attributes.
#[derive(Clone, Copy, Debug, PartialEq, Eq, Structural)]
pub struct KeyRecord {
    pub id: u32,
    pub attributes: KeyAttributes,
}

pub type Entry = (TripleView, KeyRecord);

/// The map that a sequence of entries stands for.
pub open spec fn to_map(s: Seq<Entry>) -> Map<TripleView, KeyRecord>
    decreases s.len(),
{
    if s.len() == 0 {
        Map::empty()
    } else {
        to_map(s.drop_last()).insert(s.last().0, s.last().1)
    }
}

pub open spec fn keys_unique(s: Seq<Entry>) -> bool {
    forall|i: int, j: int| 0 <= i < j < s.len() ==> s[i].0 != s[j].0
}

proof fn lemma_to_map_dom(s: Seq<Entry>, k: TripleView)
    ensures
        to_map(s).contains_key(k) <==> exists|i: int| 0 <= i < s.len() && s[i].0 == k,
    decreases s.len(),
{
    if s.len() > 0 {
        lemma_to_map_dom(s.drop_last(), k);
        if exists|i: int| 0 <= i < s.len() - 1 && s.drop_last()[i].0 == k {
            let i = choose|i: int| 0 <= i < s.len() - 1 && s.drop_last()[i].0 == k;
            assert(s[i].0 == k);
        }
        if exists|i: int| 0 <= i < s.len() && s[i].0 == k {
            let i = choose|i: int| 0 <= i < s.len() && s[i].0 == k;
            if i < s.len() - 1 {
                assert(s.drop_last()[i].0 == k);
            }
        }
    }
}

proof fn lemma_to_map_at(s: Seq<Entry>, i: int)
    requires
        keys_unique(s),
        0 <= i < s.len(),
    ensures
        to_map(s).contains_key(s[i].0),
        to_map(s)[s[i].0] == s[i].1,
    decreases s.len(),
{
    if i < s.len() - 1 {
        lemma_to_map_at(s.drop_last(), i);
    }
}

proof fn lemma_take_step(s: Seq<Entry>, j: int)
    requires
        0 <= j < s.len(),
    ensures
        to_map(s.take(j + 1)) == to_map(s.take(j)).insert(s[j].0, s[j].1),
{
    assert(s.take(j + 1).drop_last() =~= s.take(j));
}

/// Whether a listing holds the key name `n` on backend `p`.
pub open spec fn listed(r: Seq<(String, ProviderId)>, n: Seq<char>, p: ProviderId) -> bool {
    exists|a: int| 0 <= a < r.len() && r[a].0@ == n && r[a].1 == p
}

/// Whether a list of names holds `n`.
pub open spec fn holds_name(r: Seq<String>, n: Seq<char>) -> bool {
    exists|a: int| 0 <= a < r.len() && r[a]@ == n
}

/// `r` lists exactly the key names, with their backend, that `app` holds in `m`.
pub open spec fn key_listing(
    m: Map<TripleView, KeyRecord>,
    app: Seq<char>,
    r: Seq<(String, ProviderId)>,
) -> bool {
    forall|n: Seq<char>, p: ProviderId| listed(r, n, p) <==> m.contains_key((app, p, n))
}

/// `r` lists, once each, exactly the applications that hold a record in `m`.
pub open spec fn app_listing(m: Map<TripleView, KeyRecord>, r: Seq<String>) -> bool {
    &&& forall|a: int, b: int| 0 <= a < b < r.len() ==> r[a]@ != r[b]@
    &&& forall|n: Seq<char>|
        holds_name(r, n) <==> exists|t: TripleView| #[trigger] m.contains_key(t) && t.0 == n
}

/// The records of `m` that do not belong to `app`.
pub open spec fn without_app(m: Map<TripleView, KeyRecord>, app: Seq<char>) -> Map<
    TripleView,
    KeyRecord,
> {
    m.restrict(Set::new(|t: TripleView| t.0 != app))
}

/// Whether `retain_except` takes out the entry of identity `t`.
pub open spec fn dropped(t: TripleView, k: TripleView, whole_app: bool) -> bool {
    if whole_app {
        t.0 == k.0
    } else {
        t == k
    }
}

/// The persistent namespace of keys.
pub struct KeyInfoStore {
    entries: Vec<(KeyTriple, KeyRecord)>,
}

pub open spec fn entry_view(e: (KeyTriple, KeyRecord)) -> Entry {
    (e.0@, e.1)
}

impl KeyInfoStore {
    pub closed spec fn entries_view(&self) -> Seq<Entry> {
        self.entries@.map_values(|e: (KeyTriple, KeyRecord)| entry_view(e))
    }

    /// No identity appears twice.
    pub closed spec fn wf(&self) -> bool {
        keys_unique(self.entries_view())
    }

    /// The store as a map from key identity to record.
    pub closed spec fn view(&self) -> Map<TripleView, KeyRecord> {
        to_map(self.entries_view())
    }

    /// What `lookup` returns for an identity.
    pub open spec fn lookup_result(&self, k: TripleView) -> Result<KeyRecord, Status> {
        if self.view().contains_key(k) {
            Ok(self.view()[k])
        } else {
            Err(Status::KeyNotFound)
        }
    }

    /// What `insert` returns for an identity.
    pub open spec fn insert_result(&self, k: TripleView) -> Result<(), Status> {
        if self.view().contains_key(k) {
            Err(Status::AlreadyExists)
        } else {
            Ok(())
        }
    }

    /// The map after `insert` of a record under an identity.
    pub open spec fn insert_view(&self, k: TripleView, rec: KeyRecord) -> Map<TripleView, KeyRecord> {
        if self.view().contains_key(k) {
            self.view()
        } else {
            self.view().insert(k, rec)
        }
    }

    /// What `remove` returns for an identity.
    pub open spec fn remove_result(&self, k: TripleView) -> Result<(), Status> {
        if self.view().contains_key(k) {
            Ok(())
        } else {
            Err(Status::KeyNotFound)
        }
    }

    pub fn new() -> (r: KeyInfoStore)
        ensures
            r.wf(),
            r.view() == Map::<TripleView, KeyRecord>::empty(),
    {
        let r = KeyInfoStore { entries: Vec::new() };
        proof {
            assert(r.entries_view() =~= Seq::<Entry>::empty());
        }
        r
    }

    fn find(&self, k: &KeyTriple) -> (r: Option<usize>)
        requires
            self.wf(),
        ensures
            r is None <==> !self.view().contains_key(k@),
            r matches Some(i) ==> i < self.entries@.len() && self.entries_view()[i as int].0 == k@
                && self.view()[k@] == self.entries_view()[i as int].1,
    {
        let mut i: usize = 0;
        while i < self.entries.len()
            invariant
                self.wf(),
                0 <= i <= self.entries@.len(),
                forall|j: int| 0 <= j < i ==> self.entries_view()[j].0 != k@,
            decreases self.entries@.len() - i,
        {
            if self.entries[i].0.same_as(k) {
                proof {
                    lemma_to_map_at(self.entries_view(), i as int);
                }
                return Some(i);
            }
            i = i + 1;
        }
        proof {
            lemma_to_map_dom(self.entries_view(), k@);
        }
        None
    }

    /// The record stored under an identity; `KeyNotFound` where there is none.
    pub fn lookup(&self, k: &KeyTriple) -> (r: Result<KeyRecord, Status>)
        requires
            self.wf(),
        ensures
            r == self.lookup_result(k@),
    {
        match self.find(k) {
            Some(i) => Ok(self.entries[i].1),
            None => Err(Status::KeyNotFound),
        }
    }

    /// Whether an identity has a record.
    pub fn contains(&self, k: &KeyTriple) -> (r: bool)
        requires
            self.wf(),
        ensures
            r == self.view().contains_key(k@),
    {
        self.find(k).is_some()
    }

    /// Records a key under a new identity; `AlreadyExists` where it has one.
    pub fn insert(&mut self, k: KeyTriple, rec: KeyRecord) -> (r: Result<(), Status>)
        requires
            old(self).wf(),
        ensures
            final(self).wf(),
            old(self).view().contains_key(k@) ==> r == Err::<(), Status>(Status::AlreadyExists)
                && final(self).view() == old(self).view(),
            !old(self).view().contains_key(k@) ==> r == Ok::<(), Status>(())
                && final(self).view() == old(self).view().insert(k@, rec),
    {
        if self.find(&k).is_some() {
            return Err(Status::AlreadyExists);
        }
        proof {
            lemma_to_map_dom(self.entries_view(), k@);
        }
        let ghost before = self.entries_view();
        let ghost kv = k@;
        self.entries.push((k, rec));
        proof {
            assert(self.entries_view() =~= before.push((kv, rec)));
            assert(self.entries_view().drop_last() =~= before);
        }
        Ok(())
    }

    /// Keeps the entries whose identity is not `k`, or whose application is not
    /// `app` when `whole_app` holds.
    fn retain_except(&mut self, k: &KeyTriple, whole_app: bool)
        requires
            old(self).wf(),
        ensures
            final(self).wf(),
            final(self).view() == Map::new(
                |t: TripleView|
                    old(self).view().contains_key(t) && !dropped(t, k@, whole_app),
                |t: TripleView| old(self).view()[t],
            ),
    {
        let ghost s = self.entries_view();
        let mut kept: Vec<(KeyTriple, KeyRecord)> = Vec::new();
        let mut j: usize = 0;
        while j < self.entries.len()
            invariant
                self.entries_view() == s,
                keys_unique(s),
                0 <= j <= s.len(),
                keys_unique(kept@.map_values(|e: (KeyTriple, KeyRecord)| entry_view(e))),
                forall|t: TripleView|
                    to_map(kept@.map_values(|e: (KeyTriple, KeyRecord)| entry_view(e))).contains_key(t)
                        ==> to_map(s.take(j as int)).contains_key(t),
                to_map(kept@.map_values(|e: (KeyTriple, KeyRecord)| entry_view(e))) =~= Map::new(
                    |t: TripleView| to_map(s.take(j as int)).contains_key(t) && !dropped(t, k@, whole_app),
                    |t: TripleView| to_map(s.take(j as int))[t],
                ),
            decreases s.len() - j,
        {
            let ghost kv = kept@.map_values(|e: (KeyTriple, KeyRecord)| entry_view(e));
            proof {
                lemma_take_step(s, j as int);
                assert(s[j as int] == entry_view(self.entries@[j as int]));
            }
            let e = &self.entries[j];
            let hit = if whole_app {
                e.0.app_name == k.app_name
            } else {
                e.0.same_as(k)
            };
            proof {
                assert(s[j as int].0 == e.0@);
                if whole_app {
                    assert(hit == (e.0.app_name@ == k.app_name@));
                    assert(dropped(s[j as int].0, k@, whole_app) == (s[j as int].0.0 == k@.0));
                } else {
                    assert(dropped(s[j as int].0, k@, whole_app) == (s[j as int].0 == k@));
                }
                assert(hit == dropped(s[j as int].0, k@, whole_app));
            }
            if !hit {
                let t = e.0.duplicate();
                let rec = e.1;
                proof {
                    lemma_to_map_dom(s.take(j as int), s[j as int].0);
                    lemma_to_map_dom(kv, s[j as int].0);
                    if exists|i: int| 0 <= i < j && s.take(j as int)[i].0 == s[j as int].0 {
                        let i = choose|i: int| 0 <= i < j && s.take(j as int)[i].0 == s[j as int].0;
                        assert(s[i].0 == s[j as int].0);
                    }
                }
                kept.push((t, rec));
                proof {
                    let nv = kept@.map_values(|e: (KeyTriple, KeyRecord)| entry_view(e));
                    assert(nv =~= kv.push(s[j as int]));
                    assert(nv.drop_last() =~= kv);
                    assert(!dropped(s[j as int].0, k@, whole_app));
                    assert(to_map(nv) =~= Map::new(
                        |t: TripleView| to_map(s.take(j + 1)).contains_key(t) && !dropped(t, k@, whole_app),
                        |t: TripleView| to_map(s.take(j + 1))[t],
                    ));
                    assert forall|a: int, b: int| 0 <= a < b < nv.len() implies nv[a].0 != nv[b].0 by {
                        if b == nv.len() - 1 {
                            assert(kv[a].0 == nv[a].0);
                            lemma_to_map_dom(kv, nv[a].0);
                        }
                    }
                }
            }
            else {
                proof {
                    assert(dropped(s[j as int].0, k@, whole_app));
                    assert(to_map(kv) =~= Map::new(
                        |t: TripleView| to_map(s.take(j + 1)).contains_key(t) && !dropped(t, k@, whole_app),
                        |t: TripleView| to_map(s.take(j + 1))[t],
                    ));
                }
            }
            j = j + 1;
        }
        proof {
            assert(s.take(s.len() as int) =~= s);
        }
        self.entries = kept;
    }

    /// Removes the record of an identity; `KeyNotFound` where there is none.
    pub fn remove(&mut self, k: &KeyTriple) -> (r: Result<(), Status>)
        requires
            old(self).wf(),
        ensures
            final(self).wf(),
            old(self).view().contains_key(k@) ==> r == Ok::<(), Status>(())
                && final(self).view() == old(self).view().remove(k@),
            !old(self).view().contains_key(k@) ==> r == Err::<(), Status>(Status::KeyNotFound)
                && final(self).view() == old(self).view(),
    {
        if self.find(k).is_none() {
            return Err(Status::KeyNotFound);
        }
        let ghost before = self.view();
        self.retain_except(k, false);
        proof {
            assert(self.view() =~= before.remove(k@));
        }
        Ok(())
    }

    /// Removes every record that belongs to an application, on every backend.
    pub fn remove_all_for_application(&mut self, app_name: &String)
        requires
            old(self).wf(),
        ensures
            final(self).wf(),
            final(self).view() == without_app(old(self).view(), app_name@),
    {
        let k = KeyTriple {
            app_name: app_name.clone(),
            provider_id: ProviderId::Core,
            key_name: String::new(),
        };
        let ghost before = self.view();
        self.retain_except(&k, true);
        proof {
            assert(self.view() =~= before.restrict(Set::new(|t: TripleView| t.0 != app_name@)));
        }
    }

    /// The key names, with their backend, that an application holds.
    pub fn list_for_application(&self, app_name: &String) -> (r: Vec<(String, ProviderId)>)
        requires
            self.wf(),
        ensures
            key_listing(self.view(), app_name@, r@),
    {
        let ghost s = self.entries_view();
        let mut out: Vec<(String, ProviderId)> = Vec::new();
        let mut j: usize = 0;
        while j < self.entries.len()
            invariant
                self.entries_view() == s,
                0 <= j <= s.len(),
                forall|n: Seq<char>, p: ProviderId|
                    listed(out@, n, p) <==> exists|i: int|
                        0 <= i < j && #[trigger] s[i].0 == (app_name@, p, n),
            decreases s.len() - j,
        {
            let e = &self.entries[j];
            proof {
                assert(s[j as int] == entry_view(self.entries@[j as int]));
            }
            if e.0.app_name == *app_name {
                let ghost before = out@;
                out.push((e.0.key_name.clone(), e.0.provider_id));
                proof {
                    assert forall|n: Seq<char>, p: ProviderId|
                        listed(out@, n, p) <==> exists|i: int|
                            0 <= i < j + 1 && #[trigger] s[i].0 == (app_name@, p, n) by {
                        if listed(out@, n, p) {
                            let a = choose|a: int|
                                0 <= a < out@.len() && out@[a].0@ == n && out@[a].1 == p;
                            if a < before.len() {
                                assert(listed(before, n, p));
                            } else {
                                assert(s[j as int].0 == (app_name@, p, n));
                            }
                        }
                        if exists|i: int| 0 <= i < j + 1 && #[trigger] s[i].0 == (app_name@, p, n) {
                            let i = choose|i: int|
                                0 <= i < j + 1 && #[trigger] s[i].0 == (app_name@, p, n);
                            if i < j {
                                assert(listed(before, n, p));
                                let a = choose|a: int|
                                    0 <= a < before.len() && before[a].0@ == n && before[a].1 == p;
                                assert(out@[a] == before[a]);
                            } else {
                                assert(out@[before.len() as int].0@ == n);
                            }
                        }
                    }
                }
            } else {
                proof {
                    assert forall|n: Seq<char>, p: ProviderId|
                        listed(out@, n, p) <==> exists|i: int|
                            0 <= i < j + 1 && #[trigger] s[i].0 == (app_name@, p, n) by {
                        if exists|i: int| 0 <= i < j + 1 && #[trigger] s[i].0 == (app_name@, p, n) {
                            let i = choose|i: int|
                                0 <= i < j + 1 && #[trigger] s[i].0 == (app_name@, p, n);
                            assert(i != j);
                        }
                    }
                }
            }
            j = j + 1;
        }
        proof {
            assert forall|n: Seq<char>, p: ProviderId|
                listed(out@, n, p) <==> self.view().contains_key((app_name@, p, n)) by {
                lemma_to_map_dom(s, (app_name@, p, n));
            }
        }
        out
    }

    /// The distinct applications that hold at least one record.
    pub fn list_applications(&self) -> (r: Vec<String>)
        requires
            self.wf(),
        ensures
            app_listing(self.view(), r@),
    {
        let ghost s = self.entries_view();
        let mut out: Vec<String> = Vec::new();
        let mut j: usize = 0;
        while j < self.entries.len()
            invariant
                self.entries_view() == s,
                0 <= j <= s.len(),
                forall|a: int, b: int| 0 <= a < b < out@.len() ==> out@[a]@ != out@[b]@,
                forall|n: Seq<char>|
                    holds_name(out@, n) <==> exists|i: int| 0 <= i < j && #[trigger] s[i].0.0 == n,
            decreases s.len() - j,
        {
            let e = &self.entries[j];
            proof {
                assert(s[j as int] == entry_view(self.entries@[j as int]));
            }
            let mut seen = false;
            let mut m: usize = 0;
            while m < out.len()
                invariant
                    0 <= m <= out@.len(),
                    seen == exists|a: int| 0 <= a < m && out@[a]@ == e.0.app_name@,
                decreases out@.len() - m,
            {
                if out[m] == e.0.app_name {
                    seen = true;
                }
                m = m + 1;
            }
            let ghost before = out@;
            if !seen {
                out.push(e.0.app_name.clone());
            }
            proof {
                assert forall|n: Seq<char>|
                    holds_name(out@, n) <==> exists|i: int|
                        0 <= i < j + 1 && #[trigger] s[i].0.0 == n by {
                    if holds_name(out@, n) {
                        let a = choose|a: int| 0 <= a < out@.len() && out@[a]@ == n;
                        if a < before.len() {
                            assert(holds_name(before, n));
                        } else {
                            assert(s[j as int].0.0 == n);
                        }
                    }
                    if exists|i: int| 0 <= i < j + 1 && #[trigger] s[i].0.0 == n {
                        let i = choose|i: int| 0 <= i < j + 1 && #[trigger] s[i].0.0 == n;
                        if i < j {
                            assert(holds_name(before, n));
                            let a = choose|a: int| 0 <= a < before.len() && before[a]@ == n;
                            assert(out@[a] == before[a]);
                        } else if seen {
                            let a = choose|a: int| 0 <= a < before.len() && before[a]@ == n;
                            assert(out@[a] == before[a]);
                        } else {
                            assert(out@[before.len() as int]@ == n);
                        }
                    }
                }
            }
            j = j + 1;
        }
        proof {
            assert forall|n: Seq<char>|
                holds_name(out@, n) <==> exists|t: TripleView|
                    #[trigger] self.view().contains_key(t) && t.0 == n by {
                if holds_name(out@, n) {
                    let i = choose|i: int| 0 <= i < j && #[trigger] s[i].0.0 == n;
                    lemma_to_map_dom(s, s[i].0);
                    assert(self.view().contains_key(s[i].0));
                }
                if exists|t: TripleView| #[trigger] self.view().contains_key(t) && t.0 == n {
                    let t = choose|t: TripleView| #[trigger] self.view().contains_key(t) && t.0 == n;
                    lemma_to_map_dom(s, t);
                    let i = choose|i: int| 0 <= i < s.len() && s[i].0 == t;
                    assert(s[i].0.0 == n);
                }
            }
        }
        out
    }
}

/// A record inserted under a new identity is what a lookup of that identity
/// then returns; once removed, the lookup fails with `KeyNotFound`.
pub proof fn lemma_insert_then_lookup(
    s0: KeyInfoStore,
    s1: KeyInfoStore,
    s2: KeyInfoStore,
    k: TripleView,
    rec: KeyRecord,
)
    requires
        s0.wf(),
        s0.insert_result(k) is Ok,
        s1.view() == s0.insert_view(k, rec),
        s2.view() == s1.view().remove(k),
    ensures
        s1.lookup_result(k) == Ok::<KeyRecord, Status>(rec),
        s2.lookup_result(k) == Err::<KeyRecord, Status>(Status::KeyNotFound),
{
}

/// Once every record of an application is removed, listing its keys yields
/// nothing, on any backend.
pub proof fn lemma_remove_all_empties_listing(
    m: Map<TripleView, KeyRecord>,
    app: Seq<char>,
    r: Seq<(String, ProviderId)>,
)
    requires
        key_listing(without_app(m, app), app, r),
    ensures
        r.len() == 0,
{
    if r.len() > 0 {
        assert(listed(r, r[0].0@, r[0].1));
    }
}

} // verus!
