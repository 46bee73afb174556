//! The NetworkTables client's table of topics: the channel of each subscribed topic, by name,
//! and the name of each announced topic, by the id the server gave it.
use vstd::prelude::*;

verus! {

/// Whether some entry of `s` has key `k`.
pub open spec fn keyed<K, V>(s: Seq<(K, V)>, k: K) -> bool {
    exists|i: int| 0 <= i < s.len() && #[trigger] s[i].0 == k
}

/// Whether no two entries of `s` share a key.
pub open spec fn keys_unique<K, V>(s: Seq<(K, V)>) -> bool {
    forall|i: int, j: int| 0 <= i < j < s.len() ==> s[i].0 != s[j].0
}

/// The entries of `s` as a map from key to value.
pub open spec fn assoc<K, V>(s: Seq<(K, V)>) -> Map<K, V> {
    Map::new(
        |k: K| keyed(s, k),
        |k: K| s[choose|i: int| 0 <= i < s.len() && #[trigger] s[i].0 == k].1,
    )
}

/// The entries of a list of named channels, each name taken by its view.
pub open spec fn name_entries<S>(s: Seq<(String, S)>) -> Seq<(Seq<char>, S)> {
    s.map_values(|e: (String, S)| (e.0@, e.1))
}

/// The entries of a list of named ids, each name taken by its view.
pub open spec fn id_entries(s: Seq<(u32, String)>) -> Seq<(u32, Seq<char>)> {
    s.map_values(|e: (u32, String)| (e.0, e.1@))
}

/// In a list with unique keys, the value under the key of entry `i` is that of entry `i`.
proof fn lemma_assoc_at<K, V>(s: Seq<(K, V)>, i: int)
    requires
        keys_unique(s),
        0 <= i < s.len(),
    ensures
        assoc(s).dom().contains(s[i].0),
        assoc(s)[s[i].0] == s[i].1,
{
    let k = s[i].0;
    assert(keyed(s, k));
    let j = choose|j: int| 0 <= j < s.len() && #[trigger] s[j].0 == k;
    assert(j == i);
}

/// Replacing the value of entry `i` replaces the value under its key.
proof fn lemma_assoc_update<K, V>(s: Seq<(K, V)>, i: int, v: V)
    requires
        keys_unique(s),
        0 <= i < s.len(),
    ensures
        keys_unique(s.update(i, (s[i].0, v))),
        assoc(s.update(i, (s[i].0, v))) == assoc(s).insert(s[i].0, v),
{
    let t = s.update(i, (s[i].0, v));
    assert forall|k: K| #[trigger] keyed(t, k) <==> keyed(s, k) by {
        if keyed(t, k) {
            let j = choose|j: int| 0 <= j < t.len() && #[trigger] t[j].0 == k;
            assert(s[j].0 == k);
        }
        if keyed(s, k) {
            let j = choose|j: int| 0 <= j < s.len() && #[trigger] s[j].0 == k;
            assert(t[j].0 == k);
        }
    }
    assert forall|k: K| #[trigger] assoc(s).insert(s[i].0, v).dom().contains(k) implies assoc(t)[k]
        == assoc(s).insert(s[i].0, v)[k] by {
        assert(keyed(t, k));
        let j = choose|j: int| 0 <= j < t.len() && #[trigger] t[j].0 == k;
        lemma_assoc_at(t, j);
        if j != i {
            lemma_assoc_at(s, j);
        }
    }
    assert(assoc(t) =~= assoc(s).insert(s[i].0, v));
}

/// Appending an entry under a new key adds that key.
proof fn lemma_assoc_push<K, V>(s: Seq<(K, V)>, k: K, v: V)
    requires
        keys_unique(s),
        !keyed(s, k),
    ensures
        keys_unique(s.push((k, v))),
        assoc(s.push((k, v))) == assoc(s).insert(k, v),
{
    let t = s.push((k, v));
    assert forall|i: int, j: int| 0 <= i < j < t.len() implies t[i].0 != t[j].0 by {
        if j == s.len() {
            assert(s[i].0 == t[i].0);
            if t[i].0 == k {
                assert(keyed(s, k));
            }
        }
    }
    assert forall|q: K| #[trigger] keyed(t, q) <==> (keyed(s, q) || q == k) by {
        if keyed(t, q) {
            let j = choose|j: int| 0 <= j < t.len() && #[trigger] t[j].0 == q;
            if j < s.len() {
                assert(s[j].0 == q);
            }
        }
        if keyed(s, q) {
            let j = choose|j: int| 0 <= j < s.len() && #[trigger] s[j].0 == q;
            assert(t[j].0 == q);
        }
        if q == k {
            assert(t[s.len() as int].0 == q);
        }
    }
    assert forall|q: K| #[trigger] assoc(s).insert(k, v).dom().contains(q) implies assoc(t)[q]
        == assoc(s).insert(k, v)[q] by {
        assert(keyed(t, q));
        let j = choose|j: int| 0 <= j < t.len() && #[trigger] t[j].0 == q;
        lemma_assoc_at(t, j);
        if j < s.len() {
            lemma_assoc_at(s, j);
        }
    }
    assert(assoc(t) =~= assoc(s).insert(k, v));
}

/// Removing entry `i` removes its key.
proof fn lemma_assoc_remove<K, V>(s: Seq<(K, V)>, i: int)
    requires
        keys_unique(s),
        0 <= i < s.len(),
    ensures
        keys_unique(s.remove(i)),
        assoc(s.remove(i)) == assoc(s).remove(s[i].0),
{
    let t = s.remove(i);
    let k = s[i].0;
    s.remove_ensures(i);
    assert forall|a: int, b: int| 0 <= a < b < t.len() implies t[a].0 != t[b].0 by {
        let a2 = if a < i { a } else { a + 1 };
        let b2 = if b < i { b } else { b + 1 };
        assert(t[a] == s[a2]);
        assert(t[b] == s[b2]);
    }
    assert forall|q: K| #[trigger] keyed(t, q) <==> (keyed(s, q) && q != k) by {
        if keyed(t, q) {
            let j = choose|j: int| 0 <= j < t.len() && #[trigger] t[j].0 == q;
            let j2 = if j < i { j } else { j + 1 };
            assert(t[j] == s[j2]);
            assert(s[j2].0 == q);
        }
        if keyed(s, q) && q != k {
            let j = choose|j: int| 0 <= j < s.len() && #[trigger] s[j].0 == q;
            if j < i {
                assert(t[j].0 == q);
            } else {
                assert(t[j - 1] == s[j]);
                assert(t[j - 1].0 == q);
            }
        }
    }
    assert forall|q: K| #[trigger] assoc(s).remove(k).dom().contains(q) implies assoc(t)[q]
        == assoc(s).remove(k)[q] by {
        assert(keyed(t, q));
        let j = choose|j: int| 0 <= j < t.len() && #[trigger] t[j].0 == q;
        let j2 = if j < i { j } else { j + 1 };
        assert(t[j] == s[j2]);
        lemma_assoc_at(t, j);
        lemma_assoc_at(s, j2);
    }
    assert(assoc(t) =~= assoc(s).remove(k));
}

/// Topic channels by name and topic names by id.
pub struct TopicTable<S> {
    topics: Vec<(String, S)>,
    topic_ids: Vec<(u32, String)>,
}

impl<S> TopicTable<S> {
    /// No name and no id occurs twice.
    pub closed spec fn wf(&self) -> bool {
        &&& keys_unique(name_entries(self.topics@))
        &&& keys_unique(id_entries(self.topic_ids@))
    }

    /// The channel of each topic, by name.
    pub closed spec fn topics(&self) -> Map<Seq<char>, S> {
        assoc(name_entries(self.topics@))
    }

    /// The name of each announced topic, by id.
    pub closed spec fn ids(&self) -> Map<u32, Seq<char>> {
        assoc(id_entries(self.topic_ids@))
    }

    /// An empty table.
    pub fn new() -> (t: Self)
        ensures
            t.wf(),
            t.topics() == Map::<Seq<char>, S>::empty(),
            t.ids() == Map::<u32, Seq<char>>::empty(),
    {
        let t = TopicTable { topics: Vec::new(), topic_ids: Vec::new() };
        assert(t.topics() =~= Map::<Seq<char>, S>::empty());
        assert(t.ids() =~= Map::<u32, Seq<char>>::empty());
        t
    }

    /// The index of the topic named `name`, if there is one.
    fn topic_index(&self, name: &String) -> (r: Option<usize>)
        requires
            self.wf(),
        ensures
            r is None <==> !self.topics().dom().contains(name@),
            r matches Some(i) ==> i < self.topics@.len() && self.topics@[i as int].0@ == name@,
    {
        let ghost e = name_entries(self.topics@);
        let mut i: usize = 0;
        while i < self.topics.len()
            invariant
                i <= self.topics@.len(),
                e == name_entries(self.topics@),
                keys_unique(e),
                forall|j: int| 0 <= j < i ==> self.topics@[j].0@ != name@,
            decreases self.topics@.len() - i,
        {
            if self.topics[i].0 == *name {
                proof {
                    lemma_assoc_at(e, i as int);
                }
                return Some(i);
            }
            i += 1;
        }
        assert forall|j: int| 0 <= j < e.len() implies #[trigger] e[j].0 != name@ by {
            assert(e[j].0 == self.topics@[j].0@);
        }
        None
    }

    /// The index of the topic with id `id`, if there is one.
    fn id_index(&self, id: u32) -> (r: Option<usize>)
        requires
            self.wf(),
        ensures
            r is None <==> !self.ids().dom().contains(id),
            r matches Some(i) ==> i < self.topic_ids@.len() && self.topic_ids@[i as int].0 == id,
    {
        let ghost e = id_entries(self.topic_ids@);
        let mut i: usize = 0;
        while i < self.topic_ids.len()
            invariant
                i <= self.topic_ids@.len(),
                e == id_entries(self.topic_ids@),
                keys_unique(e),
                forall|j: int| 0 <= j < i ==> self.topic_ids@[j].0 != id,
            decreases self.topic_ids@.len() - i,
        {
            if self.topic_ids[i].0 == id {
                proof {
                    lemma_assoc_at(e, i as int);
                }
                return Some(i);
            }
            i += 1;
        }
        assert forall|j: int| 0 <= j < e.len() implies #[trigger] e[j].0 != id by {
            assert(e[j].0 == self.topic_ids@[j].0);
        }
        None
    }

    /// The channel of the topic named `name`, if there is one.
    pub fn topic(&self, name: &String) -> (r: Option<&S>)
        requires
            self.wf(),
        ensures
            r is Some <==> self.topics().dom().contains(name@),
            r matches Some(s) ==> *s == self.topics()[name@],
    {
        match self.topic_index(name) {
            Some(i) => {
                proof {
                    lemma_assoc_at(name_entries(self.topics@), i as int);
                }
                Some(&self.topics[i].1)
            },
            None => None,
        }
    }

    /// The name of the topic with id `id`, if there is one.
    pub fn topic_name(&self, id: u32) -> (r: Option<&String>)
        requires
            self.wf(),
        ensures
            r is Some <==> self.ids().dom().contains(id),
            r matches Some(n) ==> n@ == self.ids()[id],
    {
        match self.id_index(id) {
            Some(i) => {
                proof {
                    lemma_assoc_at(id_entries(self.topic_ids@), i as int);
                }
                Some(&self.topic_ids[i].1)
            },
            None => None,
        }
    }

    /// Sets the channel of the topic named `name`, adding the topic if it is new.
    pub fn insert_topic(&mut self, name: String, channel: S)
        requires
            old(self).wf(),
        ensures
            final(self).wf(),
            final(self).topics() == old(self).topics().insert(name@, channel),
            final(self).ids() == old(self).ids(),
    {
        let ghost e = name_entries(self.topics@);
        let ghost key = name@;
        match self.topic_index(&name) {
            Some(i) => {
                self.topics.set(i, (name, channel));
                proof {
                    assert(e[i as int].0 == key);
                    assert(name_entries(self.topics@) =~= e.update(i as int, (e[i as int].0, channel)));
                    lemma_assoc_update(e, i as int, channel);
                }
            },
            None => {
                self.topics.push((name, channel));
                proof {
                    assert(name_entries(self.topics@) =~= e.push((key, channel)));
                    lemma_assoc_push(e, key, channel);
                }
            },
        }
    }

    /// Removes the topic named `name`, giving back its channel if it was there.
    pub fn remove_topic(&mut self, name: &String) -> (r: Option<S>)
        requires
            old(self).wf(),
        ensures
            final(self).wf(),
            final(self).topics() == old(self).topics().remove(name@),
            final(self).ids() == old(self).ids(),
            r is Some <==> old(self).topics().dom().contains(name@),
            r matches Some(c) ==> c == old(self).topics()[name@],
    {
        let ghost e = name_entries(self.topics@);
        match self.topic_index(name) {
            Some(i) => {
                proof {
                    lemma_assoc_at(e, i as int);
                    e.remove_ensures(i as int);
                    self.topics@.remove_ensures(i as int);
                }
                let (_, c) = self.topics.remove(i);
                proof {
                    assert(name_entries(self.topics@) =~= e.remove(i as int));
                    lemma_assoc_remove(e, i as int);
                }
                Some(c)
            },
            None => {
                assert(self.topics() =~= self.topics().remove(name@));
                None
            },
        }
    }

    /// Records that the server announced the topic named `name` under `id`.
    pub fn insert_id(&mut self, id: u32, name: String)
        requires
            old(self).wf(),
        ensures
            final(self).wf(),
            final(self).ids() == old(self).ids().insert(id, name@),
            final(self).topics() == old(self).topics(),
    {
        let ghost e = id_entries(self.topic_ids@);
        let ghost v = name@;
        match self.id_index(id) {
            Some(i) => {
                self.topic_ids.set(i, (id, name));
                proof {
                    assert(id_entries(self.topic_ids@) =~= e.update(i as int, (e[i as int].0, v)));
                    lemma_assoc_update(e, i as int, v);
                }
            },
            None => {
                self.topic_ids.push((id, name));
                proof {
                    assert(id_entries(self.topic_ids@) =~= e.push((id, v)));
                    lemma_assoc_push(e, id, v);
                }
            },
        }
    }

    /// Forgets the id `id`, giving back the name it stood for if it was there.
    pub fn remove_id(&mut self, id: u32) -> (r: Option<String>)
        requires
            old(self).wf(),
        ensures
            final(self).wf(),
            final(self).ids() == old(self).ids().remove(id),
            final(self).topics() == old(self).topics(),
            r is Some <==> old(self).ids().dom().contains(id),
            r matches Some(n) ==> n@ == old(self).ids()[id],
    {
        let ghost e = id_entries(self.topic_ids@);
        match self.id_index(id) {
            Some(i) => {
                proof {
                    lemma_assoc_at(e, i as int);
                    e.remove_ensures(i as int);
                    self.topic_ids@.remove_ensures(i as int);
                }
                let (_, n) = self.topic_ids.remove(i);
                proof {
                    assert(id_entries(self.topic_ids@) =~= e.remove(i as int));
                    lemma_assoc_remove(e, i as int);
                }
                Some(n)
            },
            None => {
                assert(self.ids() =~= self.ids().remove(id));
                None
            },
        }
    }

    /// Forgets every id, as after a reconnection.
    pub fn clear_ids(&mut self)
        requires
            old(self).wf(),
        ensures
            final(self).wf(),
            final(self).ids() == Map::<u32, Seq<char>>::empty(),
            final(self).topics() == old(self).topics(),
    {
        self.topic_ids.clear();
        assert(id_entries(self.topic_ids@) =~= Seq::<(u32, Seq<char>)>::empty());
        assert(self.ids() =~= Map::<u32, Seq<char>>::empty());
    }
    /// A new topic announced by the server: its channel is kept under its name, and its name
    /// under its id.
    pub fn announce(&mut self, name: String, id: u32, channel: S)
        requires
            old(self).wf(),
        ensures
            final(self).wf(),
            final(self).topics() == old(self).topics().insert(name@, channel),
            final(self).ids() == old(self).ids().insert(id, name@),
    {
        let key = name.clone();
        self.insert_topic(key, channel);
        self.insert_id(id, name);
    }

    /// A topic already subscribed to was announced again: where its channel took the new type
    /// and properties (`delivered`), the id is recorded; where the channel was gone, the topic
    /// is dropped.
    pub fn reannounce(&mut self, name: String, id: u32, delivered: bool)
        requires
            old(self).wf(),
        ensures
            final(self).wf(),
            delivered ==> final(self).topics() == old(self).topics(),
            delivered ==> final(self).ids() == old(self).ids().insert(id, name@),
            !delivered ==> final(self).topics() == old(self).topics().remove(name@),
            !delivered ==> final(self).ids() == old(self).ids(),
    {
        if delivered {
            self.insert_id(id, name);
        } else {
            let _ = self.remove_topic(&name);
        }
    }

    /// The server withdrew the topic named `name` with id `id`.
    pub fn unannounce(&mut self, name: &String, id: u32)
        requires
            old(self).wf(),
        ensures
            final(self).wf(),
            final(self).topics() == old(self).topics().remove(name@),
            final(self).ids() == old(self).ids().remove(id),
    {
        let _ = self.remove_topic(name);
        let _ = self.remove_id(id);
    }

    /// A value arrived for id `id`, and its topic's channel was found gone (`dropped`) or not:
    /// a gone channel takes its topic and the id with it. An unknown id changes nothing.
    pub fn data_sent(&mut self, id: u32, dropped: bool)
        requires
            old(self).wf(),
        ensures
            final(self).wf(),
            (dropped && old(self).ids().dom().contains(id)) ==> final(self).topics() == old(
                self,
            ).topics().remove(old(self).ids()[id]),
            (dropped && old(self).ids().dom().contains(id)) ==> final(self).ids() == old(
                self,
            ).ids().remove(id),
            !(dropped && old(self).ids().dom().contains(id)) ==> final(self).topics() == old(
                self,
            ).topics(),
            !(dropped && old(self).ids().dom().contains(id)) ==> final(self).ids() == old(
                self,
            ).ids(),
    {
        if dropped {
            match self.remove_id(id) {
                Some(name) => {
                    let _ = self.remove_topic(&name);
                },
                None => {},
            }
        }
    }
}

/// Announcing a topic under a name and an id that the table did not hold, then withdrawing it,
/// gives back the table as it was.
pub proof fn lemma_unannounce_undoes_announce<S>(
    topics: Map<Seq<char>, S>,
    ids: Map<u32, Seq<char>>,
    name: Seq<char>,
    id: u32,
    channel: S,
)
    requires
        !topics.dom().contains(name),
        !ids.dom().contains(id),
    ensures
        topics.insert(name, channel).remove(name) == topics,
        ids.insert(id, name).remove(id) == ids,
{
    assert(topics.insert(name, channel).remove(name) =~= topics);
    assert(ids.insert(id, name).remove(id) =~= ids);
}

} // verus!
