use vstd::prelude::*;

verus! {

/// The mathematical value of one payload entry.
pub ghost enum SpecValue {
    Bool(bool),
    Number(u64),
    Str(Seq<char>),
    StrList(Seq<Seq<char>>),
}

/// One value of the structured request document: a boolean, an unsigned
/// number, a string, or a list of strings. These are the only shapes the
/// request builders emit.
#[derive(Debug, PartialEq, Eq)]
pub enum PayloadValue {
    Bool(bool),
    Number(u64),
    Str(String),
    StrList(Vec<String>),
}

impl View for PayloadValue {
    type V = SpecValue;

    open spec fn view(&self) -> SpecValue {
        match self {
            PayloadValue::Bool(b) => SpecValue::Bool(*b),
            PayloadValue::Number(n) => SpecValue::Number(*n),
            PayloadValue::Str(s) => SpecValue::Str(s@),
            PayloadValue::StrList(v) => SpecValue::StrList(v.deep_view()),
        }
    }
}

/// The finite map described by a sequence of key/value entries; a later
/// entry for the same key would win, and well-formed payloads never hold
/// two entries with one key.
pub open spec fn entries_map(s: Seq<(String, PayloadValue)>) -> Map<Seq<char>, SpecValue>
    decreases s.len(),
{
    if s.len() == 0 {
        Map::empty()
    } else {
        entries_map(s.drop_last()).insert(s.last().0@, s.last().1@)
    }
}

/// A request payload: a structured document of string keys and
/// [`PayloadValue`]s, built fresh per request. The payload is an object (a
/// key/value map) by construction; its abstract value is a
/// `Map<Seq<char>, SpecValue>`.
pub struct RequestPayload {
    pub entries: Vec<(String, PayloadValue)>,
}

impl View for RequestPayload {
    type V = Map<Seq<char>, SpecValue>;

    open spec fn view(&self) -> Map<Seq<char>, SpecValue> {
        entries_map(self.entries@)
    }
}

proof fn lemma_entries_map_contains(s: Seq<(String, PayloadValue)>, k: Seq<char>)
    ensures
        entries_map(s).contains_key(k) <==> (exists|i: int| 0 <= i < s.len() && s[i].0@ == k),
    decreases s.len(),
{
    if s.len() > 0 {
        lemma_entries_map_contains(s.drop_last(), k);
        if s.last().0@ == k {
            assert(s[s.len() - 1].0@ == k);
        } else {
            if entries_map(s).contains_key(k) {
                let i = choose|i: int| 0 <= i < s.drop_last().len() && s.drop_last()[i].0@ == k;
                assert(s[i].0@ == k);
            }
            if exists|i: int| 0 <= i < s.len() && s[i].0@ == k {
                let i = choose|i: int| 0 <= i < s.len() && s[i].0@ == k;
                assert(s.drop_last()[i].0@ == k);
            }
        }
    }
}

proof fn lemma_entries_map_at(s: Seq<(String, PayloadValue)>, i: int)
    requires
        forall|p: int, q: int| 0 <= p < q < s.len() ==> s[p].0@ != s[q].0@,
        0 <= i < s.len(),
    ensures
        entries_map(s).contains_key(s[i].0@),
        entries_map(s)[s[i].0@] == s[i].1@,
    decreases s.len(),
{
    if i == s.len() - 1 {
    } else {
        assert(s[i].0@ != s.last().0@);
        assert(s.drop_last()[i] == s[i]);
        lemma_entries_map_at(s.drop_last(), i);
    }
}

proof fn lemma_entries_map_dom_len(s: Seq<(String, PayloadValue)>)
    requires
        forall|p: int, q: int| 0 <= p < q < s.len() ==> s[p].0@ != s[q].0@,
    ensures
        entries_map(s).dom().finite(),
        entries_map(s).dom().len() == s.len(),
    decreases s.len(),
{
    if s.len() > 0 {
        lemma_entries_map_dom_len(s.drop_last());
        lemma_entries_map_contains(s.drop_last(), s.last().0@);
        assert(forall|i: int| 0 <= i < s.drop_last().len() ==> s.drop_last()[i] == s[i]);
        assert(!entries_map(s.drop_last()).contains_key(s.last().0@));
        assert(entries_map(s).dom() =~= entries_map(s.drop_last()).dom().insert(s.last().0@));
    }
}

impl RequestPayload {
    /// No two entries share a key, so the entry sequence and the map agree.
    pub open spec fn wf(self) -> bool {
        forall|p: int, q: int|
            0 <= p < q < self.entries@.len() ==> self.entries@[p].0@ != self.entries@[q].0@
    }

    /// The empty payload.
    pub fn new() -> (r: RequestPayload)
        ensures
            r.wf(),
            r@ == Map::<Seq<char>, SpecValue>::empty(),
    {
        RequestPayload { entries: Vec::new() }
    }

    /// Adds an entry under a key the payload does not hold yet.
    pub fn insert(&mut self, key: &str, value: PayloadValue)
        requires
            old(self).wf(),
            !old(self)@.contains_key(key@),
        ensures
            final(self).wf(),
            final(self)@ == old(self)@.insert(key@, value@),
    {
        proof {
            lemma_entries_map_contains(old(self).entries@, key@);
        }
        let k = key.to_owned();
        self.entries.push((k, value));
        proof {
            assert(self.entries@.drop_last() =~= old(self).entries@);
            assert(forall|p: int|
                0 <= p < old(self).entries@.len() ==> self.entries@[p] == old(self).entries@[p]);
            assert(self.entries@.last().0@ == key@);
            assert(self.entries@.last().1 == value);
        }
    }

    /// Looks an entry up by key.
    pub fn get(&self, key: &str) -> (r: Option<&PayloadValue>)
        requires
            self.wf(),
        ensures
            match r {
                Some(v) => self@.contains_key(key@) && v@ == self@[key@],
                None => !self@.contains_key(key@),
            },
    {
        let key_string = key.to_owned();
        let n = self.entries.len();
        let mut i: usize = 0;
        while i < n
            invariant
                i <= n,
                n == self.entries.len(),
                self.wf(),
                key_string@ == key@,
                forall|j: int| 0 <= j < i ==> self.entries@[j].0@ != key@,
            decreases n - i,
        {
            if self.entries[i].0 == key_string {
                proof {
                    lemma_entries_map_at(self.entries@, i as int);
                }
                return Some(&self.entries[i].1);
            }
            i += 1;
        }
        proof {
            lemma_entries_map_contains(self.entries@, key@);
        }
        None
    }

    /// Whether the payload holds an entry under this key.
    pub fn contains_key(&self, key: &str) -> (r: bool)
        requires
            self.wf(),
        ensures
            r == self@.contains_key(key@),
    {
        self.get(key).is_some()
    }

    /// How many entries the payload holds.
    pub fn len(&self) -> (r: usize)
        requires
            self.wf(),
        ensures
            r == self@.dom().len(),
    {
        proof {
            lemma_entries_map_dom_len(self.entries@);
        }
        self.entries.len()
    }
}

/// A deep copy of a vector of strings; the copy holds the same contents.
pub fn clone_string_vec(v: &Vec<String>) -> (r: Vec<String>)
    ensures
        r.deep_view() == v.deep_view(),
{
    let mut r: Vec<String> = Vec::new();
    let n = v.len();
    let mut i: usize = 0;
    while i < n
        invariant
            i <= n,
            n == v.len(),
            r@.len() == i,
            forall|j: int| 0 <= j < i ==> r@[j]@ == v@[j]@,
        decreases n - i,
    {
        r.push(v[i].clone());
        i += 1;
    }
    proof {
        assert(r.deep_view() =~= v.deep_view());
    }
    r
}

} // verus!
