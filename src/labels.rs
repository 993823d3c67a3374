use vstd::prelude::*;
use vstd::string::StringExecFns;
use vstd::string::StrSliceExecFns;

verus! {

/// The text of each string in a list.
pub open spec fn texts(v: Seq<String>) -> Seq<Seq<char>> {
    v.map_values(|s: String| s@)
}

/// `i` is the one '=' of `s`, with text before and after it.
pub open spec fn is_split_point(s: Seq<char>, i: int) -> bool {
    &&& 0 < i < s.len() - 1
    &&& s[i] == '='
    &&& forall|j: int| 0 <= j < s.len() && j != i ==> #[trigger] s[j] != '='
}

/// Key and value of a `KEY=VALUE` entry. An entry without exactly one '=', or with
/// nothing on one side of it, has none.
pub open spec fn pair_of(s: Seq<char>) -> Option<(Seq<char>, Seq<char>)> {
    if exists|i: int| is_split_point(s, i) {
        let i = choose|i: int| is_split_point(s, i);
        Some((s.subrange(0, i), s.subrange(i + 1, s.len() as int)))
    } else {
        None
    }
}

/// `base` with the well-formed entries applied in order: a later key overrides an
/// earlier one, and a malformed entry is skipped.
pub open spec fn apply_pairs(
    base: Map<Seq<char>, Seq<char>>,
    entries: Seq<Seq<char>>,
) -> Map<Seq<char>, Seq<char>>
    decreases entries.len(),
{
    if entries.len() == 0 {
        base
    } else {
        let m = apply_pairs(base, entries.drop_last());
        match pair_of(entries.last()) {
            Some(p) => m.insert(p.0, p.1),
            None => m,
        }
    }
}

/// The mapping that a list of `KEY=VALUE` entries gives on its own.
pub open spec fn pairs_map(entries: Seq<Seq<char>>) -> Map<Seq<char>, Seq<char>> {
    apply_pairs(Map::empty(), entries)
}

/// No key occurs twice.
pub open spec fn keys_distinct(s: Seq<(String, String)>) -> bool {
    forall|i: int, j: int| 0 <= i < j < s.len() ==> #[trigger] s[i].0@ != #[trigger] s[j].0@
}

/// The mapping that a list of key/value entries stands for.
pub open spec fn entries_map(s: Seq<(String, String)>) -> Map<Seq<char>, Seq<char>>
    decreases s.len(),
{
    if s.len() == 0 {
        Map::empty()
    } else {
        entries_map(s.drop_last()).insert(s.last().0@, s.last().1@)
    }
}

proof fn lemma_entries_map_domain(s: Seq<(String, String)>, k: Seq<char>)
    ensures
        entries_map(s).contains_key(k) <==> exists|i: int| 0 <= i < s.len() && #[trigger] s[i].0@
            == k,
    decreases s.len(),
{
    if s.len() > 0 {
        let t = s.drop_last();
        lemma_entries_map_domain(t, k);
        if entries_map(s).contains_key(k) {
            if s.last().0@ != k {
                let i = choose|i: int| 0 <= i < t.len() && #[trigger] t[i].0@ == k;
                assert(s[i] == t[i]);
            } else {
                assert(s[s.len() - 1].0@ == k);
            }
        }
        if exists|i: int| 0 <= i < s.len() && #[trigger] s[i].0@ == k {
            let i = choose|i: int| 0 <= i < s.len() && #[trigger] s[i].0@ == k;
            if i < s.len() - 1 {
                assert(t[i] == s[i]);
            }
        }
    }
}

proof fn lemma_entries_map_at(s: Seq<(String, String)>, i: int)
    requires
        keys_distinct(s),
        0 <= i < s.len(),
    ensures
        entries_map(s).contains_key(s[i].0@),
        entries_map(s)[s[i].0@] == s[i].1@,
    decreases s.len(),
{
    let t = s.drop_last();
    if i < s.len() - 1 {
        assert(keys_distinct(t)) by {
            assert forall|a: int, b: int| 0 <= a < b < t.len() implies #[trigger] t[a].0@
                != #[trigger] t[b].0@ by {
                assert(t[a] == s[a] && t[b] == s[b]);
            }
        }
        assert(t[i] == s[i]);
        lemma_entries_map_at(t, i);
        assert(s[i].0@ != s[s.len() - 1].0@);
    }
}

proof fn lemma_entries_map_update(s: Seq<(String, String)>, i: int, e: (String, String))
    requires
        keys_distinct(s),
        0 <= i < s.len(),
        e.0@ == s[i].0@,
    ensures
        entries_map(s.update(i, e)) == entries_map(s).insert(e.0@, e.1@),
    decreases s.len(),
{
    let u = s.update(i, e);
    let t = s.drop_last();
    assert(u.drop_last() =~= if i == s.len() - 1 {
        t
    } else {
        t.update(i, e)
    });
    if i == s.len() - 1 {
        assert(entries_map(u) =~= entries_map(s).insert(e.0@, e.1@));
    } else {
        assert(keys_distinct(t)) by {
            assert forall|a: int, b: int| 0 <= a < b < t.len() implies #[trigger] t[a].0@
                != #[trigger] t[b].0@ by {
                assert(t[a] == s[a] && t[b] == s[b]);
            }
        }
        lemma_entries_map_update(t, i, e);
        assert(s[i].0@ != s[s.len() - 1].0@);
        assert(u.last() == s.last());
        assert(entries_map(u) =~= entries_map(s).insert(e.0@, e.1@));
    }
}

/// A string-to-string mapping (labels, node selectors) kept as a list of entries
/// in the order in which their keys were first set.
#[derive(Debug)]
pub struct LabelMap {
    pub entries: Vec<(String, String)>,
}

impl View for LabelMap {
    type V = Map<Seq<char>, Seq<char>>;

    open spec fn view(&self) -> Map<Seq<char>, Seq<char>> {
        entries_map(self.entries@)
    }
}

impl LabelMap {
    /// Each key is held by one entry only.
    pub open spec fn wf(&self) -> bool {
        keys_distinct(self.entries@)
    }

    /// The empty mapping.
    pub fn new() -> (r: LabelMap)
        ensures
            r.wf(),
            r@ == Map::<Seq<char>, Seq<char>>::empty(),
    {
        LabelMap { entries: Vec::new() }
    }

    fn position(&self, key: &String) -> (r: Option<usize>)
        requires
            self.wf(),
        ensures
            match r {
                Some(i) => i < self.entries@.len() && self.entries@[i as int].0@ == key@,
                None => forall|i: int|
                    0 <= i < self.entries@.len() ==> #[trigger] self.entries@[i].0@ != key@,
            },
    {
        let mut i: usize = 0;
        while i < self.entries.len()
            invariant
                i <= self.entries@.len(),
                forall|j: int| 0 <= j < i ==> #[trigger] self.entries@[j].0@ != key@,
            decreases self.entries@.len() - i,
        {
            if self.entries[i].0 == *key {
                return Some(i);
            }
            i = i + 1;
        }
        None
    }

    /// The value held under `key`.
    pub fn get(&self, key: &str) -> (r: Option<String>)
        requires
            self.wf(),
        ensures
            match r {
                Some(v) => self@.contains_key(key@) && self@[key@] == v@,
                None => !self@.contains_key(key@),
            },
    {
        let k = String::from_str(key);
        match self.position(&k) {
            Some(i) => {
                proof {
                    lemma_entries_map_at(self.entries@, i as int);
                }
                Some(self.entries[i].1.clone())
            },
            None => {
                proof {
                    lemma_entries_map_domain(self.entries@, key@);
                }
                None
            },
        }
    }

    /// Sets `key` to `value`, replacing what it held.
    pub fn insert(&mut self, key: String, value: String)
        requires
            old(self).wf(),
        ensures
            final(self).wf(),
            final(self)@ == old(self)@.insert(key@, value@),
    {
        match self.position(&key) {
            Some(i) => {
                proof {
                    lemma_entries_map_update(self.entries@, i as int, (key, value));
                }
                self.entries.set(i, (key, value));
            },
            None => {
                self.entries.push((key, value));
                assert(self.entries@.drop_last() == old(self).entries@);
            },
        }
    }
}

/// Splits a `KEY=VALUE` entry. Gives nothing for an entry without exactly one '='
/// or with nothing on one side of it.
pub fn parse_pair(entry: &str) -> (r: Option<(String, String)>)
    ensures
        match r {
            Some(p) => pair_of(entry@) == Some((p.0@, p.1@)),
            None => pair_of(entry@) is None,
        },
{
    let n = entry.unicode_len();
    let ghost s = entry@;
    let mut first: Option<usize> = None;
    let mut second: Option<usize> = None;
    let mut i: usize = 0;
    while i < n
        invariant
            n == s.len(),
            s == entry@,
            i <= n,
            match first {
                None => second is None && forall|j: int| 0 <= j < i ==> #[trigger] s[j] != '=',
                Some(p) => p < i && s[p as int] == '=' && match second {
                    None => forall|j: int| 0 <= j < i && j != p ==> #[trigger] s[j] != '=',
                    Some(q) => q < i && q != p && s[q as int] == '=',
                },
            },
        decreases n - i,
    {
        let c = entry.get_char(i);
        assert(s[i as int] == c);
        if c == '=' {
            match first {
                None => {
                    first = Some(i);
                },
                Some(_) => {
                    if second.is_none() {
                        second = Some(i);
                    }
                },
            }
        }
        i = i + 1;
    }
    match first {
        None => {
            assert(!exists|k: int| is_split_point(s, k));
            None
        },
        Some(p) => {
            if second.is_some() {
                let ghost q = second.unwrap();
                assert forall|k: int| !is_split_point(s, k) by {
                    if is_split_point(s, k) {
                        if k == p {
                            assert(s[q as int] != '=');
                        } else {
                            assert(s[p as int] != '=');
                        }
                    }
                }
                None
            } else if p == 0 || p + 1 == n {
                assert forall|k: int| !is_split_point(s, k) by {
                    if is_split_point(s, k) && k != p {
                        assert(s[p as int] != '=');
                    }
                }
                None
            } else {
                assert(is_split_point(s, p as int));
                let ghost k = choose|k: int| is_split_point(s, k);
                assert(k == p) by {
                    if k != p {
                        assert(s[p as int] != '=');
                    }
                }
                let key = String::from_str(entry.substring_char(0, p));
                let value = String::from_str(entry.substring_char(p + 1, n));
                Some((key, value))
            }
        },
    }
}

/// Applies each well-formed `KEY=VALUE` entry to `map` in order.
pub fn merge_pairs(map: &mut LabelMap, entries: &Vec<String>)
    requires
        old(map).wf(),
    ensures
        final(map).wf(),
        final(map)@ == apply_pairs(old(map)@, texts(entries@)),
{
    let ghost base = map@;
    let mut i: usize = 0;
    while i < entries.len()
        invariant
            i <= entries@.len(),
            map.wf(),
            map@ == apply_pairs(base, texts(entries@).subrange(0, i as int)),
        decreases entries@.len() - i,
    {
        let ghost before = texts(entries@).subrange(0, i as int);
        let ghost after = texts(entries@).subrange(0, i + 1);
        assert(after.drop_last() == before);
        assert(after.last() == entries@[i as int]@);
        match parse_pair(entries[i].as_str()) {
            Some(p) => {
                map.insert(p.0, p.1);
            },
            None => {},
        }
        i = i + 1;
    }
    assert(texts(entries@).subrange(0, entries@.len() as int) == texts(entries@));
}

/// The mapping given by a list of `KEY=VALUE` entries.
pub fn parse_pairs(entries: &Vec<String>) -> (r: LabelMap)
    ensures
        r.wf(),
        r@ == pairs_map(texts(entries@)),
{
    let mut m = LabelMap::new();
    merge_pairs(&mut m, entries);
    m
}

/// Merging entries into a base mapping keeps every base key that no well-formed
/// entry sets, and an entry's value wins over the base on a shared key.
pub proof fn lemma_merge_overrides_base(
    base: Map<Seq<char>, Seq<char>>,
    entries: Seq<Seq<char>>,
)
    ensures
        apply_pairs(base, entries) == base.union_prefer_right(pairs_map(entries)),
    decreases entries.len(),
{
    if entries.len() > 0 {
        lemma_merge_overrides_base(base, entries.drop_last());
        lemma_merge_overrides_base(Map::empty(), entries.drop_last());
        assert(Map::<Seq<char>, Seq<char>>::empty().union_prefer_right(
            pairs_map(entries.drop_last()),
        ) =~= pairs_map(entries.drop_last()));
        assert(apply_pairs(base, entries) =~= base.union_prefer_right(pairs_map(entries)));
    }
}

/// A malformed entry (no '=', more than one, or an empty side) is skipped: the
/// mapping is the one the other entries give.
pub proof fn lemma_malformed_entry_skipped(
    base: Map<Seq<char>, Seq<char>>,
    entries: Seq<Seq<char>>,
    entry: Seq<char>,
)
    requires
        pair_of(entry) is None,
    ensures
        apply_pairs(base, entries.push(entry)) == apply_pairs(base, entries),
{
    assert(entries.push(entry).drop_last() == entries);
}

} // verus!
