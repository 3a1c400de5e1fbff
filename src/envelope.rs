use vstd::prelude::*;

verus! {

/// The mapping that a list of name/value entries stands for: entries are
/// applied in order, so a later entry for a name replaces an earlier one.
pub open spec fn map_of(entries: Seq<(String, String)>) -> Map<Seq<char>, Seq<char>>
    decreases entries.len(),
{
    if entries.len() == 0 {
        Map::empty()
    } else {
        map_of(entries.drop_last()).insert(entries.last().0@, entries.last().1@)
    }
}

/// No name occurs twice.
pub open spec fn keys_unique(entries: Seq<(String, String)>) -> bool {
    forall|i: int, j: int|
        0 <= i < entries.len() && 0 <= j < entries.len() && i != j ==> entries[i].0@ != entries[j].0@
}

proof fn lemma_map_of_update(s: Seq<(String, String)>, i: int, e: (String, String))
    requires
        keys_unique(s),
        0 <= i < s.len(),
        e.0@ == s[i].0@,
    ensures
        map_of(s.update(i, e)) == map_of(s).insert(e.0@, e.1@),
        keys_unique(s.update(i, e)),
    decreases s.len(),
{
    let t = s.update(i, e);
    assert(t.drop_last() =~= if i == s.len() - 1 { s.drop_last() } else { s.drop_last().update(i, e) });
    if i == s.len() - 1 {
        assert(map_of(t) =~= map_of(s).insert(e.0@, e.1@));
    } else {
        lemma_map_of_update(s.drop_last(), i, e);
        assert(s.last().0@ != e.0@);
        assert(map_of(t) =~= map_of(s).insert(e.0@, e.1@));
    }
}

proof fn lemma_map_of_absent(s: Seq<(String, String)>, k: Seq<char>)
    requires
        forall|j: int| 0 <= j < s.len() ==> s[j].0@ != k,
    ensures
        !map_of(s).contains_key(k),
    decreases s.len(),
{
    if s.len() > 0 {
        lemma_map_of_absent(s.drop_last(), k);
    }
}

/// Sets `key` to `value`, replacing the entry of the same name if there is one.
pub fn insert_entry(entries: &mut Vec<(String, String)>, key: String, value: String)
    requires
        keys_unique(old(entries)@),
    ensures
        keys_unique(final(entries)@),
        map_of(final(entries)@) == map_of(old(entries)@).insert(key@, value@),
{
    let n = entries.len();
    let mut i: usize = 0;
    while i < n
        invariant
            n == entries@.len(),
            entries@ == old(entries)@,
            keys_unique(entries@),
            i <= n,
            forall|j: int| 0 <= j < i ==> entries@[j].0@ != key@,
        decreases n - i,
    {
        if entries[i].0 == key {
            proof {
                lemma_map_of_update(entries@, i as int, (key, value));
            }
            entries.set(i, (key, value));
            return;
        }
        i = i + 1;
    }
    proof {
        lemma_map_of_absent(entries@, key@);
    }
    let ghost before = entries@;
    entries.push((key, value));
    assert(entries@.drop_last() =~= before);
}

/// Builds a mapping from entries, the last entry for a name winning.
pub fn entries_from_pairs(pairs: Vec<(String, String)>) -> (r: Vec<(String, String)>)
    ensures
        keys_unique(r@),
        map_of(r@) == map_of(pairs@),
{
    let mut r: Vec<(String, String)> = Vec::new();
    let n = pairs.len();
    let mut i: usize = 0;
    let mut rest = pairs;
    let ghost all = rest@;
    while i < n
        invariant
            n == all.len(),
            i <= n,
            rest@ == all.subrange(i as int, n as int),
            keys_unique(r@),
            map_of(r@) == map_of(all.subrange(0, i as int)),
        decreases n - i,
    {
        let (k, v) = rest.remove(0);
        assert(rest@ =~= all.subrange(i + 1, n as int));
        insert_entry(&mut r, k, v);
        assert(all.subrange(0, i + 1).drop_last() =~= all.subrange(0, i as int));
        i = i + 1;
    }
    assert(all.subrange(0, n as int) =~= all);
    r
}

/// The request document handed to the guest on its standard input.
pub struct WasmInput {
    pub method: String,
    pub path: String,
    pub headers: Vec<(String, String)>,
    pub query: Vec<(String, String)>,
    pub body: String,
    pub kv: Option<Vec<(String, String)>>,
}

impl WasmInput {
    /// Headers, query parameters and store entries name each key once.
    pub open spec fn wf(&self) -> bool {
        &&& keys_unique(self.headers@)
        &&& keys_unique(self.query@)
        &&& match self.kv {
            Some(kv) => keys_unique(kv@),
            None => true,
        }
    }

    /// Builds the input document of one request. For headers, query
    /// parameters and store entries given twice, the last value counts.
    pub fn new(
        method: String,
        path: String,
        headers: Vec<(String, String)>,
        query: Vec<(String, String)>,
        body: String,
        kv: Option<Vec<(String, String)>>,
    ) -> (r: WasmInput)
        ensures
            r.wf(),
            r.method@ == method@,
            r.path@ == path@,
            r.body@ == body@,
            map_of(r.headers@) == map_of(headers@),
            map_of(r.query@) == map_of(query@),
            r.kv is Some <==> kv is Some,
            kv is Some ==> map_of(r.kv.unwrap()@) == map_of(kv.unwrap()@),
    {
        let kv = match kv {
            Some(pairs) => Some(entries_from_pairs(pairs)),
            None => None,
        };
        WasmInput {
            method,
            path,
            headers: entries_from_pairs(headers),
            query: entries_from_pairs(query),
            body,
            kv,
        }
    }
}

/// The response document the guest writes to its standard output.
pub struct WasmOutput {
    pub status: u16,
    pub headers: Vec<(String, String)>,
    pub body: String,
}

impl WasmOutput {
    /// Headers name each key once.
    pub open spec fn wf(&self) -> bool {
        keys_unique(self.headers@)
    }

    /// Builds a response document. For headers given twice, the last value
    /// counts.
    pub fn new(status: u16, headers: Vec<(String, String)>, body: String) -> (r: WasmOutput)
        ensures
            r.wf(),
            r.status == status,
            map_of(r.headers@) == map_of(headers@),
            r.body@ == body@,
    {
        WasmOutput { status, headers: entries_from_pairs(headers), body }
    }
}

} // verus!
