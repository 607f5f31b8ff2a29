//! Header sets, and how they ride along on a proxy URL as its query string.
use vstd::prelude::*;

verus! {

/// The query string that `form_urlencoded` writes for a list of name/value pairs.
pub uninterp spec fn form_encoded(pairs: Seq<(Seq<char>, Seq<char>)>) -> Seq<char>;

/// The name/value pairs that `form_urlencoded` reads from a query string.
pub uninterp spec fn form_decoded(query: Seq<char>) -> Seq<(Seq<char>, Seq<char>)>;

/// The pairs as text.
pub open spec fn pairs_view(v: Seq<(String, String)>) -> Seq<(Seq<char>, Seq<char>)> {
    v.map_values(|p: (String, String)| (p.0@, p.1@))
}

/// No name occurs twice.
pub open spec fn names_unique(s: Seq<(Seq<char>, Seq<char>)>) -> bool {
    forall|i: int, j: int| 0 <= i < j < s.len() ==> #[trigger] s[i].0 != #[trigger] s[j].0
}

/// Some pair carries this name.
pub open spec fn has_name(s: Seq<(Seq<char>, Seq<char>)>, name: Seq<char>) -> bool {
    exists|j: int| 0 <= j < s.len() && #[trigger] s[j].0 == name
}

/// Sets a pair: replaces the value of the pair with that name, or appends the pair.
pub open spec fn upsert(s: Seq<(Seq<char>, Seq<char>)>, p: (Seq<char>, Seq<char>)) -> Seq<
    (Seq<char>, Seq<char>),
> {
    if has_name(s, p.0) {
        s.update(choose|j: int| 0 <= j < s.len() && #[trigger] s[j].0 == p.0, p)
    } else {
        s.push(p)
    }
}

/// The header set that a list of pairs sets, one after the other: where a name
/// repeats, its last value stands, at the place of its first occurrence.
pub open spec fn collect_pairs(ps: Seq<(Seq<char>, Seq<char>)>) -> Seq<(Seq<char>, Seq<char>)>
    decreases ps.len(),
{
    if ps.len() == 0 {
        Seq::empty()
    } else {
        upsert(collect_pairs(ps.drop_last()), ps.last())
    }
}

/// Relies on `form_urlencoded::Serializer`: the pairs written as
/// `name=value&...`, percent-encoded so that `form_urlencoded::parse` reads
/// the same pairs back.
#[verifier::external_body]
fn form_serialize(pairs: &Vec<(String, String)>) -> (r: String)
    ensures
        r@ == form_encoded(pairs_view(pairs@)),
        form_decoded(r@) == pairs_view(pairs@),
{
    url::form_urlencoded::Serializer::new(String::new()).extend_pairs(pairs.iter()).finish()
}

/// Relies on `form_urlencoded::parse`: the name/value pairs of a query string.
#[verifier::external_body]
fn form_parse(query: &str) -> (r: Vec<(String, String)>)
    ensures
        pairs_view(r@) == form_decoded(query@),
{
    url::form_urlencoded::parse(query.as_bytes()).into_owned().collect()
}

/// A set of request headers, name to value, in the order they were first set.
#[derive(Debug, Clone)]
pub struct HeaderSet {
    pairs: Vec<(String, String)>,
}

impl View for HeaderSet {
    type V = Seq<(Seq<char>, Seq<char>)>;

    closed spec fn view(&self) -> Seq<(Seq<char>, Seq<char>)> {
        pairs_view(self.pairs@)
    }
}

impl HeaderSet {
    /// Each header name occurs once.
    pub open spec fn wf(&self) -> bool {
        names_unique(self@)
    }

    /// The empty header set.
    pub fn new() -> (r: HeaderSet)
        ensures
            r.wf(),
            r@ == Seq::<(Seq<char>, Seq<char>)>::empty(),
    {
        HeaderSet { pairs: Vec::new() }
    }

    /// The number of headers.
    pub fn len(&self) -> (r: usize)
        ensures
            r == self@.len(),
    {
        self.pairs.len()
    }

    /// Whether the set holds no header.
    pub fn is_empty(&self) -> (r: bool)
        ensures
            r == (self@.len() == 0),
    {
        self.pairs.len() == 0
    }

    /// The headers as name/value pairs.
    pub fn pairs(&self) -> (r: &Vec<(String, String)>)
        ensures
            pairs_view(r@) == self@,
    {
        &self.pairs
    }

    /// Sets a header, replacing the value of an existing one with that name.
    pub fn insert(&mut self, name: String, value: String)
        requires
            old(self).wf(),
        ensures
            final(self).wf(),
            final(self)@ == upsert(old(self)@, (name@, value@)),
    {
        let ghost p = (name@, value@);
        let n = self.pairs.len();
        let mut i: usize = 0;
        while i < n
            invariant
                n == self.pairs.len(),
                0 <= i <= n,
                self@ == old(self)@,
                self.wf(),
                p == (name@, value@),
                forall|j: int| 0 <= j < i ==> (#[trigger] self@[j]).0 != name@,
            decreases n - i,
        {
            let same = self.pairs[i].0 == name;
            if same {
                let ghost s = self@;
                assert(s[i as int] == (self.pairs@[i as int].0@, self.pairs@[i as int].1@));
                assert(s[i as int].0 == p.0);
                assert forall|j: int| 0 <= j < s.len() && #[trigger] s[j].0 == p.0 implies j
                    == i by {
                    if j != i {
                        if j < i {
                        } else {
                            assert(s[i as int].0 != s[j].0);
                        }
                    }
                }
                self.pairs.set(i, (name, value));
                assert(self@ =~= s.update(i as int, p));
                return;
            }
            i = i + 1;
        }
        let ghost s = self@;
        assert(!has_name(s, p.0));
        self.pairs.push((name, value));
        assert(self@ =~= s.push(p));
    }

    /// The header set that a query string carries: its name/value pairs set one
    /// after the other.
    pub fn from_query(query: &str) -> (r: HeaderSet)
        ensures
            r.wf(),
            r@ == collect_pairs(form_decoded(query@)),
    {
        let parsed = form_parse(query);
        let ghost ps = form_decoded(query@);
        let mut r = HeaderSet::new();
        let n = parsed.len();
        let mut i: usize = 0;
        while i < n
            invariant
                n == parsed.len(),
                0 <= i <= n,
                pairs_view(parsed@) == ps,
                r.wf(),
                r@ == collect_pairs(ps.subrange(0, i as int)),
            decreases n - i,
        {
            let name = parsed[i].0.clone();
            let value = parsed[i].1.clone();
            proof {
                assert(ps.subrange(0, i as int + 1).drop_last() =~= ps.subrange(0, i as int));
            }
            r.insert(name, value);
            i = i + 1;
        }
        assert(ps.subrange(0, n as int) =~= ps);
        r
    }

    /// The headers as a query string, which reads back to the same headers.
    pub fn to_query(&self) -> (r: String)
        ensures
            r@ == form_encoded(self@),
            form_decoded(r@) == self@,
    {
        form_serialize(&self.pairs)
    }
}

/// A header set read back from a query string is the set that was written
/// there: where the pairs a query decodes to have distinct names, setting
/// them one after the other gives exactly those pairs, in their order.
pub proof fn lemma_collect_distinct(ps: Seq<(Seq<char>, Seq<char>)>)
    requires
        names_unique(ps),
    ensures
        collect_pairs(ps) == ps,
    decreases ps.len(),
{
    if ps.len() > 0 {
        let init = ps.drop_last();
        assert(names_unique(init));
        lemma_collect_distinct(init);
        assert(!has_name(init, ps.last().0)) by {
            if has_name(init, ps.last().0) {
                let j = choose|j: int| 0 <= j < init.len() && #[trigger] init[j].0 == ps.last().0;
                assert(ps[j].0 != ps[ps.len() - 1].0);
            }
        }
        assert(init.push(ps.last()) =~= ps);
    }
}

} // verus!
