use vstd::prelude::*;
use vstd::utf8::encode_utf8;

verus! {

/// One header of a request: its canonical (lower-case) name and the encoded
/// values that stand under it, in order.
#[derive(Debug, Clone)]
pub struct HeaderField {
    pub name: String,
    pub values: Vec<Vec<u8>>,
}

/// A header as a mathematical value: its name and its values.
pub type HeaderEntry = (Seq<char>, Seq<Seq<u8>>);

impl View for HeaderField {
    type V = HeaderEntry;

    open spec fn view(&self) -> HeaderEntry {
        (self.name@, self.values.deep_view())
    }
}

/// The headers of a list, in order of insertion.
pub open spec fn entries_of(hs: Seq<HeaderField>) -> Seq<HeaderEntry> {
    hs.map_values(|f: HeaderField| f@)
}

/// No name occurs twice.
pub open spec fn names_unique(hs: Seq<HeaderEntry>) -> bool {
    forall|i: int, j: int| 0 <= i < j < hs.len() ==> hs[i].0 != hs[j].0
}

/// A canonical header name: its bytes hold no upper-case ASCII letter.
pub open spec fn canonical_name(n: Seq<char>) -> bool {
    forall|i: int| 0 <= i < encode_utf8(n).len() ==> !(65 <= #[trigger] encode_utf8(n)[i] <= 90)
}

/// Whether `name` is canonical.
pub fn is_canonical_name(name: &str) -> (r: bool)
    ensures
        r == canonical_name(name@),
{
    let bytes = name.as_bytes();
    let mut i: usize = 0;
    while i < bytes.len()
        invariant
            0 <= i <= bytes@.len(),
            bytes@ == encode_utf8(name@),
            forall|k: int| 0 <= k < i ==> !(65 <= #[trigger] bytes@[k] <= 90),
        decreases bytes@.len() - i,
    {
        if 65 <= bytes[i] && bytes[i] <= 90 {
            return false;
        }
        i = i + 1;
    }
    true
}

/// Some header is named `n`.
pub open spec fn has_name(hs: Seq<HeaderEntry>, n: Seq<char>) -> bool {
    exists|i: int| 0 <= i < hs.len() && hs[i].0 == n
}

/// The header named `n` holds exactly the values `vs`.
pub open spec fn holds(hs: Seq<HeaderEntry>, n: Seq<char>, vs: Seq<Seq<u8>>) -> bool {
    exists|i: int| 0 <= i < hs.len() && hs[i] == (n, vs)
}

/// Inserting the values `vs` under the name `n`: no values leave the list as
/// it is; else they replace those of a header of that name where it stands, or
/// are added at the end under a new header.
pub open spec fn header_insert(hs: Seq<HeaderEntry>, n: Seq<char>, vs: Seq<Seq<u8>>) -> Seq<HeaderEntry> {
    if vs.len() == 0 {
        hs
    } else if has_name(hs, n) {
        hs.map_values(|e: HeaderEntry| if e.0 == n { (n, vs) } else { e })
    } else {
        hs.push((n, vs))
    }
}

/// Inserting keeps the names unique.
pub proof fn lemma_insert_unique(hs: Seq<HeaderEntry>, n: Seq<char>, vs: Seq<Seq<u8>>)
    requires
        names_unique(hs),
    ensures
        names_unique(header_insert(hs, n, vs)),
{
}

/// A second insertion under the same name leaves only its own values under
/// that name, as if the first had never been made.
pub proof fn lemma_last_write_wins(hs: Seq<HeaderEntry>, n: Seq<char>, v1: Seq<Seq<u8>>, v2: Seq<Seq<u8>>)
    requires
        names_unique(hs),
        v2.len() > 0,
    ensures
        header_insert(header_insert(hs, n, v1), n, v2) == header_insert(hs, n, v2),
        holds(header_insert(hs, n, v2), n, v2),
        forall|i: int| 0 <= i < header_insert(hs, n, v2).len() && (#[trigger] header_insert(hs, n, v2)[i]).0 == n
            ==> header_insert(hs, n, v2)[i].1 == v2,
{
    let h1 = header_insert(hs, n, v1);
    let h2 = header_insert(hs, n, v2);
    if has_name(hs, n) {
        let i = choose|i: int| 0 <= i < hs.len() && hs[i].0 == n;
        assert(h2[i] == (n, v2));
    } else {
        assert(h2[hs.len() as int] == (n, v2));
    }
    if v1.len() > 0 {
        if has_name(hs, n) {
            let i = choose|i: int| 0 <= i < hs.len() && hs[i].0 == n;
            assert(h1[i].0 == n);
            assert(header_insert(h1, n, v2) =~= h2);
        } else {
            assert(h1[hs.len() as int].0 == n);
            assert(header_insert(h1, n, v2) =~= h2);
        }
    }
}

/// Insertions under two different names keep both.
pub proof fn lemma_distinct_names_kept(
    hs: Seq<HeaderEntry>,
    n1: Seq<char>,
    v1: Seq<Seq<u8>>,
    n2: Seq<char>,
    v2: Seq<Seq<u8>>,
)
    requires
        names_unique(hs),
        n1 != n2,
        v1.len() > 0,
        v2.len() > 0,
    ensures
        holds(header_insert(header_insert(hs, n1, v1), n2, v2), n1, v1),
        holds(header_insert(header_insert(hs, n1, v1), n2, v2), n2, v2),
{
    let h1 = header_insert(hs, n1, v1);
    let h2 = header_insert(h1, n2, v2);
    let j: int = if has_name(hs, n1) {
        choose|i: int| 0 <= i < hs.len() && hs[i].0 == n1
    } else {
        hs.len() as int
    };
    assert(h1[j] == (n1, v1));
    assert(h1.len() <= h2.len());
    assert(h2[j] == (n1, v1));
    let k: int = if has_name(h1, n2) {
        choose|i: int| 0 <= i < h1.len() && h1[i].0 == n2
    } else {
        h1.len() as int
    };
    assert(h2[k] == (n2, v2));
}

/// Inserts `values` under `name` into `headers`, as [`header_insert`] states.
pub fn insert_values(headers: &mut Vec<HeaderField>, name: String, values: Vec<Vec<u8>>)
    requires
        names_unique(entries_of(old(headers)@)),
    ensures
        entries_of(final(headers)@) == header_insert(entries_of(old(headers)@), name@, values.deep_view()),
        names_unique(entries_of(final(headers)@)),
{
    proof {
        lemma_insert_unique(entries_of(headers@), name@, values.deep_view());
    }
    if values.len() == 0 {
        assert(values.deep_view().len() == 0);
        return;
    }
    let ghost hs = entries_of(headers@);
    let mut i: usize = 0;
    while i < headers.len()
        invariant
            0 <= i <= headers.len(),
            headers@ == old(headers)@,
            hs == entries_of(headers@),
            names_unique(hs),
            values@.len() > 0,
            forall|k: int| 0 <= k < i ==> hs[k].0 != name@,
        decreases headers.len() - i,
    {
        if headers[i].name == name {
            let ghost at = i as int;
            let ghost vs = values.deep_view();
            let ghost n = name@;
            assert(vs.len() == values@.len());
            assert(hs[at].0 == n);
            headers.set(i, HeaderField { name, values });
            assert(has_name(hs, n));
            assert(entries_of(headers@) =~= header_insert(hs, n, vs)) by {
                assert forall|k: int| 0 <= k < hs.len() && k != at implies hs[k].0 != n by {
                    if k < at {
                    } else {
                        assert(hs[at].0 != hs[k].0);
                    }
                }
                let ins = header_insert(hs, n, vs);
                assert forall|k: int| 0 <= k < hs.len() implies entries_of(headers@)[k] == ins[k] by {
                    assert(ins[k] == (if hs[k].0 == n { (n, vs) } else { hs[k] }));
                    if k == at {
                        assert(headers@[k]@ == (n, vs));
                    } else {
                        assert(headers@[k] == old(headers)@[k]);
                        assert(entries_of(headers@)[k] == hs[k]);
                    }
                }
            }
            return;
        }
        i = i + 1;
    }
    headers.push(HeaderField { name, values });
    assert(!has_name(hs, name@));
    assert(entries_of(headers@) =~= hs.push((name@, values.deep_view())));
}

} // verus!
