//! Ordering of the schema list and lookups in it.
use vstd::prelude::*;
use vstd::utf8::encode_utf8;

use crate::api_models::SchemaSummary;

verus! {

broadcast use vstd::seq_lib::group_to_multiset_ensures;

/// Lexicographic order on byte strings (the order of `str`'s `Ord`).
pub open spec fn bytes_lt(a: Seq<u8>, b: Seq<u8>) -> bool
    decreases a.len(),
{
    if a.len() == 0 {
        b.len() > 0
    } else if b.len() == 0 {
        false
    } else if a[0] != b[0] {
        a[0] < b[0]
    } else {
        bytes_lt(a.drop_first(), b.drop_first())
    }
}

/// The UTF-8 encoding of a text.
pub open spec fn utf8(s: Seq<char>) -> Seq<u8> {
    encode_utf8(s)
}

/// `a` comes strictly before `b`: by category, then by schema name.
pub open spec fn schema_lt(a: SchemaSummary, b: SchemaSummary) -> bool {
    ||| bytes_lt(utf8(a.category@), utf8(b.category@))
    ||| (utf8(a.category@) == utf8(b.category@) && bytes_lt(
        utf8(a.schema_name@),
        utf8(b.schema_name@),
    ))
}

/// Every schema of `s` comes no later than those after it.
pub open spec fn schemas_sorted(s: Seq<SchemaSummary>) -> bool {
    forall|i: int, j: int| 0 <= i < j < s.len() ==> !schema_lt(#[trigger] s[j], #[trigger] s[i])
}

proof fn lemma_bytes_lt_asym(a: Seq<u8>, b: Seq<u8>)
    ensures
        bytes_lt(a, b) ==> !bytes_lt(b, a),
    decreases a.len(),
{
    if a.len() > 0 && b.len() > 0 && a[0] == b[0] {
        lemma_bytes_lt_asym(a.drop_first(), b.drop_first());
    }
}

proof fn lemma_bytes_lt_total(a: Seq<u8>, b: Seq<u8>)
    ensures
        bytes_lt(a, b) || bytes_lt(b, a) || a == b,
    decreases a.len(),
{
    if a.len() > 0 && b.len() > 0 && a[0] == b[0] {
        lemma_bytes_lt_total(a.drop_first(), b.drop_first());
        if a.drop_first() == b.drop_first() {
            assert(a =~= seq![a[0]] + a.drop_first());
            assert(b =~= seq![b[0]] + b.drop_first());
        }
    } else if a.len() == 0 && b.len() == 0 {
        assert(a =~= b);
    }
}

proof fn lemma_bytes_lt_trans(a: Seq<u8>, b: Seq<u8>, c: Seq<u8>)
    requires
        bytes_lt(a, b),
        bytes_lt(b, c),
    ensures
        bytes_lt(a, c),
    decreases a.len(),
{
    if a.len() > 0 && b.len() > 0 && c.len() > 0 && a[0] == b[0] && b[0] == c[0] {
        lemma_bytes_lt_trans(a.drop_first(), b.drop_first(), c.drop_first());
    }
}

proof fn lemma_bytes_lt_common_prefix(a: Seq<u8>, b: Seq<u8>, i: int)
    requires
        0 <= i <= a.len(),
        i <= b.len(),
        forall|k: int| 0 <= k < i ==> a[k] == b[k],
    ensures
        bytes_lt(a, b) == bytes_lt(a.skip(i), b.skip(i)),
    decreases i,
{
    if i > 0 {
        lemma_bytes_lt_common_prefix(a.drop_first(), b.drop_first(), i - 1);
        assert(a.drop_first().skip(i - 1) =~= a.skip(i));
        assert(b.drop_first().skip(i - 1) =~= b.skip(i));
    } else {
        assert(a.skip(0) =~= a);
        assert(b.skip(0) =~= b);
    }
}

/// The order on schemas is a strict weak order whose incomparable pairs
/// share category and name.
proof fn lemma_schema_lt_order(a: SchemaSummary, b: SchemaSummary, c: SchemaSummary)
    ensures
        schema_lt(a, b) ==> !schema_lt(b, a),
        schema_lt(a, b) && schema_lt(b, c) ==> schema_lt(a, c),
        !schema_lt(a, b) && !schema_lt(b, c) ==> !schema_lt(a, c),
{
    let (ca, cb, cc) = (utf8(a.category@), utf8(b.category@), utf8(c.category@));
    let (na, nb, nc) = (utf8(a.schema_name@), utf8(b.schema_name@), utf8(c.schema_name@));
    lemma_bytes_lt_asym(ca, cb);
    lemma_bytes_lt_asym(cb, ca);
    lemma_bytes_lt_asym(na, nb);
    lemma_bytes_lt_asym(nb, na);
    lemma_bytes_lt_total(ca, cb);
    lemma_bytes_lt_total(cb, cc);
    lemma_bytes_lt_total(ca, cc);
    lemma_bytes_lt_total(na, nb);
    lemma_bytes_lt_total(nb, nc);
    lemma_bytes_lt_total(na, nc);
    if bytes_lt(ca, cb) && bytes_lt(cb, cc) {
        lemma_bytes_lt_trans(ca, cb, cc);
    }
    if bytes_lt(na, nb) && bytes_lt(nb, nc) {
        lemma_bytes_lt_trans(na, nb, nc);
    }
    if bytes_lt(cc, cb) && bytes_lt(cb, ca) {
        lemma_bytes_lt_trans(cc, cb, ca);
    }
    if bytes_lt(nc, nb) && bytes_lt(nb, na) {
        lemma_bytes_lt_trans(nc, nb, na);
    }
    lemma_bytes_lt_asym(ca, cc);
    lemma_bytes_lt_asym(cc, ca);
    lemma_bytes_lt_asym(na, nc);
    lemma_bytes_lt_asym(nc, na);
    lemma_bytes_lt_asym(cb, cc);
    lemma_bytes_lt_asym(cc, cb);
    lemma_bytes_lt_asym(nb, nc);
    lemma_bytes_lt_asym(nc, nb);
}

fn bytes_less(a: &[u8], b: &[u8]) -> (r: bool)
    ensures
        r == bytes_lt(a@, b@),
{
    let mut i: usize = 0;
    while i < a.len() && i < b.len() && a[i] == b[i]
        invariant
            i <= a@.len(),
            i <= b@.len(),
            forall|k: int| 0 <= k < i ==> a@[k] == b@[k],
        decreases a@.len() - i,
    {
        i = i + 1;
    }
    proof {
        lemma_bytes_lt_common_prefix(a@, b@, i as int);
    }
    if i == a.len() {
        i < b.len()
    } else if i == b.len() {
        false
    } else {
        a[i] < b[i]
    }
}

/// Whether `a` comes strictly before `b` in the schema order.
pub fn schema_less(a: &SchemaSummary, b: &SchemaSummary) -> (r: bool)
    ensures
        r == schema_lt(*a, *b),
{
    let ca = a.category.as_str().as_bytes();
    let cb = b.category.as_str().as_bytes();
    if bytes_less(ca, cb) {
        return true;
    }
    if bytes_less(cb, ca) {
        return false;
    }
    proof {
        lemma_bytes_lt_total(ca@, cb@);
    }
    bytes_less(a.schema_name.as_str().as_bytes(), b.schema_name.as_str().as_bytes())
}

/// Orders schemas by category, then by name; the same schemas come out.
pub fn sort_schemas(schemas: Vec<SchemaSummary>) -> (r: Vec<SchemaSummary>)
    ensures
        r@.to_multiset() == schemas@.to_multiset(),
        schemas_sorted(r@),
{
    let mut rest = schemas;
    let mut out: Vec<SchemaSummary> = Vec::new();
    while rest.len() > 0
        invariant
            out@.to_multiset().add(rest@.to_multiset()) == schemas@.to_multiset(),
            schemas_sorted(out@),
            forall|i: int, j: int|
                0 <= i < out@.len() && 0 <= j < rest@.len() ==> !schema_lt(
                    #[trigger] rest@[j],
                    #[trigger] out@[i],
                ),
        decreases rest@.len(),
    {
        let mut best: usize = 0;
        let mut k: usize = 1;
        proof {
            lemma_schema_lt_order(rest@[0], rest@[0], rest@[0]);
        }
        while k < rest.len()
            invariant
                0 <= best < k <= rest@.len(),
                forall|j: int| 0 <= j < k ==> !schema_lt(#[trigger] rest@[j], rest@[best as int]),
            decreases rest@.len() - k,
        {
            if schema_less(&rest[k], &rest[best]) {
                proof {
                    assert forall|j: int| 0 <= j < k implies !schema_lt(
                        #[trigger] rest@[j],
                        rest@[k as int],
                    ) by {
                        lemma_schema_lt_order(rest@[k as int], rest@[best as int], rest@[j]);
                        lemma_schema_lt_order(rest@[j], rest@[k as int], rest@[best as int]);
                    }
                    lemma_schema_lt_order(rest@[k as int], rest@[k as int], rest@[k as int]);
                }
                best = k;
            }
            k = k + 1;
        }
        let ghost old_rest = rest@;
        let ghost old_out = out@;
        let m = rest.remove(best);
        out.push(m);
        proof {
            assert(old_rest.remove(best as int) == rest@);
            assert forall|i: int, j: int| 0 <= i < out@.len() && 0 <= j < rest@.len() implies !schema_lt(
                #[trigger] rest@[j],
                #[trigger] out@[i],
            ) by {
                if j < best {
                    assert(rest@[j] == old_rest[j]);
                } else {
                    assert(rest@[j] == old_rest[j + 1]);
                }
                if i < old_out.len() {
                    assert(out@[i] == old_out[i]);
                }
            }
            assert forall|i: int, j: int| 0 <= i < j < out@.len() implies !schema_lt(
                #[trigger] out@[j],
                #[trigger] out@[i],
            ) by {
                if j < old_out.len() {
                    assert(out@[i] == old_out[i]);
                    assert(out@[j] == old_out[j]);
                } else {
                    assert(out@[i] == old_out[i]);
                    assert(out@[j] == m);
                    assert(m == old_rest[best as int]);
                }
            }
            assert(out@.to_multiset() == old_out.to_multiset().insert(m));
            assert(old_rest.remove(best as int).to_multiset() == old_rest.to_multiset().remove(m));
            assert(out@.to_multiset().add(rest@.to_multiset()) =~= old_out.to_multiset().add(
                old_rest.to_multiset(),
            ));
        }
    }
    out
}

} // verus!
