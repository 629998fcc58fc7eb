//! Lexicographic order on strings, by Unicode scalar value.
//!
//! For valid UTF-8 this is the order in which `String`'s `Ord` sorts, since UTF-8
//! encoding preserves the order of code points.

use vstd::prelude::*;
use vstd::string::*;

verus! {

/// `a` sorts strictly before `b`: they agree up to position `k`, and there `a` either
/// ends while `b` goes on, or has the smaller character.
pub open spec fn lex_lt_at(a: Seq<char>, b: Seq<char>, k: int) -> bool {
    &&& 0 <= k <= a.len()
    &&& k <= b.len()
    &&& a.take(k) =~= b.take(k)
    &&& ((k == a.len() && k < b.len()) || (k < a.len() && k < b.len() && (a[k] as int) < (
    b[k] as int)))
}

/// `a < b` in lexicographic order.
pub open spec fn lex_lt(a: Seq<char>, b: Seq<char>) -> bool {
    exists|k: int| lex_lt_at(a, b, k)
}

/// No string sorts before itself.
pub proof fn lemma_lex_lt_irreflexive(a: Seq<char>)
    ensures
        !lex_lt(a, a),
{
}

/// Lexicographic order is transitive.
pub proof fn lemma_lex_lt_transitive(a: Seq<char>, b: Seq<char>, c: Seq<char>)
    requires
        lex_lt(a, b),
        lex_lt(b, c),
    ensures
        lex_lt(a, c),
{
    let k1 = choose|k: int| lex_lt_at(a, b, k);
    let k2 = choose|k: int| lex_lt_at(b, c, k);
    if k1 < k2 {
        assert(b.take(k1) =~= b.take(k2).take(k1));
        assert(c.take(k1) =~= c.take(k2).take(k1));
        assert(b[k1] == b.take(k2)[k1]);
        assert(c[k1] == c.take(k2)[k1]);
        assert(lex_lt_at(a, c, k1));
    } else if k2 < k1 {
        assert(a.take(k2) =~= a.take(k1).take(k2));
        assert(b.take(k2) =~= b.take(k1).take(k2));
        assert(a[k2] == a.take(k1)[k2]);
        assert(b[k2] == b.take(k1)[k2]);
        assert(lex_lt_at(a, c, k2));
    } else {
        assert(lex_lt_at(a, c, k1));
    }
}

/// The outcome of comparing two strings.
#[derive(Clone, Copy, PartialEq, Eq, Structural, Debug)]
pub enum StrOrder {
    Less,
    Equal,
    Greater,
}

/// What comparing `a` with `b` gives, in spec form.
pub open spec fn str_order(a: Seq<char>, b: Seq<char>) -> StrOrder {
    if a == b {
        StrOrder::Equal
    } else if lex_lt(a, b) {
        StrOrder::Less
    } else {
        StrOrder::Greater
    }
}

/// Compares two strings lexicographically by character.
pub fn compare_str(a: &str, b: &str) -> (r: StrOrder)
    ensures
        r == StrOrder::Less ==> lex_lt(a@, b@),
        r == StrOrder::Equal <==> a@ == b@,
        r == StrOrder::Greater ==> lex_lt(b@, a@),
        r == str_order(a@, b@),
{
    let na = a.unicode_len();
    let nb = b.unicode_len();
    let mut i: usize = 0;
    while i < na && i < nb
        invariant
            na == a@.len(),
            nb == b@.len(),
            i <= na,
            i <= nb,
            a@.take(i as int) =~= b@.take(i as int),
        decreases na - i,
    {
        let ca = a.get_char(i);
        let cb = b.get_char(i);
        if (ca as u32) < (cb as u32) {
            assert(lex_lt_at(a@, b@, i as int));
            proof {
                lemma_lex_lt_irreflexive(a@);
            }
            return StrOrder::Less;
        } else if (cb as u32) < (ca as u32) {
            assert(lex_lt_at(b@, a@, i as int));
            proof {
                lemma_lex_lt_irreflexive(a@);
                if lex_lt(a@, b@) {
                    lemma_lex_lt_transitive(a@, b@, a@);
                }
            }
            return StrOrder::Greater;
        }
        assert(a@.take(i + 1) =~= a@.take(i as int).push(ca));
        assert(b@.take(i + 1) =~= b@.take(i as int).push(cb));
        i = i + 1;
    }
    if na == nb {
        assert(a@ =~= a@.take(i as int));
        assert(b@ =~= b@.take(i as int));
        StrOrder::Equal
    } else if na < nb {
        assert(lex_lt_at(a@, b@, i as int));
        proof {
            lemma_lex_lt_irreflexive(a@);
        }
        StrOrder::Less
    } else {
        assert(lex_lt_at(b@, a@, i as int));
        proof {
            lemma_lex_lt_irreflexive(a@);
            if lex_lt(a@, b@) {
                lemma_lex_lt_transitive(a@, b@, a@);
            }
        }
        StrOrder::Greater
    }
}

} // verus!
