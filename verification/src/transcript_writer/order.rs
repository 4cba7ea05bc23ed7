//! The order in which text keys are kept: byte-wise on their UTF-8
//! encoding, which is how `str` and `String` compare.

use vstd::prelude::*;
use vstd::utf8::{encode_utf8, encode_utf8_decode_utf8};

verus! {

/// Whether `a` comes before `b`, comparing from position `i` on.
pub open spec fn bytes_precede_from(a: Seq<u8>, b: Seq<u8>, i: int) -> bool
    decreases a.len() - i,
{
    if i >= a.len() {
        i < b.len()
    } else if i >= b.len() {
        false
    } else if a[i] < b[i] {
        true
    } else if a[i] > b[i] {
        false
    } else {
        bytes_precede_from(a, b, i + 1)
    }
}

/// Whether `a` comes strictly before `b` in lexicographic byte order.
pub open spec fn bytes_precede(a: Seq<u8>, b: Seq<u8>) -> bool {
    bytes_precede_from(a, b, 0)
}

/// Whether the text `a` comes strictly before the text `b`.
pub open spec fn text_precedes(a: Seq<char>, b: Seq<char>) -> bool {
    bytes_precede(encode_utf8(a), encode_utf8(b))
}

/// No byte string comes before itself.
pub proof fn lemma_precede_irreflexive(a: Seq<u8>, i: int)
    requires
        0 <= i,
    ensures
        !bytes_precede_from(a, a, i),
    decreases a.len() - i,
{
    if i < a.len() {
        lemma_precede_irreflexive(a, i + 1);
    }
}

/// Lexicographic byte order is transitive.
pub proof fn lemma_precede_transitive(a: Seq<u8>, b: Seq<u8>, c: Seq<u8>, i: int)
    requires
        0 <= i,
        bytes_precede_from(a, b, i),
        bytes_precede_from(b, c, i),
    ensures
        bytes_precede_from(a, c, i),
    decreases a.len() - i,
{
    if i < a.len() && i < b.len() && i < c.len() && a[i] == b[i] && b[i] == c[i] {
        lemma_precede_transitive(a, b, c, i + 1);
    }
}

/// Two different byte strings are ordered one way or the other.
pub proof fn lemma_precede_total(a: Seq<u8>, b: Seq<u8>, i: int)
    requires
        0 <= i <= a.len(),
        i <= b.len(),
        forall|j: int| 0 <= j < i ==> a[j] == b[j],
        a != b,
    ensures
        bytes_precede_from(a, b, i) || bytes_precede_from(b, a, i),
    decreases a.len() - i,
{
    if i == a.len() && i == b.len() {
        assert(a =~= b);
    } else if i < a.len() && i < b.len() && a[i] == b[i] {
        lemma_precede_total(a, b, i + 1);
    }
}

/// Different texts have different encodings.
pub proof fn lemma_encoding_injective(a: Seq<char>, b: Seq<char>)
    requires
        encode_utf8(a) == encode_utf8(b),
    ensures
        a == b,
{
    encode_utf8_decode_utf8(a);
    encode_utf8_decode_utf8(b);
}

/// The order on texts is a strict total order: no text precedes itself,
/// precedence is transitive, and of two different texts one precedes the
/// other.
pub proof fn lemma_text_order_is_strict_total(a: Seq<char>, b: Seq<char>, c: Seq<char>)
    ensures
        !text_precedes(a, a),
        text_precedes(a, b) && text_precedes(b, c) ==> text_precedes(a, c),
        a != b ==> text_precedes(a, b) || text_precedes(b, a),
{
    lemma_precede_irreflexive(encode_utf8(a), 0);
    if text_precedes(a, b) && text_precedes(b, c) {
        lemma_precede_transitive(encode_utf8(a), encode_utf8(b), encode_utf8(c), 0);
    }
    if a != b {
        if encode_utf8(a) == encode_utf8(b) {
            lemma_encoding_injective(a, b);
        }
        lemma_precede_total(encode_utf8(a), encode_utf8(b), 0);
    }
}

/// Three ways two texts can compare.
#[derive(Debug, Clone, Copy, PartialEq, Eq, Structural)]
pub enum TextOrder {
    Before,
    Same,
    After,
}

/// How `a` compares to `b` in the byte order of their encodings.
pub fn compare_text(a: &str, b: &str) -> (order: TextOrder)
    ensures
        order == TextOrder::Before <==> text_precedes(a@, b@),
        order == TextOrder::After <==> text_precedes(b@, a@),
        order == TextOrder::Same <==> a@ == b@,
{
    let x = a.as_bytes();
    let y = b.as_bytes();
    let ghost xs = encode_utf8(a@);
    let ghost ys = encode_utf8(b@);
    let mut i: usize = 0;
    while i < x.len() && i < y.len()
        invariant
            x@ == xs,
            y@ == ys,
            xs == encode_utf8(a@),
            ys == encode_utf8(b@),
            i <= x@.len(),
            i <= y@.len(),
            forall|j: int| 0 <= j < i ==> xs[j] == ys[j],
            bytes_precede(xs, ys) == bytes_precede_from(xs, ys, i as int),
            bytes_precede(ys, xs) == bytes_precede_from(ys, xs, i as int),
        decreases x@.len() - i,
    {
        if x[i] < y[i] {
            proof {
                assert(xs[i as int] < ys[i as int]);
                assert(bytes_precede_from(xs, ys, i as int));
                assert(!bytes_precede_from(ys, xs, i as int));
                lemma_precede_irreflexive(xs, 0);
                if xs == ys {
                    assert(false);
                }
            }
            return TextOrder::Before;
        } else if x[i] > y[i] {
            proof {
                assert(bytes_precede_from(ys, xs, i as int));
                assert(!bytes_precede_from(xs, ys, i as int));
                if xs == ys {
                    assert(false);
                }
            }
            return TextOrder::After;
        }
        i = i + 1;
    }
    proof {
        lemma_precede_irreflexive(xs, 0);
        if a@ == b@ {
            assert(xs == ys);
        }
        if xs == ys {
            lemma_encoding_injective(a@, b@);
        }
    }
    if x.len() < y.len() {
        proof {
            if a@ == b@ {
                assert(false);
            }
        }
        TextOrder::Before
    } else if x.len() > y.len() {
        proof {
            if a@ == b@ {
                assert(false);
            }
        }
        TextOrder::After
    } else {
        proof {
            assert(xs =~= ys);
        }
        TextOrder::Same
    }
}

} // verus!
