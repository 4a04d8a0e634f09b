//! Text helpers: replacing a pattern in an endpoint.

use vstd::prelude::*;

verus! {

/// `s` with every occurrence of the non-empty pattern `from` replaced by `to`,
/// occurrences found from the left without overlap.
pub open spec fn replaced(s: Seq<char>, from: Seq<char>, to: Seq<char>) -> Seq<char>
    decreases s.len(),
{
    if from.len() == 0 || s.len() < from.len() {
        s
    } else if s.subrange(0, from.len() as int) == from {
        to + replaced(s.subrange(from.len() as int, s.len() as int), from, to)
    } else {
        seq![s[0]] + replaced(s.drop_first(), from, to)
    }
}

/// `from` occurs nowhere in `s`.
pub open spec fn absent(s: Seq<char>, from: Seq<char>) -> bool {
    forall|i: int| 0 <= i && i + from.len() <= s.len() ==> #[trigger] s.subrange(i, i + from.len()) != from
}

/// Text in which the pattern does not occur is left as it is.
pub proof fn lemma_replaced_absent(s: Seq<char>, from: Seq<char>, to: Seq<char>)
    requires
        absent(s, from),
    ensures
        replaced(s, from, to) == s,
    decreases s.len(),
{
    if from.len() == 0 || s.len() < from.len() {
    } else {
        let z: int = 0;
        assert(s.subrange(z, z + from.len()) != from);
        assert(s.subrange(z, z + from.len()) == s.subrange(0, from.len() as int));
        let t = s.drop_first();
        assert forall|i: int| 0 <= i && i + from.len() <= t.len() implies #[trigger] t.subrange(
            i,
            i + from.len(),
        ) != from by {
            assert(t.subrange(i, i + from.len()) =~= s.subrange(i + 1, i + 1 + from.len()));
        }
        lemma_replaced_absent(t, from, to);
        assert(seq![s[0]] + t =~= s);
    }
}

/// Whether `from` occurs in `s` at position `i`.
fn occurs_at(s: &str, n: usize, i: usize, from: &str, k: usize) -> (b: bool)
    requires
        n == s@.len(),
        k == from@.len(),
        i + k <= n,
    ensures
        b == (s@.subrange(i as int, i + k) == from@),
{
    let mut j: usize = 0;
    while j < k
        invariant
            n == s@.len(),
            k == from@.len(),
            i + k <= n,
            j <= k,
            forall|t: int| 0 <= t < j ==> s@[i + t] == from@[t],
        decreases k - j,
    {
        if s.get_char(i + j) != from.get_char(j) {
            assert(s@.subrange(i as int, i + k)[j as int] != from@[j as int]);
            return false;
        }
        j = j + 1;
    }
    assert(s@.subrange(i as int, i + k) =~= from@);
    true
}

/// `s` with every occurrence of `from` replaced by `to`, as `str::replace` does.
pub fn replace_all(s: &str, from: &str, to: &str) -> (r: String)
    requires
        from@.len() > 0,
    ensures
        r@ == replaced(s@, from@, to@),
{
    let n: usize = s.unicode_len();
    let k: usize = from.unicode_len();
    let mut out = String::new();
    let mut i: usize = 0;
    assert(s@.subrange(0, n as int) =~= s@);
    while i < n
        invariant
            n == s@.len(),
            k == from@.len(),
            k > 0,
            i <= n,
            out@ + replaced(s@.subrange(i as int, n as int), from@, to@) == replaced(
                s@,
                from@,
                to@,
            ),
        decreases n - i,
    {
        let rest = Ghost(s@.subrange(i as int, n as int));
        if k <= n - i && occurs_at(s, n, i, from, k) {
            assert(rest@.subrange(0, k as int) =~= s@.subrange(i as int, i + k));
            assert(rest@.subrange(k as int, rest@.len() as int) =~= s@.subrange(
                i + k,
                n as int,
            ));
            out.append(to);
            i = i + k;
        } else {
            if k <= n - i {
                assert(rest@.subrange(0, k as int) =~= s@.subrange(i as int, i + k));
            }
            assert(rest@.drop_first() =~= s@.subrange(i + 1, n as int));
            let c = s.substring_char(i, i + 1);
            assert(c@ =~= seq![rest@[0]]);
            out.append(c);
            i = i + 1;
        }
        assert((out@ + replaced(s@.subrange(i as int, n as int), from@, to@)) =~= replaced(
            s@,
            from@,
            to@,
        ));
    }
    assert(s@.subrange(n as int, n as int) =~= Seq::<char>::empty());
    assert(out@ =~= out@ + Seq::<char>::empty());
    out
}

} // verus!
