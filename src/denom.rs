//! Token-factory denoms: `factory/<creator>/<subdenom>`.
use vstd::prelude::*;

verus! {

/// The segments of `s` between `/` separators, as `str::split('/')` yields them.
pub open spec fn segments(s: Seq<char>) -> Seq<Seq<char>>
    decreases s.len(),
{
    if s.len() == 0 {
        seq![Seq::empty()]
    } else {
        let init = segments(s.drop_last());
        if s.last() == '/' {
            init.push(Seq::empty())
        } else {
            init.update(init.len() - 1, init.last().push(s.last()))
        }
    }
}

/// The literal first segment of every token-factory denom.
pub open spec fn factory_prefix() -> Seq<char> {
    seq!['f', 'a', 'c', 't', 'o', 'r', 'y']
}

/// A token-factory denom has exactly three segments, the first being `factory`.
pub open spec fn is_factory_denom(s: Seq<char>) -> bool {
    segments(s).len() == 3 && segments(s)[0] == factory_prefix()
}

proof fn lemma_segments_nonempty(s: Seq<char>)
    ensures
        segments(s).len() >= 1,
    decreases s.len(),
{
    if s.len() > 0 {
        lemma_segments_nonempty(s.drop_last());
    }
}

/// Splits a token-factory denom into its creator and its subdenom, or returns
/// `None` where `s` is not one.
pub fn split_factory_denom(s: &str) -> (r: Option<(String, String)>)
    ensures
        r is None <==> !is_factory_denom(s@),
        r matches Some((creator, sub)) ==> creator@ == segments(s@)[1] && sub@ == segments(
            s@,
        )[2],
{
    let n = s.unicode_len();
    let mut i: usize = 0;
    let mut n_slash: usize = 0;
    let mut p1: usize = 0;
    let mut p2: usize = 0;
    while i < n
        invariant
            n == s@.len(),
            i <= n,
            n_slash <= i,
            segments(s@.take(i as int)).len() == n_slash + 1,
            n_slash == 0 ==> segments(s@.take(i as int))[0] == s@.take(i as int),
            n_slash >= 1 ==> p1 < i && segments(s@.take(i as int))[0] == s@.take(p1 as int),
            n_slash == 1 ==> segments(s@.take(i as int))[1] == s@.subrange(p1 + 1, i as int),
            n_slash >= 2 ==> p1 < p2 < i && segments(s@.take(i as int))[1] == s@.subrange(
                p1 + 1,
                p2 as int,
            ),
            n_slash == 2 ==> segments(s@.take(i as int))[2] == s@.subrange(p2 + 1, i as int),
        decreases n - i,
    {
        let c = s.get_char(i);
        proof {
            let t = s@.take(i + 1);
            assert(t.drop_last() =~= s@.take(i as int));
            assert(t.last() == c);
            lemma_segments_nonempty(s@.take(i as int));
            if c != '/' {
                if n_slash == 0 {
                    assert(s@.take(i as int).push(c) =~= t);
                } else if n_slash == 1 {
                    assert(s@.subrange(p1 + 1, i as int).push(c) =~= s@.subrange(
                        p1 + 1,
                        i + 1,
                    ));
                } else if n_slash == 2 {
                    assert(s@.subrange(p2 + 1, i as int).push(c) =~= s@.subrange(
                        p2 + 1,
                        i + 1,
                    ));
                }
            } else {
                assert(s@.subrange(i + 1, (i + 1) as int) =~= Seq::<char>::empty());
            }
        }
        if c == '/' {
            if n_slash == 0 {
                p1 = i;
            } else if n_slash == 1 {
                p2 = i;
            }
            n_slash = n_slash + 1;
        }
        i = i + 1;
    }
    assert(s@.take(n as int) =~= s@);
    if n_slash != 2 {
        return None;
    }
    let first = String::from_str(s.substring_char(0, p1));
    let prefix = String::from_str("factory");
    proof {
        reveal_strlit("factory");
        assert(prefix@ =~= factory_prefix());
        assert(first@ =~= s@.take(p1 as int));
    }
    if first != prefix {
        return None;
    }
    let creator = String::from_str(s.substring_char(p1 + 1, p2));
    let sub = String::from_str(s.substring_char(p2 + 1, n));
    Some((creator, sub))
}

/// Whether `s` is a token-factory denom.
pub fn is_valid_factory_denom(s: &str) -> (r: bool)
    ensures
        r == is_factory_denom(s@),
{
    split_factory_denom(s).is_some()
}

} // verus!
