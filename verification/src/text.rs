//! Text helpers behind the resolver's cache keys and locator parsing: the
//! decimal rendering of a numeric id, the lowercased form of a species name,
//! and the segment of an evolution-chain locator that names the chain.

use vstd::prelude::*;

verus! {

/// The character for one decimal digit.
pub open spec fn decimal_digit(d: nat) -> char
    recommends
        d < 10,
{
    if d == 0 {
        '0'
    } else if d == 1 {
        '1'
    } else if d == 2 {
        '2'
    } else if d == 3 {
        '3'
    } else if d == 4 {
        '4'
    } else if d == 5 {
        '5'
    } else if d == 6 {
        '6'
    } else if d == 7 {
        '7'
    } else if d == 8 {
        '8'
    } else {
        '9'
    }
}

/// The decimal representation of a natural number, most significant digit
/// first, without leading zeroes (`0` is rendered as `"0"`).
pub open spec fn decimal_rep(n: nat) -> Seq<char>
    decreases n,
{
    if n < 10 {
        seq![decimal_digit(n)]
    } else {
        decimal_rep(n / 10).push(decimal_digit(n % 10))
    }
}

/// The one-character string for a decimal digit.
fn digit_str(d: u64) -> (s: &'static str)
    requires
        d < 10,
    ensures
        s@ =~= seq![decimal_digit(d as nat)],
{
    proof {
        reveal_strlit("0");
        reveal_strlit("1");
        reveal_strlit("2");
        reveal_strlit("3");
        reveal_strlit("4");
        reveal_strlit("5");
        reveal_strlit("6");
        reveal_strlit("7");
        reveal_strlit("8");
        reveal_strlit("9");
    }
    if d == 0 {
        "0"
    } else if d == 1 {
        "1"
    } else if d == 2 {
        "2"
    } else if d == 3 {
        "3"
    } else if d == 4 {
        "4"
    } else if d == 5 {
        "5"
    } else if d == 6 {
        "6"
    } else if d == 7 {
        "7"
    } else if d == 8 {
        "8"
    } else {
        "9"
    }
}

/// The digits of `digs` as characters, in reverse order of the sequence.
spec fn rev_digit_chars(digs: Seq<u64>) -> Seq<char>
    decreases digs.len(),
{
    if digs.len() == 0 {
        Seq::empty()
    } else {
        rev_digit_chars(digs.drop_first()) + seq![decimal_digit(digs.first() as nat)]
    }
}

proof fn lemma_rev_digit_chars_push(digs: Seq<u64>, d: u64)
    ensures
        rev_digit_chars(digs.push(d)) =~= seq![decimal_digit(d as nat)] + rev_digit_chars(digs),
    decreases digs.len(),
{
    let dp = digs.push(d);
    assert(dp.len() == digs.len() + 1);
    assert(rev_digit_chars(dp) == rev_digit_chars(dp.drop_first()) + seq![
        decimal_digit(dp.first() as nat),
    ]);
    if digs.len() == 0 {
        assert(dp.first() == d);
        assert(dp.drop_first() =~= Seq::<u64>::empty());
        assert(rev_digit_chars(Seq::<u64>::empty()) == Seq::<char>::empty());
    } else {
        assert(dp.first() == digs.first());
        assert(dp.drop_first() =~= digs.drop_first().push(d));
        lemma_rev_digit_chars_push(digs.drop_first(), d);
        assert(rev_digit_chars(digs) == rev_digit_chars(digs.drop_first()) + seq![
            decimal_digit(digs.first() as nat),
        ]);
    }
}

/// The decimal string of a numeric id, e.g. the numeric cache key of a
/// resolved record.
pub fn decimal_string(n: u64) -> (r: String)
    ensures
        r@ == decimal_rep(n as nat),
{
    let mut m: u64 = n;
    let mut digs: Vec<u64> = Vec::new();
    loop
        invariant_except_break
            (m == n && digs@.len() == 0) || (m > 0 && decimal_rep(n as nat) =~= decimal_rep(
                m as nat,
            ) + rev_digit_chars(digs@)),
            forall|j: int| 0 <= j < digs@.len() ==> digs@[j] < 10,
        ensures
            decimal_rep(n as nat) =~= rev_digit_chars(digs@),
            forall|j: int| 0 <= j < digs@.len() ==> digs@[j] < 10,
        decreases m,
    {
        let d: u64 = m % 10;
        let ghost old_digs = digs@;
        let ghost old_m = m;
        digs.push(d);
        m = m / 10;
        proof {
            lemma_rev_digit_chars_push(old_digs, d);
            if old_m >= 10 {
                assert(decimal_rep(old_m as nat) == decimal_rep((old_m / 10) as nat).push(
                    decimal_digit((old_m % 10) as nat),
                ));
                assert(decimal_rep((old_m / 10) as nat).push(decimal_digit(d as nat))
                    =~= decimal_rep((old_m / 10) as nat) + seq![decimal_digit(d as nat)]);
            }
            if old_digs.len() == 0 {
                assert(rev_digit_chars(old_digs) =~= Seq::<char>::empty());
            }
        }
        if m == 0 {
            proof {
                assert(decimal_rep(n as nat) =~= rev_digit_chars(digs@));
            }
            break;
        }
    }
    let mut out = String::new();
    let mut i: usize = digs.len();
    while i > 0
        invariant
            i <= digs@.len(),
            forall|j: int| 0 <= j < digs@.len() ==> digs@[j] < 10,
            out@ =~= rev_digit_chars(digs@.skip(i as int)),
        decreases i,
    {
        i = i - 1;
        out.append(digit_str(digs[i]));
        proof {
            assert(digs@.skip(i as int).drop_first() =~= digs@.skip(i as int + 1));
            assert(out@ =~= rev_digit_chars(digs@.skip(i as int)));
        }
    }
    proof {
        assert(digs@.skip(0) =~= digs@);
        assert(decimal_rep(n as nat) =~= out@);
    }
    out
}

/// What `str::to_lowercase` returns for a given sequence of characters.
/// The full case-folding table is not written out here; the name stands for
/// its result, which depends on the input characters alone.
pub uninterp spec fn lower_of(s: Seq<char>) -> Seq<char>;

/// Relies on `str::to_lowercase`: the result is the lowercase equivalent of
/// the input, a function of the input characters alone, and empty input
/// gives empty output.
#[verifier::external_body]
pub(crate) fn lowercase(s: &String) -> (r: String)
    ensures
        r@ == lower_of(s@),
        s@.len() == 0 ==> r@.len() == 0,
{
    s.to_lowercase()
}

/// The segments of `s` between occurrences of `sep`, in order, as
/// `str::split` yields them: one more segment than there are separators,
/// and a separator at the start, the end, or next to another separator
/// contributes an empty segment.
pub open spec fn split_by(s: Seq<char>, sep: char) -> Seq<Seq<char>>
    decreases s.len(),
{
    if s.len() == 0 {
        seq![Seq::<char>::empty()]
    } else if s.first() == sep {
        seq![Seq::<char>::empty()] + split_by(s.drop_first(), sep)
    } else {
        let rest = split_by(s.drop_first(), sep);
        rest.update(0, seq![s.first()] + rest[0])
    }
}

proof fn lemma_split_by_len(s: Seq<char>, sep: char)
    ensures
        split_by(s, sep).len() >= 1,
    decreases s.len(),
{
    if s.len() > 0 {
        lemma_split_by_len(s.drop_first(), sep);
    }
}

/// Appending one character either opens a new empty segment (a separator)
/// or extends the final segment (any other character).
proof fn lemma_split_by_push(s: Seq<char>, sep: char, c: char)
    ensures
        c == sep ==> split_by(s.push(c), sep) =~~= split_by(s, sep) + seq![Seq::<char>::empty()],
        c != sep ==> split_by(s.push(c), sep) =~~= split_by(s, sep).update(
            split_by(s, sep).len() - 1,
            split_by(s, sep).last().push(c),
        ),
    decreases s.len(),
{
    lemma_split_by_len(s, sep);
    let sp = s.push(c);
    if s.len() == 0 {
        assert(sp.drop_first() =~= Seq::<char>::empty());
        assert(split_by(Seq::<char>::empty(), sep) =~~= seq![Seq::<char>::empty()]);
        assert(sp.first() == c);
        if c == sep {
            assert(split_by(sp, sep) == seq![Seq::<char>::empty()] + split_by(
                sp.drop_first(),
                sep,
            ));
        } else {
            assert(split_by(sp, sep) == split_by(sp.drop_first(), sep).update(0, seq![c]
                + split_by(sp.drop_first(), sep)[0]));
            assert(split_by(sp, sep) =~~= seq![seq![c]]);
            assert(split_by(s, sep).last().push(c) =~= seq![c]);
        }
    } else {
        assert(sp.first() == s.first());
        assert(sp.drop_first() =~= s.drop_first().push(c));
        lemma_split_by_push(s.drop_first(), sep, c);
        lemma_split_by_len(s.drop_first(), sep);
        let rest = split_by(s.drop_first(), sep);
        let restp = split_by(s.drop_first().push(c), sep);
        if s.first() == sep {
            assert(split_by(sp, sep) == seq![Seq::<char>::empty()] + restp);
        } else {
            assert(split_by(sp, sep) == restp.update(0, seq![s.first()] + restp[0]));
            if c == sep {
                assert(restp =~~= rest + seq![Seq::<char>::empty()]);
                assert(restp[0] == rest[0]);
            } else {
                assert(restp =~~= rest.update(rest.len() - 1, rest.last().push(c)));
                if rest.len() == 1 {
                    assert(restp[0] == rest[0].push(c));
                    assert((seq![s.first()] + rest[0].push(c)) =~= (seq![s.first()]
                        + rest[0]).push(c));
                } else {
                    assert(restp[0] == rest[0]);
                }
            }
        }
    }
}

/// The chain identifier inside an evolution-chain locator: the second-to-last
/// segment of the locator split on `'/'`, present only when the split has at
/// least two segments. With the remote source's locator shape, a trailing
/// slash follows the identifier, so that segment holds the identifier.
pub fn evolution_chain_id(url: &str) -> (r: Option<String>)
    ensures
        r is Some <==> split_by(url@, '/').len() >= 2,
        r matches Some(x) ==> x@ == split_by(url@, '/')[split_by(url@, '/').len() - 2],
{
    let n = url.unicode_len();
    let mut segs: Vec<String> = Vec::new();
    let mut seg_start: usize = 0;
    let mut i: usize = 0;
    proof {
        assert(url@.take(0) =~= Seq::<char>::empty());
    }
    while i < n
        invariant
            seg_start <= i <= n,
            n == url@.len(),
            split_by(url@.take(i as int), '/') =~~= segs@.map_values(|x: String| x@) + seq![
                url@.subrange(seg_start as int, i as int),
            ],
        decreases n - i,
    {
        let ghost prefix = url@.take(i as int);
        proof {
            assert(url@.take(i as int + 1) =~= prefix.push(url@[i as int]));
            lemma_split_by_push(prefix, '/', url@[i as int]);
            lemma_split_by_len(prefix, '/');
        }
        let c = url.get_char(i);
        if c == '/' {
            let seg = String::from_str(url.substring_char(seg_start, i));
            let ghost old_segs = segs@;
            segs.push(seg);
            proof {
                assert(segs@.map_values(|x: String| x@) =~~= old_segs.map_values(|x: String| x@)
                    + seq![url@.subrange(seg_start as int, i as int)]);
                assert(url@.subrange(i as int + 1, i as int + 1) =~= Seq::<char>::empty());
            }
            seg_start = i + 1;
        } else {
            proof {
                assert(url@.subrange(seg_start as int, i as int + 1) =~= url@.subrange(
                    seg_start as int,
                    i as int,
                ).push(url@[i as int]));
            }
        }
        i = i + 1;
    }
    proof {
        assert(url@.take(n as int) =~= url@);
    }
    if segs.len() == 0 {
        None
    } else {
        let last = segs.pop().unwrap();
        Some(last)
    }
}

} // verus!
