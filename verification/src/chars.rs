//! Character-level utilities shared by the text-processing components:
//! whitespace classification, conversions between `str`/`String` and
//! `Vec<char>`, trimming, word splitting and joining.

use vstd::prelude::*;

verus! {

/// The Unicode `White_Space` code points, the set that
/// `char::is_whitespace` tests.
pub open spec fn is_space_char(c: char) -> bool {
    let u = c as u32;
    ||| u == 0x09
    ||| u == 0x0A
    ||| u == 0x0B
    ||| u == 0x0C
    ||| u == 0x0D
    ||| u == 0x20
    ||| u == 0x85
    ||| u == 0xA0
    ||| u == 0x1680
    ||| (0x2000 <= u && u <= 0x200A)
    ||| u == 0x2028
    ||| u == 0x2029
    ||| u == 0x202F
    ||| u == 0x205F
    ||| u == 0x3000
}

/// Executable test for `is_space_char`.
pub fn is_space(c: char) -> (r: bool)
    ensures
        r == is_space_char(c),
{
    let u = c as u32;
    (u == 0x09) || (u == 0x0A) || (u == 0x0B) || (u == 0x0C) || (u == 0x0D) || (u == 0x20) || (u
        == 0x85) || (u == 0xA0) || (u == 0x1680) || (0x2000 <= u && u <= 0x200A) || (u == 0x2028)
        || (u == 0x2029) || (u == 0x202F) || (u == 0x205F) || (u == 0x3000)
}

/// Collects the characters of a string slice into a vector.
pub fn str_to_chars(s: &str) -> (r: Vec<char>)
    ensures
        r@ == s@,
{
    let n = s.unicode_len();
    let mut r: Vec<char> = Vec::new();
    let mut i: usize = 0;
    while i < n
        invariant
            n == s@.len(),
            i <= n,
            r@ == s@.take(i as int),
        decreases n - i,
    {
        r.push(s.get_char(i));
        i = i + 1;
        proof {
            assert(r@ =~= s@.take(i as int));
        }
    }
    proof {
        assert(s@.take(n as int) =~= s@);
    }
    r
}

/// Builds a `String` out of a character vector.
///
/// Relies on `String`'s `FromIterator<char>` impl: collecting characters
/// yields the string made of exactly those characters, in order.
#[verifier::external_body]
pub fn chars_to_string(v: &Vec<char>) -> (r: String)
    ensures
        r@ == v@,
{
    v.iter().collect()
}

/// Appends the characters of `piece` to `out`.
pub fn append_chars(out: &mut Vec<char>, piece: &Vec<char>)
    ensures
        final(out)@ == old(out)@ + piece@,
{
    let n = piece.len();
    let mut k: usize = 0;
    while k < n
        invariant
            n == piece@.len(),
            k <= n,
            out@ == old(out)@ + piece@.take(k as int),
        decreases n - k,
    {
        out.push(piece[k]);
        k = k + 1;
        proof {
            assert(old(out)@ + piece@.take(k as int) =~= (old(out)@ + piece@.take(
                k as int - 1,
            )).push(piece@[k as int - 1]));
        }
    }
    proof {
        assert(old(out)@ + piece@.take(n as int) =~= old(out)@ + piece@);
    }
}

/// How many bytes the UTF-8 encoding of one character takes.
pub open spec fn utf8_width(c: char) -> int {
    let u = c as u32;
    if u < 0x80 {
        1
    } else if u < 0x800 {
        2
    } else if u < 0x10000 {
        3
    } else {
        4
    }
}

/// The byte length of the UTF-8 encoding of a text.
pub open spec fn utf8_len(s: Seq<char>) -> int
    decreases s.len(),
{
    if s.len() == 0 {
        0
    } else {
        utf8_width(s[0]) + utf8_len(s.drop_first())
    }
}

/// Computes the byte length of the UTF-8 encoding of a character vector.
pub fn utf8_len_chars(v: &Vec<char>) -> (r: u128)
    ensures
        r == utf8_len(v@),
{
    let n = v.len();
    let mut acc: u128 = 0;
    let mut i: usize = 0;
    proof {
        assert(v@.skip(0) =~= v@);
    }
    while i < n
        invariant
            n == v@.len(),
            i <= n,
            acc <= 4 * i,
            acc + utf8_len(v@.skip(i as int)) == utf8_len(v@),
        decreases n - i,
    {
        let ghost rest = v@.skip(i as int);
        proof {
            assert(rest[0] == v@[i as int]);
            assert(rest.drop_first() =~= v@.skip(i as int + 1));
        }
        let u = v[i] as u32;
        let w: u128 = if u < 0x80 {
            1
        } else if u < 0x800 {
            2
        } else if u < 0x10000 {
            3
        } else {
            4
        };
        acc = acc + w;
        i = i + 1;
    }
    proof {
        assert(v@.skip(n as int) =~= Seq::<char>::empty());
    }
    acc
}

/// Whether two character vectors hold the same characters.
pub fn chars_eq(a: &Vec<char>, b: &Vec<char>) -> (r: bool)
    ensures
        r == (a@ == b@),
{
    if a.len() != b.len() {
        return false;
    }
    let n = a.len();
    let mut i: usize = 0;
    while i < n
        invariant
            n == a@.len(),
            a@.len() == b@.len(),
            i <= n,
            forall|j: int| 0 <= j < i ==> a@[j] == b@[j],
        decreases n - i,
    {
        if a[i] != b[i] {
            return false;
        }
        i = i + 1;
    }
    proof {
        assert(a@ =~= b@);
    }
    true
}

/// Whether two string slices hold the same characters.
pub fn str_eq(a: &str, b: &str) -> (r: bool)
    ensures
        r == (a@ == b@),
{
    let va = str_to_chars(a);
    let vb = str_to_chars(b);
    chars_eq(&va, &vb)
}

/// The Unicode uppercase mapping of a character, as the sequence of
/// characters that `char::to_uppercase` yields.
pub uninterp spec fn upper_chars(c: char) -> Seq<char>;

/// Relies on `char::to_uppercase`: the result depends on the character
/// alone, and the iterator yields at least one character.
#[verifier::external_body]
pub fn char_to_upper(c: char) -> (r: Vec<char>)
    ensures
        r@ == upper_chars(c),
        r@.len() >= 1,
{
    c.to_uppercase().collect()
}

/// `s` with its leading whitespace removed.
pub open spec fn ltrim(s: Seq<char>) -> Seq<char>
    decreases s.len(),
{
    if s.len() > 0 && is_space_char(s[0]) {
        ltrim(s.drop_first())
    } else {
        s
    }
}

/// `s` with its trailing whitespace removed.
pub open spec fn rtrim(s: Seq<char>) -> Seq<char>
    decreases s.len(),
{
    if s.len() > 0 && is_space_char(s.last()) {
        rtrim(s.drop_last())
    } else {
        s
    }
}

/// `s` with whitespace removed from both ends.
pub open spec fn trimmed(s: Seq<char>) -> Seq<char> {
    rtrim(ltrim(s))
}

proof fn lemma_ltrim_skip(s: Seq<char>, k: int)
    requires
        0 <= k <= s.len(),
        forall|i: int| 0 <= i < k ==> is_space_char(s[i]),
        k < s.len() ==> !is_space_char(s[k]),
    ensures
        ltrim(s) == s.skip(k),
    decreases k,
{
    if k == 0 {
        assert(s.skip(0) =~= s);
    } else {
        lemma_ltrim_skip(s.drop_first(), k - 1);
        assert(s.drop_first().skip(k - 1) =~= s.skip(k));
    }
}

proof fn lemma_rtrim_take(s: Seq<char>, k: int)
    requires
        0 <= k <= s.len(),
        forall|i: int| k <= i < s.len() ==> is_space_char(s[i]),
        k > 0 ==> !is_space_char(s[k - 1]),
    ensures
        rtrim(s) == s.take(k),
    decreases s.len() - k,
{
    if k == s.len() {
        assert(s.take(k) =~= s);
    } else {
        lemma_rtrim_take(s.drop_last(), k);
        assert(s.drop_last().take(k) =~= s.take(k));
    }
}

/// Removes leading and trailing whitespace from a character vector.
pub fn trim_chars(v: &Vec<char>) -> (r: Vec<char>)
    ensures
        r@ == trimmed(v@),
{
    let n = v.len();
    let mut a: usize = 0;
    while a < n && is_space(v[a])
        invariant
            n == v@.len(),
            a <= n,
            forall|i: int| 0 <= i < a ==> is_space_char(v@[i]),
        decreases n - a,
    {
        a = a + 1;
    }
    proof {
        lemma_ltrim_skip(v@, a as int);
    }
    let mut b: usize = n;
    while b > a && is_space(v[b - 1])
        invariant
            n == v@.len(),
            a <= b <= n,
            forall|i: int| b <= i < n ==> is_space_char(v@[i]),
        decreases b,
    {
        b = b - 1;
    }
    let ghost lt = v@.skip(a as int);
    proof {
        assert forall|i: int| (b - a) <= i < lt.len() implies is_space_char(lt[i]) by {
            assert(lt[i] == v@[i + a]);
        }
        if b > a {
            assert(lt[b - a - 1] == v@[b - 1 as int]);
        }
        lemma_rtrim_take(lt, b - a);
    }
    let mut r: Vec<char> = Vec::new();
    let mut i: usize = a;
    while i < b
        invariant
            a <= i <= b <= n,
            n == v@.len(),
            r@ == v@.subrange(a as int, i as int),
        decreases b - i,
    {
        r.push(v[i]);
        i = i + 1;
        proof {
            assert(r@ =~= v@.subrange(a as int, i as int));
        }
    }
    proof {
        assert(lt.take(b - a) =~= v@.subrange(a as int, b as int));
        assert(r@ == trimmed(v@));
    }
    r
}

/// The words of `s`: the maximal runs of non-whitespace characters, in
/// order, accumulated left to right. `cur` is the partial word read so far.
pub open spec fn words_acc(s: Seq<char>, cur: Seq<char>) -> Seq<Seq<char>>
    decreases s.len(),
{
    if s.len() == 0 {
        if cur.len() > 0 {
            seq![cur]
        } else {
            Seq::empty()
        }
    } else if is_space_char(s[0]) {
        if cur.len() > 0 {
            seq![cur] + words_acc(s.drop_first(), Seq::empty())
        } else {
            words_acc(s.drop_first(), Seq::empty())
        }
    } else {
        words_acc(s.drop_first(), cur.push(s[0]))
    }
}

/// The words of `s`.
pub open spec fn words(s: Seq<char>) -> Seq<Seq<char>> {
    words_acc(s, Seq::empty())
}

/// The views of a sequence of character vectors.
pub open spec fn views_of(vs: Seq<Vec<char>>) -> Seq<Seq<char>> {
    vs.map_values(|v: Vec<char>| v@)
}

/// Splits a character vector into its words.
pub fn split_words(v: &Vec<char>) -> (r: Vec<Vec<char>>)
    ensures
        views_of(r@) == words(v@),
{
    let n = v.len();
    let mut out: Vec<Vec<char>> = Vec::new();
    let mut cur: Vec<char> = Vec::new();
    let mut i: usize = 0;
    proof {
        assert(v@.skip(0) =~= v@);
        assert(views_of(out@) =~= Seq::<Seq<char>>::empty());
        assert(views_of(out@) + words_acc(v@, Seq::empty()) =~= words_acc(v@, Seq::empty()));
    }
    while i < n
        invariant
            n == v@.len(),
            i <= n,
            words(v@) == views_of(out@) + words_acc(v@.skip(i as int), cur@),
        decreases n - i,
    {
        let ghost rest = v@.skip(i as int);
        proof {
            assert(rest[0] == v@[i as int]);
            assert(rest.drop_first() =~= v@.skip(i as int + 1));
        }
        let c = v[i];
        if is_space(c) {
            if cur.len() > 0 {
                let ghost prev_out = views_of(out@);
                let ghost w = cur@;
                proof {
                    assert(words_acc(rest, w) == seq![w] + words_acc(
                        rest.drop_first(),
                        Seq::empty(),
                    ));
                }
                out.push(cur);
                cur = Vec::new();
                proof {
                    assert(views_of(out@) =~= prev_out.push(w));
                    assert(prev_out + (seq![w] + words_acc(rest.drop_first(), Seq::empty()))
                        =~= prev_out.push(w) + words_acc(rest.drop_first(), Seq::empty()));
                }
            } else {
                proof {
                    assert(cur@ =~= Seq::<char>::empty());
                    assert(words_acc(rest, cur@) == words_acc(rest.drop_first(), Seq::empty()));
                }
            }
        } else {
            proof {
                assert(words_acc(rest, cur@) == words_acc(rest.drop_first(), cur@.push(rest[0])));
            }
            cur.push(c);
        }
        i = i + 1;
    }
    proof {
        assert(v@.skip(n as int) =~= Seq::<char>::empty());
    }
    if cur.len() > 0 {
        let ghost prev_out = views_of(out@);
        let ghost w = cur@;
        out.push(cur);
        proof {
            assert(views_of(out@) =~= prev_out.push(w));
            assert(prev_out + seq![w] =~= prev_out.push(w));
        }
    } else {
        proof {
            assert(views_of(out@) + Seq::<Seq<char>>::empty() =~= views_of(out@));
        }
    }
    out
}

/// `pieces` joined with `sep` between consecutive pieces.
pub open spec fn join_with(pieces: Seq<Seq<char>>, sep: Seq<char>) -> Seq<char>
    decreases pieces.len(),
{
    if pieces.len() == 0 {
        Seq::empty()
    } else if pieces.len() == 1 {
        pieces[0]
    } else {
        pieces[0] + sep + join_with(pieces.drop_first(), sep)
    }
}

/// Joins character vectors with a separator.
pub fn join_pieces(pieces: &Vec<Vec<char>>, sep: &Vec<char>) -> (r: Vec<char>)
    ensures
        r@ == join_with(views_of(pieces@), sep@),
{
    let ghost vs = views_of(pieces@);
    let n = pieces.len();
    let mut out: Vec<char> = Vec::new();
    let mut j: usize = 0;
    while j < n
        invariant
            n == pieces@.len(),
            vs == views_of(pieces@),
            j <= n,
            j == 0 ==> out@ == Seq::<char>::empty(),
            0 < j < n ==> join_with(vs, sep@) == out@ + sep@ + join_with(
                vs.skip(j as int),
                sep@,
            ),
            j == n && n > 0 ==> join_with(vs, sep@) == out@,
        decreases n - j,
    {
        let ghost tail = vs.skip(j as int);
        proof {
            assert(tail[0] == pieces@[j as int]@);
            assert(tail.drop_first() =~= vs.skip(j as int + 1));
            if j == 0 {
                assert(vs.skip(0) =~= vs);
            }
        }
        let ghost before = out@;
        if j > 0 {
            append_chars(&mut out, sep);
        }
        let ghost mid = out@;
        let piece = &pieces[j];
        append_chars(&mut out, piece);
        proof {
            if j == 0 {
                if n == 1 {
                    assert(join_with(vs, sep@) == vs[0]);
                    assert(out@ =~= vs[0]);
                } else {
                    assert(join_with(vs, sep@) == vs[0] + sep@ + join_with(vs.skip(1), sep@));
                    assert(out@ =~= vs[0]);
                }
            } else {
                assert(mid == before + sep@);
                assert(out@ == before + sep@ + tail[0]);
                if j + 1 == n {
                    assert(tail.len() == 1);
                    assert(join_with(tail, sep@) == tail[0]);
                    assert(join_with(vs, sep@) =~= out@);
                } else {
                    assert(join_with(tail, sep@) == tail[0] + sep@ + join_with(
                        vs.skip(j as int + 1),
                        sep@,
                    ));
                    assert(join_with(vs, sep@) =~= out@ + sep@ + join_with(
                        vs.skip(j as int + 1),
                        sep@,
                    ));
                }
            }
        }
        j = j + 1;
    }
    proof {
        if n == 0 {
            assert(join_with(vs, sep@) == Seq::<char>::empty());
        }
    }
    out
}

} // verus!
