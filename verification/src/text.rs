//! Text primitives over `char` sequences: whitespace, words, trimming,
//! joining, prefixes and decimal numerals.
use vstd::prelude::*;

verus! {

/// The Unicode `White_Space` code points, the set `char::is_whitespace` accepts.
pub open spec fn is_space(c: char) -> bool {
    let u = c as u32;
    ||| 0x09 <= u <= 0x0D
    ||| u == 0x20
    ||| u == 0x85
    ||| u == 0xA0
    ||| u == 0x1680
    ||| 0x2000 <= u <= 0x200A
    ||| u == 0x2028
    ||| u == 0x2029
    ||| u == 0x202F
    ||| u == 0x205F
    ||| u == 0x3000
}

/// Whether `c` is Unicode whitespace.
pub fn is_space_char(c: char) -> (r: bool)
    ensures
        r == is_space(c),
{
    let u = c as u32;
    (0x09 <= u && u <= 0x0D) || u == 0x20 || u == 0x85 || u == 0xA0 || u == 0x1680 || (0x2000
        <= u && u <= 0x200A) || u == 0x2028 || u == 0x2029 || u == 0x202F || u == 0x205F || u
        == 0x3000
}

/// The chars of `s`, in order.
pub fn chars_of(s: &str) -> (v: Vec<char>)
    ensures
        v@ == s@,
{
    let n = s.unicode_len();
    let mut v: Vec<char> = Vec::new();
    let mut i: usize = 0;
    while i < n
        invariant
            n == s@.len(),
            i <= n,
            v@ == s@.take(i as int),
        decreases n - i,
    {
        let c = s.get_char(i);
        v.push(c);
        i = i + 1;
        assert(v@ =~= s@.take(i as int));
    }
    assert(v@ =~= s@);
    v
}


/// `String::push`: appends one char to the end of the string.
#[verifier::external_body]
pub(crate) fn push_char(s: &mut String, c: char)
    ensures
        final(s)@ == old(s)@.push(c),
{
    s.push(c);
}

/// `String::pop`: removes the last char of the string and returns it, or
/// returns `None` and leaves the string as it was when it is empty.
#[verifier::external_body]
pub(crate) fn pop_char(s: &mut String) -> (r: Option<char>)
    ensures
        old(s)@.len() == 0 ==> r is None && final(s)@ == old(s)@,
        old(s)@.len() > 0 ==> r == Some(old(s)@.last()) && final(s)@ == old(s)@.drop_last(),
{
    s.pop()
}

/// The string made of `v[lo..hi]`.
pub fn text_of(v: &Vec<char>, lo: usize, hi: usize) -> (s: String)
    requires
        lo <= hi <= v@.len(),
    ensures
        s@ == v@.subrange(lo as int, hi as int),
{
    let mut s = String::new();
    let mut i = lo;
    while i < hi
        invariant
            lo <= i <= hi <= v@.len(),
            s@ == v@.subrange(lo as int, i as int),
        decreases hi - i,
    {
        push_char(&mut s, v[i]);
        i = i + 1;
        assert(s@ =~= v@.subrange(lo as int, i as int));
    }
    s
}

/// Scanning chars left to right: the words completed so far and the word
/// being read. A word is a maximal run of non-whitespace chars.
pub open spec fn scan_words(s: Seq<char>) -> (Seq<Seq<char>>, Seq<char>)
    decreases s.len(),
{
    if s.len() == 0 {
        (Seq::empty(), Seq::empty())
    } else {
        let (done, cur) = scan_words(s.drop_last());
        let c = s.last();
        if is_space(c) {
            if cur.len() > 0 {
                (done.push(cur), Seq::empty())
            } else {
                (done, cur)
            }
        } else {
            (done, cur.push(c))
        }
    }
}

/// The whitespace-separated words of `s`, in order (what `str::split_whitespace` yields).
pub open spec fn words(s: Seq<char>) -> Seq<Seq<char>> {
    let (done, cur) = scan_words(s);
    if cur.len() > 0 {
        done.push(cur)
    } else {
        done
    }
}

/// Splits `s` into its whitespace-separated words.
pub fn split_words(s: &str) -> (ws: Vec<String>)
    ensures
        ws.deep_view() == words(s@),
{
    let chars = chars_of(s);
    let mut done: Vec<String> = Vec::new();
    let mut cur = String::new();
    let mut i: usize = 0;
    while i < chars.len()
        invariant
            i <= chars@.len(),
            chars@ == s@,
            (done.deep_view(), cur@) == scan_words(s@.take(i as int)),
        decreases chars.len() - i,
    {
        let c = chars[i];
        assert(s@.take(i + 1).drop_last() =~= s@.take(i as int));
        if is_space_char(c) {
            if !cur.as_str().is_empty() {
                let ghost before = done.deep_view();
                let w = cur;
                done.push(w);
                cur = String::new();
                assert(done.deep_view() =~= before.push(w@));
            }
        } else {
            push_char(&mut cur, c);
        }
        i = i + 1;
    }
    assert(s@.take(chars.len() as int) =~= s@);
    if !cur.as_str().is_empty() {
        let ghost before = done.deep_view();
        let w = cur;
        done.push(w);
        assert(done.deep_view() =~= before.push(w@));
    }
    done
}


/// `s` without its leading whitespace.
pub open spec fn trim_start(s: Seq<char>) -> Seq<char>
    decreases s.len(),
{
    if s.len() > 0 && is_space(s[0]) {
        trim_start(s.drop_first())
    } else {
        s
    }
}

/// `s` without its trailing whitespace.
pub open spec fn trim_end(s: Seq<char>) -> Seq<char>
    decreases s.len(),
{
    if s.len() > 0 && is_space(s.last()) {
        trim_end(s.drop_last())
    } else {
        s
    }
}

/// `s` without leading and trailing whitespace (what `str::trim` gives).
pub open spec fn trim(s: Seq<char>) -> Seq<char> {
    trim_end(trim_start(s))
}

/// Removes leading and trailing whitespace.
pub fn trim_text(s: &str) -> (r: String)
    ensures
        r@ == trim(s@),
{
    let chars = chars_of(s);
    let n = chars.len();
    let mut lo: usize = 0;
    assert(s@.skip(0) =~= s@);
    while lo < n && is_space_char(chars[lo])
        invariant
            lo <= n == chars@.len(),
            chars@ == s@,
            trim_start(s@) == trim_start(s@.skip(lo as int)),
        decreases n - lo,
    {
        assert(s@.skip(lo as int).drop_first() =~= s@.skip(lo + 1));
        lo = lo + 1;
    }
    let ghost front = s@.skip(lo as int);
    assert(trim_start(s@) == front);
    let mut hi: usize = n;
    while hi > lo && is_space_char(chars[hi - 1])
        invariant
            lo <= hi <= n == chars@.len(),
            chars@ == s@,
            front == s@.skip(lo as int),
            trim_end(front) == trim_end(s@.subrange(lo as int, hi as int)),
        decreases hi - lo,
    {
        assert(s@.subrange(lo as int, hi as int).drop_last() =~= s@.subrange(lo as int, hi - 1));
        hi = hi - 1;
    }
    assert(front =~= s@.subrange(lo as int, n as int));
    text_of(&chars, lo, hi)
}

/// The words joined with single spaces between them (what `[..].join(" ")` gives).
pub open spec fn join_spaced(ws: Seq<Seq<char>>) -> Seq<char>
    decreases ws.len(),
{
    if ws.len() == 0 {
        Seq::empty()
    } else if ws.len() == 1 {
        ws[0]
    } else {
        join_spaced(ws.drop_last()) + " "@ + ws.last()
    }
}

/// Joins `ws[from..]` with single spaces.
pub fn join_from(ws: &Vec<String>, from: usize) -> (r: String)
    requires
        from <= ws@.len(),
    ensures
        r@ == join_spaced(ws.deep_view().skip(from as int)),
{
    let n = ws.len();
    if from == n {
        assert(ws.deep_view().skip(from as int) =~= Seq::<Seq<char>>::empty());
        return String::new();
    }
    let mut r = ws[from].clone();
    let mut i = from + 1;
    assert(ws.deep_view().subrange(from as int, i as int) =~= seq![ws[from as int]@]);
    while i < n
        invariant
            from < i <= n == ws@.len(),
            r@ == join_spaced(ws.deep_view().subrange(from as int, i as int)),
        decreases n - i,
    {
        r.append(" ");
        r.append(ws[i].as_str());
        let ghost prev = ws.deep_view().subrange(from as int, i as int);
        i = i + 1;
        assert(ws.deep_view().subrange(from as int, i as int).drop_last() =~= prev);
    }
    assert(ws.deep_view().subrange(from as int, n as int) =~= ws.deep_view().skip(from as int));
    r
}

/// `s` with every leading repetition of a non-empty `p` removed (what
/// `str::trim_start_matches` gives for a string pattern).
pub open spec fn strip_repeated(s: Seq<char>, p: Seq<char>) -> Seq<char>
    decreases s.len(),
{
    if p.len() > 0 && p.is_prefix_of(s) {
        strip_repeated(s.skip(p.len() as int), p)
    } else {
        s
    }
}

/// Whether `p` occurs in `v` at position `at`.
pub fn occurs_at(v: &Vec<char>, at: usize, p: &Vec<char>) -> (r: bool)
    requires
        at <= v@.len(),
    ensures
        r == p@.is_prefix_of(v@.skip(at as int)),
{
    let vlen = v.len();
    if p.len() > vlen - at {
        return false;
    }
    let mut k: usize = 0;
    while k < p.len()
        invariant
            k <= p@.len(),
            vlen == v@.len(),
            at + p@.len() <= v@.len(),
            forall|j: int| 0 <= j < k ==> p@[j] == v@[at + j],
        decreases p@.len() - k,
    {
        assert(at + k < v@.len());
        if p[k] != v[at + k] {
            assert(v@.skip(at as int)[k as int] != p@[k as int]);
            return false;
        }
        k = k + 1;
    }
    assert(p@ =~= v@.skip(at as int).subrange(0, p@.len() as int));
    true
}

/// Whether `s` begins with `p`.
pub fn starts_with(s: &str, p: &str) -> (r: bool)
    ensures
        r == p@.is_prefix_of(s@),
{
    let v = chars_of(s);
    let q = chars_of(p);
    assert(v@.skip(0) =~= v@);
    occurs_at(&v, 0, &q)
}

/// Removes every leading repetition of `p` from `s`.
pub fn strip_prefix_repeated(s: &str, p: &str) -> (r: String)
    ensures
        r@ == strip_repeated(s@, p@),
{
    let v = chars_of(s);
    let q = chars_of(p);
    let mut at: usize = 0;
    let vlen = v.len();
    assert(v@.skip(0) =~= v@);
    if q.len() == 0 {
        return text_of(&v, 0, v.len());
    }
    while occurs_at(&v, at, &q)
        invariant
            at <= v@.len(),
            vlen == v@.len(),
            v@ == s@,
            q@ == p@,
            q@.len() > 0,
            strip_repeated(s@, p@) == strip_repeated(s@.skip(at as int), p@),
        decreases v@.len() - at,
    {
        assert(q@.len() <= s@.skip(at as int).len());
        assert(s@.skip(at as int).skip(q@.len() as int) =~= s@.skip(at + q@.len()));
        at = at + q.len();
    }
    assert(s@.skip(at as int) =~= v@.subrange(at as int, v@.len() as int));
    text_of(&v, at, v.len())
}


/// The decimal digit char for `d < 10`.
pub open spec fn digit(d: nat) -> char {
    if d == 0 {
        '0'
    } else if d == 1 {
        '1'
    } else if d == 2 {
        '2'
    } else if d == 3 {
        '3'
    } else if d == 4 {
        '4'
    } else if d == 5 {
        '5'
    } else if d == 6 {
        '6'
    } else if d == 7 {
        '7'
    } else if d == 8 {
        '8'
    } else {
        '9'
    }
}

/// The decimal numeral of `n`, without leading zeros (what `{}` prints for an integer).
pub open spec fn decimal(n: nat) -> Seq<char>
    decreases n,
{
    if n < 10 {
        seq![digit(n)]
    } else {
        decimal(n / 10).push(digit(n % 10))
    }
}

fn digit_char(d: usize) -> (c: char)
    requires
        d < 10,
    ensures
        c == digit(d as nat),
{
    if d == 0 {
        '0'
    } else if d == 1 {
        '1'
    } else if d == 2 {
        '2'
    } else if d == 3 {
        '3'
    } else if d == 4 {
        '4'
    } else if d == 5 {
        '5'
    } else if d == 6 {
        '6'
    } else if d == 7 {
        '7'
    } else if d == 8 {
        '8'
    } else {
        '9'
    }
}

/// The decimal numeral of `n`.
pub fn decimal_text(n: usize) -> (s: String)
    ensures
        s@ == decimal(n as nat),
{
    let mut rest: Vec<char> = Vec::new();
    let mut q = n;
    while q >= 10
        invariant
            decimal(n as nat) == decimal(q as nat) + rest@,
        decreases q,
    {
        let c = digit_char(q % 10);
        let ghost old_rest = rest@;
        rest.insert(0, c);
        assert(decimal(q as nat) == decimal((q / 10) as nat).push(c));
        assert(decimal(q as nat) + old_rest =~= decimal((q / 10) as nat) + rest@);
        q = q / 10;
    }
    let c = digit_char(q);
    rest.insert(0, c);
    assert(decimal(n as nat) =~= rest@);
    let len = rest.len();
    text_of(&rest, 0, len)
}

} // verus!
