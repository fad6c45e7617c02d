//! Character-level text helpers: counting, taking a prefix of characters,
//! and trimming white space as `str::trim` does.

use vstd::prelude::*;
use vstd::string::*;

verus! {

/// The first `n` characters of `s`, or all of `s` when it is shorter.
pub open spec fn take_chars_spec(s: Seq<char>, n: nat) -> Seq<char> {
    if s.len() <= n {
        s
    } else {
        s.take(n as int)
    }
}

/// The characters of `s`, in order.
pub fn chars_of(s: &str) -> (v: Vec<char>)
    ensures
        v@ == s@,
{
    let mut v: Vec<char> = Vec::new();
    for c in it: s.chars()
        invariant
            v@ == it.seq().take(it.index() as int),
            it.seq() == s@,
    {
        v.push(c);
    }
    v
}

/// The first `n` characters of `s`.
pub fn take_chars(s: &str, n: usize) -> (r: String)
    ensures
        r@ == take_chars_spec(s@, n as nat),
{
    let len = s.unicode_len();
    let k = if n < len { n } else { len };
    let r = String::from_str(s.substring_char(0, k));
    assert(s@.subrange(0, len as int) =~= s@);
    r
}


/// Unicode `White_Space`, the property that `char::is_whitespace` and
/// `str::trim` go by.
pub open spec fn is_white_space(c: char) -> bool {
    let u = c as u32;
    ||| u == 0x20
    ||| 0x09 <= u <= 0x0d
    ||| u == 0x85
    ||| u == 0xa0
    ||| u == 0x1680
    ||| 0x2000 <= u <= 0x200a
    ||| u == 0x2028
    ||| u == 0x2029
    ||| u == 0x202f
    ||| u == 0x205f
    ||| u == 0x3000
}

/// `s` without its leading white space.
pub open spec fn trim_start_spec(s: Seq<char>) -> Seq<char>
    decreases s.len(),
{
    if s.len() > 0 && is_white_space(s[0]) {
        trim_start_spec(s.subrange(1, s.len() as int))
    } else {
        s
    }
}

/// `s` without its trailing white space.
pub open spec fn trim_end_spec(s: Seq<char>) -> Seq<char>
    decreases s.len(),
{
    if s.len() > 0 && is_white_space(s.last()) {
        trim_end_spec(s.drop_last())
    } else {
        s
    }
}

/// `s` without leading and trailing white space.
pub open spec fn trim_spec(s: Seq<char>) -> Seq<char> {
    trim_end_spec(trim_start_spec(s))
}

/// Whether `s` is empty or white space only.
pub open spec fn is_blank(s: Seq<char>) -> bool {
    trim_spec(s).len() == 0
}

/// Whether `c` is white space in the sense of `is_white_space`.
pub fn char_is_white_space(c: char) -> (b: bool)
    ensures
        b == is_white_space(c),
{
    let u = c as u32;
    u == 0x20 || (0x09 <= u && u <= 0x0d) || u == 0x85 || u == 0xa0 || u == 0x1680 || (0x2000
        <= u && u <= 0x200a) || u == 0x2028 || u == 0x2029 || u == 0x202f || u == 0x205f || u
        == 0x3000
}

proof fn lemma_trim_start_step(s: Seq<char>, i: int)
    requires
        0 <= i < s.len(),
        is_white_space(s[i]),
    ensures
        trim_start_spec(s.subrange(i, s.len() as int)) == trim_start_spec(
            s.subrange(i + 1, s.len() as int),
        ),
{
    let t = s.subrange(i, s.len() as int);
    assert(t[0] == s[i]);
    assert(t.subrange(1, t.len() as int) =~= s.subrange(i + 1, s.len() as int));
}

proof fn lemma_trim_end_step(s: Seq<char>, j: int)
    requires
        0 < j <= s.len(),
        is_white_space(s[j - 1]),
    ensures
        trim_end_spec(s.subrange(0, j)) == trim_end_spec(s.subrange(0, j - 1)),
{
    let t = s.subrange(0, j);
    assert(t.last() == s[j - 1]);
    assert(t.drop_last() =~= s.subrange(0, j - 1));
}

/// `s` without leading and trailing white space, as `str::trim` gives it.
pub fn trim(s: &str) -> (r: String)
    ensures
        r@ == trim_spec(s@),
{
    let v = chars_of(s);
    let len = v.len();
    let mut i: usize = 0;
    assert(s@.subrange(0, len as int) =~= s@);
    while i < len && char_is_white_space(v[i])
        invariant
            v@ == s@,
            len == v@.len(),
            i <= len,
            trim_start_spec(s@) == trim_start_spec(s@.subrange(i as int, len as int)),
        decreases len - i,
    {
        proof {
            lemma_trim_start_step(s@, i as int);
        }
        i = i + 1;
    }
    let ghost rest = s@.subrange(i as int, len as int);
    assert(trim_start_spec(rest) == rest);
    let mut j: usize = len;
    assert(rest.subrange(0, j - i) =~= rest);
    while j > i && char_is_white_space(v[j - 1])
        invariant
            v@ == s@,
            len == v@.len(),
            i <= j <= len,
            rest == s@.subrange(i as int, len as int),
            trim_end_spec(rest) == trim_end_spec(rest.subrange(0, j - i)),
        decreases j,
    {
        proof {
            lemma_trim_end_step(rest, j - i);
        }
        j = j - 1;
    }
    let ghost kept = rest.subrange(0, j - i);
    assert(trim_end_spec(kept) == kept);
    assert(kept =~= s@.subrange(i as int, j as int));
    String::from_str(s.substring_char(i, j))
}


/// Cutting `a` to `n` characters before appending `p` and cutting again
/// gives the same as cutting `a + p`.
pub proof fn lemma_take_chars_absorbs(a: Seq<char>, p: Seq<char>, n: nat)
    ensures
        take_chars_spec(take_chars_spec(a, n) + p, n) == take_chars_spec(a + p, n),
{
    if a.len() > n {
        assert(take_chars_spec(a, n) + p =~= a.take(n as int) + p);
        assert((a.take(n as int) + p).take(n as int) =~= (a + p).take(n as int));
    }
}

/// Appending to a text that is within `n` characters and cutting to `n`
/// keeps the text and appends as much of `p` as still fits.
pub proof fn lemma_take_chars_append(a: Seq<char>, p: Seq<char>, n: nat)
    requires
        a.len() <= n,
    ensures
        take_chars_spec(a + p, n) == a + take_chars_spec(p, (n - a.len()) as nat),
{
    if a.len() + p.len() > n {
        assert((a + p).take(n as int) =~= a + p.take(n - a.len()));
    }
}

/// Appends to `acc` as many characters of `part` as keep `acc` within
/// `cap` characters.
pub fn append_within(acc: &mut String, part: &str, cap: usize)
    requires
        old(acc)@.len() <= cap,
    ensures
        final(acc)@ == take_chars_spec(old(acc)@ + part@, cap as nat),
        final(acc)@.len() <= cap,
{
    let used = acc.as_str().unicode_len();
    let remaining = cap - used;
    let piece = take_chars(part, remaining);
    acc.append(piece.as_str());
    proof {
        lemma_take_chars_append(old(acc)@, part@, cap as nat);
    }
}


/// Trimming the start keeps a final part of the text, whose first
/// character, if any, is not white space.
pub proof fn lemma_trim_start_shape(s: Seq<char>)
    ensures
        trim_start_spec(s).len() <= s.len(),
        trim_start_spec(s) == s.subrange(s.len() - trim_start_spec(s).len(), s.len() as int),
        trim_start_spec(s).len() > 0 ==> !is_white_space(trim_start_spec(s)[0]),
    decreases s.len(),
{
    if s.len() > 0 && is_white_space(s[0]) {
        let t = s.subrange(1, s.len() as int);
        lemma_trim_start_shape(t);
        assert(t.subrange(t.len() - trim_start_spec(t).len(), t.len() as int) =~= s.subrange(
            s.len() - trim_start_spec(t).len(),
            s.len() as int,
        ));
    } else {
        assert(s.subrange(0, s.len() as int) =~= s);
    }
}

/// Trimming the end keeps a first part of the text, whose last character,
/// if any, is not white space.
pub proof fn lemma_trim_end_shape(s: Seq<char>)
    ensures
        trim_end_spec(s).len() <= s.len(),
        trim_end_spec(s) == s.subrange(0, trim_end_spec(s).len() as int),
        trim_end_spec(s).len() > 0 ==> !is_white_space(trim_end_spec(s).last()),
    decreases s.len(),
{
    if s.len() > 0 && is_white_space(s.last()) {
        let t = s.drop_last();
        lemma_trim_end_shape(t);
        assert(t.subrange(0, trim_end_spec(t).len() as int) =~= s.subrange(
            0,
            trim_end_spec(t).len() as int,
        ));
    } else {
        assert(s.subrange(0, s.len() as int) =~= s);
    }
}

/// A trimmed text is no longer than the untrimmed one, starts and ends with a
/// character that is not white space, and trimming it again changes nothing.
pub proof fn lemma_trim_shape(s: Seq<char>)
    ensures
        trim_spec(s).len() <= s.len(),
        trim_spec(s).len() > 0 ==> !is_white_space(trim_spec(s)[0]),
        trim_spec(s).len() > 0 ==> !is_white_space(trim_spec(s).last()),
        trim_spec(trim_spec(s)) == trim_spec(s),
{
    let a = trim_start_spec(s);
    lemma_trim_start_shape(s);
    lemma_trim_end_shape(a);
    let t = trim_end_spec(a);
    if t.len() > 0 {
        assert(t[0] == a[0]);
    }
    assert(trim_start_spec(t) == t);
    assert(trim_end_spec(t) == t);
}


/// Whether `s` starts with `prefix`.
pub fn starts_with(s: &str, prefix: &str) -> (b: bool)
    ensures
        b == prefix@.is_prefix_of(s@),
{
    let n = prefix.unicode_len();
    let m = s.unicode_len();
    if n > m {
        false
    } else {
        String::from_str(s.substring_char(0, n)) == String::from_str(prefix)
    }
}


/// Cutting a text to `n` characters keeps its start: the result is a prefix
/// of the text, `n` characters long, or the whole text when it is shorter.
pub proof fn lemma_take_chars_is_prefix(s: Seq<char>, n: nat)
    ensures
        take_chars_spec(s, n).is_prefix_of(s),
        take_chars_spec(s, n).len() == if s.len() < n {
            s.len()
        } else {
            n
        },
{
}

/// Trimming removes white space only, and only at the two ends: the text is
/// the removed start, the trimmed text and the removed end, one after
/// another; the removed parts are all white space; the trimmed text is
/// empty or starts and ends with a character that is not white space.
pub proof fn lemma_trim_removes_only_outer_white_space(s: Seq<char>)
    ensures
        exists|a: int, b: int|
            #![trigger s.subrange(a, b)]
            0 <= a <= b <= s.len() && trim_spec(s) == s.subrange(a, b) && (forall|i: int|
                0 <= i < a ==> is_white_space(#[trigger] s[i])) && (forall|i: int|
                b <= i < s.len() ==> is_white_space(#[trigger] s[i])),
        trim_spec(s).len() > 0 ==> !is_white_space(trim_spec(s)[0]) && !is_white_space(
            trim_spec(s).last(),
        ),
{
    lemma_trim_shape(s);
    lemma_trim_start_white(s);
    let t = trim_start_spec(s);
    lemma_trim_start_shape(s);
    lemma_trim_end_white(t);
    lemma_trim_end_shape(t);
    let a = s.len() - t.len();
    let b = a + trim_end_spec(t).len();
    assert(trim_spec(s) =~= s.subrange(a, b));
    assert forall|i: int| b <= i < s.len() implies is_white_space(#[trigger] s[i]) by {
        assert(s[i] == t[i - a]);
    }
    assert(trim_spec(s) == s.subrange(a, b));
}

proof fn lemma_trim_start_white(s: Seq<char>)
    ensures
        forall|i: int|
            0 <= i < s.len() - trim_start_spec(s).len() ==> is_white_space(#[trigger] s[i]),
    decreases s.len(),
{
    if s.len() > 0 && is_white_space(s[0]) {
        let t = s.subrange(1, s.len() as int);
        lemma_trim_start_white(t);
        assert forall|i: int|
            0 <= i < s.len() - trim_start_spec(s).len() implies is_white_space(#[trigger] s[i]) by {
            if i > 0 {
                assert(s[i] == t[i - 1]);
            }
        }
    }
}

proof fn lemma_trim_end_white(s: Seq<char>)
    ensures
        forall|i: int| trim_end_spec(s).len() <= i < s.len() ==> is_white_space(#[trigger] s[i]),
    decreases s.len(),
{
    if s.len() > 0 && is_white_space(s.last()) {
        let t = s.drop_last();
        lemma_trim_end_white(t);
        assert forall|i: int| trim_end_spec(s).len() <= i < s.len() implies is_white_space(
            #[trigger] s[i],
        ) by {
            if i < s.len() - 1 {
                assert(s[i] == t[i]);
            }
        }
    }
}


/// A text is blank exactly when all its characters are white space.
pub proof fn lemma_blank_is_all_white_space(s: Seq<char>)
    ensures
        is_blank(s) <==> forall|i: int| 0 <= i < s.len() ==> is_white_space(#[trigger] s[i]),
{
    lemma_trim_removes_only_outer_white_space(s);
    let (a, b) = choose|a: int, b: int|
        #![trigger s.subrange(a, b)]
        0 <= a <= b <= s.len() && trim_spec(s) == s.subrange(a, b) && (forall|i: int|
            0 <= i < a ==> is_white_space(#[trigger] s[i])) && (forall|i: int|
            b <= i < s.len() ==> is_white_space(#[trigger] s[i]));
    if is_blank(s) {
        assert(a == b);
        assert forall|i: int| 0 <= i < s.len() implies is_white_space(#[trigger] s[i]) by {
            if i < a {
            } else {
                assert(b <= i);
            }
        }
    }
    if forall|i: int| 0 <= i < s.len() ==> is_white_space(#[trigger] s[i]) {
        if trim_spec(s).len() > 0 {
            assert(trim_spec(s)[0] == s[a]);
        }
    }
}

} // verus!
