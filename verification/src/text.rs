//! Character-level text operations used by the launcher's parsers and
//! message builders, each specified over `Seq<char>`.
use vstd::prelude::*;

verus! {

/// The characters of `s`, in order, as `str::chars` yields them.
pub(crate) fn chars_of(s: &str) -> (res: Vec<char>)
    ensures
        res@ == s@,
{
    broadcast use vstd::string::group_string_axioms;

    let mut it = s.chars();
    let mut out: Vec<char> = Vec::new();
    loop
        invariant
            out@ + vstd::std_specs::iter::IteratorSpec::remaining(&it) == s@,
            vstd::std_specs::iter::IteratorSpec::obeys_prophetic_iter_laws(&it),
            vstd::std_specs::iter::IteratorSpec::decrease(&it) is Some,
        ensures
            out@ == s@,
        decreases vstd::std_specs::iter::IteratorSpec::decrease(&it)->0,
    {
        let ghost before = vstd::std_specs::iter::IteratorSpec::remaining(&it);
        match it.next() {
            Some(c) => {
                assert(out@.push(c) + vstd::std_specs::iter::IteratorSpec::remaining(&it) =~= out@ + before);
                out.push(c);
            },
            None => {
                assert(out@ + vstd::std_specs::iter::IteratorSpec::remaining(&it) =~= out@);
                break;
            },
        }
    }
    out
}

/// The string whose characters are `cs`: the characters collected into a
/// `String` (`FromIterator<&char>`). The contract claims that its view is
/// exactly `cs`.
#[verifier::external_body]
pub(crate) fn string_of(cs: &[char]) -> (res: String)
    ensures
        res@ == cs@,
{
    cs.iter().collect()
}

/// Unicode `White_Space`, the property that `char::is_whitespace` tests.
pub open spec fn is_ws(c: char) -> bool {
    ||| ('\u{9}' <= c && c <= '\u{d}')
    ||| c == ' '
    ||| c == '\u{85}'
    ||| c == '\u{a0}'
    ||| c == '\u{1680}'
    ||| ('\u{2000}' <= c && c <= '\u{200a}')
    ||| c == '\u{2028}'
    ||| c == '\u{2029}'
    ||| c == '\u{202f}'
    ||| c == '\u{205f}'
    ||| c == '\u{3000}'
}

/// Whether `c` is Unicode white space.
pub fn is_whitespace(c: char) -> (b: bool)
    ensures
        b == is_ws(c),
{
    ('\u{9}' <= c && c <= '\u{d}') || c == ' ' || c == '\u{85}' || c == '\u{a0}' || c
        == '\u{1680}' || ('\u{2000}' <= c && c <= '\u{200a}') || c == '\u{2028}' || c
        == '\u{2029}' || c == '\u{202f}' || c == '\u{205f}' || c == '\u{3000}'
}

/// `s` without its leading whitespace.
pub open spec fn trim_start(s: Seq<char>) -> Seq<char>
    decreases s.len(),
{
    if s.len() > 0 && is_ws(s[0]) {
        trim_start(s.drop_first())
    } else {
        s
    }
}

/// `s` without its trailing whitespace.
pub open spec fn trim_end(s: Seq<char>) -> Seq<char>
    decreases s.len(),
{
    if s.len() > 0 && is_ws(s.last()) {
        trim_end(s.drop_last())
    } else {
        s
    }
}

/// `s` without leading and trailing whitespace, as `str::trim` gives it.
pub open spec fn trim(s: Seq<char>) -> Seq<char> {
    trim_end(trim_start(s))
}

proof fn lemma_trim_start_step(s: Seq<char>, i: int)
    requires
        0 <= i < s.len(),
        is_ws(s[i]),
    ensures
        trim_start(s.subrange(i, s.len() as int)) == trim_start(s.subrange(i + 1, s.len() as int)),
{
    assert(s.subrange(i, s.len() as int).drop_first() =~= s.subrange(i + 1, s.len() as int));
}

proof fn lemma_trim_end_step(s: Seq<char>, j: int)
    requires
        0 < j <= s.len(),
        is_ws(s[j - 1]),
    ensures
        trim_end(s.subrange(0, j)) == trim_end(s.subrange(0, j - 1)),
{
    assert(s.subrange(0, j).drop_last() =~= s.subrange(0, j - 1));
}

/// The whitespace-trimmed part of `cs`.
pub fn trim_chars(cs: &Vec<char>) -> (res: Vec<char>)
    ensures
        res@ == trim(cs@),
{
    let n = cs.len();
    let mut i: usize = 0;
    assert(cs@.subrange(0, n as int) =~= cs@);
    while i < n && is_whitespace(cs[i])
        invariant
            i <= n,
            n == cs@.len(),
            trim_start(cs@) == trim_start(cs@.subrange(i as int, n as int)),
        decreases n - i,
    {
        proof {
            lemma_trim_start_step(cs@, i as int);
        }
        i = i + 1;
    }
    let ghost rest = cs@.subrange(i as int, n as int);
    assert(trim_start(cs@) == rest);
    let mut j: usize = n;
    assert(rest.subrange(0, (j - i) as int) =~= rest);
    while j > i && is_whitespace(cs[j - 1])
        invariant
            i <= j <= n,
            n == cs@.len(),
            rest == cs@.subrange(i as int, n as int),
            trim_end(rest) == trim_end(rest.subrange(0, (j - i) as int)),
        decreases j,
    {
        proof {
            lemma_trim_end_step(rest, (j - i) as int);
        }
        j = j - 1;
    }
    let mut out: Vec<char> = Vec::new();
    let mut k: usize = i;
    while k < j
        invariant
            i <= k <= j <= n,
            n == cs@.len(),
            out@ =~= cs@.subrange(i as int, k as int),
        decreases j - k,
    {
        out.push(cs[k]);
        k = k + 1;
    }
    assert(out@ =~= rest.subrange(0, (j - i) as int));
    out
}

/// `str::trim` over a string.
pub fn trim_str(s: &str) -> (res: String)
    ensures
        res@ == trim(s@),
{
    let cs = chars_of(s);
    let t = trim_chars(&cs);
    string_of(t.as_slice())
}

/// Whether `cs` holds only whitespace.
pub fn is_blank(cs: &Vec<char>) -> (b: bool)
    ensures
        b == (trim(cs@).len() == 0),
{
    let t = trim_chars(cs);
    t.len() == 0
}

/// `pat` occurs in `s` at position `i`.
pub open spec fn occurs_at(s: Seq<char>, pat: Seq<char>, i: int) -> bool {
    0 <= i && i + pat.len() <= s.len() && s.subrange(i, i + pat.len()) == pat
}

/// `pat` occurs somewhere in `s`, as `str::contains` finds it.
pub open spec fn has_substring(s: Seq<char>, pat: Seq<char>) -> bool {
    exists|i: int| occurs_at(s, pat, i)
}

/// Whether `pat` occurs in `s` at position `i`.
pub fn matches_at(s: &Vec<char>, pat: &Vec<char>, i: usize) -> (b: bool)
    ensures
        b == occurs_at(s@, pat@, i as int),
{
    if i > s.len() || pat.len() > s.len() - i {
        return false;
    }
    let n = s.len();
    let mut k: usize = 0;
    while k < pat.len()
        invariant
            n == s@.len(),
            k <= pat@.len(),
            i <= s@.len(),
            i + pat@.len() <= s@.len(),
            forall|m: int| 0 <= m < k ==> s@[i + m] == pat@[m],
        decreases pat.len() - k,
    {
        if s[i + k] != pat[k] {
            assert(s@.subrange(i as int, i + pat@.len())[k as int] != pat@[k as int]);
            return false;
        }
        k = k + 1;
    }
    assert(s@.subrange(i as int, i + pat@.len()) =~= pat@);
    true
}

/// Whether `pat` is a prefix of `s`.
pub fn starts_with(s: &Vec<char>, pat: &Vec<char>) -> (b: bool)
    ensures
        b == pat@.is_prefix_of(s@),
{
    let b = matches_at(s, pat, 0);
    proof {
        if pat@.is_prefix_of(s@) {
            assert(occurs_at(s@, pat@, 0));
        }
    }
    b
}

/// Whether `pat` is a suffix of `s`.
pub fn ends_with(s: &Vec<char>, pat: &Vec<char>) -> (b: bool)
    ensures
        b == pat@.is_suffix_of(s@),
{
    if pat.len() > s.len() {
        return false;
    }
    let b = matches_at(s, pat, s.len() - pat.len());
    b
}

/// Whether `pat` occurs in `s`.
pub fn contains_chars(s: &Vec<char>, pat: &Vec<char>) -> (b: bool)
    ensures
        b == has_substring(s@, pat@),
{
    if pat.len() > s.len() {
        proof {
            assert forall|i: int| !occurs_at(s@, pat@, i) by {}
        }
        return false;
    }
    let last = s.len() - pat.len();
    let mut i: usize = 0;
    while i < last
        invariant
            last == s@.len() - pat@.len(),
            i <= last,
            forall|m: int| 0 <= m < i ==> !occurs_at(s@, pat@, m),
        decreases last - i,
    {
        if matches_at(s, pat, i) {
            return true;
        }
        i = i + 1;
    }
    if matches_at(s, pat, last) {
        return true;
    }
    proof {
        assert forall|m: int| !occurs_at(s@, pat@, m) by {
            if 0 <= m && m + pat@.len() <= s@.len() {
                assert(m <= last);
            }
        }
    }
    false
}

/// The position of the first `c` in `s`.
pub open spec fn first_index_of(s: Seq<char>, c: char) -> Option<int> {
    if exists|i: int| 0 <= i < s.len() && s[i] == c {
        Some(choose|i: int| 0 <= i < s.len() && s[i] == c && forall|j: int| 0 <= j < i ==> s[j] != c)
    } else {
        None
    }
}

/// The position of the first `c` in `s` at or after `from`.
pub fn find_char_from(s: &Vec<char>, c: char, from: usize) -> (res: Option<usize>)
    ensures
        match res {
            Some(i) => from <= i < s@.len() && s@[i as int] == c && forall|j: int|
                from <= j < i ==> s@[j] != c,
            None => forall|j: int| from <= j < s@.len() ==> s@[j] != c,
        },
{
    let mut i = from;
    while i < s.len()
        invariant
            from <= i,
            forall|j: int| from <= j < i ==> s@[j] != c,
        decreases s.len() - i,
    {
        if s[i] == c {
            return Some(i);
        }
        i = i + 1;
    }
    None
}

/// The position of the last `c` in `s`.
pub fn rfind_char(s: &Vec<char>, c: char) -> (res: Option<usize>)
    ensures
        match res {
            Some(i) => i < s@.len() && s@[i as int] == c && forall|j: int| i < j < s@.len() ==> s@[j] != c,
            None => forall|j: int| 0 <= j < s@.len() ==> s@[j] != c,
        },
{
    let mut i = s.len();
    while i > 0
        invariant
            i <= s@.len(),
            forall|j: int| i <= j < s@.len() ==> s@[j] != c,
        decreases i,
    {
        if s[i - 1] == c {
            return Some(i - 1);
        }
        i = i - 1;
    }
    None
}

/// The characters of `s` in positions `from..to`.
pub fn slice_chars(s: &Vec<char>, from: usize, to: usize) -> (res: Vec<char>)
    requires
        from <= to <= s@.len(),
    ensures
        res@ == s@.subrange(from as int, to as int),
{
    let mut out: Vec<char> = Vec::new();
    let mut k = from;
    while k < to
        invariant
            from <= k <= to <= s@.len(),
            out@ =~= s@.subrange(from as int, k as int),
        decreases to - k,
    {
        out.push(s[k]);
        k = k + 1;
    }
    out
}

/// The pieces of `s` between the separators `sep`, as `str::split` yields them.
pub open spec fn split_on(s: Seq<char>, sep: char) -> Seq<Seq<char>>
    decreases s.len(),
{
    if s.len() == 0 {
        seq![Seq::<char>::empty()]
    } else {
        let rest = split_on(s.drop_last(), sep);
        if s.last() == sep {
            rest.push(Seq::<char>::empty())
        } else {
            rest.update(rest.len() - 1, rest.last().push(s.last()))
        }
    }
}

/// Splitting always gives at least one piece.
pub proof fn lemma_split_on_nonempty(s: Seq<char>, sep: char)
    ensures
        split_on(s, sep).len() >= 1,
    decreases s.len(),
{
    if s.len() > 0 {
        lemma_split_on_nonempty(s.drop_last(), sep);
    }
}

/// Appending text without the separator to `a` extends the last piece.
pub proof fn lemma_split_on_append_plain(a: Seq<char>, b: Seq<char>, sep: char)
    requires
        forall|i: int| 0 <= i < b.len() ==> b[i] != sep,
    ensures
        split_on(a + b, sep) == split_on(a, sep).update(
            split_on(a, sep).len() - 1,
            split_on(a, sep).last() + b,
        ),
    decreases b.len(),
{
    lemma_split_on_nonempty(a, sep);
    if b.len() == 0 {
        assert(a + b =~= a);
        assert(split_on(a, sep).last() + b =~= split_on(a, sep).last());
        assert(split_on(a, sep).update(split_on(a, sep).len() - 1, split_on(a, sep).last()) =~= split_on(a, sep));
    } else {
        let bd = b.drop_last();
        lemma_split_on_append_plain(a, bd, sep);
        assert((a + b).drop_last() =~= a + bd);
        assert((a + b).last() == b.last());
        let pa = split_on(a, sep);
        let rest = split_on(a + bd, sep);
        assert(rest.last() == pa.last() + bd);
        assert(rest.last().push(b.last()) =~= pa.last() + b);
        assert(split_on(a + b, sep) =~= pa.update(pa.len() - 1, pa.last() + b));
    }
}

/// Two pieces without the separator, joined by it, split back into those
/// two pieces.
pub proof fn lemma_split_on_two(x: Seq<char>, y: Seq<char>, sep: char)
    requires
        forall|i: int| 0 <= i < x.len() ==> x[i] != sep,
        forall|i: int| 0 <= i < y.len() ==> y[i] != sep,
    ensures
        split_on(x + seq![sep] + y, sep) == seq![x, y],
{
    let e = Seq::<char>::empty();
    lemma_split_on_append_plain(e, x, sep);
    assert(e + x =~= x);
    assert(split_on(e, sep) == seq![e]);
    assert(e + x =~= x);
    assert(split_on(x, sep) =~= seq![x]);
    let xs = x + seq![sep];
    assert(xs.drop_last() =~= x);
    assert(split_on(xs, sep) =~= seq![x, e]);
    lemma_split_on_append_plain(xs, y, sep);
    assert(xs + y =~= x + seq![sep] + y);
    assert(e + y =~= y);
    assert(split_on(x + seq![sep] + y, sep) =~= seq![x, y]);
}

/// `str::split` with a character separator.
pub fn split_chars(s: &Vec<char>, sep: char) -> (res: Vec<Vec<char>>)
    ensures
        res@.len() == split_on(s@, sep).len(),
        res@.len() >= 1,
        forall|i: int| 0 <= i < res@.len() ==> #[trigger] res@[i]@ == split_on(s@, sep)[i],
{
    let mut out: Vec<Vec<char>> = Vec::new();
    let mut cur: Vec<char> = Vec::new();
    let mut k: usize = 0;
    while k < s.len()
        invariant
            k <= s@.len(),
            out@.len() + 1 == split_on(s@.subrange(0, k as int), sep).len(),
            forall|i: int| 0 <= i < out@.len() ==> #[trigger] out@[i]@ == split_on(
                s@.subrange(0, k as int),
                sep,
            )[i],
            cur@ == split_on(s@.subrange(0, k as int), sep).last(),
        decreases s.len() - k,
    {
        let ghost before = s@.subrange(0, k as int);
        let ghost after = s@.subrange(0, k + 1);
        assert(after.drop_last() =~= before);
        proof {
            lemma_split_on_nonempty(before, sep);
        }
        if s[k] == sep {
            out.push(cur);
            cur = Vec::new();
        } else {
            cur.push(s[k]);
        }
        k = k + 1;
    }
    assert(s@.subrange(0, s@.len() as int) =~= s@);
    proof {
        lemma_split_on_nonempty(s@, sep);
    }
    let ghost prev = out@;
    out.push(cur);
    assert forall|i: int| 0 <= i < out@.len() implies #[trigger] out@[i]@ == split_on(s@, sep)[i] by {
        if i < prev.len() {
            assert(out@[i] == prev[i]);
        }
    }
    out
}

/// The decimal digit characters.
pub open spec fn is_digit(c: char) -> bool {
    '0' <= c && c <= '9'
}

/// The value of the decimal digit `c`.
pub open spec fn digit_value(c: char) -> nat {
    (c as int - '0' as int) as nat
}

/// The number that the decimal digits `s` spell.
pub open spec fn digits_value(s: Seq<char>) -> nat
    decreases s.len(),
{
    if s.len() == 0 {
        0
    } else {
        digits_value(s.drop_last()) * 10 + digit_value(s.last())
    }
}

/// `s` without one leading `+`.
pub open spec fn unsigned_part(s: Seq<char>) -> Seq<char> {
    if s.len() > 0 && s[0] == '+' {
        s.drop_first()
    } else {
        s
    }
}

/// Every character of `s` is a decimal digit.
pub open spec fn all_digits(s: Seq<char>) -> bool {
    forall|i: int| 0 <= i < s.len() ==> is_digit(#[trigger] s[i])
}

/// What `str::parse::<u32>` gives: an optional `+`, then one or more
/// decimal digits whose value fits in 32 bits.
pub open spec fn parse_u32_spec(s: Seq<char>) -> Option<u32> {
    let ds = unsigned_part(s);
    if ds.len() > 0 && all_digits(ds) && digits_value(ds) <= u32::MAX {
        Some(digits_value(ds) as u32)
    } else {
        None
    }
}

/// One or more digits whose value fits in 32 bits parse to that value.
pub proof fn lemma_parse_digits(x: Seq<char>)
    requires
        x.len() > 0,
        all_digits(x),
        digits_value(x) <= u32::MAX,
    ensures
        parse_u32_spec(x) == Some(digits_value(x) as u32),
{
    assert(is_digit(x[0]));
    assert(unsigned_part(x) == x);
}

proof fn lemma_parse_rejects(s: Seq<char>, j: int)
    requires
        0 <= j < unsigned_part(s).len(),
        !is_digit(unsigned_part(s)[j]),
    ensures
        parse_u32_spec(s) == None::<u32>,
{
    assert(!all_digits(unsigned_part(s)));
}

proof fn lemma_digits_value_monotone(s: Seq<char>, k: int)
    requires
        0 <= k <= s.len(),
        all_digits(s),
    ensures
        digits_value(s.subrange(0, k)) <= digits_value(s),
    decreases s.len() - k,
{
    if k < s.len() {
        lemma_digits_value_monotone(s, k + 1);
        assert(s.subrange(0, k + 1).drop_last() =~= s.subrange(0, k));
    } else {
        assert(s.subrange(0, k) =~= s);
    }
}

/// `str::parse::<u32>`.
pub fn parse_u32(s: &Vec<char>) -> (res: Option<u32>)
    ensures
        res == parse_u32_spec(s@),
{
    let start: usize = if s.len() > 0 && s[0] == '+' {
        1
    } else {
        0
    };
    let ghost ds = unsigned_part(s@);
    assert(ds =~= s@.subrange(start as int, s@.len() as int));
    if start == s.len() {
        return None;
    }
    let mut acc: u64 = 0;
    let mut k: usize = start;
    while k < s.len()
        invariant
            start <= k <= s@.len(),
            ds == s@.subrange(start as int, s@.len() as int),
            ds == unsigned_part(s@),
            forall|i: int| start <= i < k ==> is_digit(#[trigger] s@[i]),
            acc == digits_value(s@.subrange(start as int, k as int)),
            acc <= u32::MAX,
        decreases s.len() - k,
    {
        let c = s[k];
        if !('0' <= c && c <= '9') {
            assert(ds[k - start] == c);
            proof {
                lemma_parse_rejects(s@, k - start);
            }
            return None;
        }
        let d = (c as u32 - '0' as u32) as u64;
        let ghost pre = s@.subrange(start as int, k as int);
        let ghost next = s@.subrange(start as int, k + 1);
        assert(next.drop_last() =~= pre);
        assert(next.last() == c);
        assert(digit_value(c) == d);
        assert(digits_value(next) == digits_value(pre) * 10 + digit_value(c));
        let v = acc * 10 + d;
        if v > 0xffff_ffff {
            proof {
                assert forall|i: int| 0 <= i < next.len() implies is_digit(#[trigger] next[i]) by {
                    assert(next[i] == s@[start + i]);
                }
                if all_digits(ds) {
                    lemma_digits_value_monotone(ds, (k + 1 - start) as int);
                    assert(ds.subrange(0, (k + 1 - start) as int) =~= next);
                }
            }
            return None;
        }
        acc = v;
        k = k + 1;
    }
    assert(s@.subrange(start as int, s@.len() as int) =~= ds);
    assert forall|i: int| 0 <= i < ds.len() implies is_digit(#[trigger] ds[i]) by {
        assert(ds[i] == s@[start + i]);
    }
    assert(all_digits(ds));
    Some(acc as u32)
}

/// The decimal digits of `n`, most significant first.
pub open spec fn decimal(n: nat) -> Seq<char>
    decreases n,
{
    if n < 10 {
        seq![('0' as u8 + n as u8) as char]
    } else {
        decimal(n / 10).push(('0' as u8 + (n % 10) as u8) as char)
    }
}

/// The decimal representation of `n`, as `to_string` writes it.
pub fn decimal_string(n: u64) -> (res: String)
    ensures
        res@ == decimal(n as nat),
    decreases n,
{
    let d = (n % 10) as u8;
    let c = ('0' as u8 + d) as char;
    let one: Vec<char> = vec![c];
    if n < 10 {
        assert(one@ =~= decimal(n as nat));
        string_of(one.as_slice())
    } else {
        let head = decimal_string(n / 10);
        let tail = string_of(one.as_slice());
        let res = head.concat(tail.as_str());
        assert(res@ =~= decimal(n as nat));
        res
    }
}

/// ASCII case folding of one character.
pub open spec fn ascii_lower(c: char) -> char {
    if 'A' <= c && c <= 'Z' {
        ((c as u32) + 32) as char
    } else {
        c
    }
}

/// `a` and `b` are equal up to ASCII case, as `eq_ignore_ascii_case` decides.
pub open spec fn eq_ignore_case(a: Seq<char>, b: Seq<char>) -> bool {
    a.len() == b.len() && forall|i: int| 0 <= i < a.len() ==> ascii_lower(#[trigger] a[i]) == ascii_lower(b[i])
}

/// `c` with an ASCII capital letter made small.
pub fn lower_char(c: char) -> (r: char)
    ensures
        r == ascii_lower(c),
{
    if 'A' <= c && c <= 'Z' {
        ((c as u8) + 32) as char
    } else {
        c
    }
}

/// `eq_ignore_ascii_case`.
pub fn eq_ignore_ascii_case(a: &Vec<char>, b: &Vec<char>) -> (r: bool)
    ensures
        r == eq_ignore_case(a@, b@),
{
    if a.len() != b.len() {
        return false;
    }
    let mut k: usize = 0;
    while k < a.len()
        invariant
            a@.len() == b@.len(),
            k <= a@.len(),
            forall|i: int| 0 <= i < k ==> ascii_lower(#[trigger] a@[i]) == ascii_lower(b@[i]),
        decreases a.len() - k,
    {
        if lower_char(a[k]) != lower_char(b[k]) {
            return false;
        }
        k = k + 1;
    }
    true
}

/// Whether two character sequences are equal.
pub fn chars_eq(a: &Vec<char>, b: &Vec<char>) -> (r: bool)
    ensures
        r == (a@ == b@),
{
    if a.len() != b.len() {
        return false;
    }
    let mut k: usize = 0;
    while k < a.len()
        invariant
            a@.len() == b@.len(),
            k <= a@.len(),
            forall|i: int| 0 <= i < k ==> a@[i] == b@[i],
        decreases a.len() - k,
    {
        if a[k] != b[k] {
            return false;
        }
        k = k + 1;
    }
    assert(a@ =~= b@);
    true
}

/// Whether two strings are equal.
pub fn str_eq(a: &str, b: &str) -> (r: bool)
    ensures
        r == (a@ == b@),
{
    let x = chars_of(a);
    let y = chars_of(b);
    chars_eq(&x, &y)
}

/// `a` followed by `b`.
pub fn join2(a: &str, b: &str) -> (r: String)
    ensures
        r@ == a@ + b@,
{
    let s = String::from_str(a);
    s.concat(b)
}

/// `a`, `b` and `c` in turn.
pub fn join3(a: &str, b: &str, c: &str) -> (r: String)
    ensures
        r@ == a@ + b@ + c@,
{
    let s = String::from_str(a);
    let s = s.concat(b);
    s.concat(c)
}

} // verus!
