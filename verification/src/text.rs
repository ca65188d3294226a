//! Text primitives shared by the command parser, the configuration table and
//! the library search: trimming, splitting, joining, substring search,
//! decimal printing and parsing.  Each is stated over the `Seq<char>` view of
//! the strings involved.
use vstd::prelude::*;

verus! {

/// The characters of the Unicode `White_Space` property (what
/// `char::is_whitespace` accepts).
pub open spec fn is_white_space(c: char) -> bool {
    let u = c as u32;
    ||| 0x09 <= u && u <= 0x0d
    ||| u == 0x20
    ||| u == 0x85
    ||| u == 0xa0
    ||| u == 0x1680
    ||| 0x2000 <= u && u <= 0x200a
    ||| u == 0x2028
    ||| u == 0x2029
    ||| u == 0x202f
    ||| u == 0x205f
    ||| u == 0x3000
}

/// Drops the leading white space.
pub open spec fn trim_start(s: Seq<char>) -> Seq<char>
    decreases s.len(),
{
    if s.len() > 0 && is_white_space(s[0]) {
        trim_start(s.drop_first())
    } else {
        s
    }
}

/// Drops the trailing white space.
pub open spec fn trim_end(s: Seq<char>) -> Seq<char>
    decreases s.len(),
{
    if s.len() > 0 && is_white_space(s.last()) {
        trim_end(s.drop_last())
    } else {
        s
    }
}

/// Drops the white space at both ends, as `str::trim` does.
pub open spec fn trimmed(s: Seq<char>) -> Seq<char> {
    trim_end(trim_start(s))
}

/// The pieces of `s` between occurrences of `sep`, as `str::split` yields
/// them for a `char` pattern: always at least one piece.
pub open spec fn split_on(s: Seq<char>, sep: char) -> Seq<Seq<char>>
    decreases s.len(),
{
    if s.len() == 0 {
        seq![Seq::<char>::empty()]
    } else {
        let prev = split_on(s.drop_last(), sep);
        if s.last() == sep {
            prev.push(Seq::<char>::empty())
        } else {
            prev.update(prev.len() - 1, prev.last().push(s.last()))
        }
    }
}

/// The pieces joined with `sep` between them, as `[String]::join` does.
pub open spec fn join_with(parts: Seq<Seq<char>>, sep: Seq<char>) -> Seq<char>
    decreases parts.len(),
{
    if parts.len() == 0 {
        Seq::<char>::empty()
    } else if parts.len() == 1 {
        parts[0]
    } else {
        join_with(parts.drop_last(), sep) + sep + parts.last()
    }
}

/// The views of a sequence of strings.
pub open spec fn views(v: Seq<String>) -> Seq<Seq<char>> {
    v.map_values(|x: String| x@)
}

/// `needle` occurs in `hay` at position `i`.
pub open spec fn occurs_at(hay: Seq<char>, needle: Seq<char>, i: int) -> bool {
    &&& 0 <= i
    &&& i + needle.len() <= hay.len()
    &&& hay.subrange(i, i + needle.len()) == needle
}

/// `needle` is a substring of `hay` (what `str::contains` answers).
pub open spec fn contains_text(hay: Seq<char>, needle: Seq<char>) -> bool {
    exists|i: int| occurs_at(hay, needle, i)
}

/// An ASCII decimal digit.
pub open spec fn is_digit(c: char) -> bool {
    48 <= (c as u32) && (c as u32) <= 57
}

/// Every character of `s` is an ASCII decimal digit.
pub open spec fn all_digits(s: Seq<char>) -> bool {
    forall|i: int| 0 <= i < s.len() ==> is_digit(#[trigger] s[i])
}

/// The number that the decimal digits of `s` denote.
pub open spec fn digits_value(s: Seq<char>) -> nat
    decreases s.len(),
{
    if s.len() == 0 {
        0
    } else {
        digits_value(s.drop_last()) * 10 + ((s.last() as u32) - 48) as nat
    }
}

/// What `str::parse` gives for an unsigned integer type whose largest value is
/// `max`: an optional `+`, then at least one decimal digit, and a value that
/// fits.
pub open spec fn parse_unsigned(s: Seq<char>, max: nat) -> Option<nat> {
    let d = if s.len() > 0 && s[0] == '+' {
        s.drop_first()
    } else {
        s
    };
    if d.len() == 0 || !all_digits(d) || digits_value(d) > max {
        None
    } else {
        Some(digits_value(d))
    }
}

/// The character of a decimal digit.
pub open spec fn digit_char(d: nat) -> char {
    (d + 48) as char
}

/// The decimal representation of `n`, as `to_string` writes it.
pub open spec fn decimal(n: nat) -> Seq<char>
    decreases n,
{
    if n < 10 {
        seq![digit_char(n)]
    } else {
        decimal(n / 10).push(digit_char(n % 10))
    }
}

/// `s` as a boolean, as `str::parse::<bool>` reads it.
pub open spec fn parse_bool_text(s: Seq<char>) -> Option<bool> {
    if s == "true"@ {
        Some(true)
    } else if s == "false"@ {
        Some(false)
    } else {
        None
    }
}

/// The text of a boolean, as `bool::to_string` writes it.
pub open spec fn bool_text(b: bool) -> Seq<char> {
    if b {
        "true"@
    } else {
        "false"@
    }
}

/// ASCII upper-case letters mapped to lower case; all else unchanged.
pub open spec fn ascii_lower(c: char) -> char {
    if 65 <= (c as u32) && (c as u32) <= 90 {
        ((c as u32) + 32) as char
    } else {
        c
    }
}

/// The two texts are equal once ASCII letters are folded to lower case, as
/// `str::eq_ignore_ascii_case` answers.
pub open spec fn eq_ignore_ascii_case(a: Seq<char>, b: Seq<char>) -> bool {
    &&& a.len() == b.len()
    &&& forall|i: int| 0 <= i < a.len() ==> ascii_lower(#[trigger] a[i]) == ascii_lower(b[i])
}

/// `rel` appended to the directory `base` with one `/` between them, as
/// `Path::join` does for a relative component on Unix.
pub open spec fn joined_path(base: Seq<char>, rel: Seq<char>) -> Seq<char> {
    if base.len() == 0 {
        rel
    } else if base.last() == '/' {
        base + rel
    } else {
        base + seq!['/'] + rel
    }
}

/// Names the result of `str::to_lowercase`: the Unicode lower-case mapping of
/// each character of the text, with the standard library's final-sigma rule.
pub uninterp spec fn lowercase(s: Seq<char>) -> Seq<char>;

/// Every character of the text is ASCII.
pub open spec fn is_ascii_text(s: Seq<char>) -> bool {
    forall|i: int| 0 <= i < s.len() ==> (#[trigger] s[i] as u32) < 128
}

/// The text with its ASCII upper-case letters mapped to lower case.
pub open spec fn ascii_lowered(s: Seq<char>) -> Seq<char> {
    s.map_values(|c: char| ascii_lower(c))
}

/// Calls `str::to_lowercase`; its result is named by `lowercase`, a function
/// of the text alone.  Of the Unicode case mapping only this is claimed: an
/// ASCII text lowers to its ASCII lower case (the mapping of every ASCII
/// character is ASCII, and only `A`..`Z` change).
#[verifier::external_body]
pub(crate) fn to_lowercase(s: &str) -> (r: String)
    ensures
        r@ == lowercase(s@),
        is_ascii_text(s@) ==> r@ == ascii_lowered(s@),
{
    s.to_lowercase()
}

/// Calls `String::push`: the character is appended at the end.
#[verifier::external_body]
pub(crate) fn push_char(s: &mut String, c: char)
    ensures
        final(s)@ == old(s)@.push(c),
{
    s.push(c)
}

/// The characters of `s`.
pub fn chars_of(s: &str) -> (r: Vec<char>)
    ensures
        r@ == s@,
{
    let n = s.unicode_len();
    let mut r: Vec<char> = Vec::new();
    let mut i: usize = 0;
    while i < n
        invariant
            n == s@.len(),
            i <= n,
            r@ == s@.subrange(0, i as int),
        decreases n - i,
    {
        let c = s.get_char(i);
        r.push(c);
        i = i + 1;
        assert(r@ == s@.subrange(0, i as int));
    }
    r
}

/// An owned copy of `s`.
pub fn owned(s: &str) -> (r: String)
    ensures
        r@ == s@,
{
    s.to_owned()
}

/// `a` and `b` hold the same characters.
pub fn text_eq(a: &str, b: &str) -> (r: bool)
    ensures
        r == (a@ == b@),
{
    let n = a.unicode_len();
    if n != b.unicode_len() {
        return false;
    }
    let mut i: usize = 0;
    while i < n
        invariant
            n == a@.len(),
            n == b@.len(),
            i <= n,
            forall|j: int| 0 <= j < i ==> a@[j] == b@[j],
        decreases n - i,
    {
        if a.get_char(i) != b.get_char(i) {
            return false;
        }
        i = i + 1;
    }
    assert(a@ =~= b@);
    true
}

/// Whether `c` is white space.
pub fn char_is_white_space(c: char) -> (r: bool)
    ensures
        r == is_white_space(c),
{
    let u = c as u32;
    (0x09 <= u && u <= 0x0d) || u == 0x20 || u == 0x85 || u == 0xa0 || u == 0x1680 || (0x2000
        <= u && u <= 0x200a) || u == 0x2028 || u == 0x2029 || u == 0x202f || u == 0x205f || u
        == 0x3000
}

proof fn lemma_trim_start_step(s: Seq<char>, i: int)
    requires
        0 <= i < s.len(),
        is_white_space(s[i]),
    ensures
        trim_start(s.subrange(i, s.len() as int)) == trim_start(s.subrange(i + 1, s.len() as int)),
{
    assert(s.subrange(i, s.len() as int).drop_first() =~= s.subrange(i + 1, s.len() as int));
}

proof fn lemma_trim_end_step(s: Seq<char>, j: int)
    requires
        0 < j <= s.len(),
        is_white_space(s[j - 1]),
    ensures
        trim_end(s.subrange(0, j)) == trim_end(s.subrange(0, j - 1)),
{
    assert(s.subrange(0, j).drop_last() =~= s.subrange(0, j - 1));
}

/// `s` without the white space at both ends.
pub fn trim(s: &str) -> (r: &str)
    ensures
        r@ == trimmed(s@),
{
    let n = s.unicode_len();
    let mut lo: usize = 0;
    assert(s@.subrange(0, n as int) =~= s@);
    while lo < n && char_is_white_space(s.get_char(lo))
        invariant
            n == s@.len(),
            lo <= n,
            trim_start(s@) == trim_start(s@.subrange(lo as int, n as int)),
        decreases n - lo,
    {
        proof {
            lemma_trim_start_step(s@, lo as int);
        }
        lo = lo + 1;
    }
    let ghost t = s@.subrange(lo as int, n as int);
    assert(trim_start(s@) == t) by {
        if lo < n {
            assert(t[0] == s@[lo as int]);
        }
    }
    let mut hi: usize = n;
    assert(t.subrange(0, n - lo) =~= t);
    while hi > lo && char_is_white_space(s.get_char(hi - 1))
        invariant
            n == s@.len(),
            lo <= hi <= n,
            t == s@.subrange(lo as int, n as int),
            trim_end(t) == trim_end(t.subrange(0, hi - lo)),
        decreases hi,
    {
        proof {
            lemma_trim_end_step(t, (hi - lo) as int);
        }
        hi = hi - 1;
    }
    assert(trim_end(t.subrange(0, hi - lo)) == t.subrange(0, hi - lo)) by {
        if hi > lo {
            assert(t.subrange(0, hi - lo).last() == s@[hi - 1]);
        }
    }
    assert(t.subrange(0, hi - lo) =~= s@.subrange(lo as int, hi as int));
    s.substring_char(lo, hi)
}

proof fn lemma_split_nonempty(s: Seq<char>, sep: char)
    ensures
        split_on(s, sep).len() >= 1,
    decreases s.len(),
{
    if s.len() > 0 {
        lemma_split_nonempty(s.drop_last(), sep);
    }
}

/// The pieces of `s` between occurrences of `sep`.
pub fn split_text(s: &str, sep: char) -> (r: Vec<String>)
    ensures
        views(r@) == split_on(s@, sep),
{
    let cs = chars_of(s);
    let mut pieces: Vec<String> = Vec::new();
    let mut cur = String::new();
    let mut i: usize = 0;
    assert(s@.subrange(0, 0) =~= Seq::<char>::empty());
    assert(views(pieces@).push(cur@) =~= split_on(s@.subrange(0, 0), sep));
    while i < cs.len()
        invariant
            cs@ == s@,
            i <= cs.len(),
            views(pieces@).push(cur@) == split_on(s@.subrange(0, i as int), sep),
        decreases cs.len() - i,
    {
        let c = cs[i];
        let ghost prefix = s@.subrange(0, i as int);
        let ghost next = s@.subrange(0, i + 1);
        assert(next.drop_last() =~= prefix);
        assert(next.last() == c);
        proof {
            lemma_split_nonempty(prefix, sep);
        }
        if c == sep {
            let done = cur;
            pieces.push(done);
            cur = String::new();
            assert(views(pieces@).push(cur@) =~= split_on(prefix, sep).push(Seq::<char>::empty()));
        } else {
            let ghost before = cur@;
            push_char(&mut cur, c);
            let ghost prev = split_on(prefix, sep);
            assert(prev.last() == before);
            assert(views(pieces@).push(cur@) =~= prev.update(prev.len() - 1, before.push(c)));
        }
        i = i + 1;
    }
    assert(s@.subrange(0, cs.len() as int) =~= s@);
    pieces.push(cur);
    assert(views(pieces@) =~= split_on(s@, sep));
    pieces
}

/// The strings of `parts` joined with `sep` between them.
pub fn join_text(parts: &[String], sep: &str) -> (r: String)
    ensures
        r@ == join_with(views(parts@), sep@),
{
    let mut r = String::new();
    let mut i: usize = 0;
    while i < parts.len()
        invariant
            i <= parts.len(),
            r@ == join_with(views(parts@.subrange(0, i as int)), sep@),
        decreases parts.len() - i,
    {
        let ghost before = views(parts@.subrange(0, i as int));
        let ghost after = views(parts@.subrange(0, i + 1));
        assert(after.drop_last() =~= before);
        assert(after.last() == parts@[i as int]@);
        if i > 0 {
            r.append(sep);
        }
        r.append(parts[i].as_str());
        i = i + 1;
        assert(r@ == join_with(after, sep@)) by {
            if i == 1 {
                assert(after.len() == 1);
            }
        }
    }
    assert(parts@.subrange(0, parts.len() as int) =~= parts@);
    r
}

/// Whether `needle` occurs in `hay` at position `i`.
fn matches_at(hay: &Vec<char>, needle: &Vec<char>, i: usize) -> (r: bool)
    requires
        i + needle.len() <= hay.len(),
    ensures
        r == (hay@.subrange(i as int, i + needle.len()) == needle@),
{
    let mut k: usize = 0;
    while k < needle.len()
        invariant
            i + needle.len() <= hay.len(),
            k <= needle.len(),
            forall|j: int| 0 <= j < k ==> hay@[i + j] == needle@[j],
        decreases needle.len() - k,
    {
        if hay[i + k] != needle[k] {
            assert(hay@.subrange(i as int, i + needle.len())[k as int] != needle@[k as int]);
            return false;
        }
        k = k + 1;
    }
    assert(hay@.subrange(i as int, i + needle.len()) =~= needle@);
    true
}

/// Whether `needle` occurs in `hay`.
pub fn text_contains(hay: &str, needle: &str) -> (r: bool)
    ensures
        r == contains_text(hay@, needle@),
{
    let h = chars_of(hay);
    let n = chars_of(needle);
    if n.len() > h.len() {
        assert forall|i: int| !occurs_at(hay@, needle@, i) by {}
        return false;
    }
    let last = h.len() - n.len();
    let mut i: usize = 0;
    loop
        invariant
            h@ == hay@,
            n@ == needle@,
            last + n.len() == h.len(),
            i <= last,
            forall|j: int| 0 <= j < i ==> !occurs_at(hay@, needle@, j),
        decreases last - i,
    {
        if matches_at(&h, &n, i) {
            assert(occurs_at(hay@, needle@, i as int));
            return true;
        }
        if i == last {
            assert forall|j: int| !occurs_at(hay@, needle@, j) by {
                if 0 <= j && j < i {
                }
            }
            return false;
        }
        i = i + 1;
    }
}

proof fn lemma_digits_value_prefix(d: Seq<char>, k: int)
    requires
        0 <= k <= d.len(),
        all_digits(d),
    ensures
        digits_value(d.subrange(0, k)) <= digits_value(d),
    decreases d.len() - k,
{
    if k < d.len() {
        lemma_digits_value_prefix(d, k + 1);
        assert(d.subrange(0, k + 1).drop_last() =~= d.subrange(0, k));
        assert(is_digit(d[k]));
    } else {
        assert(d.subrange(0, k) =~= d);
    }
}

/// What `str::parse` gives for an unsigned integer type whose largest value
/// is `max`.
fn parse_unsigned_text(s: &str, max: u64) -> (r: Option<u64>)
    ensures
        match r {
            Some(v) => parse_unsigned(s@, max as nat) == Some(v as nat),
            None => parse_unsigned(s@, max as nat) is None,
        },
{
    let cs = chars_of(s);
    let start: usize = if cs.len() > 0 && cs[0] == '+' {
        1
    } else {
        0
    };
    let ghost d = if s@.len() > 0 && s@[0] == '+' {
        s@.drop_first()
    } else {
        s@
    };
    assert(d =~= s@.subrange(start as int, s@.len() as int));
    assert(parse_unsigned(s@, max as nat) == (if d.len() == 0 || !all_digits(d) || digits_value(d)
        > max as nat {
        None
    } else {
        Some(digits_value(d))
    }));
    if start >= cs.len() {
        return None;
    }
    let mut acc: u128 = 0;
    let mut i: usize = start;
    while i < cs.len()
        invariant
            cs@ == s@,
            start <= i <= cs.len(),
            d == s@.subrange(start as int, s@.len() as int),
            all_digits(d.subrange(0, i - start)),
            acc == digits_value(d.subrange(0, i - start)),
            acc <= max,
            parse_unsigned(s@, max as nat) == (if d.len() == 0 || !all_digits(d) || digits_value(d)
                > max as nat {
                None
            } else {
                Some(digits_value(d))
            }),
        decreases cs.len() - i,
    {
        let c = cs[i];
        let ghost k = i - start;
        assert(d[k] == c);
        if !((c as u32) >= 48 && (c as u32) <= 57) {
            assert(!is_digit(d[k]));
            assert(!all_digits(d));
            return None;
        }
        let dv = (c as u32 - 48) as u128;
        assert(d.subrange(0, k + 1).drop_last() =~= d.subrange(0, k));
        acc = acc * 10 + dv;
        i = i + 1;
        assert(acc == digits_value(d.subrange(0, i - start)));
        if acc > max as u128 {
            proof {
                if all_digits(d) {
                    lemma_digits_value_prefix(d, i - start);
                    assert(digits_value(d) > max);
                }
            }
            return None;
        }
    }
    assert(d.subrange(0, i - start) =~= d);
    Some(acc as u64)
}

/// `s` read as a `u64`, as `str::parse::<u64>` reads it.
pub fn parse_u64(s: &str) -> (r: Option<u64>)
    ensures
        match r {
            Some(v) => parse_unsigned(s@, u64::MAX as nat) == Some(v as nat),
            None => parse_unsigned(s@, u64::MAX as nat) is None,
        },
{
    parse_unsigned_text(s, u64::MAX)
}

/// `s` read as a `u8`, as `str::parse::<u8>` reads it.
pub fn parse_u8(s: &str) -> (r: Option<u8>)
    ensures
        match r {
            Some(v) => parse_unsigned(s@, u8::MAX as nat) == Some(v as nat),
            None => parse_unsigned(s@, u8::MAX as nat) is None,
        },
{
    match parse_unsigned_text(s, 255) {
        Some(v) => Some(v as u8),
        None => None,
    }
}

/// `s` read as a boolean, as `str::parse::<bool>` reads it.
pub fn parse_bool(s: &str) -> (r: Option<bool>)
    ensures
        r == parse_bool_text(s@),
{
    if text_eq(s, "true") {
        Some(true)
    } else if text_eq(s, "false") {
        Some(false)
    } else {
        None
    }
}

/// The text of a boolean.
pub fn bool_string(b: bool) -> (r: String)
    ensures
        r@ == bool_text(b),
{
    if b {
        owned("true")
    } else {
        owned("false")
    }
}

/// The decimal representation of `n`.
pub fn decimal_string(n: u64) -> (r: String)
    ensures
        r@ == decimal(n as nat),
    decreases n,
{
    let d = (n % 10) as u8;
    let c = (d + 48) as char;
    assert(c == digit_char((n % 10) as nat));
    if n < 10 {
        let mut r = String::new();
        push_char(&mut r, c);
        assert(r@ =~= seq![c]);
        r
    } else {
        let mut r = decimal_string(n / 10);
        push_char(&mut r, c);
        r
    }
}

/// Whether `a` and `b` are equal up to ASCII case.
pub fn text_eq_ignore_ascii_case(a: &str, b: &str) -> (r: bool)
    ensures
        r == eq_ignore_ascii_case(a@, b@),
{
    let x = chars_of(a);
    let y = chars_of(b);
    if x.len() != y.len() {
        return false;
    }
    let mut i: usize = 0;
    while i < x.len()
        invariant
            x@ == a@,
            y@ == b@,
            x.len() == y.len(),
            i <= x.len(),
            forall|j: int| 0 <= j < i ==> ascii_lower(#[trigger] a@[j]) == ascii_lower(b@[j]),
        decreases x.len() - i,
    {
        let p = x[i] as u32;
        let q = y[i] as u32;
        let lp = if 65 <= p && p <= 90 {
            p + 32
        } else {
            p
        };
        let lq = if 65 <= q && q <= 90 {
            q + 32
        } else {
            q
        };
        assert(lp == ascii_lower(a@[i as int]) as u32);
        assert(lq == ascii_lower(b@[i as int]) as u32);
        if lp != lq {
            return false;
        }
        i = i + 1;
    }
    true
}

/// `rel` appended to the directory `base`.
pub fn join_path(base: &str, rel: &str) -> (r: String)
    ensures
        r@ == joined_path(base@, rel@),
{
    let n = base.unicode_len();
    let mut r = owned(base);
    if n > 0 && base.get_char(n - 1) != '/' {
        push_char(&mut r, '/');
    }
    r.append(rel);
    r
}

/// The last position of `c` in `s`, or -1 where `c` does not occur.
pub open spec fn last_index_of(s: Seq<char>, c: char) -> int
    decreases s.len(),
{
    if s.len() == 0 {
        -1
    } else if s.last() == c {
        s.len() - 1
    } else {
        last_index_of(s.drop_last(), c)
    }
}

/// `last_index_of` is -1 or a position of `c`, after which `c` does not occur.
pub proof fn lemma_last_index_of(s: Seq<char>, c: char)
    ensures
        -1 <= last_index_of(s, c) < s.len(),
        last_index_of(s, c) >= 0 ==> s[last_index_of(s, c)] == c,
        forall|j: int| last_index_of(s, c) < j < s.len() ==> s[j] != c,
    decreases s.len(),
{
    if s.len() > 0 && s.last() != c {
        let d = s.drop_last();
        lemma_last_index_of(d, c);
        assert forall|j: int| last_index_of(s, c) < j < s.len() implies s[j] != c by {
            if j < s.len() - 1 {
                assert(s[j] == d[j]);
            }
        }
    }
}

/// The last position of `c` among the characters `v`.
pub fn last_index(v: &Vec<char>, c: char) -> (r: Option<usize>)
    ensures
        match r {
            Some(i) => i as int == last_index_of(v@, c),
            None => last_index_of(v@, c) == -1,
        },
{
    let mut i: usize = v.len();
    assert(v@.subrange(0, i as int) =~= v@);
    while i > 0
        invariant
            i <= v.len(),
            last_index_of(v@, c) == last_index_of(v@.subrange(0, i as int), c),
        decreases i,
    {
        let ghost p = v@.subrange(0, i as int);
        assert(p.drop_last() =~= v@.subrange(0, i - 1));
        if v[i - 1] == c {
            return Some(i - 1);
        }
        i = i - 1;
    }
    None
}

/// The text of the characters `v[a..b]`.
pub fn text_of_range(v: &Vec<char>, a: usize, b: usize) -> (r: String)
    requires
        a <= b <= v.len(),
    ensures
        r@ == v@.subrange(a as int, b as int),
{
    let mut r = String::new();
    let mut i: usize = a;
    while i < b
        invariant
            a <= i <= b <= v.len(),
            r@ == v@.subrange(a as int, i as int),
        decreases b - i,
    {
        push_char(&mut r, v[i]);
        assert(v@.subrange(a as int, i + 1) =~= v@.subrange(a as int, i as int).push(v@[i as int]));
        i = i + 1;
    }
    r
}

/// A decimal numeral as `to_string` writes one: at least one digit, digits
/// only, and no leading zero unless the numeral is `0`.
pub open spec fn is_canonical_decimal(s: Seq<char>) -> bool {
    &&& s.len() > 0
    &&& all_digits(s)
    &&& (s.len() == 1 || s[0] != '0')
}

proof fn lemma_digits_value_positive(s: Seq<char>)
    requires
        s.len() > 0,
        all_digits(s),
        s[0] != '0',
    ensures
        digits_value(s) >= 1,
    decreases s.len(),
{
    if s.len() > 1 {
        let p = s.drop_last();
        assert(p[0] == s[0]);
        assert forall|i: int| 0 <= i < p.len() implies is_digit(#[trigger] p[i]) by {
            assert(p[i] == s[i]);
        }
        lemma_digits_value_positive(p);
    } else {
        assert(is_digit(s[0]));
        assert(s.last() == s[0]);
        assert(s.drop_last() =~= Seq::<char>::empty());
        assert((s[0] as u32) != 48) by {
            if (s[0] as u32) == 48 {
                vstd::utf8::char_u32_cast(s[0], 48);
                vstd::utf8::char_u32_cast('0', 48);
            }
        }
    }
}

/// A canonical numeral is what `to_string` writes for the number it denotes.
pub proof fn lemma_decimal_of_digits(s: Seq<char>)
    requires
        is_canonical_decimal(s),
    ensures
        decimal(digits_value(s)) == s,
    decreases s.len(),
{
    let d = ((s.last() as u32) - 48) as nat;
    assert(is_digit(s[s.len() - 1]));
    assert(d < 10);
    assert((d + 48) == (s.last() as u32));
    vstd::utf8::char_u32_cast(s.last(), s.last() as u32);
    assert(digit_char(d) == s.last());
    if s.len() == 1 {
        assert(s.drop_last().len() == 0);
        assert(digits_value(s.drop_last()) == 0);
        assert(digits_value(s) == d);
        assert(decimal(d) =~= s);
    } else {
        let p = s.drop_last();
        assert(p[0] == s[0]);
        assert forall|i: int| 0 <= i < p.len() implies is_digit(#[trigger] p[i]) by {
            assert(p[i] == s[i]);
        }
        lemma_digits_value_positive(p);
        lemma_decimal_of_digits(p);
        let a = digits_value(p);
        let n = digits_value(s);
        assert(n == a * 10 + d);
        assert(n / 10 == a && n % 10 == d && n >= 10) by (nonlinear_arith)
            requires
                n == a * 10 + d,
                d < 10,
                a >= 1,
        ;
        assert(decimal(n) == decimal(a).push(digit_char(d)));
        assert(s =~= p.push(s.last()));
    }
}

/// A text without `sep` is one piece.
pub proof fn lemma_split_none(a: Seq<char>, sep: char)
    requires
        !a.contains(sep),
    ensures
        split_on(a, sep) == seq![a],
    decreases a.len(),
{
    if a.len() > 0 {
        let p = a.drop_last();
        assert(!p.contains(sep)) by {
            if p.contains(sep) {
                let i = p.index_of(sep);
                assert(a[i] == sep);
            }
        }
        lemma_split_none(p, sep);
        assert(a.last() != sep) by {
            assert(a[a.len() - 1] == a.last());
        }
        assert(p.push(a.last()) =~= a);
        assert(seq![p].update(0, p.push(a.last())) =~= seq![a]);
    } else {
        assert(a =~= Seq::<char>::empty());
    }
}

/// Two texts without `sep`, joined by one `sep`, split back into the two.
pub proof fn lemma_split_two(a: Seq<char>, b: Seq<char>, sep: char)
    requires
        !a.contains(sep),
        !b.contains(sep),
    ensures
        split_on(a + seq![sep] + b, sep) == seq![a, b],
    decreases b.len(),
{
    if b.len() == 0 {
        lemma_split_none(a, sep);
        let s = a + seq![sep] + b;
        assert(s.drop_last() =~= a);
        assert(s.last() == sep);
        assert(b =~= Seq::<char>::empty());
        assert(seq![a].push(Seq::<char>::empty()) =~= seq![a, b]);
    } else {
        let bp = b.drop_last();
        assert(!bp.contains(sep)) by {
            if bp.contains(sep) {
                let i = bp.index_of(sep);
                assert(b[i] == sep);
            }
        }
        lemma_split_two(a, bp, sep);
        let s = a + seq![sep] + b;
        assert(s.drop_last() =~= a + seq![sep] + bp);
        assert(s.last() == b.last());
        assert(b.last() != sep) by {
            assert(b[b.len() - 1] == b.last());
        }
        assert(bp.push(b.last()) =~= b);
        assert(seq![a, bp].update(1, bp.push(b.last())) =~= seq![a, b]);
    }
}

/// The last `c` of `x`, `c`, `y` is the one between them when `y` holds none.
pub proof fn lemma_last_index_after(x: Seq<char>, c: char, y: Seq<char>)
    requires
        !y.contains(c),
    ensures
        last_index_of(x + seq![c] + y, c) == x.len(),
    decreases y.len(),
{
    let s = x + seq![c] + y;
    if y.len() == 0 {
        assert(s.last() == c);
    } else {
        let yp = y.drop_last();
        assert(!yp.contains(c)) by {
            if yp.contains(c) {
                let i = yp.index_of(c);
                assert(y[i] == c);
            }
        }
        lemma_last_index_after(x, c, yp);
        assert(s.drop_last() =~= x + seq![c] + yp);
        assert(s.last() == y[y.len() - 1]);
    }
}

/// Booleans are written `true` and `false`, and only these read as
/// booleans; what is written reads back.
pub proof fn law_bool_text(s: Seq<char>, b: bool)
    ensures
        parse_bool_text(bool_text(b)) == Some(b),
        parse_bool_text(s) is Some <==> (s == "true"@ || s == "false"@),
        parse_bool_text(s) == Some(true) <==> s == "true"@,
{
    reveal_strlit("true");
    reveal_strlit("false");
    assert("true"@.len() == 4);
    assert("false"@.len() == 5);
}

proof fn lemma_decimal_digits(n: nat)
    ensures
        decimal(n).len() > 0,
        all_digits(decimal(n)),
        digits_value(decimal(n)) == n,
    decreases n,
{
    let d = decimal(n);
    if n < 10 {
        assert(d =~= seq![digit_char(n)]);
        vstd::utf8::char_u32_cast(digit_char(n), (n + 48) as u32);
        assert((digit_char(n) as u32) == n + 48);
        assert(d.drop_last().len() == 0);
        assert(digits_value(d.drop_last()) == 0);
    } else {
        let q = n / 10;
        let r = n % 10;
        lemma_decimal_digits(q);
        let p = decimal(q);
        assert(d == p.push(digit_char(r)));
        assert((digit_char(r) as u32) == r + 48);
        assert(d.drop_last() =~= p);
        assert forall|i: int| 0 <= i < d.len() implies is_digit(#[trigger] d[i]) by {
            if i < p.len() {
                assert(d[i] == p[i]);
            }
        }
        assert(q * 10 + r == n) by (nonlinear_arith)
            requires
                q == n / 10,
                r == n % 10,
        ;
    }
}

/// Numbers are written in decimal and read back: the decimal text of a
/// number that fits reads as that number.
pub proof fn law_decimal_reads_back(n: nat, max: nat)
    requires
        n <= max,
    ensures
        parse_unsigned(decimal(n), max) == Some(n),
{
    lemma_decimal_digits(n);
    let d = decimal(n);
    assert(is_digit(d[0]));
    assert(d[0] != '+');
}

} // verus!
