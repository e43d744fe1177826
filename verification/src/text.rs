//! Character-level string operations shared by the rest of the crate.
use vstd::prelude::*;

verus! {

/// Every character of `s`, in order.
pub(crate) fn to_chars(s: &str) -> (res: Vec<char>)
    ensures
        res@ == s@,
{
    broadcast use vstd::string::group_string_axioms;

    let mut out: Vec<char> = Vec::new();
    for c in it: s.chars()
        invariant
            it.seq() == s@,
            out@ == s@.take(it.index() as int),
    {
        assert(s@.take(it.index() + 1) =~= s@.take(it.index() as int).push(c));
        out.push(c);
    }
    assert(s@.take(s@.len() as int) =~= s@);
    out
}

/// The string made of the characters `cs`, in order.
///
/// Trusted: collecting an iterator of `char` into a `String` appends the
/// characters in order (std documentation of `FromIterator<char> for String`).
#[verifier::external_body]
pub(crate) fn from_chars(cs: &[char]) -> (res: String)
    ensures
        res@ == cs@,
{
    cs.iter().collect()
}

/// The Unicode full lowercase mapping of a character sequence.
///
/// Named result of `str::to_lowercase`: the mapping is defined by the
/// Unicode character database (including context-dependent cases such as
/// final sigma) and is not restated here.
pub uninterp spec fn unicode_lowercase(s: Seq<char>) -> Seq<char>;

/// Whether `c` is an ASCII uppercase letter.
pub open spec fn is_ascii_upper(c: char) -> bool {
    ('A' as int) <= (c as int) <= ('Z' as int)
}

/// The ASCII lowercase of a character: `A`-`Z` become `a`-`z`, all else stays.
pub open spec fn ascii_lower_char(c: char) -> char {
    if is_ascii_upper(c) {
        ((c as int) + 32) as char
    } else {
        c
    }
}

/// The ASCII lowercase of each character.
pub open spec fn ascii_lower(s: Seq<char>) -> Seq<char> {
    s.map_values(|c: char| ascii_lower_char(c))
}

/// Whether `s` holds no ASCII uppercase letter.
pub open spec fn no_ascii_upper(s: Seq<char>) -> bool {
    forall|i: int| 0 <= i < s.len() ==> !is_ascii_upper(#[trigger] s[i])
}

/// Whether every character of `s` is ASCII.
pub open spec fn all_ascii(s: Seq<char>) -> bool {
    forall|i: int| 0 <= i < s.len() ==> (#[trigger] s[i] as int) < 128
}

/// Trusted: `str::to_lowercase` returns the lowercase equivalent of the
/// string, a function of its characters alone (std documentation). In the
/// Unicode lowercase mapping (Unicode Standard, section 3.13, Default Case
/// Conversion), ASCII letters map to their ASCII lowercase and other ASCII
/// characters to themselves, and no character maps to an ASCII uppercase
/// letter. Text that is already lowercase maps to itself, so lowercasing
/// twice is lowercasing once. `:` and `/` map to themselves, no other
/// character's mapping holds either, and no character maps to nothing; so
/// `://` occurs in the result only where it occurs in the argument.
pub assume_specification[ str::to_lowercase ](s: &str) -> (res: String)
    ensures
        res@ == unicode_lowercase(s@),
        all_ascii(s@) ==> res@ == ascii_lower(s@),
        no_ascii_upper(res@),
        unicode_lowercase(res@) == res@,
        free_of(s@, "://"@) ==> free_of(res@, "://"@),
;

/// The Unicode `White_Space` property (PropList.txt): the characters that
/// `char::is_whitespace`, and so `str::trim`, treat as whitespace.
pub open spec fn unicode_white_space(c: char) -> bool {
    let v = c as int;
    ||| 0x09 <= v <= 0x0D
    ||| v == 0x20
    ||| v == 0x85
    ||| v == 0xA0
    ||| v == 0x1680
    ||| 0x2000 <= v <= 0x200A
    ||| v == 0x2028
    ||| v == 0x2029
    ||| v == 0x202F
    ||| v == 0x205F
    ||| v == 0x3000
}

/// `s` without its leading whitespace.
pub open spec fn trim_start(s: Seq<char>) -> Seq<char>
    decreases s.len(),
{
    if s.len() > 0 && unicode_white_space(s[0]) {
        trim_start(s.drop_first())
    } else {
        s
    }
}

/// `s` without its trailing whitespace.
pub open spec fn trim_end(s: Seq<char>) -> Seq<char>
    decreases s.len(),
{
    if s.len() > 0 && unicode_white_space(s.last()) {
        trim_end(s.drop_last())
    } else {
        s
    }
}

/// `s` without leading and trailing whitespace.
pub open spec fn spec_trim(s: Seq<char>) -> Seq<char> {
    trim_end(trim_start(s))
}

/// Trusted: `str::trim` returns the string with leading and trailing
/// whitespace removed, whitespace being the Unicode `White_Space` property
/// (std documentation).
pub assume_specification[ str::trim ](s: &str) -> (res: &str)
    ensures
        res@ == spec_trim(s@),
;

/// The Unicode numeric test of `char::is_numeric` (general categories
/// `Nd`, `Nl`, `No`).
pub uninterp spec fn unicode_numeric(c: char) -> bool;

/// Trusted: `char::is_numeric` tests the Unicode numeric general categories
/// (std documentation and its examples). The ASCII digits belong to `Nd`;
/// the zero-width joiner (`Cf`), the emoji variation selector (`Mn`) and the
/// emoticons block U+1F600-U+1F64F (`So`) belong to none of them.
pub assume_specification[ char::is_numeric ](c: char) -> (res: bool)
    ensures
        res == unicode_numeric(c),
        ('0' <= c && c <= '9') ==> res,
        (c == '\u{200D}' || c == '\u{FE0F}' || (0x1F600 <= (c as int) <= 0x1F64F)) ==> !res,
;

/// Whether `prefix` is a prefix of `s`.
pub open spec fn has_prefix(s: Seq<char>, prefix: Seq<char>) -> bool {
    prefix.len() <= s.len() && s.subrange(0, prefix.len() as int) == prefix
}

/// What `str::strip_prefix` gives back: the rest of `s` after `prefix`, if
/// `s` starts with it.
pub open spec fn spec_strip_prefix(s: Seq<char>, prefix: Seq<char>) -> Option<Seq<char>> {
    if has_prefix(s, prefix) {
        Some(s.subrange(prefix.len() as int, s.len() as int))
    } else {
        None
    }
}

/// What `str::strip_suffix` gives back: `s` without `suffix`, if `s` ends
/// with it.
pub open spec fn spec_strip_suffix(s: Seq<char>, suffix: Seq<char>) -> Option<Seq<char>> {
    if suffix.len() <= s.len() && s.subrange(s.len() - suffix.len(), s.len() as int) == suffix {
        Some(s.subrange(0, s.len() - suffix.len()))
    } else {
        None
    }
}

/// Whether `s` holds `pat` starting at index `k`.
pub open spec fn occurs_at(s: Seq<char>, pat: Seq<char>, k: int) -> bool {
    0 <= k && k + pat.len() <= s.len() && s.subrange(k, k + pat.len()) == pat
}

/// Whether `pat` occurs nowhere in `s`.
#[verifier::opaque]
pub open spec fn free_of(s: Seq<char>, pat: Seq<char>) -> bool {
    forall|k: int| !occurs_at(s, pat, k)
}

/// Whether `pat` occurs at some index below `k`.
pub open spec fn occurs_before(s: Seq<char>, pat: Seq<char>, k: int) -> bool {
    exists|j: int| 0 <= j < k && occurs_at(s, pat, j)
}

/// The index of the first occurrence of `pat` in `s`, if any.
pub open spec fn first_occurrence(s: Seq<char>, pat: Seq<char>) -> Option<int> {
    if exists|k: int| occurs_at(s, pat, k) {
        Some(choose|k: int| occurs_at(s, pat, k) && !occurs_before(s, pat, k))
    } else {
        None
    }
}

/// Some occurrence of `pat` at or below `k` is the first one.
proof fn lemma_least_occurrence(s: Seq<char>, pat: Seq<char>, k: int)
    requires
        occurs_at(s, pat, k),
    ensures
        exists|m: int| occurs_at(s, pat, m) && !occurs_before(s, pat, m),
    decreases k,
{
    if occurs_before(s, pat, k) {
        let j = choose|j: int| 0 <= j < k && occurs_at(s, pat, j);
        lemma_least_occurrence(s, pat, j);
    }
}

/// `first_occurrence` gives an occurrence with none before it, and `None`
/// only when there is no occurrence at all.
pub proof fn lemma_first_occurrence(s: Seq<char>, pat: Seq<char>)
    ensures
        match first_occurrence(s, pat) {
            Some(k) => occurs_at(s, pat, k) && !occurs_before(s, pat, k),
            None => forall|k: int| !occurs_at(s, pat, k),
        },
{
    if exists|k: int| occurs_at(s, pat, k) {
        let k = choose|k: int| occurs_at(s, pat, k);
        lemma_least_occurrence(s, pat, k);
    }
}

/// Whether `a` holds the characters of `b` starting at index `i`.
fn same_at(a: &Vec<char>, i: usize, b: &Vec<char>) -> (res: bool)
    requires
        i + b.len() <= a.len(),
    ensures
        res == (a@.subrange(i as int, i + b.len()) == b@),
{
    let mut k: usize = 0;
    while k < b.len()
        invariant
            k <= b.len(),
            i + b.len() <= a.len(),
            forall|j: int| 0 <= j < k ==> a@[i + j] == b@[j],
        decreases b.len() - k,
    {
        if a[i + k] != b[k] {
            assert(a@.subrange(i as int, i + b.len())[k as int] != b@[k as int]);
            return false;
        }
        k = k + 1;
    }
    assert(a@.subrange(i as int, i + b.len()) =~= b@);
    true
}

/// The index of the first occurrence of `pat` in `s`.
pub fn find(s: &str, pat: &str) -> (res: Option<usize>)
    ensures
        match first_occurrence(s@, pat@) {
            Some(k) => res == Some(k as usize),
            None => res is None,
        },
        res matches Some(k) ==> occurs_at(s@, pat@, k as int),
{
    let cs = to_chars(s);
    let ps = to_chars(pat);
    if ps.len() > cs.len() {
        assert forall|k: int| !occurs_at(s@, pat@, k) by {}
        return None;
    }
    if ps.len() == 0 {
        assert(occurs_at(s@, pat@, 0)) by {
            assert(s@.subrange(0, 0) =~= pat@);
        }
        assert(!occurs_before(s@, pat@, 0));
        return Some(0);
    }
    let last = cs.len() - ps.len();
    let mut i: usize = 0;
    while i <= last
        invariant
            cs@ == s@,
            ps@ == pat@,
            last == cs.len() - ps.len(),
            last < cs.len(),
            i <= last + 1,
            !occurs_before(s@, pat@, i as int),
        decreases last + 1 - i,
    {
        if same_at(&cs, i, &ps) {
            proof {
                assert(occurs_at(s@, pat@, i as int));
                let c = choose|k: int| occurs_at(s@, pat@, k) && !occurs_before(s@, pat@, k);
                if c < i {
                    assert(occurs_before(s@, pat@, i as int));
                } else if c > i {
                    assert(occurs_before(s@, pat@, c));
                }
            }
            return Some(i);
        }
        proof {
            assert forall|j: int| 0 <= j < i + 1 implies !occurs_at(s@, pat@, j) by {
                if j < i {
                    if occurs_at(s@, pat@, j) {
                        assert(occurs_before(s@, pat@, i as int));
                    }
                }
            }
        }
        i = i + 1;
    }
    proof {
        assert forall|k: int| !occurs_at(s@, pat@, k) by {
            if occurs_at(s@, pat@, k) {
                assert(occurs_before(s@, pat@, i as int));
            }
        }
    }
    None
}

/// The string `s` with `prefix` taken off its front, if it starts with it.
pub fn strip_prefix(s: &str, prefix: &str) -> (res: Option<String>)
    ensures
        match spec_strip_prefix(s@, prefix@) {
            Some(rest) => res matches Some(r) && r@ == rest,
            None => res is None,
        },
{
    let cs = to_chars(s);
    let ps = to_chars(prefix);
    if ps.len() > cs.len() {
        return None;
    }
    if same_at(&cs, 0, &ps) {
        let rest = slice_string(&cs, ps.len(), cs.len());
        Some(rest)
    } else {
        None
    }
}

/// The string `s` with `suffix` taken off its end, if it ends with it.
pub fn strip_suffix(s: &str, suffix: &str) -> (res: Option<String>)
    ensures
        match spec_strip_suffix(s@, suffix@) {
            Some(rest) => res matches Some(r) && r@ == rest,
            None => res is None,
        },
{
    let cs = to_chars(s);
    let ps = to_chars(suffix);
    if ps.len() > cs.len() {
        return None;
    }
    let start = cs.len() - ps.len();
    if same_at(&cs, start, &ps) {
        Some(slice_string(&cs, 0, start))
    } else {
        None
    }
}

/// The characters of `cs` from `from` up to `to`, as a string.
pub fn slice_string(cs: &Vec<char>, from: usize, to: usize) -> (res: String)
    requires
        from <= to <= cs.len(),
    ensures
        res@ == cs@.subrange(from as int, to as int),
{
    let mut out: Vec<char> = Vec::new();
    let mut i: usize = from;
    while i < to
        invariant
            from <= i <= to <= cs.len(),
            out@ == cs@.subrange(from as int, i as int),
        decreases to - i,
    {
        out.push(cs[i]);
        i = i + 1;
        assert(out@ =~= cs@.subrange(from as int, i as int));
    }
    from_chars(out.as_slice())
}

/// `a` followed by `b`.
pub fn concat(a: &str, b: &str) -> (res: String)
    ensures
        res@ == a@ + b@,
{
    let mut out = String::from_str(a);
    out.append(b);
    out
}

/// The character of a decimal digit.
pub open spec fn digit_char(d: int) -> char {
    (('0' as int) + d) as char
}

/// The decimal notation of a natural number, without leading zeros.
pub open spec fn decimal(n: nat) -> Seq<char>
    decreases n,
{
    if n < 10 {
        seq![digit_char(n as int)]
    } else {
        decimal(n / 10).push(digit_char((n % 10) as int))
    }
}

/// The decimal notation of `n`.
pub fn decimal_string(n: u64) -> (res: String)
    ensures
        res@ == decimal(n as nat),
{
    let mut reversed: Vec<char> = Vec::new();
    let mut m: u64 = n;
    while m >= 10
        invariant
            decimal(n as nat) == decimal(m as nat) + reversed@.reverse(),
        decreases m,
    {
        let d = ((m % 10) as u32 + ('0' as u32)) as u8 as char;
        proof {
            assert(d == digit_char((m % 10) as int));
            assert(reversed@.push(d).reverse() =~= seq![d] + reversed@.reverse());
            assert(decimal(m as nat) == decimal((m / 10) as nat).push(d));
            assert(decimal((m / 10) as nat).push(d) + reversed@.reverse() =~= decimal((m / 10) as nat)
                + reversed@.push(d).reverse());
        }
        reversed.push(d);
        m = m / 10;
    }
    let last = (m as u32 + ('0' as u32)) as u8 as char;
    proof {
        assert(last == digit_char(m as int));
        assert(reversed@.push(last).reverse() =~= seq![last] + reversed@.reverse());
    }
    reversed.push(last);
    let mut out: Vec<char> = Vec::new();
    let mut i: usize = reversed.len();
    while i > 0
        invariant
            i <= reversed.len(),
            out@ == reversed@.subrange(i as int, reversed@.len() as int).reverse(),
        decreases i,
    {
        i = i - 1;
        proof {
            assert(reversed@.subrange(i as int, reversed@.len() as int) =~= seq![reversed@[i as int]]
                + reversed@.subrange(i + 1, reversed@.len() as int));
            assert((seq![reversed@[i as int]] + reversed@.subrange(i + 1, reversed@.len() as int)).reverse()
                =~= reversed@.subrange(i + 1, reversed@.len() as int).reverse().push(reversed@[i as int]));
        }
        out.push(reversed[i]);
    }
    assert(reversed@.subrange(0, reversed@.len() as int) == reversed@);
    from_chars(out.as_slice())
}

} // verus!
