//! Character-level helpers for path and name strings: whitespace
//! trimming, path-component extraction, extension tests, joining, and
//! decimal parsing.  Every executable function is specified against a
//! small spec function over `Seq<char>`.

use vstd::prelude::*;

verus! {

use vstd::std_specs::iter::IteratorSpec;

// ---------------------------------------------------------------------------
// Whitespace (the Unicode `White_Space` set, as `str::trim` uses it)
// ---------------------------------------------------------------------------

/// A whitespace character: the Unicode `White_Space` property.
pub open spec fn is_space(c: char) -> bool {
    let u = c as u32;
    (9 <= u && u <= 13) || u == 32 || u == 0x85 || u == 0xA0 || u == 0x1680 || (0x2000 <= u
        && u <= 0x200A) || u == 0x2028 || u == 0x2029 || u == 0x202F || u == 0x205F || u == 0x3000
}

/// Runtime test for [`is_space`].
pub fn is_space_char(c: char) -> (b: bool)
    ensures
        b == is_space(c),
{
    let u = c as u32;
    (9 <= u && u <= 13) || u == 32 || u == 0x85 || u == 0xA0 || u == 0x1680 || (0x2000 <= u
        && u <= 0x200A) || u == 0x2028 || u == 0x2029 || u == 0x202F || u == 0x205F || u == 0x3000
}

/// `s` without its leading whitespace.
pub open spec fn trim_start_spec(s: Seq<char>) -> Seq<char>
    decreases s.len(),
{
    if s.len() > 0 && is_space(s[0]) {
        trim_start_spec(s.drop_first())
    } else {
        s
    }
}

/// `s` without its trailing whitespace.
pub open spec fn trim_end_spec(s: Seq<char>) -> Seq<char>
    decreases s.len(),
{
    if s.len() > 0 && is_space(s.last()) {
        trim_end_spec(s.drop_last())
    } else {
        s
    }
}

/// `s` without leading and trailing whitespace, as `str::trim` returns it.
pub open spec fn trimmed(s: Seq<char>) -> Seq<char> {
    trim_end_spec(trim_start_spec(s))
}

proof fn lemma_trim_start_range(s: Seq<char>, i: int)
    requires
        0 <= i <= s.len(),
        forall|j: int| 0 <= j < i ==> is_space(s[j]),
        i < s.len() ==> !is_space(s[i]),
    ensures
        trim_start_spec(s) =~= s.subrange(i, s.len() as int),
    decreases i,
{
    if i == 0 {
        assert(s.subrange(0, s.len() as int) =~= s);
    } else {
        assert(is_space(s[0]));
        lemma_trim_start_range(s.drop_first(), i - 1);
        assert(s.drop_first().subrange(i - 1, s.drop_first().len() as int) =~= s.subrange(
            i,
            s.len() as int,
        ));
    }
}

proof fn lemma_trim_end_range(s: Seq<char>, k: int)
    requires
        0 <= k <= s.len(),
        forall|j: int| k <= j < s.len() ==> is_space(s[j]),
        k > 0 ==> !is_space(s[k - 1]),
    ensures
        trim_end_spec(s) =~= s.subrange(0, k),
    decreases s.len() - k,
{
    if k == s.len() {
        assert(s.subrange(0, s.len() as int) =~= s);
    } else {
        assert(is_space(s.last()));
        lemma_trim_end_range(s.drop_last(), k);
        assert(s.drop_last().subrange(0, k) =~= s.subrange(0, k));
    }
}

// ---------------------------------------------------------------------------
// Bridging &str and Vec<char>
// ---------------------------------------------------------------------------

/// The characters of `s` as a vector, for random access.
pub fn chars_of(s: &str) -> (v: Vec<char>)
    ensures
        v@ == s@,
{
    broadcast use vstd::string::group_string_axioms;

    let mut it = s.chars();
    let mut v: Vec<char> = Vec::new();
    loop
        invariant
            it.obeys_prophetic_iter_laws(),
            it.decrease() is Some,
            v@ + it.remaining() == s@,
        ensures
            v@ == s@,
        decreases it.decrease()->0,
    {
        match it.next() {
            Some(c) => { v.push(c) },
            None => {
                assert(v@ =~= s@);
                break ;
            },
        }
    }
    v
}

/// Relies on `String::push`: appends one character at the end of the string.
#[verifier::external_body]
fn push_char(s: &mut String, c: char)
    ensures
        final(s)@ == old(s)@.push(c),
{
    s.push(c);
}

/// A `String` holding the characters `v[from..to]`.
pub fn string_range(v: &Vec<char>, from: usize, to: usize) -> (s: String)
    requires
        from <= to <= v.len(),
    ensures
        s@ == v@.subrange(from as int, to as int),
{
    let mut s = String::new();
    let mut i: usize = from;
    while i < to
        invariant
            from <= i <= to <= v.len(),
            s@ == v@.subrange(from as int, i as int),
        decreases to - i,
    {
        push_char(&mut s, v[i]);
        i = i + 1;
        assert(s@ =~= v@.subrange(from as int, i as int));
    }
    s
}

/// `s` with surrounding whitespace removed, as the original values read
/// from the store are cleaned before use.
pub fn trim_spaces(s: &str) -> (r: String)
    ensures
        r@ == trimmed(s@),
{
    let v = chars_of(s);
    let n = v.len();
    let mut start: usize = 0;
    while start < n && is_space_char(v[start])
        invariant
            0 <= start <= n == v.len(),
            forall|j: int| 0 <= j < start ==> is_space(v@[j]),
        decreases n - start,
    {
        start = start + 1;
    }
    let mut end: usize = n;
    while end > start && is_space_char(v[end - 1])
        invariant
            start <= end <= n == v.len(),
            forall|j: int| end <= j < n ==> is_space(v@[j]),
        decreases end,
    {
        end = end - 1;
    }
    proof {
        lemma_trim_start_range(v@, start as int);
        let t = v@.subrange(start as int, n as int);
        lemma_trim_end_range(t, end - start);
        assert(t.subrange(0, end - start) =~= v@.subrange(start as int, end as int));
    }
    string_range(&v, start, end)
}

// ---------------------------------------------------------------------------
// Path strings: separators, file names, extensions, joining
// ---------------------------------------------------------------------------

/// A Windows path separator (the primary one or the also-accepted `/`).
pub open spec fn is_sep(c: char) -> bool {
    c == '\\' || c == '/'
}

/// Runtime test for [`is_sep`].
pub fn is_sep_char(c: char) -> (b: bool)
    ensures
        b == is_sep(c),
{
    c == '\\' || c == '/'
}

/// The final component of a path string: everything after the last
/// separator (empty when the path ends in a separator).
pub open spec fn file_name_spec(s: Seq<char>) -> Seq<char>
    decreases s.len(),
{
    if s.len() == 0 {
        s
    } else if is_sep(s.last()) {
        Seq::empty()
    } else {
        file_name_spec(s.drop_last()).push(s.last())
    }
}

proof fn lemma_file_name_range(s: Seq<char>, i: int)
    requires
        0 <= i <= s.len(),
        forall|j: int| i <= j < s.len() ==> !is_sep(s[j]),
        i > 0 ==> is_sep(s[i - 1]),
    ensures
        file_name_spec(s) =~= s.subrange(i, s.len() as int),
    decreases s.len() - i,
{
    if i == s.len() {
        if s.len() > 0 {
            assert(is_sep(s.last()));
        }
    } else {
        assert(!is_sep(s.last()));
        lemma_file_name_range(s.drop_last(), i);
        assert(s.drop_last().subrange(i, s.drop_last().len() as int) =~= s.subrange(
            i,
            s.len() as int - 1,
        ));
    }
}

/// The start of the final path component of `v`: the index after the
/// last separator, or `0` when there is none.
pub fn file_name_start(v: &Vec<char>) -> (i: usize)
    ensures
        i <= v.len(),
        forall|j: int| i <= j < v@.len() ==> !is_sep(v@[j]),
        i > 0 ==> is_sep(v@[i - 1]),
        file_name_spec(v@) == v@.subrange(i as int, v@.len() as int),
{
    let mut i: usize = v.len();
    while i > 0 && !is_sep_char(v[i - 1])
        invariant
            i <= v.len(),
            forall|j: int| i <= j < v@.len() ==> !is_sep(v@[j]),
        decreases i,
    {
        i = i - 1;
    }
    proof {
        lemma_file_name_range(v@, i as int);
    }
    i
}

/// The extension of a path string: the part of its file name after the
/// last dot, provided that dot is neither the name's first character
/// (a dot-file has no extension) nor absent.
pub open spec fn name_ext(n: Seq<char>) -> Option<Seq<char>>
    decreases n.len(),
{
    if n.len() <= 1 {
        None
    } else if n.last() == '.' {
        Some(Seq::empty())
    } else {
        match name_ext(n.drop_last()) {
            Some(e) => Some(e.push(n.last())),
            None => None,
        }
    }
}

/// The extension of the path string `s`, by [`file_name_spec`] and [`name_ext`].
pub open spec fn ext_spec(s: Seq<char>) -> Option<Seq<char>> {
    name_ext(file_name_spec(s))
}

proof fn lemma_name_ext_range(n: Seq<char>, d: int)
    requires
        0 < d < n.len(),
        n[d] == '.',
        forall|j: int| d < j < n.len() ==> n[j] != '.',
    ensures
        name_ext(n) matches Some(e) && e =~= n.subrange(d + 1, n.len() as int),
    decreases n.len() - d,
{
    if d == n.len() - 1 {
        assert(n.last() == '.');
    } else {
        assert(n.last() != '.');
        lemma_name_ext_range(n.drop_last(), d);
        assert(n.drop_last().subrange(d + 1, n.drop_last().len() as int) =~= n.subrange(
            d + 1,
            n.len() as int - 1,
        ));
    }
}

proof fn lemma_name_ext_none(n: Seq<char>)
    requires
        forall|j: int| 0 < j < n.len() ==> n[j] != '.',
    ensures
        name_ext(n) is None,
    decreases n.len(),
{
    if n.len() > 1 {
        assert(n.last() != '.');
        lemma_name_ext_none(n.drop_last());
    }
}

/// Whether `c` equals the ASCII lowercase letter `l`, ignoring ASCII case.
pub open spec fn eq_lower(c: char, l: char) -> bool {
    c == l || c as u32 + 32 == l as u32
}

/// Runtime test for [`eq_lower`].
pub fn eq_lower_char(c: char, l: char) -> (b: bool)
    ensures
        b == eq_lower(c, l),
{
    c == l || (c as u32) + 32 == l as u32
}

/// Whether the path string `s` has extension `exe`, ignoring ASCII case.
pub open spec fn has_exe_ext(s: Seq<char>) -> bool {
    match ext_spec(s) {
        Some(e) => e.len() == 3 && eq_lower(e[0], 'e') && eq_lower(e[1], 'x') && eq_lower(
            e[2],
            'e',
        ),
        None => false,
    }
}

/// Whether the path string `s` has extension exactly `lnk` (the
/// shortcut-file filter is case-sensitive).
pub open spec fn has_lnk_ext(s: Seq<char>) -> bool {
    match ext_spec(s) {
        Some(e) => e =~= seq!['l', 'n', 'k'],
        None => false,
    }
}

/// The extension of `v` as a range of indices into `v`, if any: finds
/// the last dot of the final path component.
fn ext_range(v: &Vec<char>) -> (r: Option<usize>)
    ensures
        match r {
            Some(d) => 0 < d <= v@.len() && (ext_spec(v@) matches Some(e) && e == v@.subrange(
                d as int,
                v@.len() as int,
            )),
            None => ext_spec(v@) is None,
        },
{
    let start = file_name_start(v);
    let n = v.len();
    let mut i: usize = n;
    while i > start && v[i - 1] != '.'
        invariant
            start <= i <= n == v.len(),
            forall|j: int| i <= j < n ==> v@[j] != '.',
        decreases i,
    {
        i = i - 1;
    }
    proof {
        assert(file_name_spec(v@) == v@.subrange(start as int, n as int));
    }
    if i - start >= 2 {
        proof {
            let name = v@.subrange(start as int, n as int);
            lemma_name_ext_range(name, i - 1 - start);
            assert(name.subrange(i - start, name.len() as int) =~= v@.subrange(i as int, n as int));
        }
        Some(i)
    } else {
        proof {
            let name = v@.subrange(start as int, n as int);
            if i == start + 1 {
                assert(name[0] == '.');
                assert(forall|j: int| 0 < j < name.len() ==> name[j] != '.');
                lemma_name_ext_none(name);
            } else {
                assert(forall|j: int| 0 < j < name.len() ==> name[j] != '.');
                lemma_name_ext_none(name);
            }
        }
        None
    }
}

/// Runtime test for [`has_exe_ext`].
pub fn path_has_exe_ext(v: &Vec<char>) -> (b: bool)
    ensures
        b == has_exe_ext(v@),
{
    match ext_range(v) {
        Some(d) => {
            if v.len() - d == 3 {
                eq_lower_char(v[d], 'e') && eq_lower_char(v[d + 1], 'x') && eq_lower_char(
                    v[d + 2],
                    'e',
                )
            } else {
                false
            }
        },
        None => false,
    }
}

/// Runtime test for [`has_lnk_ext`].
pub fn path_has_lnk_ext(v: &Vec<char>) -> (b: bool)
    ensures
        b == has_lnk_ext(v@),
{
    match ext_range(v) {
        Some(d) => v.len() - d == 3 && v[d] == 'l' && v[d + 1] == 'n' && v[d + 2] == 'k',
        None => false,
    }
}

/// `base` with the relative file name `name` appended, inserting the
/// primary separator unless `base` already ends in one.
pub open spec fn joined(base: Seq<char>, name: Seq<char>) -> Seq<char> {
    if base.len() > 0 && is_sep(base.last()) {
        base + name
    } else {
        base + seq!['\\'] + name
    }
}

/// Runtime counterpart of [`joined`].
pub fn join_path(base: &str, name: &str) -> (r: String)
    ensures
        r@ == joined(base@, name@),
{
    let v = chars_of(base);
    let needs_sep = if v.len() > 0 {
        !is_sep_char(v[v.len() - 1])
    } else {
        true
    };
    let mut r = String::from_str(base);
    if needs_sep {
        r.append("\\");
        proof {
            reveal_strlit("\\");
            assert("\\"@ =~= seq!['\\']);
        }
    }
    r.append(name);
    proof {
        if v.len() > 0 && is_sep(v@.last()) {
            assert(r@ =~= joined(base@, name@));
        } else {
            assert(r@ =~= joined(base@, name@));
        }
    }
    r
}

// ---------------------------------------------------------------------------
// Decimal parsing, as `str::parse::<u32>` accepts it
// ---------------------------------------------------------------------------

/// An ASCII decimal digit.
pub open spec fn is_digit(c: char) -> bool {
    48 <= c as u32 && c as u32 <= 57
}

/// The numeric value of the digit `c`.
pub open spec fn digit_val(c: char) -> nat
    recommends
        is_digit(c),
{
    (c as u32 - 48) as nat
}

/// Whether every character of `s` is a decimal digit.
pub open spec fn all_digits(s: Seq<char>) -> bool {
    forall|i: int| 0 <= i < s.len() ==> is_digit(s[i])
}

/// The value of the digit string `s`, most significant digit first.
pub open spec fn numeral_val(s: Seq<char>) -> nat
    decreases s.len(),
{
    if s.len() == 0 {
        0
    } else {
        numeral_val(s.drop_last()) * 10 + digit_val(s.last())
    }
}

/// The digit part of a decimal numeral: `s` with one optional leading
/// plus sign removed (`str::parse::<u32>` accepts the sign).
pub open spec fn numeral_digits(s: Seq<char>) -> Seq<char> {
    if s.len() > 0 && s[0] == '+' {
        s.drop_first()
    } else {
        s
    }
}

/// Whether `s` parses as a `u32`: an optional plus sign, then at least
/// one digit, and a value that fits.
pub open spec fn parses_as_u32(s: Seq<char>) -> bool {
    let d = numeral_digits(s);
    d.len() > 0 && all_digits(d) && numeral_val(d) <= u32::MAX
}

/// The parsed value of `s`.
pub open spec fn parsed_u32(s: Seq<char>) -> nat {
    numeral_val(numeral_digits(s))
}

proof fn lemma_numeral_push(s: Seq<char>, c: char)
    ensures
        numeral_val(s.push(c)) == numeral_val(s) * 10 + digit_val(c),
{
    assert(s.push(c).drop_last() =~= s);
    assert(s.push(c).last() == c);
}

/// Parses `s` as `str::parse::<u32>` would: `Some` exactly on an
/// optional plus sign followed by digits whose value fits in a `u32`.
pub fn parse_u32(s: &str) -> (r: Option<u32>)
    ensures
        match r {
            Some(n) => parses_as_u32(s@) && n == parsed_u32(s@),
            None => !parses_as_u32(s@),
        },
{
    let v = chars_of(s);
    let n = v.len();
    let start: usize = if n > 0 && v[0] == '+' {
        1
    } else {
        0
    };
    proof {
        if start == 1 {
            assert(numeral_digits(v@) =~= v@.subrange(1, n as int));
        } else {
            assert(numeral_digits(v@) =~= v@.subrange(0, n as int));
            assert(v@.subrange(0, n as int) =~= v@);
        }
    }
    if n == start {
        return None;
    }
    let ghost d = numeral_digits(v@);
    let mut acc: u64 = 0;
    let mut too_big: bool = false;
    let mut i: usize = start;
    while i < n
        invariant
            start <= i <= n == v.len(),
            v@ == s@,
            d == numeral_digits(v@),
            d =~= v@.subrange(start as int, n as int),
            forall|j: int| start <= j < i ==> is_digit(v@[j]),
            !too_big ==> acc == numeral_val(d.take(i - start)) && acc <= u32::MAX,
            too_big ==> numeral_val(d.take(i - start)) > u32::MAX,
        decreases n - i,
    {
        let c = v[i];
        let u = c as u32;
        if !(48 <= u && u <= 57) {
            proof {
                assert(c == d[i - start]);
                assert(!all_digits(d)) by {
                    assert(!is_digit(d[i - start]));
                }
            }
            return None;
        }
        let dv: u64 = (u - 48) as u64;
        proof {
            assert(d.take(i + 1 - start) =~= d.take(i - start).push(d[i - start]));
            lemma_numeral_push(d.take(i - start), d[i - start]);
        }
        if too_big {
            proof {
                assert(numeral_val(d.take(i + 1 - start)) > u32::MAX);
            }
        } else {
            let next: u64 = acc * 10 + dv;
            if next > u32::MAX as u64 {
                too_big = true;
            } else {
                acc = next;
            }
        }
        i = i + 1;
    }
    proof {
        assert(d.take(n - start) =~= d);
    }
    if too_big {
        None
    } else {
        Some(acc as u32)
    }
}

} // verus!
