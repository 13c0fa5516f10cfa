use vstd::prelude::*;

verus! {

/// Appends `ch` at the end of the string (`String::push`).
pub assume_specification[ String::push ](s: &mut String, ch: char)
    ensures
        final(s)@ == old(s)@.push(ch),
;

/// Removes and returns the last character, if any (`String::pop`).
pub assume_specification[ String::pop ](s: &mut String) -> (r: Option<char>)
    ensures
        old(s)@.len() == 0 ==> r is None && final(s)@ == old(s)@,
        old(s)@.len() > 0 ==> r == Some(old(s)@.last()) && final(s)@ == old(s)@.drop_last(),
;

/// Names what `str::to_lowercase` returns for the characters of a string.
pub uninterp spec fn lowercase(s: Seq<char>) -> Seq<char>;

/// Every character of `s` is ASCII.
pub open spec fn all_ascii(s: Seq<char>) -> bool {
    forall|i: int| 0 <= i < s.len() ==> (#[trigger] s[i] as u32) < 128
}

/// `c` with `A`..=`Z` mapped to `a`..=`z`.
pub open spec fn ascii_lower_char(c: char) -> char {
    if 'A' <= c <= 'Z' {
        ((c as u32) + 32) as char
    } else {
        c
    }
}

pub open spec fn ascii_lower(s: Seq<char>) -> Seq<char> {
    Seq::new(s.len(), |i: int| ascii_lower_char(s[i]))
}

/// Calls `str::to_lowercase`. The contract ties the result to the name
/// `lowercase` of the argument; of the Unicode case mapping it states only
/// that an all-ASCII string has its letters `A`..=`Z` lowered and keeps every
/// other character.
#[verifier::external_body]
pub(crate) fn to_lowercase(s: &str) -> (r: String)
    ensures
        r@ == lowercase(s@),
        all_ascii(s@) ==> r@ == ascii_lower(s@),
{
    s.to_lowercase()
}

/// The characters of `s`, in order.
pub fn chars_of(s: &str) -> (v: Vec<char>)
    ensures
        v@ == s@,
{
    let mut v: Vec<char> = Vec::new();
    for c in it: s.chars()
        invariant
            v@ == it.seq().take(it.index() as int),
            it.seq() == s@,
    {
        v.push(c);
    }
    v
}

/// A string holding exactly the characters of `v`.
pub fn string_of(v: &[char]) -> (s: String)
    ensures
        s@ == v@,
{
    let mut s = String::new();
    let mut i: usize = 0;
    while i < v.len()
        invariant
            i <= v@.len(),
            s@ == v@.take(i as int),
        decreases v@.len() - i,
    {
        s.push(v[i]);
        i = i + 1;
        assert(s@ == v@.take(i as int));
    }
    assert(v@.take(v@.len() as int) == v@);
    s
}

/// The characters `v[from..to]`.
pub fn copy_range(v: &[char], from: usize, to: usize) -> (r: Vec<char>)
    requires
        from <= to <= v@.len(),
    ensures
        r@ == v@.subrange(from as int, to as int),
{
    let mut r: Vec<char> = Vec::new();
    let mut i = from;
    while i < to
        invariant
            from <= i <= to <= v@.len(),
            r@ == v@.subrange(from as int, i as int),
        decreases to - i,
    {
        r.push(v[i]);
        i = i + 1;
        assert(r@ == v@.subrange(from as int, i as int));
    }
    r
}

/// Appends `v[from..to]` to `out`.
pub fn append_range(out: &mut Vec<char>, v: &[char], from: usize, to: usize)
    requires
        from <= to <= v@.len(),
    ensures
        final(out)@ == old(out)@ + v@.subrange(from as int, to as int),
{
    let ghost start = out@;
    let mut i = from;
    while i < to
        invariant
            from <= i <= to <= v@.len(),
            out@ == start + v@.subrange(from as int, i as int),
        decreases to - i,
    {
        out.push(v[i]);
        i = i + 1;
        assert(out@ == start + v@.subrange(from as int, i as int));
    }
}

/// Appends all characters of `s` to `out`.
pub fn append_str(out: &mut Vec<char>, s: &str)
    ensures
        final(out)@ == old(out)@ + s@,
{
    let cs = chars_of(s);
    append_range(out, &cs, 0, cs.len());
    assert(cs@.subrange(0, cs@.len() as int) == cs@);
}

/// Whether the characters of `a` are those of `b`.
pub fn chars_eq(a: &[char], b: &str) -> (r: bool)
    ensures
        r == (a@ == b@),
{
    let bs = chars_of(b);
    if a.len() != bs.len() {
        return false;
    }
    let mut i: usize = 0;
    while i < a.len()
        invariant
            bs@ == b@,
            a@.len() == bs@.len(),
            i <= a@.len(),
            forall|j: int| 0 <= j < i ==> a@[j] == bs@[j],
        decreases a@.len() - i,
    {
        if a[i] != bs[i] {
            assert(a@[i as int] != b@[i as int]);
            return false;
        }
        i = i + 1;
    }
    assert(a@ == bs@);
    true
}

// ── Whitespace and trimming ─────────────────────────────────────────────

/// Unicode `White_Space`, the whitespace of `char::is_whitespace` and `str::trim`.
pub open spec fn is_ws(c: char) -> bool {
    let u = c as u32;
    (0x9 <= u <= 0xD) || u == 0x20 || u == 0x85 || u == 0xA0 || u == 0x1680 || (0x2000 <= u
        <= 0x200A) || u == 0x2028 || u == 0x2029 || u == 0x202F || u == 0x205F || u == 0x3000
}

pub fn is_ws_char(c: char) -> (r: bool)
    ensures
        r == is_ws(c),
{
    let u = c as u32;
    (0x9 <= u && u <= 0xD) || u == 0x20 || u == 0x85 || u == 0xA0 || u == 0x1680 || (0x2000 <= u
        && u <= 0x200A) || u == 0x2028 || u == 0x2029 || u == 0x202F || u == 0x205F || u == 0x3000
}

pub open spec fn trim_start(s: Seq<char>) -> Seq<char>
    decreases s.len(),
{
    if s.len() > 0 && is_ws(s[0]) {
        trim_start(s.drop_first())
    } else {
        s
    }
}

pub open spec fn trim_end(s: Seq<char>) -> Seq<char>
    decreases s.len(),
{
    if s.len() > 0 && is_ws(s.last()) {
        trim_end(s.drop_last())
    } else {
        s
    }
}

/// `s` without leading and trailing whitespace, as `str::trim` gives it.
pub open spec fn trim(s: Seq<char>) -> Seq<char> {
    trim_end(trim_start(s))
}

/// Trimming the start drops a prefix and leaves no leading whitespace.
pub proof fn lemma_trim_start_shape(s: Seq<char>)
    ensures
        exists|a: int| 0 <= a <= s.len() && trim_start(s) == s.subrange(a, s.len() as int),
        trim_start(s).len() > 0 ==> !is_ws(trim_start(s)[0]),
    decreases s.len(),
{
    if s.len() > 0 && is_ws(s[0]) {
        lemma_trim_start_shape(s.drop_first());
        let a = choose|a: int| 0 <= a <= s.drop_first().len() && trim_start(s.drop_first()) == s.drop_first().subrange(
            a,
            s.drop_first().len() as int,
        );
        assert(s.drop_first().subrange(a, s.drop_first().len() as int) == s.subrange(a + 1, s.len() as int));
    } else {
        assert(s.subrange(0, s.len() as int) == s);
    }
}

/// Trimming the end drops a suffix and leaves no trailing whitespace.
pub proof fn lemma_trim_end_shape(s: Seq<char>)
    ensures
        exists|b: int| 0 <= b <= s.len() && trim_end(s) == s.subrange(0, b),
        trim_end(s).len() > 0 ==> !is_ws(trim_end(s).last()),
    decreases s.len(),
{
    if s.len() > 0 && is_ws(s.last()) {
        lemma_trim_end_shape(s.drop_last());
        let b = choose|b: int| 0 <= b <= s.drop_last().len() && trim_end(s.drop_last()) == s.drop_last().subrange(0, b);
        assert(s.drop_last().subrange(0, b) == s.subrange(0, b));
    } else {
        assert(s.subrange(0, s.len() as int) == s);
    }
}

/// A trimmed text is a stretch of the original with no whitespace at either
/// end, and trimming it again changes nothing.
pub proof fn lemma_trim_shape(s: Seq<char>)
    ensures
        exists|a: int, b: int| 0 <= a <= b <= s.len() && trim(s) == s.subrange(a, b),
        trim(s).len() > 0 ==> !is_ws(trim(s)[0]) && !is_ws(trim(s).last()),
        trim(trim(s)) == trim(s),
{
    let u = trim_start(s);
    lemma_trim_start_shape(s);
    lemma_trim_end_shape(u);
    let a = choose|a: int| 0 <= a <= s.len() && u == s.subrange(a, s.len() as int);
    let b = choose|b: int| 0 <= b <= u.len() && trim_end(u) == u.subrange(0, b);
    let t = trim(s);
    assert(t == s.subrange(a, a + b));
    if t.len() > 0 {
        assert(t[0] == u[0]);
    }
    assert(trim_start(t) == t);
    assert(trim_end(t) == t);
}

/// The bounds `(a, b)` with `s[a..b] == trim(s)`.
pub fn trim_bounds(s: &[char]) -> (r: (usize, usize))
    ensures
        r.0 <= r.1 <= s@.len(),
        s@.subrange(r.0 as int, r.1 as int) == trim(s@),
{
    let n = s.len();
    let mut a: usize = 0;
    assert(s@.subrange(0, n as int) == s@);
    while a < n && is_ws_char(s[a])
        invariant
            a <= n == s@.len(),
            trim_start(s@) == trim_start(s@.subrange(a as int, n as int)),
        decreases n - a,
    {
        assert(s@.subrange(a as int, n as int).drop_first() == s@.subrange(a + 1, n as int));
        a = a + 1;
    }
    let ghost t = s@.subrange(a as int, n as int);
    assert(trim_start(t) == t);
    let mut b: usize = n;
    assert(s@.subrange(a as int, b as int) == t);
    while b > a && is_ws_char(s[b - 1])
        invariant
            a <= b <= n == s@.len(),
            trim_end(t) == trim_end(s@.subrange(a as int, b as int)),
            t == s@.subrange(a as int, n as int),
        decreases b,
    {
        assert(s@.subrange(a as int, b as int).drop_last() == s@.subrange(a as int, b - 1));
        b = b - 1;
    }
    (a, b)
}

pub fn trim_chars(s: &[char]) -> (r: Vec<char>)
    ensures
        r@ == trim(s@),
        r@.len() <= s@.len(),
{
    let (a, b) = trim_bounds(s);
    copy_range(s, a, b)
}

/// `s.trim()`, as an owned string.
pub fn trim_str(s: &str) -> (r: String)
    ensures
        r@ == trim(s@),
{
    let cs = chars_of(s);
    let t = trim_chars(&cs);
    string_of(&t)
}

// ── Searching ───────────────────────────────────────────────────────────

/// `p` occurs in `s` starting at position `i`.
pub open spec fn matches_at(s: Seq<char>, p: Seq<char>, i: int) -> bool {
    0 <= i && i + p.len() <= s.len() && s.subrange(i, i + p.len()) == p
}

/// The first position at or after `i` where `p` occurs in `s`, or -1.
pub open spec fn find_from(s: Seq<char>, p: Seq<char>, i: int) -> int
    decreases s.len() - i,
{
    if i < 0 || i + p.len() > s.len() {
        -1
    } else if p.len() == 0 || matches_at(s, p, i) {
        i
    } else {
        find_from(s, p, i + 1)
    }
}

/// `s` holds `p` somewhere, as `str::contains` answers.
pub open spec fn contains(s: Seq<char>, p: Seq<char>) -> bool {
    find_from(s, p, 0) >= 0
}

/// `s` begins with `p`, as `str::starts_with` answers.
pub open spec fn starts_with(s: Seq<char>, p: Seq<char>) -> bool {
    p.len() <= s.len() && s.subrange(0, p.len() as int) == p
}

/// `find_from` returns the first match at or after `i`, or -1 when there is
/// none.
pub proof fn lemma_find_from(s: Seq<char>, p: Seq<char>, i: int)
    requires
        i >= 0,
    ensures
        find_from(s, p, i) == -1 || (i <= find_from(s, p, i) && matches_at(s, p, find_from(s, p, i))),
        forall|j: int|
            i <= j && (find_from(s, p, i) == -1 || j < find_from(s, p, i)) ==> !matches_at(s, p, j),
    decreases s.len() - i,
{
    if i + p.len() > s.len() {
    } else if p.len() == 0 {
        assert(s.subrange(i, i) == p);
    } else if matches_at(s, p, i) {
    } else {
        lemma_find_from(s, p, i + 1);
    }
}

pub fn matches_at_exec(s: &[char], p: &[char], i: usize) -> (r: bool)
    ensures
        r == matches_at(s@, p@, i as int),
{
    let n = s.len();
    if i > n || p.len() > n - i {
        return false;
    }
    let mut j: usize = 0;
    while j < p.len()
        invariant
            n == s@.len(),
            i + p@.len() <= s@.len(),
            j <= p@.len(),
            forall|k: int| 0 <= k < j ==> s@[i + k] == p@[k],
        decreases p@.len() - j,
    {
        if s[i + j] != p[j] {
            assert(s@.subrange(i as int, i + p@.len())[j as int] != p@[j as int]);
            return false;
        }
        j = j + 1;
    }
    assert(s@.subrange(i as int, i + p@.len()) == p@);
    true
}

/// The first occurrence of `p` in `s` at or after `i`.
pub fn find_from_exec(s: &[char], p: &[char], i: usize) -> (r: Option<usize>)
    ensures
        match r {
            Some(k) => k as int == find_from(s@, p@, i as int),
            None => find_from(s@, p@, i as int) == -1,
        },
{
    let n = s.len();
    let mut j = i;
    while j <= n && p.len() <= n - j
        invariant
            n == s@.len(),
            i <= j,
            find_from(s@, p@, i as int) == find_from(s@, p@, j as int),
        decreases s@.len() - j,
    {
        if p.len() == 0 || matches_at_exec(s, p, j) {
            return Some(j);
        }
        j = j + 1;
    }
    None
}

pub fn contains_exec(s: &[char], p: &str) -> (r: bool)
    ensures
        r == contains(s@, p@),
{
    let pc = chars_of(p);
    find_from_exec(s, &pc, 0).is_some()
}

pub fn contains_char(s: &[char], c: char) -> (r: bool)
    ensures
        r == contains(s@, seq![c]),
{
    let pc = vec![c];
    assert(pc@ == seq![c]);
    find_from_exec(s, &pc, 0).is_some()
}

pub fn starts_with_exec(s: &[char], p: &str) -> (r: bool)
    ensures
        r == starts_with(s@, p@),
{
    let pc = chars_of(p);
    let r = matches_at_exec(s, &pc, 0);
    assert(r == starts_with(s@, pc@));
    r
}

// ── Removing every occurrence of a pattern ──────────────────────────────

/// `s[i..]` with every non-overlapping occurrence of `p` (left to right)
/// removed, as `str::replace(p, "")` does on it.
pub open spec fn remove_all_from(s: Seq<char>, p: Seq<char>, i: int) -> Seq<char>
    decreases s.len() - i,
{
    if i < 0 || i > s.len() || p.len() == 0 {
        s.subrange(if 0 <= i <= s.len() { i } else { s.len() as int }, s.len() as int)
    } else {
        let k = find_from(s, p, i);
        if k < 0 {
            s.subrange(i, s.len() as int)
        } else {
            proof {
                lemma_find_from(s, p, i);
            }
            s.subrange(i, k) + remove_all_from(s, p, k + p.len())
        }
    }
}

/// `s.replace(p, "")` for a non-empty pattern `p`.
pub open spec fn remove_all(s: Seq<char>, p: Seq<char>) -> Seq<char> {
    remove_all_from(s, p, 0)
}

pub fn remove_all_exec(s: &[char], p: &str) -> (r: Vec<char>)
    requires
        p@.len() > 0,
    ensures
        r@ == remove_all(s@, p@),
{
    let pc = chars_of(p);
    let n = s.len();
    let mut out: Vec<char> = Vec::new();
    let mut i: usize = 0;
    loop
        invariant
            n == s@.len(),
            i <= s@.len(),
            pc@ == p@,
            pc@.len() > 0,
            remove_all(s@, p@) == out@ + remove_all_from(s@, p@, i as int),
        decreases s@.len() - i,
    {
        match find_from_exec(s, &pc, i) {
            None => {
                append_range(&mut out, s, i, s.len());
                return out;
            },
            Some(k) => {
                proof {
                    lemma_find_from(s@, p@, i as int);
                }
                append_range(&mut out, s, i, k);
                i = k + pc.len();
            },
        }
    }
}

// ── Lines ───────────────────────────────────────────────────────────────

/// A line as `str::lines` yields it: a `\r` right before the `\n` is dropped.
pub open spec fn strip_cr(line: Seq<char>) -> Seq<char> {
    if line.len() > 0 && line.last() == '\r' {
        line.drop_last()
    } else {
        line
    }
}

/// The lines of `s[i..]`, as `str::lines` yields them: split at `\n`, a
/// `\r` before the `\n` removed, and no empty last line after a final `\n`.
pub open spec fn lines_from(s: Seq<char>, i: int) -> Seq<Seq<char>>
    decreases s.len() - i,
{
    if i < 0 || i >= s.len() {
        seq![]
    } else {
        let k = find_from(s, seq!['\n'], i);
        if k < 0 {
            seq![s.subrange(i, s.len() as int)]
        } else {
            proof {
                lemma_find_from(s, seq!['\n'], i);
            }
            seq![strip_cr(s.subrange(i, k))] + lines_from(s, k + 1)
        }
    }
}

pub open spec fn lines(s: Seq<char>) -> Seq<Seq<char>> {
    lines_from(s, 0)
}

/// The lines of `s`, each as a vector of characters.
pub fn lines_exec(s: &[char]) -> (r: Vec<Vec<char>>)
    ensures
        r@.len() == lines(s@).len(),
        forall|j: int| 0 <= j < r@.len() ==> #[trigger] r@[j]@ == lines(s@)[j],
{
    let nl = vec!['\n'];
    assert(nl@ == seq!['\n']);
    let mut out: Vec<Vec<char>> = Vec::new();
    let mut i: usize = 0;
    let ghost done: Seq<Seq<char>> = seq![];
    while i < s.len()
        invariant
            i <= s@.len(),
            nl@ == seq!['\n'],
            out@.len() == done.len(),
            forall|j: int| 0 <= j < out@.len() ==> #[trigger] out@[j]@ == done[j],
            lines(s@) == done + lines_from(s@, i as int),
        decreases s@.len() - i,
    {
        match find_from_exec(s, &nl, i) {
            None => {
                let line = copy_range(s, i, s.len());
                proof {
                    done = done.push(line@);
                }
                out.push(line);
                i = s.len();
                assert(lines(s@) == done + lines_from(s@, i as int));
            },
            Some(k) => {
                proof {
                    lemma_find_from(s@, seq!['\n'], i as int);
                }
                let mut line = copy_range(s, i, k);
                if line.len() > 0 && line[line.len() - 1] == '\r' {
                    line.pop();
                }
                proof {
                    done = done.push(line@);
                }
                out.push(line);
                i = k + 1;
            },
        }
    }
    assert(lines_from(s@, i as int) == Seq::<Seq<char>>::empty());
    assert(lines(s@) == done);
    out
}

// ── Decimal numbers ─────────────────────────────────────────────────────

pub open spec fn digit_char(d: nat) -> char {
    if d == 0 {
        '0'
    } else if d == 1 {
        '1'
    } else if d == 2 {
        '2'
    } else if d == 3 {
        '3'
    } else if d == 4 {
        '4'
    } else if d == 5 {
        '5'
    } else if d == 6 {
        '6'
    } else if d == 7 {
        '7'
    } else if d == 8 {
        '8'
    } else {
        '9'
    }
}

/// The decimal digits of `n`, as `{}` formats an unsigned integer.
pub open spec fn decimal(n: nat) -> Seq<char>
    decreases n,
{
    if n < 10 {
        seq![digit_char(n)]
    } else {
        decimal(n / 10).push(digit_char(n % 10))
    }
}

/// `n` with at least two digits, as `{:02}` formats it.
pub open spec fn two_digits(n: nat) -> Seq<char> {
    if n < 10 {
        seq!['0'] + decimal(n)
    } else {
        decimal(n)
    }
}

pub fn digit_of(d: u64) -> (c: char)
    requires
        d < 10,
    ensures
        c == digit_char(d as nat),
{
    if d == 0 {
        '0'
    } else if d == 1 {
        '1'
    } else if d == 2 {
        '2'
    } else if d == 3 {
        '3'
    } else if d == 4 {
        '4'
    } else if d == 5 {
        '5'
    } else if d == 6 {
        '6'
    } else if d == 7 {
        '7'
    } else if d == 8 {
        '8'
    } else {
        '9'
    }
}

pub fn push_decimal(out: &mut Vec<char>, n: u64)
    ensures
        final(out)@ == old(out)@ + decimal(n as nat),
    decreases n,
{
    if n >= 10 {
        push_decimal(out, n / 10);
    }
    let c = digit_of(n % 10);
    out.push(c);
}

pub fn push_two_digits(out: &mut Vec<char>, n: u64)
    ensures
        final(out)@ == old(out)@ + two_digits(n as nat),
{
    if n < 10 {
        out.push('0');
    }
    push_decimal(out, n);
}

} // verus!

verus! {

/// `parts` joined with `sep` between consecutive parts, as `join` on a slice
/// of strings gives it.
pub open spec fn join(parts: Seq<Seq<char>>, sep: Seq<char>) -> Seq<char>
    decreases parts.len(),
{
    if parts.len() == 0 {
        seq![]
    } else if parts.len() == 1 {
        parts[0]
    } else {
        join(parts.drop_last(), sep) + sep + parts.last()
    }
}

/// The characters of `parts` joined with `sep`.
pub fn join_chars(parts: &Vec<Vec<char>>, sep: &str) -> (r: Vec<char>)
    ensures
        r@ == join(Seq::new(parts@.len(), |i: int| parts@[i]@), sep@),
{
    let ghost ps = Seq::new(parts@.len(), |i: int| parts@[i]@);
    let mut out: Vec<char> = Vec::new();
    let mut i: usize = 0;
    while i < parts.len()
        invariant
            i <= parts@.len(),
            ps == Seq::new(parts@.len(), |i: int| parts@[i]@),
            out@ == join(ps.take(i as int), sep@),
        decreases parts@.len() - i,
    {
        if i > 0 {
            append_str(&mut out, sep);
        }
        let p = &parts[i];
        append_range(&mut out, p, 0, p.len());
        assert(p@.subrange(0, p@.len() as int) == p@);
        assert(ps.take(i + 1).drop_last() == ps.take(i as int));
        i = i + 1;
    }
    assert(ps.take(parts@.len() as int) == ps);
    out
}

} // verus!
