use vstd::prelude::*;

verus! {

// ------------------------------------------------------------------------------------
// Reading a version
// ------------------------------------------------------------------------------------

/// The index of the first character, from `i` on, that is not a `v`.
pub open spec fn after_leading_v(s: Seq<char>, i: int) -> int
    decreases s.len() - i,
{
    if 0 <= i < s.len() && s[i] == 'v' {
        after_leading_v(s, i + 1)
    } else {
        i
    }
}

/// The index of the first `c`, from `i` on, or the length when there is none.
pub open spec fn find_char(s: Seq<char>, c: char, i: int) -> int
    decreases s.len() - i,
{
    if i >= s.len() {
        s.len() as int
    } else if 0 <= i && s[i] == c {
        i
    } else {
        find_char(s, c, i + 1)
    }
}

/// The version proper: leading `v`s removed, and anything from the first `-` on (a
/// pre-release suffix) dropped.
pub open spec fn version_core(s: Seq<char>) -> Seq<char> {
    let a = after_leading_v(s, 0);
    s.subrange(a, find_char(s, '-', a))
}

pub open spec fn is_digit(c: char) -> bool {
    '0' <= c <= '9'
}

/// The value of a string of decimal digits.
pub open spec fn digits_value(d: Seq<char>) -> nat
    decreases d.len(),
{
    if d.len() == 0 {
        0
    } else {
        digits_value(d.drop_last()) * 10 + ((d.last() as nat) - ('0' as nat)) as nat
    }
}

/// The digits of a number: without its optional leading `+`.
pub open spec fn sign_stripped(p: Seq<char>) -> Seq<char> {
    if p.len() > 0 && p[0] == '+' {
        p.drop_first()
    } else {
        p
    }
}

proof fn lemma_not_number(p: Seq<char>, k: int)
    requires
        0 <= k < sign_stripped(p).len(),
        !is_digit(sign_stripped(p)[k]),
    ensures
        number_of(p) is None,
{
}

/// Reads an unsigned 32-bit number: an optional `+`, then at least one decimal digit,
/// within range.
pub open spec fn number_of(p: Seq<char>) -> Option<u32> {
    let d = sign_stripped(p);
    if d.len() > 0 && (forall|i: int| 0 <= i < d.len() ==> is_digit(d[i])) && digits_value(d)
        <= u32::MAX {
        Some(digits_value(d) as u32)
    } else {
        None
    }
}

/// Positions of the two dots of a core `major.minor.patch`; `None` unless it splits at dots
/// into exactly three parts.
pub open spec fn dots_of(c: Seq<char>) -> Option<(int, int)> {
    let d1 = find_char(c, '.', 0);
    let d2 = find_char(c, '.', d1 + 1);
    if d1 < c.len() && d2 < c.len() && find_char(c, '.', d2 + 1) == c.len() {
        Some((d1, d2))
    } else {
        None
    }
}

/// A version read from text, or the message saying why it could not be.
pub open spec fn version_of(s: Seq<char>) -> Result<(u32, u32, u32), Seq<char>> {
    let c = version_core(s);
    match dots_of(c) {
        None => Err("Invalid version format: "@ + c),
        Some((d1, d2)) => {
            let major = number_of(c.subrange(0, d1));
            let minor = number_of(c.subrange(d1 + 1, d2));
            let patch = number_of(c.subrange(d2 + 1, c.len() as int));
            if major is None {
                Err("Invalid major version"@)
            } else if minor is None {
                Err("Invalid minor version"@)
            } else if patch is None {
                Err("Invalid patch version"@)
            } else {
                Ok((major.unwrap(), minor.unwrap(), patch.unwrap()))
            }
        },
    }
}

proof fn lemma_after_leading_v_range(s: Seq<char>, i: int)
    requires
        0 <= i <= s.len(),
    ensures
        i <= after_leading_v(s, i) <= s.len(),
    decreases s.len() - i,
{
    if i < s.len() && s[i] == 'v' {
        lemma_after_leading_v_range(s, i + 1);
    }
}

fn skip_leading_v(s: &str, n: usize) -> (r: usize)
    requires
        n == s@.len(),
    ensures
        r == after_leading_v(s@, 0),
{
    let mut i: usize = 0;
    while i < n && s.get_char(i) == 'v'
        invariant
            n == s@.len(),
            i <= n,
            after_leading_v(s@, 0) == after_leading_v(s@, i as int),
        decreases n - i,
    {
        i = i + 1;
    }
    i
}

fn find_in(s: &str, n: usize, c: char, from: usize, to: usize) -> (r: usize)
    requires
        n == s@.len(),
        from <= to <= n,
    ensures
        from <= r <= to,
        r == to || s@[r as int] == c,
        forall|j: int| from <= j < r ==> s@[j] != c,
{
    let mut i: usize = from;
    while i < to && s.get_char(i) != c
        invariant
            n == s@.len(),
            from <= i <= to,
            to <= n,
            forall|j: int| from <= j < i ==> s@[j] != c,
        decreases to - i,
    {
        i = i + 1;
    }
    i
}

proof fn lemma_find_char_sub(s: Seq<char>, c: char, a: int, b: int, from: int, r: int)
    requires
        0 <= a <= from <= r <= b <= s.len(),
        r == b || s[r] == c,
        forall|j: int| from <= j < r ==> s[j] != c,
    ensures
        find_char(s.subrange(a, b), c, from - a) == r - a,
    decreases r - from,
{
    let t = s.subrange(a, b);
    if from < r {
        assert(t[from - a] == s[from]);
        lemma_find_char_sub(s, c, a, b, from + 1, r);
    } else if r < b {
        assert(t[r - a] == s[r]);
    }
}

proof fn lemma_digits_prefix_monotone(d: Seq<char>, k: int)
    requires
        0 <= k <= d.len(),
    ensures
        digits_value(d.subrange(0, k)) <= digits_value(d),
    decreases d.len() - k,
{
    if k < d.len() {
        lemma_digits_prefix_monotone(d, k + 1);
        assert(d.subrange(0, k + 1).drop_last() =~= d.subrange(0, k));
    } else {
        assert(d.subrange(0, k) =~= d);
    }
}

/// Reads the number held by characters `from` to `to` of `s`.
fn read_number(s: &str, from: usize, to: usize) -> (r: Option<u32>)
    requires
        from <= to <= s@.len(),
    ensures
        r == number_of(s@.subrange(from as int, to as int)),
{
    let p = Ghost(s@.subrange(from as int, to as int));
    let mut start = from;
    if from < to && s.get_char(from) == '+' {
        start = from + 1;
    }
    let d = Ghost(s@.subrange(start as int, to as int));
    assert(d@ =~= sign_stripped(p@));
    if start == to {
        return None;
    }
    let mut acc: u64 = 0;
    let mut i: usize = start;
    while i < to
        invariant
            start <= i <= to,
            to <= s@.len(),
            d@ == s@.subrange(start as int, to as int),
            p@ == s@.subrange(from as int, to as int),
            d@ == sign_stripped(p@),
            acc == digits_value(d@.subrange(0, i - start)),
            acc <= u32::MAX,
            forall|j: int| 0 <= j < i - start ==> is_digit(d@[j]),
        decreases to - i,
    {
        let c = s.get_char(i);
        let k = Ghost(i - start);
        assert(c == d@[i - start]);
        if !('0' <= c && c <= '9') {
            assert(!is_digit(d@[i - start]));
            proof {
                lemma_not_number(p@, k@);
            }
            return None;
        }
        assert(d@.subrange(0, k@ + 1).drop_last() =~= d@.subrange(0, k@));
        assert(d@.subrange(0, k@ + 1).last() == c);
        let next = acc * 10 + (c as u64 - '0' as u64);
        assert(next == digits_value(d@.subrange(0, k@ + 1)));
        if next > u32::MAX as u64 {
            proof {
                lemma_digits_prefix_monotone(d@, k@ + 1);
                assert(digits_value(d@) > u32::MAX);
                assert(number_of(p@) is None);
            }
            return None;
        }
        acc = next;
        i = i + 1;
    }
    assert(d@.subrange(0, to - start) =~= d@);
    Some(acc as u32)
}

/// The bounds of the version core within `s`.
fn core_bounds(s: &str, n: usize) -> (r: (usize, usize))
    requires
        n == s@.len(),
    ensures
        r.0 <= r.1 <= n,
        s@.subrange(r.0 as int, r.1 as int) == version_core(s@),
{
    let a = skip_leading_v(s, n);
    proof {
        lemma_after_leading_v_range(s@, 0);
    }
    let b = find_in(s, n, '-', a, n);
    proof {
        lemma_find_char_sub(s@, '-', 0, n as int, a as int, b as int);
        assert(s@.subrange(0, n as int) =~= s@);
    }
    (a, b)
}

/// The positions in `s` of the two dots of the core from `a` to `b`, if it has exactly two.
fn dot_positions(s: &str, n: usize, a: usize, b: usize) -> (r: Option<(usize, usize)>)
    requires
        n == s@.len(),
        a <= b <= n,
    ensures
        match dots_of(s@.subrange(a as int, b as int)) {
            Some((d1, d2)) => r matches Some((e1, e2)) && e1 == d1 + a && e2 == d2 + a && a <= e1
                < e2 < b,
            None => r is None,
        },
{
    let d1 = find_in(s, n, '.', a, b);
    proof {
        lemma_find_char_sub(s@, '.', a as int, b as int, a as int, d1 as int);
    }
    if d1 == b {
        return None;
    }
    let d2 = find_in(s, n, '.', d1 + 1, b);
    proof {
        lemma_find_char_sub(s@, '.', a as int, b as int, d1 + 1, d2 as int);
    }
    if d2 == b {
        return None;
    }
    let d3 = find_in(s, n, '.', d2 + 1, b);
    proof {
        lemma_find_char_sub(s@, '.', a as int, b as int, d2 + 1, d3 as int);
    }
    if d3 != b {
        return None;
    }
    Some((d1, d2))
}

fn format_error(s: &str, a: usize, b: usize) -> (r: String)
    requires
        a <= b <= s@.len(),
    ensures
        r@ == "Invalid version format: "@ + s@.subrange(a as int, b as int),
{
    let mut e = "Invalid version format: ".to_string();
    e.append(s.substring_char(a, b));
    e
}

/// Reads a `major.minor.patch` version, with an optional leading `v` and pre-release suffix.
fn parse_version(s: &str) -> (r: Result<(u32, u32, u32), String>)
    ensures
        match version_of(s@) {
            Ok(v) => r == Ok::<(u32, u32, u32), String>(v),
            Err(m) => r matches Err(e) && e@ == m,
        },
{
    proof {
        reveal_strlit("Invalid major version");
        reveal_strlit("Invalid minor version");
        reveal_strlit("Invalid patch version");
    }
    let n = s.unicode_len();
    let (a, b) = core_bounds(s, n);
    let c = Ghost(s@.subrange(a as int, b as int));
    let (d1, d2) = match dot_positions(s, n, a, b) {
        Some(p) => p,
        None => return Err(format_error(s, a, b)),
    };
    assert(c@.subrange(0, d1 - a) =~= s@.subrange(a as int, d1 as int));
    assert(c@.subrange(d1 - a + 1, d2 - a) =~= s@.subrange(d1 + 1, d2 as int));
    assert(c@.subrange(d2 - a + 1, c@.len() as int) =~= s@.subrange(d2 + 1, b as int));
    let major = match read_number(s, a, d1) {
        Some(v) => v,
        None => return Err("Invalid major version".to_string()),
    };
    let minor = match read_number(s, d1 + 1, d2) {
        Some(v) => v,
        None => return Err("Invalid minor version".to_string()),
    };
    let patch = match read_number(s, d2 + 1, b) {
        Some(v) => v,
        None => return Err("Invalid patch version".to_string()),
    };
    Ok((major, minor, patch))
}

// ------------------------------------------------------------------------------------
// Comparing versions
// ------------------------------------------------------------------------------------

pub open spec fn digit_char(d: nat) -> char {
    (('0' as nat) + d) as char
}

/// The decimal text of a number, without leading zeros.
pub open spec fn decimal(n: nat) -> Seq<char>
    decreases n,
{
    if n < 10 {
        seq![digit_char(n)]
    } else {
        decimal(n / 10) + seq![digit_char(n % 10)]
    }
}

/// The text `major.minor.patch` of a version.
pub open spec fn version_text(v: (u32, u32, u32)) -> Seq<char> {
    decimal(v.0 as nat) + "."@ + decimal(v.1 as nat) + "."@ + decimal(v.2 as nat)
}

/// Whether version `a` comes before version `b`: by major, then minor, then patch.
pub open spec fn older(a: (u32, u32, u32), b: (u32, u32, u32)) -> bool {
    a.0 < b.0 || (a.0 == b.0 && (a.1 < b.1 || (a.1 == b.1 && a.2 < b.2)))
}

/// Whether an update from `current` to `candidate` is allowed, or the message saying why not:
/// either text fails to read as a version, or the candidate is older.
pub open spec fn update_check(current: Seq<char>, candidate: Seq<char>) -> Result<(), Seq<char>> {
    match version_of(current) {
        Err(m) => Err(m),
        Ok(c) => match version_of(candidate) {
            Err(m) => Err(m),
            Ok(k) => if older(k, c) {
                Err("Refusing downgrade from "@ + version_text(c) + " to "@ + version_text(k))
            } else {
                Ok(())
            },
        },
    }
}

fn digit_text(d: u32) -> (r: &'static str)
    requires
        d < 10,
    ensures
        r@ == seq![digit_char(d as nat)],
{
    proof {
        reveal_strlit("0");
        reveal_strlit("1");
        reveal_strlit("2");
        reveal_strlit("3");
        reveal_strlit("4");
        reveal_strlit("5");
        reveal_strlit("6");
        reveal_strlit("7");
        reveal_strlit("8");
        reveal_strlit("9");
    }
    let r = match d {
        0 => "0",
        1 => "1",
        2 => "2",
        3 => "3",
        4 => "4",
        5 => "5",
        6 => "6",
        7 => "7",
        8 => "8",
        _ => "9",
    };
    assert(r@ =~= seq![digit_char(d as nat)]);
    r
}

fn append_decimal(s: &mut String, n: u32)
    ensures
        final(s)@ == old(s)@ + decimal(n as nat),
    decreases n,
{
    if n >= 10 {
        append_decimal(s, n / 10);
    }
    s.append(digit_text(n % 10));
    proof {
        if n >= 10 {
            assert(final(s)@ =~= old(s)@ + decimal(n as nat));
        } else {
            assert(final(s)@ =~= old(s)@ + decimal(n as nat));
        }
    }
}

fn append_version(s: &mut String, v: (u32, u32, u32))
    ensures
        final(s)@ == old(s)@ + version_text(v),
{
    proof {
        reveal_strlit(".");
    }
    append_decimal(s, v.0);
    s.append(".");
    append_decimal(s, v.1);
    s.append(".");
    append_decimal(s, v.2);
    assert(final(s)@ =~= old(s)@ + version_text(v));
}

/// Refuses an update that would go back to an older version. Versions read as
/// `major.minor.patch`, with an optional leading `v` and an optional pre-release suffix
/// after a `-`, which is ignored.
pub fn validate_update_version(current: &str, candidate: &str) -> (r: Result<(), String>)
    ensures
        match update_check(current@, candidate@) {
            Ok(_) => r is Ok,
            Err(m) => r matches Err(e) && e@ == m,
        },
{
    proof {
        reveal_strlit("Refusing downgrade from ");
        reveal_strlit(" to ");
    }
    let c = match parse_version(current) {
        Ok(v) => v,
        Err(e) => return Err(e),
    };
    let k = match parse_version(candidate) {
        Ok(v) => v,
        Err(e) => return Err(e),
    };
    if k.0 < c.0 || (k.0 == c.0 && (k.1 < c.1 || (k.1 == c.1 && k.2 < c.2))) {
        let mut e = "Refusing downgrade from ".to_string();
        append_version(&mut e, c);
        e.append(" to ");
        append_version(&mut e, k);
        assert(e@ =~= "Refusing downgrade from "@ + version_text(c) + " to "@ + version_text(k));
        return Err(e);
    }
    Ok(())
}

} // verus!
