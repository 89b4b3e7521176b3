//! Text handling shared by the parsers: splitting on white space or on a
//! character, joining, prefixes, and reading integers the way `str::parse`
//! and `from_str_radix` do.
use vstd::prelude::*;
use vstd::string::StrSliceExecFns;
use vstd::string::StringExecFns;

verus! {

/// The Unicode `White_Space` property, which `char::is_whitespace` tests.
pub open spec fn is_ws(c: char) -> bool {
    let v = c as u32;
    ||| 0x09 <= v <= 0x0d
    ||| v == 0x20
    ||| v == 0x85
    ||| v == 0xa0
    ||| v == 0x1680
    ||| 0x2000 <= v <= 0x200a
    ||| v == 0x2028
    ||| v == 0x2029
    ||| v == 0x202f
    ||| v == 0x205f
    ||| v == 0x3000
}

/// `c.is_whitespace()`.
pub fn is_whitespace(c: char) -> (res: bool)
    ensures
        res == is_ws(c),
{
    let v = c as u32;
    (0x09 <= v && v <= 0x0d) || v == 0x20 || v == 0x85 || v == 0xa0 || v == 0x1680 || (0x2000 <= v
        && v <= 0x200a) || v == 0x2028 || v == 0x2029 || v == 0x202f || v == 0x205f || v == 0x3000
}

/// The characters of `s`.
pub fn chars_of(s: &str) -> (res: Vec<char>)
    ensures
        res@ == s@,
{
    let n = s.unicode_len();
    let mut res: Vec<char> = Vec::new();
    let mut i: usize = 0;
    while i < n
        invariant
            n == s@.len(),
            0 <= i <= n,
            res@ == s@.take(i as int),
        decreases n - i,
    {
        res.push(s.get_char(i));
        i = i + 1;
        assert(res@ =~= s@.take(i as int));
    }
    assert(s@.take(i as int) =~= s@);
    res
}

/// Length of the run of non-white-space characters that `s` starts with.
pub open spec fn word_len(s: Seq<char>) -> nat
    decreases s.len(),
{
    if s.len() == 0 || is_ws(s[0]) {
        0
    } else {
        1 + word_len(s.drop_first())
    }
}

/// The words of `s`: its maximal runs of non-white-space characters, in order,
/// as `str::split_whitespace` yields them.
pub open spec fn words(s: Seq<char>) -> Seq<Seq<char>>
    decreases s.len(),
{
    if s.len() == 0 {
        seq![]
    } else if is_ws(s[0]) {
        words(s.drop_first())
    } else {
        let n = word_len(s);
        proof {
            lemma_word_len_le(s);
        }
        if n == 0 {
            seq![]
        } else {
            seq![s.take(n as int)] + words(s.skip(n as int))
        }
    }
}

pub proof fn lemma_word_len_le(s: Seq<char>)
    ensures
        word_len(s) <= s.len(),
    decreases s.len(),
{
    if s.len() > 0 && !is_ws(s[0]) {
        lemma_word_len_le(s.drop_first());
    }
}

/// Length of the run of characters other than `c` that `s` starts with.
pub open spec fn piece_len(s: Seq<char>, c: char) -> nat
    decreases s.len(),
{
    if s.len() == 0 || s[0] == c {
        0
    } else {
        1 + piece_len(s.drop_first(), c)
    }
}

/// The pieces of `s` between occurrences of `c`, empty ones included, as
/// `str::split` with a character yields them.
pub open spec fn split_on(s: Seq<char>, c: char) -> Seq<Seq<char>>
    decreases s.len(),
{
    let n = piece_len(s, c);
    if n >= s.len() {
        seq![s]
    } else {
        seq![s.take(n as int)] + split_on(s.skip((n + 1) as int), c)
    }
}

/// `parts` joined with `sep` between each two.
pub open spec fn join(parts: Seq<Seq<char>>, sep: Seq<char>) -> Seq<char>
    decreases parts.len(),
{
    if parts.len() == 0 {
        seq![]
    } else if parts.len() == 1 {
        parts[0]
    } else {
        join(parts.drop_last(), sep) + sep + parts.last()
    }
}

/// The views of a sequence of string slices.
pub open spec fn views(v: Seq<&str>) -> Seq<Seq<char>> {
    Seq::new(v.len(), |i: int| v[i]@)
}

proof fn lemma_word_len(t: Seq<char>, j: int)
    requires
        0 <= j <= t.len(),
        forall|k: int| 0 <= k < j ==> !is_ws(#[trigger] t[k]),
        j == t.len() || is_ws(t[j]),
    ensures
        word_len(t) == j,
    decreases j,
{
    if j > 0 {
        assert forall|k: int| 0 <= k < j - 1 implies !is_ws(#[trigger] t.drop_first()[k]) by {
            assert(t.drop_first()[k] == t[k + 1]);
        }
        lemma_word_len(t.drop_first(), j - 1);
    }
}

proof fn lemma_piece_len(t: Seq<char>, c: char, j: int)
    requires
        0 <= j <= t.len(),
        forall|k: int| 0 <= k < j ==> #[trigger] t[k] != c,
        j == t.len() || t[j] == c,
    ensures
        piece_len(t, c) == j,
    decreases j,
{
    if j > 0 {
        assert forall|k: int| 0 <= k < j - 1 implies #[trigger] t.drop_first()[k] != c by {
            assert(t.drop_first()[k] == t[k + 1]);
        }
        lemma_piece_len(t.drop_first(), c, j - 1);
    }
}

/// The words of `s`, as `str::split_whitespace` yields them.
pub fn split_whitespace<'a>(s: &'a str) -> (res: Vec<&'a str>)
    ensures
        views(res@) == words(s@),
{
    let cs = chars_of(s);
    let n = cs.len();
    let mut res: Vec<&'a str> = Vec::new();
    let mut i: usize = 0;
    assert(s@.skip(0) =~= s@);
    while i < n
        invariant
            n == s@.len(),
            cs@ == s@,
            0 <= i <= n,
            words(s@) == views(res@) + words(s@.skip(i as int)),
        decreases n - i,
    {
        if is_whitespace(cs[i]) {
            assert(s@.skip(i as int).drop_first() =~= s@.skip(i + 1));
            i = i + 1;
        } else {
            let start = i;
            while i < n && !is_whitespace(cs[i])
                invariant
                    n == s@.len(),
                    cs@ == s@,
                    start <= i <= n,
                    forall|k: int| start <= k < i ==> !is_ws(#[trigger] s@[k]),
                decreases n - i,
            {
                i = i + 1;
            }
            let ghost t = s@.skip(start as int);
            proof {
                assert forall|k: int| 0 <= k < i - start implies !is_ws(#[trigger] t[k]) by {
                    assert(t[k] == s@[start + k]);
                }
                lemma_word_len(t, i - start);
                assert(t.take(i - start) =~= s@.subrange(start as int, i as int));
                assert(t.skip(i - start) =~= s@.skip(i as int));
            }
            let word = s.substring_char(start, i);
            let ghost before = res@;
            res.push(word);
            assert(views(res@) =~= views(before) + seq![word@]);
        }
    }
    assert(words(s@.skip(i as int)) =~= seq![]);
    assert(views(res@) =~= views(res@) + seq![]);
    res
}

/// The pieces of `s` between occurrences of `c`, as `str::split` yields them.
pub fn split_char<'a>(s: &'a str, c: char) -> (res: Vec<&'a str>)
    ensures
        views(res@) == split_on(s@, c),
{
    let cs = chars_of(s);
    let n = cs.len();
    let mut res: Vec<&'a str> = Vec::new();
    let mut start: usize = 0;
    assert(s@.skip(0) =~= s@);
    loop
        invariant
            n == s@.len(),
            cs@ == s@,
            0 <= start <= n,
            split_on(s@, c) == views(res@) + split_on(s@.skip(start as int), c),
        decreases n - start,
    {
        let mut i = start;
        while i < n && cs[i] != c
            invariant
                n == s@.len(),
                cs@ == s@,
                start <= i <= n,
                forall|k: int| start <= k < i ==> #[trigger] s@[k] != c,
            decreases n - i,
        {
            i = i + 1;
        }
        let ghost t = s@.skip(start as int);
        proof {
            assert forall|k: int| 0 <= k < i - start implies #[trigger] t[k] != c by {
                assert(t[k] == s@[start + k]);
            }
            lemma_piece_len(t, c, i - start);
            assert(t.take(i - start) =~= s@.subrange(start as int, i as int));
        }
        let piece = s.substring_char(start, i);
        let ghost before = res@;
        res.push(piece);
        assert(views(res@) =~= views(before) + seq![piece@]);
        if i == n {
            assert(t =~= s@.subrange(start as int, i as int));
            assert(split_on(t, c) == seq![t]);
            return res;
        }
        assert(t.skip(i - start + 1) =~= s@.skip(i + 1));
        start = i + 1;
    }
}

/// `parts` joined with `sep` between each two, as `[&str]::join` does.
pub fn join_strs(parts: &[&str], sep: &str) -> (res: String)
    ensures
        res@ == join(views(parts@), sep@),
{
    let mut res = String::new();
    let mut i: usize = 0;
    while i < parts.len()
        invariant
            0 <= i <= parts@.len(),
            res@ == join(views(parts@.take(i as int)), sep@),
        decreases parts@.len() - i,
    {
        let ghost prefix = views(parts@.take(i as int));
        if i > 0 {
            res.append(sep);
        }
        res.append(parts[i]);
        assert(views(parts@.take(i + 1)).drop_last() =~= prefix);
        i = i + 1;
        assert(views(parts@.take(i as int)).last() == parts@[i - 1]@);
        if i == 1 {
            assert(views(parts@.take(1))[0] == parts@[0]@);
        }
    }
    assert(parts@.take(i as int) =~= parts@);
    res
}

/// Whether `a` and `b` hold the same characters.
pub fn str_eq(a: &str, b: &str) -> (res: bool)
    ensures
        res == (a@ == b@),
{
    let ca = chars_of(a);
    let cb = chars_of(b);
    if ca.len() != cb.len() {
        return false;
    }
    let mut i: usize = 0;
    while i < ca.len()
        invariant
            ca@ == a@,
            cb@ == b@,
            ca@.len() == cb@.len(),
            0 <= i <= ca@.len(),
            forall|k: int| 0 <= k < i ==> ca@[k] == cb@[k],
        decreases ca@.len() - i,
    {
        if ca[i] != cb[i] {
            return false;
        }
        i = i + 1;
    }
    assert(a@ =~= b@);
    true
}

/// `p` is a prefix of `s`.
pub open spec fn has_prefix(s: Seq<char>, p: Seq<char>) -> bool {
    p.len() <= s.len() && s.take(p.len() as int) == p
}

/// `s.starts_with(prefix)`.
pub fn starts_with(s: &str, prefix: &str) -> (res: bool)
    ensures
        res == has_prefix(s@, prefix@),
{
    let cs = chars_of(s);
    let cp = chars_of(prefix);
    if cp.len() > cs.len() {
        return false;
    }
    let mut i: usize = 0;
    while i < cp.len()
        invariant
            cs@ == s@,
            cp@ == prefix@,
            cp@.len() <= cs@.len(),
            0 <= i <= cp@.len(),
            forall|k: int| 0 <= k < i ==> cs@[k] == cp@[k],
        decreases cp@.len() - i,
    {
        if cs[i] != cp[i] {
            assert(s@.take(prefix@.len() as int)[i as int] != prefix@[i as int]);
            return false;
        }
        i = i + 1;
    }
    assert(s@.take(prefix@.len() as int) =~= prefix@);
    true
}

/// Why text is not an integer, as `std::num::IntErrorKind` says.
#[derive(Clone, Copy, Debug, PartialEq, Eq, Structural)]
pub enum IntErrorKind {
    Empty,
    InvalidDigit,
    PosOverflow,
    NegOverflow,
}

impl IntErrorKind {
    /// The text that `ParseIntError` displays for this kind.
    pub fn description(&self) -> (res: &'static str)
        ensures
            res@ == self.spec_description(),
    {
        match self {
            IntErrorKind::Empty => "cannot parse integer from empty string",
            IntErrorKind::InvalidDigit => "invalid digit found in string",
            IntErrorKind::PosOverflow => "number too large to fit in target type",
            IntErrorKind::NegOverflow => "number too small to fit in target type",
        }
    }

    pub open spec fn spec_description(&self) -> Seq<char> {
        match self {
            IntErrorKind::Empty => "cannot parse integer from empty string"@,
            IntErrorKind::InvalidDigit => "invalid digit found in string"@,
            IntErrorKind::PosOverflow => "number too large to fit in target type"@,
            IntErrorKind::NegOverflow => "number too small to fit in target type"@,
        }
    }
}

/// The value of `c` as a digit in `radix`, as `char::to_digit` gives it.
pub open spec fn digit_value(c: char, radix: nat) -> Option<nat> {
    let v = c as u32;
    let d: int = if '0' as u32 <= v <= '9' as u32 {
        v - '0' as u32
    } else if 'a' as u32 <= v <= 'z' as u32 {
        v - 'a' as u32 + 10
    } else if 'A' as u32 <= v <= 'Z' as u32 {
        v - 'A' as u32 + 10
    } else {
        36
    };
    if d < radix {
        Some(d as nat)
    } else {
        None
    }
}

fn to_digit(c: char, radix: u32) -> (res: Option<u32>)
    requires
        2 <= radix <= 36,
    ensures
        res matches Some(d) ==> digit_value(c, radix as nat) == Some(d as nat),
        res is None ==> digit_value(c, radix as nat) is None,
{
    let v = c as u32;
    let d: u32 = if '0' as u32 <= v && v <= '9' as u32 {
        v - '0' as u32
    } else if 'a' as u32 <= v && v <= 'z' as u32 {
        v - 'a' as u32 + 10
    } else if 'A' as u32 <= v && v <= 'Z' as u32 {
        v - 'A' as u32 + 10
    } else {
        36
    };
    if d < radix {
        Some(d)
    } else {
        None
    }
}

/// Reads the digits `ds` after the value `acc`, failing when a character is no
/// digit or the value grows past `max`.
pub open spec fn read_digits(ds: Seq<char>, radix: nat, max: nat, acc: nat) -> Result<nat, IntErrorKind>
    decreases ds.len(),
{
    if ds.len() == 0 {
        Ok(acc)
    } else {
        match digit_value(ds[0], radix) {
            None => Err(IntErrorKind::InvalidDigit),
            Some(d) => if acc * radix + d > max {
                Err(IntErrorKind::PosOverflow)
            } else {
                read_digits(ds.drop_first(), radix, max, acc * radix + d)
            },
        }
    }
}

/// Like `read_digits` toward negative values down to `-max`.
pub open spec fn read_digits_neg(ds: Seq<char>, radix: nat, max: nat, acc: nat) -> Result<nat, IntErrorKind>
    decreases ds.len(),
{
    if ds.len() == 0 {
        Ok(acc)
    } else {
        match digit_value(ds[0], radix) {
            None => Err(IntErrorKind::InvalidDigit),
            Some(d) => if acc * radix + d > max {
                Err(IntErrorKind::NegOverflow)
            } else {
                read_digits_neg(ds.drop_first(), radix, max, acc * radix + d)
            },
        }
    }
}

/// `from_str_radix` on an unsigned type whose largest value is `max`.
pub open spec fn parse_unsigned(s: Seq<char>, radix: nat, max: nat) -> Result<nat, IntErrorKind> {
    if s.len() == 0 {
        Err(IntErrorKind::Empty)
    } else if s.len() == 1 && (s[0] == '+' || s[0] == '-') {
        Err(IntErrorKind::InvalidDigit)
    } else if s[0] == '+' {
        read_digits(s.drop_first(), radix, max, 0)
    } else {
        read_digits(s, radix, max, 0)
    }
}

/// `from_str_radix(s, 10)` on `i32`.
pub open spec fn parse_i32(s: Seq<char>) -> Result<int, IntErrorKind> {
    if s.len() == 0 {
        Err(IntErrorKind::Empty)
    } else if s.len() == 1 && (s[0] == '+' || s[0] == '-') {
        Err(IntErrorKind::InvalidDigit)
    } else if s[0] == '-' {
        match read_digits_neg(s.drop_first(), 10, 0x8000_0000, 0) {
            Ok(v) => Ok(-v),
            Err(e) => Err(e),
        }
    } else if s[0] == '+' {
        match read_digits(s.drop_first(), 10, 0x7fff_ffff, 0) {
            Ok(v) => Ok(v as int),
            Err(e) => Err(e),
        }
    } else {
        match read_digits(s, 10, 0x7fff_ffff, 0) {
            Ok(v) => Ok(v as int),
            Err(e) => Err(e),
        }
    }
}

/// Reads the digits of `cs` from position `start` on.
fn read_digits_exec(cs: &Vec<char>, start: usize, radix: u32, max: u64, negative: bool) -> (res: Result<u64, IntErrorKind>)
    requires
        2 <= radix <= 36,
        start <= cs@.len(),
        max <= 0xffff_ffff,
    ensures
        !negative ==> match read_digits(cs@.skip(start as int), radix as nat, max as nat, 0) {
            Ok(v) => res == Ok::<u64, IntErrorKind>(v as u64),
            Err(e) => res == Err::<u64, IntErrorKind>(e),
        },
        negative ==> match read_digits_neg(cs@.skip(start as int), radix as nat, max as nat, 0) {
            Ok(v) => res == Ok::<u64, IntErrorKind>(v as u64),
            Err(e) => res == Err::<u64, IntErrorKind>(e),
        },
{
    let mut acc: u64 = 0;
    let mut i = start;
    while i < cs.len()
        invariant
            2 <= radix <= 36,
            start <= i <= cs@.len(),
            acc <= max <= 0xffff_ffff,
            read_digits(cs@.skip(start as int), radix as nat, max as nat, 0) == read_digits(
                cs@.skip(i as int),
                radix as nat,
                max as nat,
                acc as nat,
            ),
            read_digits_neg(cs@.skip(start as int), radix as nat, max as nat, 0)
                == read_digits_neg(cs@.skip(i as int), radix as nat, max as nat, acc as nat),
        decreases cs@.len() - i,
    {
        assert(cs@.skip(i as int).drop_first() =~= cs@.skip(i + 1));
        assert(cs@.skip(i as int)[0] == cs@[i as int]);
        match to_digit(cs[i], radix) {
            None => {
                return Err(IntErrorKind::InvalidDigit);
            },
            Some(d) => {
                assert(acc * radix <= 0xffff_ffff * 36) by (nonlinear_arith)
                    requires
                        acc <= 0xffff_ffff,
                        radix <= 36,
                ;
                let next = acc * radix as u64 + d as u64;
                if next > max {
                    if negative {
                        return Err(IntErrorKind::NegOverflow);
                    } else {
                        return Err(IntErrorKind::PosOverflow);
                    }
                }
                acc = next;
            },
        }
        i = i + 1;
    }
    assert(cs@.skip(i as int) =~= seq![]);
    Ok(acc)
}

/// `u64::from_str_radix`-style reading of an unsigned number no larger than
/// `max`.
pub fn parse_unsigned_radix(s: &str, radix: u32, max: u64) -> (res: Result<u64, IntErrorKind>)
    requires
        2 <= radix <= 36,
        max <= 0xffff_ffff,
    ensures
        match parse_unsigned(s@, radix as nat, max as nat) {
            Ok(v) => res == Ok::<u64, IntErrorKind>(v as u64),
            Err(e) => res == Err::<u64, IntErrorKind>(e),
        },
        parse_unsigned(s@, radix as nat, max as nat) matches Ok(v) ==> v <= max,
{
    proof {
        lemma_read_digits_bound(s@, radix as nat, max as nat, 0);
        if s@.len() > 0 {
            lemma_read_digits_bound(s@.drop_first(), radix as nat, max as nat, 0);
        }
    }
    let cs = chars_of(s);
    if cs.len() == 0 {
        return Err(IntErrorKind::Empty);
    }
    if cs.len() == 1 && (cs[0] == '+' || cs[0] == '-') {
        return Err(IntErrorKind::InvalidDigit);
    }
    if cs[0] == '+' {
        assert(cs@.skip(1) =~= s@.drop_first());
        read_digits_exec(&cs, 1, radix, max, false)
    } else {
        assert(cs@.skip(0) =~= s@);
        read_digits_exec(&cs, 0, radix, max, false)
    }
}

/// `s.parse::<i32>()`.
pub fn parse_i32_str(s: &str) -> (res: Result<i32, IntErrorKind>)
    ensures
        match parse_i32(s@) {
            Ok(v) => res == Ok::<i32, IntErrorKind>(v as i32),
            Err(e) => res == Err::<i32, IntErrorKind>(e),
        },
        parse_i32(s@) matches Ok(v) ==> in_i32_range(v),
{
    let cs = chars_of(s);
    if cs.len() == 0 {
        return Err(IntErrorKind::Empty);
    }
    if cs.len() == 1 && (cs[0] == '+' || cs[0] == '-') {
        return Err(IntErrorKind::InvalidDigit);
    }
    if cs[0] == '-' {
        assert(cs@.skip(1) =~= s@.drop_first());
        match read_digits_exec(&cs, 1, 10, 0x8000_0000, true) {
            Ok(v) => {
                proof { lemma_read_digits_neg_bound(s@.drop_first(), 10nat, 0x8000_0000nat, 0nat); }
                Ok((0 - v as i64) as i32)
            },
            Err(e) => Err(e),
        }
    } else if cs[0] == '+' {
        assert(cs@.skip(1) =~= s@.drop_first());
        match read_digits_exec(&cs, 1, 10, 0x7fff_ffff, false) {
            Ok(v) => {
                proof { lemma_read_digits_bound(s@.drop_first(), 10nat, 0x7fff_ffffnat, 0nat); }
                Ok(v as i32)
            },
            Err(e) => Err(e),
        }
    } else {
        assert(cs@.skip(0) =~= s@);
        match read_digits_exec(&cs, 0, 10, 0x7fff_ffff, false) {
            Ok(v) => {
                proof { lemma_read_digits_bound(s@, 10nat, 0x7fff_ffffnat, 0nat); }
                Ok(v as i32)
            },
            Err(e) => Err(e),
        }
    }
}

pub open spec fn in_i32_range(v: int) -> bool {
    i32::MIN <= v <= i32::MAX
}

proof fn lemma_read_digits_bound(ds: Seq<char>, radix: nat, max: nat, acc: nat)
    requires
        acc <= max,
    ensures
        read_digits(ds, radix, max, acc) matches Ok(v) ==> v <= max,
    decreases ds.len(),
{
    if ds.len() > 0 {
        if let Some(d) = digit_value(ds[0], radix) {
            if acc * radix + d <= max {
                lemma_read_digits_bound(ds.drop_first(), radix, max, acc * radix + d);
            }
        }
    }
}

proof fn lemma_read_digits_neg_bound(ds: Seq<char>, radix: nat, max: nat, acc: nat)
    requires
        acc <= max,
    ensures
        read_digits_neg(ds, radix, max, acc) matches Ok(v) ==> v <= max,
    decreases ds.len(),
{
    if ds.len() > 0 {
        if let Some(d) = digit_value(ds[0], radix) {
            if acc * radix + d <= max {
                lemma_read_digits_neg_bound(ds.drop_first(), radix, max, acc * radix + d);
            }
        }
    }
}

/// `pat` occurs in `s`.
pub open spec fn has_substring(s: Seq<char>, pat: Seq<char>) -> bool {
    exists|i: int| 0 <= i && i + pat.len() <= s.len() && #[trigger] s.subrange(i, i + pat.len()) == pat
}

/// `cp` occurs in `cs` at position `i`.
fn matches_at(cs: &Vec<char>, cp: &Vec<char>, i: usize) -> (res: bool)
    requires
        i + cp@.len() <= cs@.len(),
    ensures
        res == (cs@.subrange(i as int, i + cp@.len()) == cp@),
{
    let n = cs.len();
    let mut k: usize = 0;
    while k < cp.len()
        invariant
            n == cs@.len(),
            i + cp@.len() <= cs@.len(),
            0 <= k <= cp@.len(),
            forall|m: int| 0 <= m < k ==> cs@[i + m] == cp@[m],
        decreases cp@.len() - k,
    {
        if cs[i + k] != cp[k] {
            assert(cs@.subrange(i as int, i + cp@.len())[k as int] != cp@[k as int]);
            return false;
        }
        k = k + 1;
    }
    assert(cs@.subrange(i as int, i + cp@.len()) =~= cp@);
    true
}

/// `s.contains(pat)`.
pub fn contains_str(s: &str, pat: &str) -> (res: bool)
    ensures
        res == has_substring(s@, pat@),
{
    let cs = chars_of(s);
    let cp = chars_of(pat);
    if cp.len() > cs.len() {
        return false;
    }
    let last = cs.len() - cp.len();
    let mut i: usize = 0;
    while i < last
        invariant
            cs@ == s@,
            cp@ == pat@,
            last == cs@.len() - cp@.len(),
            cp@.len() <= cs@.len(),
            0 <= i <= last,
            forall|j: int| 0 <= j < i ==> #[trigger] cs@.subrange(j, j + cp@.len()) != cp@,
        decreases last - i,
    {
        if matches_at(&cs, &cp, i) {
            return true;
        }
        i = i + 1;
    }
    if matches_at(&cs, &cp, last) {
        return true;
    }
    assert forall|j: int| 0 <= j && j + pat@.len() <= s@.len() implies #[trigger] s@.subrange(j, j + pat@.len()) != pat@ by {
        assert(cs@.subrange(j, j + cp@.len()) != cp@);
    }
    false
}

/// `sep` occurs in `s` at `i`.
pub open spec fn occurs_at(s: Seq<char>, sep: Seq<char>, i: int) -> bool {
    0 <= i && i + sep.len() <= s.len() && s.subrange(i, i + sep.len()) == sep
}

/// Where `sep` first occurs in `s`, if it does.
#[verifier::opaque]
pub open spec fn first_occurrence(s: Seq<char>, sep: Seq<char>) -> Option<int> {
    if exists|i: int| #[trigger] occurs_at(s, sep, i) {
        Some(choose|i: int| #[trigger] occurs_at(s, sep, i) && forall|j: int| 0 <= j < i ==> !occurs_at(s, sep, j))
    } else {
        None
    }
}

/// The pieces of `s` between the occurrences of `sep`, found from the left:
/// what `s.split(sep)` gives for a separator that is not empty.
#[verifier::opaque]
pub open spec fn split_on_str(s: Seq<char>, sep: Seq<char>) -> Seq<Seq<char>>
    decreases s.len(),
{
    if sep.len() == 0 {
        seq![s]
    } else {
        match first_occurrence(s, sep) {
            Some(i) => if 0 <= i && i + sep.len() <= s.len() {
                seq![s.take(i)] + split_on_str(s.skip(i + sep.len()), sep)
            } else {
                seq![s]
            },
            None => seq![s],
        }
    }
}

proof fn lemma_first_occurrence(s: Seq<char>, sep: Seq<char>, i: int)
    requires
        occurs_at(s, sep, i),
        forall|j: int| 0 <= j < i ==> !occurs_at(s, sep, j),
    ensures
        first_occurrence(s, sep) == Some(i),
{
    reveal(first_occurrence);
    let c = choose|k: int| #[trigger] occurs_at(s, sep, k) && forall|j: int| 0 <= j < k ==> !occurs_at(s, sep, j);
    assert(occurs_at(s, sep, c) && forall|j: int| 0 <= j < c ==> !occurs_at(s, sep, j));
    if c < i {
        assert(!occurs_at(s, sep, c));
    } else if c > i {
        assert(!occurs_at(s, sep, i));
    }
}

/// Splitting at the first occurrence of `sep` at or after `start`, when it is
/// at `i`: the piece before it, then the pieces after it.
proof fn lemma_split_step(s: Seq<char>, sep: Seq<char>, start: int, i: int)
    requires
        sep.len() > 0,
        0 <= start <= i,
        occurs_at(s, sep, i),
        forall|j: int| start <= j < i ==> !#[trigger] occurs_at(s, sep, j),
    ensures
        split_on_str(s.skip(start), sep) == seq![s.subrange(start, i)] + split_on_str(s.skip(i + sep.len()), sep),
{
    let t = s.skip(start);
    let k = i - start;
    let m = sep.len();
    assert(t.subrange(k, k + m) =~= s.subrange(i, i + m));
    assert(occurs_at(t, sep, k));
    assert forall|j: int| 0 <= j < k implies !occurs_at(t, sep, j) by {
        assert(t.subrange(j, j + m) =~= s.subrange(start + j, start + j + m));
        assert(!occurs_at(s, sep, start + j));
    }
    lemma_first_occurrence(t, sep, k);
    assert(t.take(k) =~= s.subrange(start, i));
    assert(t.skip(k + m) =~= s.skip(i + m));
    reveal_with_fuel(split_on_str, 1);
}

/// With no occurrence of `sep` at or after `start`, the rest is one piece.
proof fn lemma_split_end(s: Seq<char>, sep: Seq<char>, start: int)
    requires
        sep.len() > 0,
        0 <= start <= s.len(),
        forall|j: int| start <= j ==> !#[trigger] occurs_at(s, sep, j),
    ensures
        split_on_str(s.skip(start), sep) == seq![s.skip(start)],
{
    let t = s.skip(start);
    let m = sep.len();
    assert forall|j: int| #[trigger] occurs_at(t, sep, j) implies false by {
        assert(t.subrange(j, j + m) =~= s.subrange(start + j, start + j + m));
        assert(occurs_at(s, sep, start + j));
    }
    assert(first_occurrence(t, sep) is None) by {
        reveal(first_occurrence);
    }
    reveal_with_fuel(split_on_str, 1);
}

/// `s.split(sep)` for a separator that is not empty.
pub fn split_str<'a>(s: &'a str, sep: &str) -> (res: Vec<&'a str>)
    requires
        sep@.len() > 0,
    ensures
        views(res@) == split_on_str(s@, sep@),
{
    let cs = chars_of(s);
    let cp = chars_of(sep);
    let n = cs.len();
    let m = cp.len();
    let mut parts: Vec<&'a str> = Vec::new();
    let mut start: usize = 0;
    let mut i: usize = 0;
    assert(s@.skip(0) =~= s@);
    while i < n && m <= n - i
        invariant
            cs@ == s@,
            cp@ == sep@,
            n == s@.len(),
            m == sep@.len(),
            m > 0,
            0 <= start <= i <= n,
            forall|j: int| start <= j < i ==> !#[trigger] occurs_at(s@, sep@, j),
            views(parts@) + split_on_str(s@.skip(start as int), sep@) == split_on_str(s@, sep@),
        decreases n - i,
    {
        if matches_at(&cs, &cp, i) {
            proof {
                lemma_split_step(s@, sep@, start as int, i as int);
            }
            let piece = s.substring_char(start, i);
            let ghost before = parts@;
            parts.push(piece);
            assert(views(parts@) =~= views(before).push(piece@));
            assert(views(parts@) + split_on_str(s@.skip(i + m), sep@) =~= views(before) + (seq![piece@]
                + split_on_str(s@.skip(i + m), sep@)));
            i = i + m;
            start = i;
        } else {
            assert(!occurs_at(s@, sep@, i as int));
            i = i + 1;
        }
    }
    proof {
        assert forall|j: int| start <= j implies !#[trigger] occurs_at(s@, sep@, j) by {
            if j >= i {
                assert(j + m > n);
            }
        }
        lemma_split_end(s@, sep@, start as int);
    }
    let last = s.substring_char(start, n);
    assert(last@ =~= s@.skip(start as int));
    let ghost before = parts@;
    parts.push(last);
    assert(views(parts@) =~= views(before).push(last@));
    assert(views(parts@) =~= views(before) + seq![s@.skip(start as int)]);
    parts
}

} // verus!
