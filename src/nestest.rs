use vstd::prelude::*;
use vstd::string::StringSliceAdditionalSpecFns;

verus! {

/// The registers and dot column recorded on one line of a reference trace.
#[derive(Clone, Copy, Debug, PartialEq, Eq, Structural)]
pub struct NestestLine {
    pub pc: u16,
    pub a: u8,
    pub x: u8,
    pub y: u8,
    pub p: u8,
    pub sp: u8,
    pub cyc: u32,
}

/// The labelled fields of a trace line, as far as they have been read.
#[derive(Clone, Copy, Debug, PartialEq, Eq, Structural)]
pub struct TraceFields {
    pub a: Option<u8>,
    pub x: Option<u8>,
    pub y: Option<u8>,
    pub p: Option<u8>,
    pub sp: Option<u8>,
    /// A token without a register label was seen.
    pub other: bool,
}

/// Which register a token labels, by its prefix `A:`, `X:`, `Y:`, `P:` or `SP:`.
#[derive(Clone, Copy, Debug, PartialEq, Eq, Structural)]
pub enum Label {
    A,
    X,
    Y,
    P,
    Sp,
    Unlabelled,
}

// ---------------------------------------------------------------------------
// The format
// ---------------------------------------------------------------------------
/// ASCII whitespace: space, and tab through carriage return.
pub open spec fn is_space(b: u8) -> bool {
    b == 0x20 || (0x09 <= b <= 0x0D)
}

/// The first index from `i` that does not hold whitespace, or the end.
pub open spec fn skip_spaces(s: Seq<u8>, i: int) -> int
    decreases s.len() - i,
{
    if i < 0 || i >= s.len() || !is_space(s[i]) {
        i
    } else {
        skip_spaces(s, i + 1)
    }
}

/// The first index from `i` that holds whitespace, or the end.
pub open spec fn token_end(s: Seq<u8>, i: int) -> int
    decreases s.len() - i,
{
    if i < 0 || i >= s.len() || is_space(s[i]) {
        i
    } else {
        token_end(s, i + 1)
    }
}

/// The value of a digit in the radix, if it is one (either case for hex).
pub open spec fn digit(b: u8, radix: int) -> Option<int> {
    let v = if 0x30 <= b <= 0x39 {
        b - 0x30
    } else if 0x41 <= b <= 0x46 {
        b - 0x41 + 10
    } else if 0x61 <= b <= 0x66 {
        b - 0x61 + 10
    } else {
        99
    };
    if v < radix {
        Some(v)
    } else {
        None
    }
}

pub open spec fn all_digits(s: Seq<u8>, radix: int) -> bool {
    forall|i: int| 0 <= i < s.len() ==> #[trigger] digit(s[i], radix).is_some()
}

/// The number the digits spell, most significant first.
pub open spec fn digits_value(s: Seq<u8>, radix: int) -> int
    decreases s.len(),
{
    if s.len() == 0 {
        0
    } else {
        digits_value(s.drop_last(), radix) * radix + digit(s.last(), radix).unwrap()
    }
}

/// An unsigned number: an optional `+`, then one or more digits, at most `max`.
pub open spec fn number(s: Seq<u8>, radix: int, max: int) -> Option<int> {
    let body = if s.len() > 0 && s[0] == 0x2B {
        s.drop_first()
    } else {
        s
    };
    if body.len() > 0 && all_digits(body, radix) && digits_value(body, radix) <= max {
        Some(digits_value(body, radix))
    } else {
        None
    }
}

pub open spec fn hex_byte(s: Seq<u8>) -> Option<u8> {
    match number(s, 16, 0xFF) {
        Some(v) => Some(v as u8),
        None => None,
    }
}

/// The label of a token and the length of its prefix.
pub open spec fn label_of(t: Seq<u8>) -> (Label, int) {
    if t.len() >= 2 && t[0] == 0x41 && t[1] == 0x3A {
        (Label::A, 2)
    } else if t.len() >= 2 && t[0] == 0x58 && t[1] == 0x3A {
        (Label::X, 2)
    } else if t.len() >= 2 && t[0] == 0x59 && t[1] == 0x3A {
        (Label::Y, 2)
    } else if t.len() >= 2 && t[0] == 0x50 && t[1] == 0x3A {
        (Label::P, 2)
    } else if t.len() >= 3 && t[0] == 0x53 && t[1] == 0x50 && t[2] == 0x3A {
        (Label::Sp, 3)
    } else {
        (Label::Unlabelled, 0)
    }
}

/// Reads one token into the fields: a labelled token sets its register to
/// the hex value after the label (`None` when that is not a byte); any other
/// token is only noted.
pub open spec fn read_token(f: TraceFields, t: Seq<u8>) -> TraceFields {
    let (label, n) = label_of(t);
    let v = hex_byte(t.subrange(n, t.len() as int));
    match label {
        Label::A => TraceFields { a: v, ..f },
        Label::X => TraceFields { x: v, ..f },
        Label::Y => TraceFields { y: v, ..f },
        Label::P => TraceFields { p: v, ..f },
        Label::Sp => TraceFields { sp: v, ..f },
        Label::Unlabelled => TraceFields { other: true, ..f },
    }
}

/// Reads the whitespace-separated tokens from `i` to the end in order;
/// `start` is where the token under way began, or -1 between tokens.
pub open spec fn scan(s: Seq<u8>, i: int, start: int, f: TraceFields) -> TraceFields
    decreases s.len() - i,
{
    if i >= s.len() {
        if start >= 0 {
            read_token(f, s.subrange(start, s.len() as int))
        } else {
            f
        }
    } else if is_space(s[i]) {
        let f1 = if start >= 0 {
            read_token(f, s.subrange(start, i))
        } else {
            f
        };
        scan(s, i + 1, -1, f1)
    } else {
        scan(s, i + 1, if start >= 0 { start } else { i }, f)
    }
}

pub open spec fn no_fields() -> TraceFields {
    TraceFields { a: None, x: None, y: None, p: None, sp: None, other: false }
}

/// `CYC:` starts at `i`.
pub open spec fn cyc_at(s: Seq<u8>, i: int) -> bool {
    0 <= i && i + 4 <= s.len() && s[i] == 0x43 && s[i + 1] == 0x59 && s[i + 2] == 0x43 && s[i
        + 3] == 0x3A
}

/// The first index from `i` where `CYC:` starts.
pub open spec fn find_cyc(s: Seq<u8>, i: int) -> Option<int>
    decreases s.len() - i,
{
    if i < 0 || i + 4 > s.len() {
        None
    } else if cyc_at(s, i) {
        Some(i)
    } else {
        find_cyc(s, i + 1)
    }
}

/// The cycle field: `Some(None)` when the line has no `CYC:`; `None` when it
/// has one with nothing after it, which rejects the line; else the decimal
/// value of the first token after it, if it fits in 32 bits.
pub open spec fn cyc_field(s: Seq<u8>, from: int) -> Option<Option<u32>> {
    match find_cyc(s, from) {
        None => Some(None),
        Some(k) => {
            let b = skip_spaces(s, k + 4);
            if b >= s.len() {
                None
            } else {
                match number(s.subrange(b, token_end(s, b)), 10, 0xFFFF_FFFF) {
                    Some(v) => Some(Some(v as u32)),
                    None => Some(None),
                }
            }
        },
    }
}

/// A trace line, after leading whitespace: four hex digits of PC, then
/// tokens among which `A:`, `X:`, `Y:`, `P:` and `SP:` give the registers in
/// hex (the last of each counting) and the token after `CYC:` gives the dot
/// column in decimal. The cycle field is read only when some unlabelled
/// token is present; the line is rejected unless every value is there.
pub open spec fn trace_line(s: Seq<u8>) -> Option<NestestLine> {
    let t0 = skip_spaces(s, 0);
    if t0 + 4 > s.len() {
        None
    } else {
        match number(s.subrange(t0, t0 + 4), 16, 0xFFFF) {
            None => None,
            Some(pc) => {
                let f = scan(s, t0, -1, no_fields());
                let cyc = if f.other {
                    cyc_field(s, t0)
                } else {
                    Some(None)
                };
                match (f.a, f.x, f.y, f.p, f.sp, cyc) {
                    (Some(a), Some(x), Some(y), Some(p), Some(sp), Some(Some(c))) => Some(
                        NestestLine { pc: pc as u16, a, x, y, p, sp, cyc: c },
                    ),
                    _ => None,
                }
            },
        }
    }
}

// ---------------------------------------------------------------------------
// Reading it
// ---------------------------------------------------------------------------
proof fn lemma_digits_grow(s: Seq<u8>, radix: int, i: int)
    requires
        radix >= 1,
        0 <= i <= s.len(),
        all_digits(s, radix),
    ensures
        digits_value(s.take(i), radix) <= digits_value(s, radix),
        digits_value(s, radix) >= 0,
    decreases s.len(),
{
    if s.len() > 0 {
        let p = s.drop_last();
        assert(all_digits(p, radix)) by {
            assert forall|j: int| 0 <= j < p.len() implies #[trigger] digit(p[j], radix).is_some() by {
                assert(p[j] == s[j]);
            }
        }
        assert(digit(s[s.len() - 1], radix).is_some());
        if i < s.len() {
            assert(s.take(i) =~= p.take(i));
            lemma_digits_grow(p, radix, i);
        } else {
            assert(s.take(i) =~= s);
            lemma_digits_grow(p, radix, 0);
        }
        let v = digits_value(p, radix);
        assert(v * radix >= v) by (nonlinear_arith)
            requires
                v >= 0,
                radix >= 1,
        ;
    }
}

fn digit_of(b: u8, radix: u64) -> (r: Option<u64>)
    requires
        radix == 10 || radix == 16,
    ensures
        r matches Some(v) ==> digit(b, radix as int) == Some(v as int),
        r is None ==> digit(b, radix as int) is None,
{
    let v: u64 = if 0x30 <= b && b <= 0x39 {
        (b - 0x30) as u64
    } else if 0x41 <= b && b <= 0x46 {
        (b - 0x41 + 10) as u64
    } else if 0x61 <= b && b <= 0x66 {
        (b - 0x61 + 10) as u64
    } else {
        99
    };
    if v < radix {
        Some(v)
    } else {
        None
    }
}

/// The number spelled by `line[start..end]`.
fn read_number(line: &[u8], start: usize, end: usize, radix: u64, max: u64) -> (r: Option<u64>)
    requires
        start <= end <= line@.len(),
        radix == 10 || radix == 16,
        max <= 0xFFFF_FFFF,
    ensures
        r matches Some(v) ==> number(line@.subrange(start as int, end as int), radix as int, max as int)
            == Some(v as int),
        r is None ==> number(line@.subrange(start as int, end as int), radix as int, max as int)
            is None,
{
    let ghost s = line@.subrange(start as int, end as int);
    let mut i = start;
    if i < end && line[i] == 0x2B {
        i = i + 1;
    }
    let ghost body = line@.subrange(i as int, end as int);
    assert(body == if s.len() > 0 && s[0] == 0x2B {
        s.drop_first()
    } else {
        s
    });
    if i == end {
        return None;
    }
    let first = i;
    let mut value: u64 = 0;
    let mut too_big = false;
    while i < end
        invariant
            first <= i <= end <= line@.len(),
            body == line@.subrange(first as int, end as int),
            s == line@.subrange(start as int, end as int),
            body == if s.len() > 0 && s[0] == 0x2B {
                s.drop_first()
            } else {
                s
            },
            radix == 10 || radix == 16,
            max <= 0xFFFF_FFFF,
            all_digits(body.take(i - first), radix as int),
            !too_big ==> value == digits_value(body.take(i - first), radix as int) && value <= max,
            too_big ==> digits_value(body.take(i - first), radix as int) > max,
        decreases end - i,
    {
        let d = match digit_of(line[i], radix) {
            Some(d) => d,
            None => {
                assert(!all_digits(body, radix as int)) by {
                    assert(body[i - first] == line@[i as int]);
                    assert(digit(body[i - first], radix as int) is None);
                }
                return None;
            },
        };
        let ghost k = i - first;
        proof {
            assert(body.take(k + 1).drop_last() =~= body.take(k));
            assert(body.take(k + 1).last() == line@[i as int]);
            assert(all_digits(body.take(k + 1), radix as int)) by {
                assert forall|j: int| 0 <= j < k + 1 implies #[trigger] digit(
                    body.take(k + 1)[j],
                    radix as int,
                ).is_some() by {
                    if j < k {
                        assert(body.take(k + 1)[j] == body.take(k)[j]);
                    }
                }
            }
            lemma_digits_grow(body.take(k), radix as int, 0);
        }
        if !too_big {
            assert(value * radix <= 0xFFFF_FFFF * 16) by (nonlinear_arith)
                requires
                    value <= 0xFFFF_FFFF,
                    radix <= 16,
            ;
            let next = value * radix + d;
            if next > max {
                too_big = true;
            } else {
                value = next;
            }
        } else {
            let ghost v0 = digits_value(body.take(k), radix as int);
            assert(v0 * radix + d >= v0) by (nonlinear_arith)
                requires
                    v0 >= 0,
                    radix >= 1,
                    d >= 0,
            ;
        }
        i = i + 1;
    }
    assert(body.take(i - first) =~= body);
    if too_big {
        None
    } else {
        Some(value)
    }
}

fn space(b: u8) -> (r: bool)
    ensures
        r == is_space(b),
{
    b == 0x20 || (0x09 <= b && b <= 0x0D)
}

fn skip_spaces_from(line: &[u8], i: usize) -> (r: usize)
    requires
        i <= line@.len(),
    ensures
        r == skip_spaces(line@, i as int),
        i <= r <= line@.len(),
{
    let mut j = i;
    while j < line.len() && space(line[j])
        invariant
            i <= j <= line@.len(),
            skip_spaces(line@, i as int) == skip_spaces(line@, j as int),
        decreases line@.len() - j,
    {
        j = j + 1;
    }
    j
}

fn token_end_from(line: &[u8], i: usize) -> (r: usize)
    requires
        i <= line@.len(),
    ensures
        r == token_end(line@, i as int),
        i <= r <= line@.len(),
{
    let mut j = i;
    while j < line.len() && !space(line[j])
        invariant
            i <= j <= line@.len(),
            token_end(line@, i as int) == token_end(line@, j as int),
        decreases line@.len() - j,
    {
        j = j + 1;
    }
    j
}

fn label_at(line: &[u8], start: usize, end: usize) -> (r: (Label, usize))
    requires
        start <= end <= line@.len(),
    ensures
        (r.0, r.1 as int) == label_of(line@.subrange(start as int, end as int)),
        r.1 <= end - start,
{
    let len = end - start;
    if len >= 2 && line[start] == 0x41 && line[start + 1] == 0x3A {
        (Label::A, 2)
    } else if len >= 2 && line[start] == 0x58 && line[start + 1] == 0x3A {
        (Label::X, 2)
    } else if len >= 2 && line[start] == 0x59 && line[start + 1] == 0x3A {
        (Label::Y, 2)
    } else if len >= 2 && line[start] == 0x50 && line[start + 1] == 0x3A {
        (Label::P, 2)
    } else if len >= 3 && line[start] == 0x53 && line[start + 1] == 0x50 && line[start + 2]
        == 0x3A {
        (Label::Sp, 3)
    } else {
        (Label::Unlabelled, 0)
    }
}

/// Reads the token `line[start..end]` into the fields.
fn read_token_at(f: &mut TraceFields, line: &[u8], start: usize, end: usize)
    requires
        start <= end <= line@.len(),
    ensures
        *final(f) == read_token(*old(f), line@.subrange(start as int, end as int)),
{
    let ghost t = line@.subrange(start as int, end as int);
    let (label, n) = label_at(line, start, end);
    let v = match read_number(line, start + n, end, 16, 0xFF) {
        Some(v) => Some(v as u8),
        None => None,
    };
    assert(t.subrange(n as int, t.len() as int) =~= line@.subrange(start + n, end as int));
    match label {
        Label::A => f.a = v,
        Label::X => f.x = v,
        Label::Y => f.y = v,
        Label::P => f.p = v,
        Label::Sp => f.sp = v,
        Label::Unlabelled => f.other = true,
    }
}

/// Reads every token from `from` to the end of the line.
fn scan_from(line: &[u8], from: usize) -> (r: TraceFields)
    requires
        from <= line@.len(),
    ensures
        r == scan(line@, from as int, -1, no_fields()),
{
    let mut f = TraceFields { a: None, x: None, y: None, p: None, sp: None, other: false };
    let mut in_token = false;
    let mut start: usize = 0;
    let mut i = from;
    while i < line.len()
        invariant
            from <= i <= line@.len(),
            in_token ==> start < i,
            scan(line@, from as int, -1, no_fields()) == scan(
                line@,
                i as int,
                if in_token {
                    start as int
                } else {
                    -1
                },
                f,
            ),
        decreases line@.len() - i,
    {
        if space(line[i]) {
            if in_token {
                read_token_at(&mut f, line, start, i);
                in_token = false;
            }
        } else if !in_token {
            in_token = true;
            start = i;
        }
        i = i + 1;
    }
    if in_token {
        read_token_at(&mut f, line, start, line.len());
    }
    f
}

fn find_cyc_from(line: &[u8], from: usize) -> (r: Option<usize>)
    requires
        from <= line@.len(),
    ensures
        r matches Some(k) ==> find_cyc(line@, from as int) == Some(k as int) && k + 4
            <= line.len(),
        r is None ==> find_cyc(line@, from as int) is None,
{
    let mut i = from;
    while line.len() >= 4 && i <= line.len() - 4
        invariant
            from <= i,
            find_cyc(line@, from as int) == find_cyc(line@, i as int),
        decreases line@.len() - i,
    {
        if line[i] == 0x43 && line[i + 1] == 0x59 && line[i + 2] == 0x43 && line[i + 3] == 0x3A {
            return Some(i);
        }
        i = i + 1;
    }
    None
}

fn read_cyc(line: &[u8], from: usize) -> (r: Option<Option<u32>>)
    requires
        from <= line@.len(),
    ensures
        r == cyc_field(line@, from as int),
{
    match find_cyc_from(line, from) {
        None => Some(None),
        Some(k) => {
            let b = skip_spaces_from(line, k + 4);
            if b >= line.len() {
                None
            } else {
                let e = token_end_from(line, b);
                match read_number(line, b, e, 10, 0xFFFF_FFFF) {
                    Some(v) => Some(Some(v as u32)),
                    None => Some(None),
                }
            }
        },
    }
}

/// Reads PC, A, X, Y, P, SP and the dot column from one line of a reference
/// trace; `None` unless all of them are there.
pub fn parse_nestest_line(line: &str) -> (r: Option<NestestLine>)
    ensures
        r == trace_line(line.spec_bytes()),
{
    let bytes = line.as_bytes();
    let t0 = skip_spaces_from(bytes, 0);
    if bytes.len() < 4 || t0 > bytes.len() - 4 {
        return None;
    }
    let pc = match read_number(bytes, t0, t0 + 4, 16, 0xFFFF) {
        Some(v) => v as u16,
        None => {
            return None;
        },
    };
    let f = scan_from(bytes, t0);
    let cyc = if f.other {
        read_cyc(bytes, t0)
    } else {
        Some(None)
    };
    match (f.a, f.x, f.y, f.p, f.sp, cyc) {
        (Some(a), Some(x), Some(y), Some(p), Some(sp), Some(Some(c))) => Some(
            NestestLine { pc, a, x, y, p, sp, cyc: c },
        ),
        _ => None,
    }
}

} // verus!
