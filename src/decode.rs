use vstd::prelude::*;
use crate::metrics::{FieldKind, MetricDescriptor};
use crate::timestamp::{datetime_text_parses, is_datetime_text};

verus! {

pub open spec fn is_digit(c: char) -> bool {
    '0' <= c <= '9'
}

pub open spec fn digit_value(c: char) -> int {
    c as int - '0' as int
}

/// The number that a string of decimal digits denotes.
pub open spec fn digits_value(s: Seq<char>) -> int
    decreases s.len(),
{
    if s.len() == 0 {
        0
    } else {
        digits_value(s.drop_last()) * 10 + digit_value(s.last())
    }
}

pub open spec fn all_digits(s: Seq<char>) -> bool {
    forall|i: int| 0 <= i < s.len() ==> is_digit(#[trigger] s[i])
}

/// The digits of an unsigned number: the text without one leading `+`.
pub open spec fn unsigned_digits(s: Seq<char>) -> Seq<char> {
    if s.len() > 0 && s[0] == '+' {
        s.drop_first()
    } else {
        s
    }
}

/// Whether `s` is the text of a `u16`: an optional `+`, then one or more
/// decimal digits whose value is at most 65535.
pub open spec fn is_u16_text(s: Seq<char>) -> bool {
    let d = unsigned_digits(s);
    d.len() > 0 && all_digits(d) && digits_value(d) <= u16::MAX
}

/// Lenient integer coercion: the value of a `u16` text, else 0.
pub open spec fn lenient_u16(s: Seq<char>) -> int {
    if is_u16_text(s) {
        digits_value(unsigned_digits(s))
    } else {
        0
    }
}

/// Lenient boolean coercion: only the text `true` is true.
pub open spec fn lenient_bool(s: Seq<char>) -> bool {
    s == "true"@
}

proof fn digits_value_nonneg(s: Seq<char>)
    requires
        all_digits(s),
    ensures
        digits_value(s) >= 0,
    decreases s.len(),
{
    if s.len() > 0 {
        digits_value_nonneg(s.drop_last());
    }
}

/// A longer digit string is worth at least as much as its prefix.
proof fn digits_value_prefix(s: Seq<char>, k: int)
    requires
        all_digits(s),
        0 <= k <= s.len(),
    ensures
        digits_value(s.subrange(0, k)) <= digits_value(s),
    decreases s.len() - k,
{
    if k < s.len() {
        digits_value_prefix(s, k + 1);
        let p = s.subrange(0, k + 1);
        assert(p.drop_last() =~= s.subrange(0, k));
        digits_value_nonneg(s.subrange(0, k));
    } else {
        assert(s.subrange(0, k) =~= s);
    }
}

/// Reads a boolean leniently: `true` gives true, any other text false.
pub fn coerce_bool(s: &str) -> (r: bool)
    ensures
        r == lenient_bool(s@),
{
    let t = "true";
    proof {
        reveal_strlit("true");
    }
    let n = s.unicode_len();
    if n != 4 {
        return false;
    }
    let mut i: usize = 0;
    while i < 4
        invariant
            i <= 4,
            n == 4 == s@.len(),
            t@ == "true"@,
            t@.len() == 4,
            forall|j: int| 0 <= j < i ==> s@[j] == t@[j],
        decreases 4 - i,
    {
        if s.get_char(i) != t.get_char(i) {
            return false;
        }
        i = i + 1;
    }
    assert(s@ =~= t@);
    true
}

/// Reads a `u16` leniently: the value of a `u16` text, any other text 0.
pub fn coerce_u16(s: &str) -> (r: u16)
    ensures
        r as int == lenient_u16(s@),
{
    let n = s.unicode_len();
    let start: usize = if n > 0 && s.get_char(0) == '+' { 1 } else { 0 };
    let ghost d = unsigned_digits(s@);
    proof {
        assert(d =~= s@.subrange(start as int, n as int));
    }
    if start >= n {
        return 0;
    }
    let mut acc: u32 = 0;
    let mut i: usize = start;
    while i < n
        invariant
            start <= i <= n,
            n == s@.len(),
            d == s@.subrange(start as int, n as int),
            d == unsigned_digits(s@),
            all_digits(d.subrange(0, i - start)),
            acc as int == digits_value(d.subrange(0, i - start)),
            acc <= u16::MAX,
        decreases n - i,
    {
        let c = s.get_char(i);
        if c < '0' || c > '9' {
            proof {
                assert(d[i - start] == c);
                assert(!is_digit(d[i - start]));
                assert(!all_digits(d));
            }
            return 0;
        }
        let v: u32 = (c as u32) - ('0' as u32);
        let next: u32 = acc * 10 + v;
        proof {
            let p = d.subrange(0, i - start + 1);
            assert(p.drop_last() =~= d.subrange(0, i - start));
            assert(p.last() == c);
            assert(all_digits(p));
            assert(digit_value(c) == v as int);
            assert(digits_value(p) == acc as int * 10 + v as int);
        }
        if next > 65535 {
            proof {
                let p = d.subrange(0, i - start + 1);
                if all_digits(d) {
                    digits_value_prefix(d, i - start + 1);
                    assert(digits_value(d) > u16::MAX);
                }
                assert(!is_u16_text(s@));
            }
            return 0;
        }
        acc = next;
        i = i + 1;
    }
    proof {
        assert(d.subrange(0, n - start) =~= d);
    }
    acc as u16
}

pub open spec fn digit_char(n: int) -> char {
    ('0' as int + n) as char
}

/// The shortest decimal text of `n`.
pub open spec fn decimal_text(n: nat) -> Seq<char>
    decreases n,
{
    if n < 10 {
        seq![digit_char(n as int)]
    } else {
        decimal_text(n / 10) + seq![digit_char((n % 10) as int)]
    }
}

fn digit_text(n: u16) -> (r: String)
    requires
        n < 10,
    ensures
        r@ == seq![digit_char(n as int)],
{
    let digits = "0123456789";
    proof {
        reveal_strlit("0123456789");
    }
    let s = digits.substring_char(n as usize, n as usize + 1);
    proof {
        assert(s@ =~= seq![digit_char(n as int)]);
    }
    String::from_str(s)
}

/// The decimal text of `n`.
pub fn u16_text(n: u16) -> (r: String)
    ensures
        r@ == decimal_text(n as nat),
    decreases n,
{
    if n < 10 {
        digit_text(n)
    } else {
        let mut r = u16_text(n / 10);
        let last = digit_text(n % 10);
        r.append(last.as_str());
        r
    }
}

pub open spec fn opt_view(o: Option<String>) -> Option<Seq<char>> {
    match o {
        Some(s) => Some(s@),
        None => None,
    }
}

/// The cell that a raw value decodes to under `kind`, or `None` where a
/// value that must be present is absent or a timestamp does not read as one.
pub open spec fn decoded_cell(kind: FieldKind, raw: Option<Seq<char>>) -> Option<Seq<char>> {
    match raw {
        None => match kind {
            FieldKind::OptionalText => Some(Seq::empty()),
            _ => None,
        },
        Some(s) => match kind {
            FieldKind::LenientBool => Some(
                if lenient_bool(s) {
                    "true"@
                } else {
                    "false"@
                },
            ),
            FieldKind::LenientU16 => Some(decimal_text(lenient_u16(s) as nat)),
            FieldKind::Timestamp => if is_datetime_text(s) {
                Some(s)
            } else {
                None
            },
            _ => Some(s),
        },
    }
}

/// Decodes one raw value under `kind`.
pub fn decode_cell(kind: FieldKind, raw: &Option<String>) -> (r: Option<String>)
    ensures
        opt_view(r) == decoded_cell(kind, opt_view(*raw)),
{
    match raw {
        None => match kind {
            FieldKind::OptionalText => Some(String::new()),
            _ => None,
        },
        Some(s) => match kind {
            FieldKind::LenientBool => {
                if coerce_bool(s.as_str()) {
                    Some(String::from_str("true"))
                } else {
                    Some(String::from_str("false"))
                }
            },
            FieldKind::LenientU16 => {
                let v = coerce_u16(s.as_str());
                Some(u16_text(v))
            },
            FieldKind::Timestamp => {
                if datetime_text_parses(s.as_str()) {
                    Some(s.clone())
                } else {
                    None
                }
            },
            _ => Some(s.clone()),
        },
    }
}

/// Why a raw row could not be decoded.
#[derive(Clone, Copy, Debug, PartialEq, Eq, Structural)]
pub enum DecodeError {
    /// The row holds another number of values than the metric has fields.
    ColumnCount { expected: usize, found: usize },
    /// The value of a field that must be present is absent, or the value of
    /// the timestamp field does not read as an instant.
    InvalidValue { column: usize },
}

pub open spec fn raw_views(raw: Seq<Option<String>>) -> Seq<Option<Seq<char>>> {
    raw.map_values(|o: Option<String>| opt_view(o))
}

/// Whether the value in `column` decodes.
pub open spec fn cell_decodes(kinds: Seq<FieldKind>, raw: Seq<Option<Seq<char>>>, column: int) -> bool {
    decoded_cell(kinds[column], raw[column]) is Some
}

/// The outcome of decoding a raw row against the field kinds: the decoded
/// cells, or the first reason that it fails.
pub open spec fn decoded_record(kinds: Seq<FieldKind>, raw: Seq<Option<Seq<char>>>) -> Result<
    Seq<Seq<char>>,
    DecodeError,
> {
    if raw.len() != kinds.len() {
        Err(DecodeError::ColumnCount { expected: kinds.len() as usize, found: raw.len() as usize })
    } else if exists|j: int| 0 <= j < raw.len() && !cell_decodes(kinds, raw, j) {
        let j = choose|j: int|
            0 <= j < raw.len() && !cell_decodes(kinds, raw, j) && forall|k: int|
                0 <= k < j ==> cell_decodes(kinds, raw, k);
        Err(DecodeError::InvalidValue { column: j as usize })
    } else {
        Ok(Seq::new(raw.len(), |i: int| decoded_cell(kinds[i], raw[i])->Some_0))
    }
}

/// Decodes one raw row of `metric`'s series into its CSV cells.
pub fn decode_record(metric: &MetricDescriptor, raw: &Vec<Option<String>>) -> (r: Result<
    Vec<String>,
    DecodeError,
>)
    ensures
        match r {
            Ok(cells) => decoded_record(metric.field_kinds(), raw_views(raw@)) == Ok::<
                Seq<Seq<char>>,
                DecodeError,
            >(cells@.map_values(|s: String| s@)),
            Err(e) => decoded_record(metric.field_kinds(), raw_views(raw@)) == Err::<
                Seq<Seq<char>>,
                DecodeError,
            >(e),
        },
{
    let ghost kinds = metric.field_kinds();
    let ghost rv = raw_views(raw@);
    let n = metric.fields.len();
    if raw.len() != n {
        return Err(DecodeError::ColumnCount { expected: n, found: raw.len() });
    }
    let mut cells: Vec<String> = Vec::new();
    let mut i: usize = 0;
    while i < n
        invariant
            i <= n,
            n == metric.fields@.len() == raw@.len(),
            kinds == metric.field_kinds(),
            rv == raw_views(raw@),
            cells@.len() == i,
            forall|k: int| 0 <= k < i ==> cell_decodes(kinds, rv, k),
            forall|k: int|
                0 <= k < i ==> Some(#[trigger] cells@[k]@) == decoded_cell(kinds[k], rv[k]),
        decreases n - i,
    {
        let c = decode_cell(metric.fields[i].kind, &raw[i]);
        proof {
            assert(kinds[i as int] == metric.fields@[i as int].kind);
            assert(rv[i as int] == opt_view(raw@[i as int]));
        }
        match c {
            Some(text) => {
                cells.push(text);
            },
            None => {
                proof {
                    assert(!cell_decodes(kinds, rv, i as int));
                    let j = choose|j: int|
                        0 <= j < rv.len() && !cell_decodes(kinds, rv, j) && forall|k: int|
                            0 <= k < j ==> cell_decodes(kinds, rv, k);
                    assert(j == i) by {
                        if j < i {
                            assert(cell_decodes(kinds, rv, j));
                        }
                        if j > i {
                            assert(cell_decodes(kinds, rv, i as int));
                        }
                    }
                }
                return Err(DecodeError::InvalidValue { column: i });
            },
        }
        i = i + 1;
    }
    proof {
        assert(cells@.map_values(|s: String| s@) =~= Seq::new(
            rv.len(),
            |k: int| decoded_cell(kinds[k], rv[k])->Some_0,
        ));
    }
    Ok(cells)
}

} // verus!

verus! {

/// Whether `s` is a port number: one or more decimal digits (no sign) whose
/// value is at most 65535.
pub open spec fn is_port_text(s: Seq<char>) -> bool {
    s.len() > 0 && all_digits(s) && digits_value(s) <= u16::MAX
}

/// The port number that `s` writes, or `None` where it writes none.
pub fn port_number(s: &str) -> (r: Option<u16>)
    ensures
        r is Some <==> is_port_text(s@),
        r matches Some(p) ==> p as int == digits_value(s@),
{
    let n = s.unicode_len();
    if n == 0 {
        return None;
    }
    let mut acc: u32 = 0;
    let mut i: usize = 0;
    while i < n
        invariant
            i <= n,
            n == s@.len(),
            all_digits(s@.subrange(0, i as int)),
            acc as int == digits_value(s@.subrange(0, i as int)),
            acc <= u16::MAX,
        decreases n - i,
    {
        let c = s.get_char(i);
        if c < '0' || c > '9' {
            proof {
                assert(!is_digit(s@[i as int]));
            }
            return None;
        }
        let v: u32 = (c as u32) - ('0' as u32);
        let next: u32 = acc * 10 + v;
        proof {
            let p = s@.subrange(0, i as int + 1);
            assert(p.drop_last() =~= s@.subrange(0, i as int));
            assert(p.last() == c);
            assert(all_digits(p));
            assert(digit_value(c) == v as int);
            assert(digits_value(p) == acc as int * 10 + v as int);
        }
        if next > 65535 {
            proof {
                if all_digits(s@) {
                    digits_value_prefix(s@, i as int + 1);
                }
            }
            return None;
        }
        acc = next;
        i = i + 1;
    }
    proof {
        assert(s@.subrange(0, n as int) =~= s@);
    }
    Some(acc as u16)
}

} // verus!
