use vstd::prelude::*;

verus! {

/// `items` written one after another with `sep` between each two.
pub open spec fn join(items: Seq<Seq<char>>, sep: Seq<char>) -> Seq<char>
    decreases items.len(),
{
    if items.len() == 0 {
        Seq::empty()
    } else if items.len() == 1 {
        items[0]
    } else {
        join(items.drop_last(), sep) + sep + items.last()
    }
}

pub open spec fn string_views(v: Seq<String>) -> Seq<Seq<char>> {
    v.map_values(|s: String| s@)
}

/// Joins `items` with `sep` between each two.
pub fn join_strings(items: &Vec<String>, sep: &str) -> (r: String)
    ensures
        r@ == join(string_views(items@), sep@),
{
    let mut out = String::new();
    let n = items.len();
    if n == 0 {
        return out;
    }
    out.append(items[0].as_str());
    let mut i: usize = 1;
    proof {
        assert(string_views(items@).subrange(0, 1) =~= seq![items@[0]@]);
    }
    while i < n
        invariant
            1 <= i <= n,
            n == items@.len(),
            out@ == join(string_views(items@).subrange(0, i as int), sep@),
        decreases n - i,
    {
        out.append(sep);
        out.append(items[i].as_str());
        proof {
            let s = string_views(items@).subrange(0, i as int + 1);
            assert(s.drop_last() =~= string_views(items@).subrange(0, i as int));
        }
        i = i + 1;
    }
    proof {
        assert(string_views(items@).subrange(0, n as int) =~= string_views(items@));
    }
    out
}

pub open spec fn is_csv_special(c: char) -> bool {
    c == ',' || c == '"' || c == '\n' || c == '\r'
}

/// Whether a CSV cell must be put in quotes.
pub open spec fn needs_quotes(s: Seq<char>) -> bool {
    exists|i: int| 0 <= i < s.len() && is_csv_special(#[trigger] s[i])
}

/// `s` with each double quote written twice.
pub open spec fn double_quotes(s: Seq<char>) -> Seq<char>
    decreases s.len(),
{
    if s.len() == 0 {
        Seq::empty()
    } else {
        double_quotes(s.drop_last()) + (if s.last() == '"' {
            seq!['"', '"']
        } else {
            seq![s.last()]
        })
    }
}

/// The CSV encoding of one cell: as it is, or in quotes with its quotes
/// doubled where it holds a comma, a quote or a line break.
pub open spec fn csv_cell(s: Seq<char>) -> Seq<char> {
    if needs_quotes(s) {
        seq!['"'] + double_quotes(s) + seq!['"']
    } else {
        s
    }
}

/// The CSV encoding of one cell.
pub fn encode_cell(s: &str) -> (r: String)
    ensures
        r@ == csv_cell(s@),
{
    let n = s.unicode_len();
    let mut body = String::new();
    let mut special = false;
    let mut i: usize = 0;
    while i < n
        invariant
            i <= n,
            n == s@.len(),
            body@ == double_quotes(s@.subrange(0, i as int)),
            special <==> exists|j: int| 0 <= j < i && is_csv_special(#[trigger] s@[j]),
        decreases n - i,
    {
        let c = s.get_char(i);
        if c == '"' {
            body.append("\"\"");
        } else {
            body.append(s.substring_char(i, i + 1));
        }
        if c == ',' || c == '"' || c == '\n' || c == '\r' {
            special = true;
        }
        proof {
            reveal_strlit("\"\"");
            let t = s@.subrange(0, i as int + 1);
            assert(t.drop_last() =~= s@.subrange(0, i as int));
            assert(t.last() == c);
            assert(s@.subrange(i as int, i as int + 1) =~= seq![c]);
        }
        i = i + 1;
    }
    proof {
        assert(s@.subrange(0, n as int) =~= s@);
    }
    if special {
        let mut out = String::from_str("\"");
        out.append(body.as_str());
        out.append("\"");
        proof {
            reveal_strlit("\"");
        }
        out
    } else {
        proof {
            double_quotes_plain(s@);
        }
        body
    }
}

/// Where no cell character is special, doubling the quotes changes nothing.
pub proof fn double_quotes_plain(s: Seq<char>)
    requires
        !needs_quotes(s),
    ensures
        double_quotes(s) == s,
    decreases s.len(),
{
    if s.len() > 0 {
        let t = s.drop_last();
        assert(!needs_quotes(t)) by {
            if needs_quotes(t) {
                let i = choose|i: int| 0 <= i < t.len() && is_csv_special(#[trigger] t[i]);
                assert(s[i] == t[i]);
            }
        }
        double_quotes_plain(t);
        assert(!is_csv_special(s[s.len() - 1]));
        assert(s =~= t + seq![s.last()]);
    }
}

/// One CSV line: the encoded cells separated by commas, ended by a line feed.
pub open spec fn csv_line(cells: Seq<Seq<char>>) -> Seq<char> {
    join(cells.map_values(|c: Seq<char>| csv_cell(c)), seq![',']) + seq!['\n']
}

/// Writes `cells` as one CSV line.
pub fn encode_line(cells: &Vec<String>) -> (r: String)
    ensures
        r@ == csv_line(string_views(cells@)),
{
    let mut encoded: Vec<String> = Vec::new();
    let mut i: usize = 0;
    while i < cells.len()
        invariant
            i <= cells@.len(),
            encoded@.len() == i,
            forall|j: int| 0 <= j < i ==> #[trigger] encoded@[j]@ == csv_cell(cells@[j]@),
        decreases cells@.len() - i,
    {
        let e = encode_cell(cells[i].as_str());
        encoded.push(e);
        i = i + 1;
    }
    let mut out = join_strings(&encoded, ",");
    out.append("\n");
    proof {
        reveal_strlit(",");
        reveal_strlit("\n");
        assert(string_views(encoded@) =~= string_views(cells@).map_values(
            |c: Seq<char>| csv_cell(c),
        ));
        assert(","@ =~= seq![',']);
    }
    out
}

} // verus!

verus! {

/// Reads `s` as CSV text starting inside quotes or not: the number of
/// separating commas met outside quotes, and whether it ends inside quotes.
pub open spec fn scan_from(s: Seq<char>, quoted: bool) -> (int, bool)
    decreases s.len(),
{
    if s.len() == 0 {
        (0, quoted)
    } else {
        let (n, q) = scan_from(s.drop_last(), quoted);
        let c = s.last();
        if c == '"' {
            (n, !q)
        } else if c == ',' && !q {
            (n + 1, q)
        } else {
            (n, q)
        }
    }
}

/// The number of columns of a CSV line: one more than its separators.
pub open spec fn column_count(line: Seq<char>) -> int {
    scan_from(line, false).0 + 1
}

proof fn scan_concat(a: Seq<char>, b: Seq<char>, q: bool)
    ensures
        scan_from(a + b, q) == (scan_from(a, q).0 + scan_from(b, scan_from(a, q).1).0, scan_from(
            b,
            scan_from(a, q).1,
        ).1),
    decreases b.len(),
{
    if b.len() == 0 {
        assert(a + b =~= a);
    } else {
        scan_concat(a, b.drop_last(), q);
        assert((a + b).drop_last() =~= a + b.drop_last());
        assert((a + b).last() == b.last());
    }
}

proof fn scan_single(c: char, q: bool)
    ensures
        scan_from(seq![c], q) == (if c == '"' {
            (0int, !q)
        } else if c == ',' && !q {
            (1int, q)
        } else {
            (0int, q)
        }),
{
    let one = seq![c];
    assert(one.drop_last() =~= Seq::<char>::empty());
    assert(scan_from(Seq::<char>::empty(), q) == (0int, q));
    assert(one.last() == c);
}

proof fn scan_doubled_in_quotes(s: Seq<char>)
    ensures
        scan_from(double_quotes(s), true) == (0int, true),
    decreases s.len(),
{
    if s.len() > 0 {
        scan_doubled_in_quotes(s.drop_last());
        let head = double_quotes(s.drop_last());
        if s.last() == '"' {
            assert(double_quotes(s) == head + seq!['"'] + seq!['"']) by {
                assert(seq!['"', '"'] =~= seq!['"'] + seq!['"']);
            }
            scan_single('"', true);
            scan_single('"', false);
            scan_concat(head, seq!['"'], true);
            scan_concat(head + seq!['"'], seq!['"'], true);
        } else {
            assert(double_quotes(s) == head + seq![s.last()]);
            scan_single(s.last(), true);
            scan_concat(head, seq![s.last()], true);
        }
    }
}

proof fn scan_plain(s: Seq<char>)
    requires
        !needs_quotes(s),
    ensures
        scan_from(s, false) == (0int, false),
    decreases s.len(),
{
    if s.len() > 0 {
        let t = s.drop_last();
        assert(!needs_quotes(t)) by {
            if needs_quotes(t) {
                let i = choose|i: int| 0 <= i < t.len() && is_csv_special(#[trigger] t[i]);
                assert(s[i] == t[i]);
            }
        }
        scan_plain(t);
        assert(!is_csv_special(s[s.len() - 1]));
    }
}

/// An encoded cell holds no separator and ends outside quotes.
pub proof fn scan_cell(c: Seq<char>)
    ensures
        scan_from(csv_cell(c), false) == (0int, false),
{
    if needs_quotes(c) {
        let open = seq!['"'];
        scan_single('"', false);
        scan_single('"', true);
        scan_doubled_in_quotes(c);
        scan_concat(open, double_quotes(c), false);
        scan_concat(open + double_quotes(c), seq!['"'], false);
    } else {
        scan_plain(c);
    }
}

proof fn scan_join(cells: Seq<Seq<char>>)
    requires
        cells.len() > 0,
        forall|i: int| 0 <= i < cells.len() ==> scan_from(#[trigger] cells[i], false) == (0int, false),
    ensures
        scan_from(join(cells, seq![',']), false) == (cells.len() - 1, false),
    decreases cells.len(),
{
    if cells.len() > 1 {
        let init = cells.drop_last();
        assert forall|i: int| 0 <= i < init.len() implies scan_from(#[trigger] init[i], false) == (
        0int, false) by {
            assert(init[i] == cells[i]);
        }
        scan_join(init);
        let sep = seq![','];
        scan_single(',', false);
        assert(scan_from(cells[cells.len() - 1], false) == (0int, false));
        assert(join(cells, sep) == join(init, sep) + sep + cells.last());
        scan_concat(join(init, sep), sep, false);
        scan_concat(join(init, sep) + sep, cells.last(), false);
    }
}

/// A CSV line written from `n > 0` cells has exactly `n` columns, whatever the
/// cells hold.
pub proof fn csv_line_columns(cells: Seq<Seq<char>>)
    requires
        cells.len() > 0,
    ensures
        column_count(csv_line(cells)) == cells.len(),
{
    let encoded = cells.map_values(|c: Seq<char>| csv_cell(c));
    assert forall|i: int| 0 <= i < encoded.len() implies scan_from(#[trigger] encoded[i], false)
        == (0int, false) by {
        scan_cell(cells[i]);
    }
    scan_join(encoded);
    let nl = seq!['\n'];
    scan_single('\n', false);
    scan_concat(join(encoded, seq![',']), nl, false);
}

} // verus!
