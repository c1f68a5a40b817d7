use vstd::prelude::*;
use crate::decode::{decode_record, decoded_record, raw_views, DecodeError};
use crate::metrics::{K6Metric, MetricDescriptor};
use crate::query::QueryBuildError;
use crate::text::{csv_line, encode_line, string_views};

verus! {

/// Why one metric could not be exported.
#[derive(Clone, Debug)]
pub enum MetricError {
    /// Its query could not be built.
    Query(QueryBuildError),
    /// The database did not answer the query.
    Execution(String),
    /// A row of the answer could not be decoded.
    Decode { row: usize, error: DecodeError },
    /// Its file could not be written.
    Write(String),
}

/// The decoded rows of a series, or the first row that fails and why.
pub open spec fn decoded_rows(
    kinds: Seq<crate::metrics::FieldKind>,
    raws: Seq<Seq<Option<Seq<char>>>>,
) -> Result<Seq<Seq<Seq<char>>>, (int, DecodeError)>
    decreases raws.len(),
{
    if raws.len() == 0 {
        Ok(Seq::empty())
    } else {
        match decoded_rows(kinds, raws.drop_last()) {
            Err(e) => Err(e),
            Ok(prev) => match decoded_record(kinds, raws.last()) {
                Ok(cells) => Ok(prev.push(cells)),
                Err(e) => Err((raws.len() - 1, e)),
            },
        }
    }
}

/// The lines of `rows`, one after another.
pub open spec fn csv_lines(rows: Seq<Seq<Seq<char>>>) -> Seq<char>
    decreases rows.len(),
{
    if rows.len() == 0 {
        Seq::empty()
    } else {
        csv_lines(rows.drop_last()) + csv_line(rows.last())
    }
}

/// A CSV document: the header line, then one line per row.
pub open spec fn csv_document(header: Seq<Seq<char>>, rows: Seq<Seq<Seq<char>>>) -> Seq<char> {
    csv_line(header) + csv_lines(rows)
}

pub open spec fn row_views(rows: Seq<Vec<Option<String>>>) -> Seq<Seq<Option<Seq<char>>>> {
    rows.map_values(|r: Vec<Option<String>>| raw_views(r@))
}

/// The CSV document of `metric`'s series whose rows the database returned as
/// `raw_rows`, or the first row that cannot be decoded.
pub open spec fn export_document(
    metric: MetricDescriptor,
    raws: Seq<Seq<Option<Seq<char>>>>,
) -> Result<Seq<char>, (int, DecodeError)> {
    match decoded_rows(metric.field_kinds(), raws) {
        Ok(rows) => Ok(csv_document(metric.field_names(), rows)),
        Err(e) => Err(e),
    }
}

/// Writes the CSV document of `metric`'s series: a header of its field
/// names, then one line per decoded row in the order given.
pub fn render_csv(metric: &MetricDescriptor, raw_rows: &Vec<Vec<Option<String>>>) -> (r: Result<
    String,
    MetricError,
>)
    ensures
        match r {
            Ok(t) => export_document(*metric, row_views(raw_rows@)) == Ok::<
                Seq<char>,
                (int, DecodeError),
            >(t@),
            Err(e) => export_document(*metric, row_views(raw_rows@)) matches Err((row, de)) && e
                == MetricError::Decode { row: row as usize, error: de },
        },
{
    let ghost kinds = metric.field_kinds();
    let ghost rv = row_views(raw_rows@);
    let header = metric.query_fields();
    let mut out = encode_line(&header);
    let ghost mut rows: Seq<Seq<Seq<char>>> = Seq::empty();
    let mut i: usize = 0;
    while i < raw_rows.len()
        invariant
            i <= raw_rows@.len(),
            kinds == metric.field_kinds(),
            rv == row_views(raw_rows@),
            decoded_rows(kinds, rv.subrange(0, i as int)) == Ok::<
                Seq<Seq<Seq<char>>>,
                (int, DecodeError),
            >(rows),
            out@ == csv_document(metric.field_names(), rows),
        decreases raw_rows@.len() - i,
    {
        let ghost sub = rv.subrange(0, i as int + 1);
        proof {
            assert(sub.drop_last() =~= rv.subrange(0, i as int));
            assert(sub.last() == raw_views(raw_rows@[i as int]@));
        }
        match decode_record(metric, &raw_rows[i]) {
            Ok(cells) => {
                let line = encode_line(&cells);
                out.append(line.as_str());
                proof {
                    let prev = rows;
                    rows = rows.push(string_views(cells@));
                    assert(rows.drop_last() =~= prev);
                }
            },
            Err(e) => {
                proof {
                    decoded_rows_error_stays(kinds, rv, i as int + 1);
                }
                return Err(MetricError::Decode { row: i, error: e });
            },
        }
        i = i + 1;
    }
    proof {
        assert(rv.subrange(0, raw_rows@.len() as int) =~= rv);
        assert(string_views(header@) == metric.field_names());
    }
    Ok(out)
}

/// Once a prefix of the rows fails to decode, the whole series fails in the
/// same row.
proof fn decoded_rows_error_stays(
    kinds: Seq<crate::metrics::FieldKind>,
    raws: Seq<Seq<Option<Seq<char>>>>,
    k: int,
)
    requires
        0 <= k <= raws.len(),
        decoded_rows(kinds, raws.subrange(0, k)) is Err,
    ensures
        decoded_rows(kinds, raws) == decoded_rows(kinds, raws.subrange(0, k)),
    decreases raws.len() - k,
{
    if k < raws.len() {
        let s = raws.subrange(0, k + 1);
        assert(s.drop_last() =~= raws.subrange(0, k));
        decoded_rows_error_stays(kinds, raws, k + 1);
    } else {
        assert(raws.subrange(0, k) =~= raws);
    }
}

} // verus!
