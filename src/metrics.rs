use vstd::prelude::*;

verus! {

/// How the raw text of a field is decoded into its cell.
#[derive(Clone, Copy, Debug, PartialEq, Eq, Structural)]
pub enum FieldKind {
    /// The record's instant, kept as the database wrote it once it reads as one.
    Timestamp,
    /// A text that must be present.
    Text,
    /// A tag that may be absent; absent gives an empty cell.
    OptionalText,
    /// A boolean written as text: `true` or `false`; anything else reads as false.
    LenientBool,
    /// A status code written as text; anything that is not a `u16` reads as 0.
    LenientU16,
    /// A measured value, kept as the database wrote it.
    Number,
}

/// One column that a metric projects.
#[derive(Clone, Debug)]
pub struct Field {
    pub name: String,
    pub kind: FieldKind,
}

/// The schema of one exportable series.
#[derive(Clone, Debug)]
pub struct MetricDescriptor {
    /// The series name, also the stem of the output file name.
    pub name: String,
    /// The projected columns, in the order of the CSV columns.
    pub fields: Vec<Field>,
    /// Whether the setup/teardown exclusions apply to this series.
    pub applies_exclusion_filters: bool,
}

/// A descriptor as values: name, fields (name and kind) and exclusion flag.
pub type DescriptorModel = (Seq<char>, Seq<(Seq<char>, FieldKind)>, bool);

impl Field {
    pub open spec fn model(&self) -> (Seq<char>, FieldKind) {
        (self.name@, self.kind)
    }
}

impl MetricDescriptor {
    pub open spec fn field_models(&self) -> Seq<(Seq<char>, FieldKind)> {
        self.fields@.map_values(|f: Field| f.model())
    }

    pub open spec fn model(&self) -> DescriptorModel {
        (self.name@, self.field_models(), self.applies_exclusion_filters)
    }

    /// The names of the projected columns, in order.
    pub open spec fn field_names(&self) -> Seq<Seq<char>> {
        field_names_of(self.field_models())
    }

    /// The decoding kinds of the projected columns, in order.
    pub open spec fn field_kinds(&self) -> Seq<FieldKind> {
        self.field_models().map_values(|f: (Seq<char>, FieldKind)| f.1)
    }
}

pub open spec fn field_names_of(fields: Seq<(Seq<char>, FieldKind)>) -> Seq<Seq<char>> {
    fields.map_values(|f: (Seq<char>, FieldKind)| f.0)
}

/// What every series of the registry exposes: its name, its projected
/// columns and whether the setup/teardown exclusions apply to it.
pub trait K6Metric {
    spec fn table_name_spec(&self) -> Seq<char>;

    spec fn query_fields_spec(&self) -> Seq<Seq<char>>;

    spec fn applies_exclusion_filters_spec(&self) -> bool;

    fn metric_table_name(&self) -> (r: String)
        ensures
            r@ == self.table_name_spec(),
    ;

    fn query_fields(&self) -> (r: Vec<String>)
        ensures
            r@.map_values(|s: String| s@) == self.query_fields_spec(),
    ;

    fn exclusion_filters_apply(&self) -> (r: bool)
        ensures
            r == self.applies_exclusion_filters_spec(),
    ;
}

impl K6Metric for MetricDescriptor {
    open spec fn table_name_spec(&self) -> Seq<char> {
        self.name@
    }

    open spec fn query_fields_spec(&self) -> Seq<Seq<char>> {
        self.field_names()
    }

    open spec fn applies_exclusion_filters_spec(&self) -> bool {
        self.applies_exclusion_filters
    }

    fn metric_table_name(&self) -> (r: String) {
        self.name.clone()
    }

    fn query_fields(&self) -> (r: Vec<String>) {
        let mut r: Vec<String> = Vec::new();
        let mut i: usize = 0;
        while i < self.fields.len()
            invariant
                i <= self.fields@.len(),
                r@.len() == i,
                forall|j: int| 0 <= j < i ==> #[trigger] r@[j]@ == self.fields@[j].name@,
            decreases self.fields@.len() - i,
        {
            r.push(self.fields[i].name.clone());
            i = i + 1;
        }
        proof {
            assert(r@.map_values(|s: String| s@) =~= self.field_names());
        }
        r
    }

    fn exclusion_filters_apply(&self) -> (r: bool) {
        self.applies_exclusion_filters
    }
}

fn field(name: &str, kind: FieldKind) -> (r: Field)
    ensures
        r.model() == (name@, kind),
{
    Field { name: String::from_str(name), kind }
}

fn descriptor(name: &str, fields: Vec<Field>, applies: bool) -> (r: MetricDescriptor)
    ensures
        r.name@ == name@,
        r.fields@ == fields@,
        r.field_models() == fields@.map_values(|f: Field| f.model()),
        r.applies_exclusion_filters == applies,
{
    MetricDescriptor { name: String::from_str(name), fields, applies_exclusion_filters: applies }
}

/// The supported series, in export order.
pub open spec fn registry_model() -> Seq<DescriptorModel> {
    seq![
        ("checks"@, seq![("time"@, FieldKind::Timestamp), ("check"@, FieldKind::Text), ("group"@, FieldKind::OptionalText), ("method"@, FieldKind::Text), ("scenario"@, FieldKind::OptionalText), ("value"@, FieldKind::Number)], true),
        ("data_received"@, seq![("time"@, FieldKind::Timestamp), ("group"@, FieldKind::OptionalText), ("scenario"@, FieldKind::OptionalText), ("value"@, FieldKind::Number)], true),
        ("data_sent"@, seq![("time"@, FieldKind::Timestamp), ("group"@, FieldKind::OptionalText), ("scenario"@, FieldKind::OptionalText), ("value"@, FieldKind::Number)], true),
        ("http_req_blocked"@, seq![("time"@, FieldKind::Timestamp), ("expected_response"@, FieldKind::LenientBool), ("group"@, FieldKind::OptionalText), ("method"@, FieldKind::Text), ("name"@, FieldKind::Text), ("proto"@, FieldKind::Text), ("scenario"@, FieldKind::OptionalText), ("status"@, FieldKind::LenientU16), ("tls_version"@, FieldKind::Text), ("url"@, FieldKind::Text), ("value"@, FieldKind::Number)], true),
        ("http_req_connecting"@, seq![("time"@, FieldKind::Timestamp), ("expected_response"@, FieldKind::LenientBool), ("group"@, FieldKind::OptionalText), ("method"@, FieldKind::Text), ("name"@, FieldKind::Text), ("proto"@, FieldKind::Text), ("scenario"@, FieldKind::OptionalText), ("status"@, FieldKind::LenientU16), ("tls_version"@, FieldKind::Text), ("url"@, FieldKind::Text), ("value"@, FieldKind::Number)], true),
        ("http_req_tls_handshaking"@, seq![("time"@, FieldKind::Timestamp), ("expected_response"@, FieldKind::LenientBool), ("group"@, FieldKind::OptionalText), ("method"@, FieldKind::Text), ("name"@, FieldKind::Text), ("proto"@, FieldKind::Text), ("scenario"@, FieldKind::OptionalText), ("status"@, FieldKind::LenientU16), ("tls_version"@, FieldKind::Text), ("url"@, FieldKind::Text), ("value"@, FieldKind::Number)], true),
        ("http_req_sending"@, seq![("time"@, FieldKind::Timestamp), ("expected_response"@, FieldKind::LenientBool), ("group"@, FieldKind::OptionalText), ("method"@, FieldKind::Text), ("name"@, FieldKind::Text), ("proto"@, FieldKind::Text), ("scenario"@, FieldKind::OptionalText), ("status"@, FieldKind::LenientU16), ("tls_version"@, FieldKind::Text), ("url"@, FieldKind::Text), ("value"@, FieldKind::Number)], true),
        ("http_req_waiting"@, seq![("time"@, FieldKind::Timestamp), ("expected_response"@, FieldKind::LenientBool), ("group"@, FieldKind::OptionalText), ("method"@, FieldKind::Text), ("name"@, FieldKind::Text), ("proto"@, FieldKind::Text), ("scenario"@, FieldKind::OptionalText), ("status"@, FieldKind::LenientU16), ("tls_version"@, FieldKind::Text), ("url"@, FieldKind::Text), ("value"@, FieldKind::Number)], true),
        ("http_req_receiving"@, seq![("time"@, FieldKind::Timestamp), ("expected_response"@, FieldKind::LenientBool), ("group"@, FieldKind::OptionalText), ("method"@, FieldKind::Text), ("name"@, FieldKind::Text), ("proto"@, FieldKind::Text), ("scenario"@, FieldKind::OptionalText), ("status"@, FieldKind::LenientU16), ("tls_version"@, FieldKind::Text), ("url"@, FieldKind::Text), ("value"@, FieldKind::Number)], true),
        ("http_req_duration"@, seq![("time"@, FieldKind::Timestamp), ("expected_response"@, FieldKind::LenientBool), ("group"@, FieldKind::OptionalText), ("method"@, FieldKind::Text), ("name"@, FieldKind::Text), ("proto"@, FieldKind::Text), ("scenario"@, FieldKind::OptionalText), ("status"@, FieldKind::LenientU16), ("tls_version"@, FieldKind::Text), ("url"@, FieldKind::Text), ("value"@, FieldKind::Number)], true),
        ("http_req_failed"@, seq![("time"@, FieldKind::Timestamp), ("expected_response"@, FieldKind::LenientBool), ("group"@, FieldKind::OptionalText), ("method"@, FieldKind::Text), ("name"@, FieldKind::Text), ("proto"@, FieldKind::Text), ("scenario"@, FieldKind::OptionalText), ("status"@, FieldKind::LenientU16), ("tls_version"@, FieldKind::Text), ("url"@, FieldKind::Text), ("value"@, FieldKind::Number)], true),
        ("iterations"@, seq![("time"@, FieldKind::Timestamp), ("scenario"@, FieldKind::OptionalText), ("value"@, FieldKind::Number)], false),
        ("iteration_duration"@, seq![("time"@, FieldKind::Timestamp), ("group"@, FieldKind::OptionalText), ("scenario"@, FieldKind::OptionalText), ("value"@, FieldKind::Number)], true),
        ("vus"@, seq![("time"@, FieldKind::Timestamp), ("value"@, FieldKind::Number)], false),
        ("vus_max"@, seq![("time"@, FieldKind::Timestamp), ("value"@, FieldKind::Number)], false)
    ]
}

/// The supported series, in export order.
pub fn registry() -> (r: Vec<MetricDescriptor>)
    ensures
        r@.map_values(|d: MetricDescriptor| d.model()) == registry_model(),
        registry_well_formed(registry_model()),
{
    proof {
        registry_is_well_formed();
    }
    let mut r: Vec<MetricDescriptor> = Vec::new();
    let d = descriptor("checks", vec![field("time", FieldKind::Timestamp), field("check", FieldKind::Text), field("group", FieldKind::OptionalText), field("method", FieldKind::Text), field("scenario", FieldKind::OptionalText), field("value", FieldKind::Number)], true);
    assert(d.field_models() =~= registry_model()[0].1);
    r.push(d);
    let d = descriptor("data_received", vec![field("time", FieldKind::Timestamp), field("group", FieldKind::OptionalText), field("scenario", FieldKind::OptionalText), field("value", FieldKind::Number)], true);
    assert(d.field_models() =~= registry_model()[1].1);
    r.push(d);
    let d = descriptor("data_sent", vec![field("time", FieldKind::Timestamp), field("group", FieldKind::OptionalText), field("scenario", FieldKind::OptionalText), field("value", FieldKind::Number)], true);
    assert(d.field_models() =~= registry_model()[2].1);
    r.push(d);
    let d = descriptor("http_req_blocked", vec![field("time", FieldKind::Timestamp), field("expected_response", FieldKind::LenientBool), field("group", FieldKind::OptionalText), field("method", FieldKind::Text), field("name", FieldKind::Text), field("proto", FieldKind::Text), field("scenario", FieldKind::OptionalText), field("status", FieldKind::LenientU16), field("tls_version", FieldKind::Text), field("url", FieldKind::Text), field("value", FieldKind::Number)], true);
    assert(d.field_models() =~= registry_model()[3].1);
    r.push(d);
    let d = descriptor("http_req_connecting", vec![field("time", FieldKind::Timestamp), field("expected_response", FieldKind::LenientBool), field("group", FieldKind::OptionalText), field("method", FieldKind::Text), field("name", FieldKind::Text), field("proto", FieldKind::Text), field("scenario", FieldKind::OptionalText), field("status", FieldKind::LenientU16), field("tls_version", FieldKind::Text), field("url", FieldKind::Text), field("value", FieldKind::Number)], true);
    assert(d.field_models() =~= registry_model()[4].1);
    r.push(d);
    let d = descriptor("http_req_tls_handshaking", vec![field("time", FieldKind::Timestamp), field("expected_response", FieldKind::LenientBool), field("group", FieldKind::OptionalText), field("method", FieldKind::Text), field("name", FieldKind::Text), field("proto", FieldKind::Text), field("scenario", FieldKind::OptionalText), field("status", FieldKind::LenientU16), field("tls_version", FieldKind::Text), field("url", FieldKind::Text), field("value", FieldKind::Number)], true);
    assert(d.field_models() =~= registry_model()[5].1);
    r.push(d);
    let d = descriptor("http_req_sending", vec![field("time", FieldKind::Timestamp), field("expected_response", FieldKind::LenientBool), field("group", FieldKind::OptionalText), field("method", FieldKind::Text), field("name", FieldKind::Text), field("proto", FieldKind::Text), field("scenario", FieldKind::OptionalText), field("status", FieldKind::LenientU16), field("tls_version", FieldKind::Text), field("url", FieldKind::Text), field("value", FieldKind::Number)], true);
    assert(d.field_models() =~= registry_model()[6].1);
    r.push(d);
    let d = descriptor("http_req_waiting", vec![field("time", FieldKind::Timestamp), field("expected_response", FieldKind::LenientBool), field("group", FieldKind::OptionalText), field("method", FieldKind::Text), field("name", FieldKind::Text), field("proto", FieldKind::Text), field("scenario", FieldKind::OptionalText), field("status", FieldKind::LenientU16), field("tls_version", FieldKind::Text), field("url", FieldKind::Text), field("value", FieldKind::Number)], true);
    assert(d.field_models() =~= registry_model()[7].1);
    r.push(d);
    let d = descriptor("http_req_receiving", vec![field("time", FieldKind::Timestamp), field("expected_response", FieldKind::LenientBool), field("group", FieldKind::OptionalText), field("method", FieldKind::Text), field("name", FieldKind::Text), field("proto", FieldKind::Text), field("scenario", FieldKind::OptionalText), field("status", FieldKind::LenientU16), field("tls_version", FieldKind::Text), field("url", FieldKind::Text), field("value", FieldKind::Number)], true);
    assert(d.field_models() =~= registry_model()[8].1);
    r.push(d);
    let d = descriptor("http_req_duration", vec![field("time", FieldKind::Timestamp), field("expected_response", FieldKind::LenientBool), field("group", FieldKind::OptionalText), field("method", FieldKind::Text), field("name", FieldKind::Text), field("proto", FieldKind::Text), field("scenario", FieldKind::OptionalText), field("status", FieldKind::LenientU16), field("tls_version", FieldKind::Text), field("url", FieldKind::Text), field("value", FieldKind::Number)], true);
    assert(d.field_models() =~= registry_model()[9].1);
    r.push(d);
    let d = descriptor("http_req_failed", vec![field("time", FieldKind::Timestamp), field("expected_response", FieldKind::LenientBool), field("group", FieldKind::OptionalText), field("method", FieldKind::Text), field("name", FieldKind::Text), field("proto", FieldKind::Text), field("scenario", FieldKind::OptionalText), field("status", FieldKind::LenientU16), field("tls_version", FieldKind::Text), field("url", FieldKind::Text), field("value", FieldKind::Number)], true);
    assert(d.field_models() =~= registry_model()[10].1);
    r.push(d);
    let d = descriptor("iterations", vec![field("time", FieldKind::Timestamp), field("scenario", FieldKind::OptionalText), field("value", FieldKind::Number)], false);
    assert(d.field_models() =~= registry_model()[11].1);
    r.push(d);
    let d = descriptor("iteration_duration", vec![field("time", FieldKind::Timestamp), field("group", FieldKind::OptionalText), field("scenario", FieldKind::OptionalText), field("value", FieldKind::Number)], true);
    assert(d.field_models() =~= registry_model()[12].1);
    r.push(d);
    let d = descriptor("vus", vec![field("time", FieldKind::Timestamp), field("value", FieldKind::Number)], false);
    assert(d.field_models() =~= registry_model()[13].1);
    r.push(d);
    let d = descriptor("vus_max", vec![field("time", FieldKind::Timestamp), field("value", FieldKind::Number)], false);
    assert(d.field_models() =~= registry_model()[14].1);
    r.push(d);
    assert(r@.map_values(|d: MetricDescriptor| d.model()) =~= registry_model());
    r
}

} // verus!

verus! {

/// Whether `fields` holds a column named `name`.
pub open spec fn has_field(fields: Seq<(Seq<char>, FieldKind)>, name: Seq<char>) -> bool {
    exists|i: int| 0 <= i < fields.len() && (#[trigger] fields[i]).0 == name
}

/// The registry's invariant: series names are unique; every series projects
/// the timestamp first; the exclusions apply exactly to the series that carry
/// a group column.
pub open spec fn registry_well_formed(reg: Seq<DescriptorModel>) -> bool {
    &&& forall|i: int, j: int|
        0 <= i < reg.len() && 0 <= j < reg.len() && i != j ==> (#[trigger] reg[i]).0 != (
        #[trigger] reg[j]).0
    &&& forall|i: int|
        0 <= i < reg.len() ==> (#[trigger] reg[i]).1.len() > 0 && reg[i].1[0] == ("time"@,
            FieldKind::Timestamp)
    &&& forall|i: int| 0 <= i < reg.len() ==> (#[trigger] reg[i]).2 == has_field(reg[i].1, "group"@)
}

} // verus!

verus! {

/// The registry satisfies its invariant.
pub proof fn registry_is_well_formed()
    ensures
        registry_well_formed(registry_model()),
{
    reveal_strlit("checks");
    reveal_strlit("data_received");
    reveal_strlit("data_sent");
    reveal_strlit("http_req_blocked");
    reveal_strlit("http_req_connecting");
    reveal_strlit("http_req_tls_handshaking");
    reveal_strlit("http_req_sending");
    reveal_strlit("http_req_waiting");
    reveal_strlit("http_req_receiving");
    reveal_strlit("http_req_duration");
    reveal_strlit("http_req_failed");
    reveal_strlit("iterations");
    reveal_strlit("iteration_duration");
    reveal_strlit("vus");
    reveal_strlit("vus_max");
    reveal_strlit("time");
    reveal_strlit("group");
    reveal_strlit("check");
    reveal_strlit("expected_response");
    reveal_strlit("method");
    reveal_strlit("name");
    reveal_strlit("proto");
    reveal_strlit("scenario");
    reveal_strlit("status");
    reveal_strlit("tls_version");
    reveal_strlit("url");
    reveal_strlit("value");
    let reg = registry_model();
    assert(reg[0].0.len() == 6);
    assert(reg[1].0.len() == 13);
    assert(reg[1].0[9] == 'i');
    assert(reg[2].0.len() == 9);
    assert(reg[3].0.len() == 16);
    assert(reg[3].0[9] == 'b');
    assert(reg[4].0.len() == 19);
    assert(reg[4].0[9] == 'c');
    assert(reg[5].0.len() == 24);
    assert(reg[5].0[9] == 't');
    assert(reg[6].0.len() == 16);
    assert(reg[6].0[9] == 's');
    assert(reg[7].0.len() == 16);
    assert(reg[7].0[9] == 'w');
    assert(reg[8].0.len() == 18);
    assert(reg[8].0[9] == 'r');
    assert(reg[9].0.len() == 17);
    assert(reg[9].0[9] == 'd');
    assert(reg[10].0.len() == 15);
    assert(reg[10].0[9] == 'f');
    assert(reg[11].0.len() == 10);
    assert(reg[11].0[9] == 's');
    assert(reg[12].0.len() == 18);
    assert(reg[12].0[9] == '_');
    assert(reg[13].0.len() == 3);
    assert(reg[14].0.len() == 7);
    assert forall|i: int| 0 <= i < reg.len() implies (#[trigger] reg[i]).2 == has_field(
        reg[i].1,
        "group"@,
    ) by {
        if reg[i].2 {
            assert(reg[i].1[1].0 == "group"@ || reg[i].1[2].0 == "group"@);
        } else {
            assert forall|k: int| 0 <= k < reg[i].1.len() implies (#[trigger] reg[i].1[k]).0
                != "group"@ by {
                assert(reg[i].1[k].0.len() != 5 || reg[i].1[k].0[0] != 'g');
            }
        }
    }
    assert forall|i: int, j: int|
        0 <= i < reg.len() && 0 <= j < reg.len() && i != j implies (#[trigger] reg[i]).0 != (
        #[trigger] reg[j]).0 by {
        if reg[i].0 == reg[j].0 {
            assert(reg[i].0.len() == reg[j].0.len());
            assert(reg[i].0.len() > 9 ==> reg[i].0[9] == reg[j].0[9]);
            assert(i == 0 || i == 1 || i == 2 || i == 3 || i == 4 || i == 5 || i == 6 || i == 7 || i == 8 || i == 9 || i == 10 || i == 11 || i == 12 || i == 13 || i == 14);
            assert(j == 0 || j == 1 || j == 2 || j == 3 || j == 4 || j == 5 || j == 6 || j == 7 || j == 8 || j == 9 || j == 10 || j == 11 || j == 12 || j == 13 || j == 14);
        }
    }
}

} // verus!
