//! Query construction: timestamps, scalar wire values, the shared query
//! contract, and the wire-ready text wrapper.

pub mod read_query;
pub mod write_query;

use vstd::prelude::*;
use vstd::string::StringExecFns;

use crate::error::Error;
use crate::query::read_query::ReadQuery;
use crate::query::write_query::{WriteQuery, WriteQueryView};
use crate::text::{dec_digits, int_text, str_eq, u64_text};

verus! {

/// A point in time at one of seven resolutions. `Now` renders to nothing and
/// contributes no precision parameter; every other variant renders its plain
/// numeric value, with the unit carried separately as a precision token.
#[derive(PartialEq, Eq, Structural, Debug, Clone, Copy)]
pub enum Timestamp {
    Now,
    Nanoseconds(usize),
    Microseconds(usize),
    Milliseconds(usize),
    Seconds(usize),
    Minutes(usize),
    Hours(usize),
}

/// A timestamp resolved against the epoch, at the resolution the underlying
/// clock library expects: either the current instant, or a fixed number of
/// milliseconds or nanoseconds since the epoch.
#[derive(PartialEq, Eq, Structural, Debug, Clone, Copy)]
pub enum EpochTime {
    Current,
    Millis(u64),
    Nanos(u64),
}

impl Timestamp {
    /// The bare numeric value of the variant; zero for `Now`.
    pub open spec fn value_spec(&self) -> nat {
        match *self {
            Timestamp::Now => 0,
            Timestamp::Nanoseconds(ts) => ts as nat,
            Timestamp::Microseconds(ts) => ts as nat,
            Timestamp::Milliseconds(ts) => ts as nat,
            Timestamp::Seconds(ts) => ts as nat,
            Timestamp::Minutes(ts) => ts as nat,
            Timestamp::Hours(ts) => ts as nat,
        }
    }

    /// The rendering of the timestamp in a serialized line: empty for `Now`,
    /// else the decimal value with no unit suffix.
    pub open spec fn render_spec(&self) -> Seq<char> {
        if *self == Timestamp::Now {
            Seq::empty()
        } else {
            dec_digits(self.value_spec())
        }
    }

    /// The precision token sent as a request parameter: empty for `Now`, else
    /// the unit letter(s) of the variant.
    pub open spec fn precision_spec(&self) -> Seq<char> {
        match *self {
            Timestamp::Now => Seq::empty(),
            Timestamp::Nanoseconds(_) => "ns"@,
            Timestamp::Microseconds(_) => "u"@,
            Timestamp::Milliseconds(_) => "ms"@,
            Timestamp::Seconds(_) => "s"@,
            Timestamp::Minutes(_) => "m"@,
            Timestamp::Hours(_) => "h"@,
        }
    }

    /// Renders the timestamp for the serialized line.
    pub fn render(&self) -> (s: String)
        ensures
            s@ == self.render_spec(),
    {
        match self {
            Timestamp::Now => String::new(),
            Timestamp::Nanoseconds(ts)
            | Timestamp::Microseconds(ts)
            | Timestamp::Milliseconds(ts)
            | Timestamp::Seconds(ts)
            | Timestamp::Minutes(ts)
            | Timestamp::Hours(ts) => u64_text(*ts as u64),
        }
    }

    /// The epoch value this timestamp stands for, or `None` when the unit
    /// conversion does not fit in 64 bits. Coarse units are scaled to
    /// milliseconds; sub-microsecond units map to nanoseconds, with
    /// microseconds passed through the same truncating division the rest of
    /// the system expects.
    pub open spec fn epoch_spec(&self) -> Option<EpochTime> {
        match *self {
            Timestamp::Now => Some(EpochTime::Current),
            Timestamp::Nanoseconds(ns) => Some(EpochTime::Nanos(ns as u64)),
            Timestamp::Microseconds(us) => Some(EpochTime::Nanos((us as u64 / 10000) as u64)),
            Timestamp::Milliseconds(ms) => Some(EpochTime::Millis(ms as u64)),
            Timestamp::Seconds(s) => if s * 1000 <= u64::MAX {
                Some(EpochTime::Millis((s * 1000) as u64))
            } else {
                None
            },
            Timestamp::Minutes(m) => if m * 60000 <= u64::MAX {
                Some(EpochTime::Millis((m * 60000) as u64))
            } else {
                None
            },
            Timestamp::Hours(h) => if h * 3600000 <= u64::MAX {
                Some(EpochTime::Millis((h * 3600000) as u64))
            } else {
                None
            },
        }
    }

    /// Resolves the timestamp to an epoch value, or `None` when the scaled
    /// value overflows.
    pub fn epoch_time(&self) -> (r: Option<EpochTime>)
        ensures
            r == self.epoch_spec(),
    {
        match self {
            Timestamp::Now => Some(EpochTime::Current),
            Timestamp::Nanoseconds(ns) => Some(EpochTime::Nanos(*ns as u64)),
            Timestamp::Microseconds(us) => Some(EpochTime::Nanos(*us as u64 / 10000)),
            Timestamp::Milliseconds(ms) => Some(EpochTime::Millis(*ms as u64)),
            Timestamp::Seconds(s) => scale_to_millis(*s as u64, 1000),
            Timestamp::Minutes(m) => scale_to_millis(*m as u64, 60000),
            Timestamp::Hours(h) => scale_to_millis(*h as u64, 3600000),
        }
    }
}

/// Scales `v` by `unit`, or reports overflow.
fn scale_to_millis(v: u64, unit: u64) -> (r: Option<EpochTime>)
    requires
        unit > 0,
    ensures
        r == if v * unit <= u64::MAX {
            Some(EpochTime::Millis((v * unit) as u64))
        } else {
            None::<EpochTime>
        },
{
    proof {
        lemma_scale_bound(v as int, unit as int, u64::MAX as int);
    }
    if v <= u64::MAX / unit {
        Some(EpochTime::Millis(v * unit))
    } else {
        None
    }
}

/// For a positive scale `c`, `a` is at most `m / c` exactly when `a * c` is
/// at most `m`.
proof fn lemma_scale_bound(a: int, c: int, m: int)
    requires
        c > 0,
        0 <= a,
        0 <= m,
    ensures
        (a <= m / c) == (a * c <= m),
{
    vstd::arithmetic::div_mod::lemma_fundamental_div_mod(m, c);
    vstd::arithmetic::div_mod::lemma_mod_bound(m, c);
    let q = m / c;
    let r = m % c;
    assert(m == c * q + r);
    if a <= q {
        assert(a * c <= c * q) by (nonlinear_arith)
            requires
                a <= q,
                c > 0,
        ;
        assert(a * c <= m);
    } else {
        assert(a * c >= c * q + c) by (nonlinear_arith)
            requires
                a >= q + 1,
                c > 0,
        ;
        assert(a * c > m);
    }
}

/// A scalar wire value: the tagged union of the types a field or tag value
/// can take on the wire.
#[derive(Debug)]
pub enum Type {
    Boolean(bool),
    /// The decimal rendering of a floating-point value, carried as opaque
    /// text and emitted unquoted; the core never computes with it.
    Float(String),
    SignedInteger(i64),
    UnsignedInteger(u64),
    Text(String),
}

impl Type {
    /// The wire text of the value. Text is wrapped in double quotes with no
    /// internal escaping: a text value holding a quote, comma, space or
    /// equals sign corrupts the line format, a known gap of the wire format
    /// that is preserved here.
    pub open spec fn render_spec(&self) -> Seq<char> {
        match self {
            Type::Boolean(b) => if *b {
                "true"@
            } else {
                "false"@
            },
            Type::Float(t) => t@,
            Type::SignedInteger(i) => int_text(*i as int),
            Type::UnsignedInteger(u) => dec_digits(*u as nat),
            Type::Text(t) => seq!['"'] + t@ + seq!['"'],
        }
    }

    /// Renders the value to its wire text.
    pub fn render(&self) -> (s: String)
        ensures
            s@ == self.render_spec(),
    {
        match self {
            Type::Boolean(b) => if *b {
                String::from_str("true")
            } else {
                String::from_str("false")
            },
            Type::Float(t) => t.clone(),
            Type::SignedInteger(i) => crate::text::i64_text(*i),
            Type::UnsignedInteger(u) => u64_text(*u),
            Type::Text(t) => {
                let mut s = String::from_str("\"");
                s.append(t.as_str());
                s.append("\"");
                proof {
                    reveal_strlit("\"");
                    assert("\""@ =~= seq!['"']);
                    assert(s@ =~= seq!['"'] + t@ + seq!['"']);
                }
                s
            },
        }
    }
}

/// The wire-ready text of a successfully built query: the only artifact the
/// dispatcher sends, consumed by [`ValidQuery::get`].
#[derive(Debug)]
pub struct ValidQuery(pub String);

impl View for ValidQuery {
    type V = Seq<char>;

    open spec fn view(&self) -> Seq<char> {
        self.0@
    }
}

impl ValidQuery {
    /// Consumes the wrapper, yielding the wire text.
    pub fn get(self) -> (s: String)
        ensures
            s@ == self@,
    {
        self.0
    }
}

impl From<String> for ValidQuery {
    fn from(string: String) -> (r: Self) {
        ValidQuery(string)
    }
}

impl vstd::std_specs::convert::FromSpecImpl<String> for ValidQuery {
    open spec fn obeys_from_spec() -> bool {
        true
    }

    open spec fn from_spec(v: String) -> Self {
        ValidQuery(v)
    }
}

impl From<&str> for ValidQuery {
    fn from(string: &str) -> (r: Self)
        ensures
            r@ == string@,
    {
        ValidQuery(string.to_owned())
    }
}

impl vstd::std_specs::convert::FromSpecImpl<&str> for ValidQuery {
    /// A spec-level `String` cannot be conjured from a `&str` view, so the
    /// conversion promises its result only through the `ensures` above.
    open spec fn obeys_from_spec() -> bool {
        false
    }

    open spec fn from_spec(v: &str) -> Self {
        ValidQuery(arbitrary())
    }
}

impl PartialEq<String> for ValidQuery {
    fn eq(&self, other: &String) -> (r: bool) {
        self.0.eq(other)
    }
}

impl vstd::std_specs::cmp::PartialEqSpecImpl<String> for ValidQuery {
    open spec fn obeys_eq_spec() -> bool {
        true
    }

    open spec fn eq_spec(&self, other: &String) -> bool {
        self@ == other@
    }
}

impl PartialEq<&str> for ValidQuery {
    fn eq(&self, other: &&str) -> (r: bool) {
        str_eq(self.0.as_str(), *other)
    }
}

impl vstd::std_specs::cmp::PartialEqSpecImpl<&str> for ValidQuery {
    open spec fn obeys_eq_spec() -> bool {
        true
    }

    open spec fn eq_spec(&self, other: &&str) -> bool {
        self@ == other@
    }
}

/// Equality of a `ValidQuery` is plain string equality of its wire text:
/// it holds against an owned string and against a string literal exactly
/// alike whenever the two carry identical content.
pub proof fn lemma_eq_agrees_across_text_forms(q: ValidQuery, s: String, t: &str)
    requires
        s@ == t@,
    ensures
        vstd::std_specs::cmp::PartialEqSpec::eq_spec(&q, &s) == vstd::std_specs::cmp::PartialEqSpec::eq_spec(&q, &t),
{
}

/// Whether a query reads from or writes to the database, decided by the
/// builder's kind, never by inspecting the text.
#[derive(PartialEq, Eq, Structural, Debug, Clone, Copy)]
pub enum QueryType {
    ReadQuery,
    WriteQuery,
}

/// The shared query contract: render to wire-ready text, and classify.
pub trait Query {
    /// Whether `build` succeeds on this query.
    spec fn builds(&self) -> bool;

    /// The wire text `build` renders when it succeeds.
    spec fn query_text(&self) -> Seq<char>;

    /// The classification `get_type` returns.
    spec fn kind_spec(&self) -> QueryType;

    /// Renders the query to wire-ready text. A structurally invalid query
    /// fails here, before any request is made.
    fn build(&self) -> (r: Result<ValidQuery, Error>)
        ensures
            self.builds() ==> (r matches Ok(q) && q@ == self.query_text()),
            !self.builds() ==> (r matches Err(e) && e matches Error::InvalidQueryError { .. }),
    ;

    /// Classifies the query as a read or a write.
    fn get_type(&self) -> (t: QueryType)
        ensures
            t == self.kind_spec(),
    ;
}

impl dyn Query {
    /// Returns a write-query builder for the given timestamp and measurement.
    pub fn write_query(timestamp: Timestamp, measurement: &str) -> (r: WriteQuery)
        ensures
            r@ == (WriteQueryView {
                fields: Seq::empty(),
                tags: Seq::empty(),
                measurement: measurement@,
                timestamp: timestamp,
            }),
    {
        WriteQuery::new(timestamp, measurement)
    }

    /// Returns a read-query builder holding the given text verbatim.
    pub fn raw_read_query(read_query: &str) -> (r: ReadQuery)
        ensures
            r@ == read_query@,
    {
        ReadQuery::new(read_query)
    }
}

/// Either kind of query, borrowed: what the dispatcher branches on.
pub enum QueryTypes<'a> {
    Read(&'a ReadQuery),
    Write(&'a WriteQuery),
}

impl<'a> From<&'a ReadQuery> for QueryTypes<'a> {
    fn from(query: &'a ReadQuery) -> (r: Self) {
        QueryTypes::Read(query)
    }
}

impl<'a> vstd::std_specs::convert::FromSpecImpl<&'a ReadQuery> for QueryTypes<'a> {
    open spec fn obeys_from_spec() -> bool {
        true
    }

    open spec fn from_spec(v: &'a ReadQuery) -> Self {
        QueryTypes::Read(v)
    }
}

impl<'a> From<&'a WriteQuery> for QueryTypes<'a> {
    fn from(query: &'a WriteQuery) -> (r: Self) {
        QueryTypes::Write(query)
    }
}

impl<'a> vstd::std_specs::convert::FromSpecImpl<&'a WriteQuery> for QueryTypes<'a> {
    open spec fn obeys_from_spec() -> bool {
        true
    }

    open spec fn from_spec(v: &'a WriteQuery) -> Self {
        QueryTypes::Write(v)
    }
}

/// Anything that can seed a write query: the entry point the code-generation
/// collaborator targets when it turns a record type into a builder chain.
/// Each implementer states through `into_query_spec` which builder it turns
/// into; a bare timestamp starts an empty builder, while a record type adds
/// one field per member.
pub trait InfluxDbWriteable {
    /// The builder state this value turns into under `name`.
    spec fn into_query_spec(self, name: Seq<char>) -> WriteQueryView;

    /// Starts a write-query builder named `name` from this value.
    fn into_query(self, name: String) -> (r: WriteQuery)
        ensures
            r@ == self.into_query_spec(name@),
    ;
}

impl InfluxDbWriteable for Timestamp {
    open spec fn into_query_spec(self, name: Seq<char>) -> WriteQueryView {
        WriteQueryView {
            fields: Seq::empty(),
            tags: Seq::empty(),
            measurement: name,
            timestamp: self,
        }
    }

    fn into_query(self, name: String) -> (r: WriteQuery) {
        let r = WriteQuery::new(self, name.as_str());
        r
    }
}

} // verus!
