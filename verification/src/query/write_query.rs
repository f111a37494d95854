//! The write-query builder: accumulates a measurement, ordered tag and field
//! pairs and a timestamp, and renders them to a line of the wire format.

use vstd::prelude::*;
use vstd::string::StringExecFns;

use crate::error::Error;
use crate::query::{Query, QueryType, Timestamp, Type, ValidQuery};

verus! {

/// The pairs of a `(String, String)` vector, seen as sequences of characters.
pub open spec fn pairs_view(v: Seq<(String, String)>) -> Seq<(Seq<char>, Seq<char>)> {
    v.map_values(|p: (String, String)| (p.0@, p.1@))
}

/// Appends one `(name, value)` pair.
pub fn push_pair(pairs: &mut Vec<(String, String)>, name: String, value: String)
    ensures
        pairs_view(final(pairs)@) == pairs_view(old(pairs)@).push((name@, value@)),
{
    let ghost pre = pairs@;
    let ghost entry = (name@, value@);
    pairs.push((name, value));
    proof {
        assert(pairs_view(pairs@) =~= pairs_view(pre).push(entry));
    }
}

/// Renders `val` and appends it under `tag` as one `(name, value)` pair.
fn push_rendered(fields: &mut Vec<(String, String)>, tag: String, val: Type)
    ensures
        pairs_view(final(fields)@) == pairs_view(old(fields)@) + seq![(tag@, val.render_spec())],
{
    let ghost t = tag@;
    let value = val.render();
    push_pair(fields, tag, value);
    proof {
        assert(pairs_view(old(fields)@).push((t, val.render_spec())) =~= pairs_view(old(fields)@)
            + seq![(t, val.render_spec())]);
    }
}

/// A value that can contribute field entries to a write query: every scalar
/// wire type contributes exactly one entry, and an absent optional value
/// contributes none.
pub trait WriteField {
    /// The `(name, rendered value)` entries this value contributes under
    /// `name`.
    spec fn field_entries(self, name: Seq<char>) -> Seq<(Seq<char>, Seq<char>)>;

    /// Renders this value and appends its entries to `fields` under `tag`.
    fn add_to_fields(self, tag: String, fields: &mut Vec<(String, String)>)
        ensures
            pairs_view(final(fields)@) == pairs_view(old(fields)@) + self.field_entries(tag@),
    ;
}

impl WriteField for bool {
    open spec fn field_entries(self, name: Seq<char>) -> Seq<(Seq<char>, Seq<char>)> {
        seq![(name, Type::Boolean(self).render_spec())]
    }

    fn add_to_fields(self, tag: String, fields: &mut Vec<(String, String)>) {
        push_rendered(fields, tag, Type::Boolean(self));
    }
}

impl WriteField for i8 {
    open spec fn field_entries(self, name: Seq<char>) -> Seq<(Seq<char>, Seq<char>)> {
        seq![(name, Type::SignedInteger(self as i64).render_spec())]
    }

    fn add_to_fields(self, tag: String, fields: &mut Vec<(String, String)>) {
        push_rendered(fields, tag, Type::SignedInteger(self as i64));
    }
}

impl WriteField for i16 {
    open spec fn field_entries(self, name: Seq<char>) -> Seq<(Seq<char>, Seq<char>)> {
        seq![(name, Type::SignedInteger(self as i64).render_spec())]
    }

    fn add_to_fields(self, tag: String, fields: &mut Vec<(String, String)>) {
        push_rendered(fields, tag, Type::SignedInteger(self as i64));
    }
}

impl WriteField for i32 {
    open spec fn field_entries(self, name: Seq<char>) -> Seq<(Seq<char>, Seq<char>)> {
        seq![(name, Type::SignedInteger(self as i64).render_spec())]
    }

    fn add_to_fields(self, tag: String, fields: &mut Vec<(String, String)>) {
        push_rendered(fields, tag, Type::SignedInteger(self as i64));
    }
}

impl WriteField for i64 {
    open spec fn field_entries(self, name: Seq<char>) -> Seq<(Seq<char>, Seq<char>)> {
        seq![(name, Type::SignedInteger(self).render_spec())]
    }

    fn add_to_fields(self, tag: String, fields: &mut Vec<(String, String)>) {
        push_rendered(fields, tag, Type::SignedInteger(self));
    }
}

impl WriteField for u8 {
    open spec fn field_entries(self, name: Seq<char>) -> Seq<(Seq<char>, Seq<char>)> {
        seq![(name, Type::UnsignedInteger(self as u64).render_spec())]
    }

    fn add_to_fields(self, tag: String, fields: &mut Vec<(String, String)>) {
        push_rendered(fields, tag, Type::UnsignedInteger(self as u64));
    }
}

impl WriteField for u16 {
    open spec fn field_entries(self, name: Seq<char>) -> Seq<(Seq<char>, Seq<char>)> {
        seq![(name, Type::UnsignedInteger(self as u64).render_spec())]
    }

    fn add_to_fields(self, tag: String, fields: &mut Vec<(String, String)>) {
        push_rendered(fields, tag, Type::UnsignedInteger(self as u64));
    }
}

impl WriteField for u32 {
    open spec fn field_entries(self, name: Seq<char>) -> Seq<(Seq<char>, Seq<char>)> {
        seq![(name, Type::UnsignedInteger(self as u64).render_spec())]
    }

    fn add_to_fields(self, tag: String, fields: &mut Vec<(String, String)>) {
        push_rendered(fields, tag, Type::UnsignedInteger(self as u64));
    }
}

impl WriteField for u64 {
    open spec fn field_entries(self, name: Seq<char>) -> Seq<(Seq<char>, Seq<char>)> {
        seq![(name, Type::UnsignedInteger(self).render_spec())]
    }

    fn add_to_fields(self, tag: String, fields: &mut Vec<(String, String)>) {
        push_rendered(fields, tag, Type::UnsignedInteger(self));
    }
}

impl WriteField for String {
    open spec fn field_entries(self, name: Seq<char>) -> Seq<(Seq<char>, Seq<char>)> {
        seq![(name, Type::Text(self).render_spec())]
    }

    fn add_to_fields(self, tag: String, fields: &mut Vec<(String, String)>) {
        push_rendered(fields, tag, Type::Text(self));
    }
}

impl WriteField for &str {
    open spec fn field_entries(self, name: Seq<char>) -> Seq<(Seq<char>, Seq<char>)> {
        seq![(name, seq!['"'] + self@ + seq!['"'])]
    }

    fn add_to_fields(self, tag: String, fields: &mut Vec<(String, String)>) {
        push_rendered(fields, tag, Type::Text(self.to_owned()));
    }
}

impl WriteField for Type {
    open spec fn field_entries(self, name: Seq<char>) -> Seq<(Seq<char>, Seq<char>)> {
        seq![(name, self.render_spec())]
    }

    fn add_to_fields(self, tag: String, fields: &mut Vec<(String, String)>) {
        push_rendered(fields, tag, self);
    }
}

impl<T: WriteField> WriteField for Option<T> {
    open spec fn field_entries(self, name: Seq<char>) -> Seq<(Seq<char>, Seq<char>)> {
        match self {
            Some(val) => val.field_entries(name),
            None => Seq::empty(),
        }
    }

    fn add_to_fields(self, tag: String, fields: &mut Vec<(String, String)>) {
        match self {
            Some(val) => val.add_to_fields(tag, fields),
            None => {
                proof {
                    assert(pairs_view(fields@) =~= pairs_view(fields@)
                        + Seq::<(Seq<char>, Seq<char>)>::empty());
                }
            },
        }
    }
}

/// The abstract state of a write-query builder.
pub struct WriteQueryView {
    pub fields: Seq<(Seq<char>, Seq<char>)>,
    pub tags: Seq<(Seq<char>, Seq<char>)>,
    pub measurement: Seq<char>,
    pub timestamp: Timestamp,
}

/// A write query under construction: a measurement, ordered tag and field
/// pairs kept exactly in insertion order (duplicates included), and a
/// timestamp. It renders successfully once it holds at least one field.
pub struct WriteQuery {
    pub fields: Vec<(String, String)>,
    pub tags: Vec<(String, String)>,
    pub measurement: String,
    pub timestamp: Timestamp,
}

impl View for WriteQuery {
    type V = WriteQueryView;

    open spec fn view(&self) -> WriteQueryView {
        WriteQueryView {
            fields: pairs_view(self.fields@),
            tags: pairs_view(self.tags@),
            measurement: self.measurement@,
            timestamp: self.timestamp,
        }
    }
}

/// One `name=value` pair as it appears on the wire.
pub open spec fn pair_text(p: (Seq<char>, Seq<char>)) -> Seq<char> {
    p.0 + seq!['='] + p.1
}

/// The pairs rendered `name=value` and joined with commas.
pub open spec fn joined_pairs(ps: Seq<(Seq<char>, Seq<char>)>) -> Seq<char>
    decreases ps.len(),
{
    if ps.len() == 0 {
        Seq::empty()
    } else if ps.len() == 1 {
        pair_text(ps[0])
    } else {
        joined_pairs(ps.drop_last()) + seq![','] + pair_text(ps.last())
    }
}

/// The tag segment of a line: empty without tags, else a comma followed by
/// the joined tag pairs.
pub open spec fn tag_segment(tags: Seq<(Seq<char>, Seq<char>)>) -> Seq<char> {
    if tags.len() == 0 {
        Seq::empty()
    } else {
        seq![','] + joined_pairs(tags)
    }
}

/// The timestamp tail of a line: empty for `Now`, else a space and the
/// rendered value.
pub open spec fn time_tail(ts: Timestamp) -> Seq<char> {
    if ts == Timestamp::Now {
        Seq::empty()
    } else {
        seq![' '] + ts.render_spec()
    }
}

/// The full line a write query renders to:
/// `measurement[,tags] fields[ timestamp]`.
pub open spec fn line_text(v: WriteQueryView) -> Seq<char> {
    v.measurement + tag_segment(v.tags) + seq![' '] + joined_pairs(v.fields) + time_tail(
        v.timestamp,
    )
}

/// Joining pairs appends `name=value`, with a comma once a pair precedes it.
proof fn lemma_joined_push(ps: Seq<(Seq<char>, Seq<char>)>, p: (Seq<char>, Seq<char>))
    ensures
        joined_pairs(ps.push(p)) == if ps.len() == 0 {
            pair_text(p)
        } else {
            joined_pairs(ps) + seq![','] + pair_text(p)
        },
{
    let q = ps.push(p);
    assert(q.drop_last() =~= ps);
    assert(q.last() == p);
}

impl WriteQuery {
    /// Creates a builder with no tags and no fields.
    pub fn new(timestamp: Timestamp, measurement: &str) -> (r: Self)
        ensures
            r@ == (WriteQueryView {
                fields: Seq::empty(),
                tags: Seq::empty(),
                measurement: measurement@,
                timestamp: timestamp,
            }),
    {
        let r = WriteQuery {
            fields: Vec::new(),
            tags: Vec::new(),
            measurement: measurement.to_owned(),
            timestamp,
        };
        proof {
            assert(pairs_view(Seq::<(String, String)>::empty()) =~= Seq::<(
                Seq<char>,
                Seq<char>,
            )>::empty());
        }
        r
    }

    /// Appends a field pair; an absent optional value appends nothing.
    pub fn add_field<F: WriteField>(self, tag: &str, value: F) -> (r: Self)
        ensures
            r@ == (WriteQueryView { fields: self@.fields + value.field_entries(tag@), ..self@ }),
    {
        let WriteQuery { mut fields, tags, measurement, timestamp } = self;
        value.add_to_fields(tag.to_owned(), &mut fields);
        WriteQuery { fields, tags, measurement, timestamp }
    }

    /// Appends a tag pair. A query holding only tags still fails to build:
    /// at least one field is required.
    pub fn add_tag<V: WriteField>(self, tag: &str, value: V) -> (r: Self)
        ensures
            r@ == (WriteQueryView { tags: self@.tags + value.field_entries(tag@), ..self@ }),
    {
        let WriteQuery { fields, mut tags, measurement, timestamp } = self;
        value.add_to_fields(tag.to_owned(), &mut tags);
        WriteQuery { fields, tags, measurement, timestamp }
    }

    /// The precision token of the query's timestamp, sent as a request
    /// parameter and never embedded in the line.
    pub fn get_precision(&self) -> (s: String)
        ensures
            s@ == self@.timestamp.precision_spec(),
    {
        let modifier: &str = match self.timestamp {
            Timestamp::Now => {
                return String::new();
            },
            Timestamp::Nanoseconds(_) => "ns",
            Timestamp::Microseconds(_) => "u",
            Timestamp::Milliseconds(_) => "ms",
            Timestamp::Seconds(_) => "s",
            Timestamp::Minutes(_) => "m",
            Timestamp::Hours(_) => "h",
        };
        modifier.to_owned()
    }

    /// Appends the pairs of `pairs` to `out`, each rendered `name=value`,
    /// with a comma before every pair (`lead_always`) or only between
    /// pairs.
    fn append_pairs(out: &mut String, pairs: &Vec<(String, String)>, lead_always: bool)
        ensures
            final(out)@ == old(out)@ + if lead_always {
                tag_segment(pairs_view(pairs@))
            } else {
                joined_pairs(pairs_view(pairs@))
            },
    {
        let ghost base = out@;
        let ghost all = pairs_view(pairs@);
        let mut i: usize = 0;
        while i < pairs.len()
            invariant
                all == pairs_view(pairs@),
                i <= pairs.len(),
                out@ == base + if lead_always {
                    tag_segment(all.take(i as int))
                } else {
                    joined_pairs(all.take(i as int))
                },
            decreases pairs.len() - i,
        {
            if lead_always || i > 0 {
                out.append(",");
            }
            let p = &pairs[i];
            out.append(p.0.as_str());
            out.append("=");
            out.append(p.1.as_str());
            proof {
                reveal_strlit(",");
                reveal_strlit("=");
                lemma_joined_push(all.take(i as int), all[i as int]);
                assert(all.take(i + 1) =~= all.take(i as int).push(all[i as int]));
                if lead_always {
                    assert(out@ =~= base + tag_segment(all.take(i + 1)));
                } else {
                    assert(out@ =~= base + joined_pairs(all.take(i + 1)));
                }
            }
            i += 1;
        }
        proof {
            assert(all.take(pairs@.len() as int) =~= all);
        }
    }
}

impl Query for WriteQuery {
    open spec fn builds(&self) -> bool {
        self@.fields.len() > 0
    }

    open spec fn query_text(&self) -> Seq<char> {
        line_text(self@)
    }

    open spec fn kind_spec(&self) -> QueryType {
        QueryType::WriteQuery
    }

    fn build(&self) -> (r: Result<ValidQuery, Error>)
        ensures
            !self.builds() ==> (r matches Err(e) && e matches Error::InvalidQueryError { error }
                && error@ == "fields cannot be empty"@),
    {
        if self.fields.len() == 0 {
            return Err(Error::InvalidQueryError { error: "fields cannot be empty".to_owned() });
        }
        let mut out: String = self.measurement.clone();
        WriteQuery::append_pairs(&mut out, &self.tags, true);
        out.append(" ");
        let ghost head = self.measurement@ + tag_segment(self@.tags) + seq![' '];
        proof {
            reveal_strlit(" ");
            assert(out@ =~= head);
        }
        WriteQuery::append_pairs(&mut out, &self.fields, false);
        match &self.timestamp {
            Timestamp::Now => {
                proof {
                    assert(out@ =~= line_text(self@));
                }
            },
            _ => {
                out.append(" ");
                let ts = self.timestamp.render();
                out.append(ts.as_str());
                proof {
                    reveal_strlit(" ");
                    assert(out@ =~= line_text(self@));
                }
            },
        }
        Ok(ValidQuery::from(out))
    }

    fn get_type(&self) -> (t: QueryType) {
        QueryType::WriteQuery
    }
}

} // verus!
