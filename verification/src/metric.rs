//! The metric data model: a uniform record of name, kind, value, tags,
//! namespace and timestamp, immutable once constructed.
//!
//! Values are float64 readings carried as their IEEE 754 bit pattern: the
//! library never computes with a reading, it only moves it, so the bits are
//! the whole story.

use vstd::prelude::*;

verus! {

/// Whether a metric is a cumulative total or an instantaneous reading.
#[derive(Clone, Copy, Debug, PartialEq, Eq, Structural)]
pub enum MetricKind {
    Counter,
    Gauge,
}

/// One tag: a key/value pair of strings.
pub struct Tag {
    pub key: String,
    pub value: String,
}

/// The tag mapping a list of tags denotes; a later entry for the same key
/// overrides an earlier one.
pub open spec fn spec_tag_map(tags: Seq<Tag>) -> Map<Seq<char>, Seq<char>>
    decreases tags.len(),
{
    if tags.len() == 0 {
        Map::empty()
    } else {
        spec_tag_map(tags.drop_last()).insert(tags.last().key@, tags.last().value@)
    }
}

/// The view of an optional string.
pub open spec fn opt_string_view(o: Option<String>) -> Option<Seq<char>> {
    match o {
        Some(s) => Some(s@),
        None => None,
    }
}

/// One metric record as the contracts see it.
pub ghost struct MetricData {
    pub name: Seq<char>,
    pub kind: MetricKind,
    pub value: u64,
    pub tags: Map<Seq<char>, Seq<char>>,
    pub namespace: Option<Seq<char>>,
    pub timestamp: i64,
}

/// The views of a list of metrics.
pub open spec fn metrics_view(s: Seq<Metric>) -> Seq<MetricData> {
    s.map_values(|m: Metric| m@)
}

/// One metric record: a name, its kind, a float64 reading as bits, a tag
/// mapping with unique keys, an optional namespace and a timestamp.
pub struct Metric {
    pub name: String,
    pub kind: MetricKind,
    pub value: u64,
    pub tags: Vec<Tag>,
    pub namespace: Option<String>,
    pub timestamp: i64,
}

impl View for Metric {
    type V = MetricData;

    open spec fn view(&self) -> MetricData {
        MetricData {
            name: self.name@,
            kind: self.kind,
            value: self.value,
            tags: spec_tag_map(self.tags@),
            namespace: opt_string_view(self.namespace),
            timestamp: self.timestamp,
        }
    }
}

/// Builds one metric record from its raw fields.
pub fn new_metric(
    name: &str,
    kind: MetricKind,
    value: u64,
    tags: Vec<Tag>,
    namespace: Option<String>,
    timestamp: i64,
) -> (m: Metric)
    ensures
        m@ == (MetricData {
            name: name@,
            kind,
            value,
            tags: spec_tag_map(tags@),
            namespace: opt_string_view(namespace),
            timestamp,
        }),
{
    Metric { name: name.to_owned(), kind, value, tags, namespace, timestamp }
}

impl Metric {
    /// Sets one tag; at the view, the tag mapping gains the pair, overriding
    /// any earlier value for the key.
    pub fn insert_tag(&mut self, key: String, value: String)
        ensures
            final(self)@ == (MetricData { tags: old(self)@.tags.insert(key@, value@), ..old(self)@ }),
    {
        let ghost before = self.tags@;
        let ghost k = key@;
        let ghost v = value@;
        self.tags.push(Tag { key, value });
        proof {
            assert(self.tags@.drop_last() =~= before);
            assert(self.tags@.last().key@ == k);
            assert(self.tags@.last().value@ == v);
        }
    }

    /// The value of the tag named `key`, if the metric carries it.
    pub fn tag_value(&self, key: &str) -> (r: Option<&String>)
        ensures
            match r {
                Some(v) => self@.tags.contains_key(key@) && v@ == self@.tags[key@],
                None => !self@.tags.contains_key(key@),
            },
    {
        let key_string = key.to_owned();
        let mut i: usize = self.tags.len();
        proof {
            assert(self.tags@.take(i as int) =~= self.tags@);
        }
        while i > 0
            invariant
                i <= self.tags.len(),
                key_string@ == key@,
                spec_tag_map(self.tags@).contains_key(key@) == spec_tag_map(
                    self.tags@.take(i as int),
                ).contains_key(key@),
                spec_tag_map(self.tags@).contains_key(key@) ==> spec_tag_map(self.tags@)[key@]
                    == spec_tag_map(self.tags@.take(i as int))[key@],
            decreases i,
        {
            i = i - 1;
            let entry = &self.tags[i];
            proof {
                assert(self.tags@.take(i as int + 1).drop_last() =~= self.tags@.take(i as int));
                assert(self.tags@.take(i as int + 1).last() == self.tags@[i as int]);
            }
            if entry.key == key_string {
                return Some(&entry.value);
            }
        }
        proof {
            assert(self.tags@.take(0) =~= Seq::<Tag>::empty());
        }
        None
    }
}

/// The decimal digit character for `d`.
pub open spec fn decimal_digit(d: int) -> char {
    if d == 0 {
        '0'
    } else if d == 1 {
        '1'
    } else if d == 2 {
        '2'
    } else if d == 3 {
        '3'
    } else if d == 4 {
        '4'
    } else if d == 5 {
        '5'
    } else if d == 6 {
        '6'
    } else if d == 7 {
        '7'
    } else if d == 8 {
        '8'
    } else {
        '9'
    }
}

/// The decimal rendering of `n`, most significant digit first.
pub open spec fn decimal_text(n: nat) -> Seq<char>
    decreases n,
{
    if n < 10 {
        seq![decimal_digit(n as int)]
    } else {
        decimal_text(n / 10).push(decimal_digit((n % 10) as int))
    }
}

/// Relies on u64's `Display` implementation: formatting an unsigned integer
/// writes its decimal digits.
#[verifier::external_body]
pub(crate) fn u64_to_string(n: u64) -> (r: String)
    ensures
        r@ == decimal_text(n as nat),
{
    n.to_string()
}

} // verus!
