//! The event model: one log/metric/trace record, an open mapping of named
//! typed values, carrying a handle to its shared acknowledgement finalizer.
//!
//! Payloads are immutable once past ingestion: components that need their own
//! copy duplicate the event (sharing nothing mutable) so that fanout to
//! multiple owners is safe.

use vstd::prelude::*;

verus! {

/// A typed field value. Byte strings stand for text and blob payloads.
#[derive(Debug, PartialEq, Eq)]
pub enum Value {
    Null,
    Bool(bool),
    Integer(i64),
    Bytes(Vec<u8>),
    Timestamp(i64),
}

/// Mathematical model of a `Value`.
pub enum ValueV {
    Null,
    Bool(bool),
    Integer(i64),
    Bytes(Seq<u8>),
    Timestamp(i64),
}

impl View for Value {
    type V = ValueV;

    open spec fn view(&self) -> ValueV {
        match self {
            Value::Null => ValueV::Null,
            Value::Bool(b) => ValueV::Bool(*b),
            Value::Integer(i) => ValueV::Integer(*i),
            Value::Bytes(b) => ValueV::Bytes(b@),
            Value::Timestamp(t) => ValueV::Timestamp(*t),
        }
    }
}

/// One named field of an event payload.
#[derive(Debug, PartialEq, Eq)]
pub struct Field {
    pub name: Vec<u8>,
    pub value: Value,
}

/// Mathematical model of a `Field`.
pub struct FieldV {
    pub name: Seq<u8>,
    pub value: ValueV,
}

impl View for Field {
    type V = FieldV;

    open spec fn view(&self) -> FieldV {
        FieldV { name: self.name@, value: self.value@ }
    }
}

/// Which kind of telemetry record an event carries.
#[derive(Clone, Copy, Debug, PartialEq, Eq, Structural)]
pub enum EventKind {
    Log,
    Metric,
    Trace,
}

/// One telemetry record. `finalizer` identifies the shared completion record
/// in the pipeline's acknowledgement registry; every owner of a copy of the
/// event holds one counted reference to it.
#[derive(Debug, PartialEq, Eq)]
pub struct Event {
    pub kind: EventKind,
    pub fields: Vec<Field>,
    pub finalizer: usize,
}

/// Mathematical model of an `Event`.
pub struct EventV {
    pub kind: EventKind,
    pub fields: Seq<FieldV>,
    pub finalizer: int,
}

/// The models of a sequence of fields, elementwise.
pub open spec fn fields_view(fs: Seq<Field>) -> Seq<FieldV> {
    fs.map_values(|f: Field| f@)
}

/// The models of a sequence of events, elementwise.
pub open spec fn events_view(s: Seq<Event>) -> Seq<EventV> {
    s.map_values(|e: Event| e@)
}

impl View for Event {
    type V = EventV;

    open spec fn view(&self) -> EventV {
        EventV {
            kind: self.kind,
            fields: fields_view(self.fields@),
            finalizer: self.finalizer as int,
        }
    }
}

/// Nominal encoded size of a value in bytes: one tag byte, plus the payload
/// (integers and timestamps eight bytes, byte strings a four-byte length and
/// their contents).
pub open spec fn spec_value_size(v: ValueV) -> nat {
    match v {
        ValueV::Null => 1,
        ValueV::Bool(_) => 2,
        ValueV::Integer(_) => 9,
        ValueV::Bytes(b) => 5 + b.len(),
        ValueV::Timestamp(_) => 9,
    }
}

/// Nominal encoded size of a field: four-byte name length, the name, and the
/// value.
pub open spec fn spec_field_size(f: FieldV) -> nat {
    4 + f.name.len() + spec_value_size(f.value)
}

/// Sum of the sizes of a sequence of fields.
pub open spec fn spec_fields_size(fs: Seq<FieldV>) -> nat
    decreases fs.len(),
{
    if fs.len() == 0 {
        0
    } else {
        spec_fields_size(fs.drop_last()) + spec_field_size(fs.last())
    }
}

/// Nominal encoded size of a whole event: one kind byte, a four-byte field
/// count, and the fields.
pub open spec fn spec_event_size(e: EventV) -> nat {
    5 + spec_fields_size(e.fields)
}

/// The nominal size as the machine accounts for it: capped at `usize::MAX`.
/// Capacity bookkeeping and batching thresholds are stated over this size.
pub open spec fn spec_event_size_sat(e: EventV) -> nat {
    if spec_event_size(e) <= usize::MAX {
        spec_event_size(e)
    } else {
        usize::MAX as nat
    }
}

/// Addition that sticks at `usize::MAX` instead of overflowing.
pub fn sat_add(a: usize, b: usize) -> (r: usize)
    ensures
        r == if a + b <= usize::MAX { a + b } else { usize::MAX as int },
{
    if a <= usize::MAX - b {
        a + b
    } else {
        usize::MAX
    }
}

fn value_size(v: &Value) -> (r: usize)
    ensures
        r == if spec_value_size(v@) <= usize::MAX { spec_value_size(v@) as int } else {
            usize::MAX as int
        },
{
    match v {
        Value::Null => 1,
        Value::Bool(_) => 2,
        Value::Integer(_) => 9,
        Value::Bytes(b) => sat_add(5, b.len()),
        Value::Timestamp(_) => 9,
    }
}

fn field_size(f: &Field) -> (r: usize)
    ensures
        r == if spec_field_size(f@) <= usize::MAX { spec_field_size(f@) as int } else {
            usize::MAX as int
        },
{
    sat_add(sat_add(4, f.name.len()), value_size(&f.value))
}

impl Event {
    /// The event's nominal size in bytes, used for capacity accounting and
    /// batching thresholds; saturates at `usize::MAX`.
    pub fn byte_size(&self) -> (r: usize)
        ensures
            r == spec_event_size_sat(self@),
    {
        let mut acc: usize = 5;
        let mut i: usize = 0;
        while i < self.fields.len()
            invariant
                0 <= i <= self.fields.len(),
                acc == if 5 + spec_fields_size(self@.fields.take(i as int)) <= usize::MAX {
                    (5 + spec_fields_size(self@.fields.take(i as int))) as int
                } else {
                    usize::MAX as int
                },
            decreases self.fields.len() - i,
    {
            assert(self@.fields.take(i + 1).drop_last() =~= self@.fields.take(i as int));
            assert(self@.fields.take(i + 1).last() == self@.fields[i as int]);
            acc = sat_add(acc, field_size(&self.fields[i]));
            i = i + 1;
        }
        assert(self@.fields.take(self.fields.len() as int) =~= self@.fields);
        acc
    }
}

/// Whether two byte strings hold the same bytes.
pub fn bytes_eq(a: &Vec<u8>, b: &Vec<u8>) -> (r: bool)
    ensures
        r == (a@ == b@),
{
    if a.len() != b.len() {
        assert(a@ != b@);
        return false;
    }
    let mut i: usize = 0;
    while i < a.len()
        invariant
            0 <= i <= a@.len(),
            a@.len() == b@.len(),
            forall|k: int| 0 <= k < i ==> a@[k] == b@[k],
        decreases a@.len() - i,
    {
        if a[i] != b[i] {
            assert(a@ != b@);
            return false;
        }
        i = i + 1;
    }
    assert(a@ =~= b@);
    true
}

/// A copy of a byte string.
pub fn clone_bytes(v: &Vec<u8>) -> (r: Vec<u8>)
    ensures
        r@ == v@,
{
    let mut r: Vec<u8> = Vec::new();
    let mut i: usize = 0;
    while i < v.len()
        invariant
            0 <= i <= v.len(),
            r@ == v@.take(i as int),
        decreases v.len() - i,
    {
        r.push(v[i]);
        assert(v@.take(i + 1) =~= v@.take(i as int).push(v@[i as int]));
        i = i + 1;
    }
    assert(v@.take(v.len() as int) =~= v@);
    r
}

/// A copy of a value.
pub fn clone_value(v: &Value) -> (r: Value)
    ensures
        r@ == v@,
{
    match v {
        Value::Null => Value::Null,
        Value::Bool(b) => Value::Bool(*b),
        Value::Integer(i) => Value::Integer(*i),
        Value::Bytes(b) => Value::Bytes(clone_bytes(b)),
        Value::Timestamp(t) => Value::Timestamp(*t),
    }
}

fn clone_field(f: &Field) -> (r: Field)
    ensures
        r@ == f@,
{
    Field { name: clone_bytes(&f.name), value: clone_value(&f.value) }
}

impl Event {
    /// A content-equal copy of this event, carrying the same finalizer
    /// handle. The caller is responsible for acquiring one more counted
    /// reference on that finalizer before the copy takes on a life of its
    /// own (see `AckRegistry::add_ref`).
    pub fn duplicate(&self) -> (r: Event)
        ensures
            r@ == self@,
    {
        let mut fields: Vec<Field> = Vec::new();
        let mut i: usize = 0;
        while i < self.fields.len()
            invariant
                0 <= i <= self.fields.len(),
                fields_view(fields@) == self@.fields.take(i as int),
            decreases self.fields.len() - i,
        {
            let f = clone_field(&self.fields[i]);
            let ghost pre = fields@;
            fields.push(f);
            proof {
                assert(fields_view(pre).len() == pre.len());
                assert(fields_view(pre).len() == i);
                assert(pre.len() == i);
                assert(fields@ == pre.push(f));
                assert(fields@.len() == i + 1);
                assert(f@ == self.fields@[i as int]@);
                assert forall|j: int| 0 <= j < i + 1 implies fields_view(fields@)[j]
                    == self@.fields.take(i + 1)[j] by {
                    assert(fields_view(fields@)[j] == fields@[j]@);
                    assert(self@.fields.take(i + 1)[j] == self.fields@[j]@);
                    if j < i {
                        assert(fields@[j] == pre[j]);
                        assert(fields_view(pre)[j] == pre[j]@);
                        assert(fields_view(pre)[j] == self@.fields.take(i as int)[j]);
                    } else {
                        assert(fields@[j] == f);
                    }
                }
                assert(fields_view(fields@) =~= self@.fields.take(i + 1));
            }
            i = i + 1;
        }
        assert(self@.fields.take(self.fields.len() as int) =~= self@.fields);
        let r = Event { kind: self.kind, fields, finalizer: self.finalizer };
        assert(r@ =~= self@);
        r
    }
}

} // verus!
