//! The wire and storage codecs.
//!
//! The wire format is a structured record with one named field per declared
//! column and the identifier under the entity's designated id field name.
//! The storage row format is positional: the identifier and one value per
//! declared column in schema order.  Both directions are exact: decoding
//! what was encoded yields the encoded instance unchanged.

use crate::column::ColumnValue;
use crate::entity::Entity;
use vstd::prelude::*;
use vstd::string::*;

verus! {

/// One named field of a wire record.
#[derive(PartialEq, Eq, Debug)]
pub struct WireField {
    pub name: String,
    pub value: ColumnValue,
}

impl View for WireField {
    type V = (Seq<char>, ColumnValue);

    open spec fn view(&self) -> (Seq<char>, ColumnValue) {
        (self.name@, self.value)
    }
}

/// A record in the wire format: the identifier under its designated field
/// name, and one named field per declared column.
#[derive(PartialEq, Eq, Debug)]
pub struct WireRecord {
    pub id_field: String,
    pub id: u64,
    pub fields: Vec<WireField>,
}

/// The mathematical image of a [`WireRecord`].
pub struct WireRecordSpec {
    pub id_field: Seq<char>,
    pub id: u64,
    pub fields: Seq<(Seq<char>, ColumnValue)>,
}

impl View for WireRecord {
    type V = WireRecordSpec;

    open spec fn view(&self) -> WireRecordSpec {
        WireRecordSpec {
            id_field: self.id_field@,
            id: self.id,
            fields: self.fields@.map_values(|f: WireField| f@),
        }
    }
}

/// The wire record an entity instance serializes to.
pub open spec fn spec_encode_wire<E: Entity>(e: E) -> WireRecordSpec {
    WireRecordSpec {
        id_field: E::spec_id_field(),
        id: e.spec_id(),
        fields: Seq::new(
            E::spec_column_names().len(),
            |i: int| (E::spec_column_names()[i], e.spec_columns()[i]),
        ),
    }
}

/// The entity a wire record deserializes to: the id field name must match,
/// and the fields must carry exactly the declared column names in order.
pub open spec fn spec_decode_wire<E: Entity>(r: WireRecordSpec) -> Option<E> {
    if r.id_field == E::spec_id_field() && r.fields.len() == E::spec_column_names().len() && (forall|
        i: int,
    |
        0 <= i < r.fields.len() ==> (#[trigger] r.fields[i]).0 == E::spec_column_names()[i]) {
        E::spec_from_columns(r.id, r.fields.map_values(|f: (Seq<char>, ColumnValue)| f.1))
    } else {
        None
    }
}

/// Serializes an entity instance to the wire format.
pub fn encode_wire<E: Entity>(e: &E) -> (r: WireRecord)
    ensures
        r@ == spec_encode_wire(*e),
{
    proof {
        e.lemma_columns_aligned();
    }
    let names = E::column_names();
    let values = e.column_values();
    let mut fields: Vec<WireField> = Vec::new();
    let mut i: usize = 0;
    while i < names.len()
        invariant
            names.deep_view() == E::spec_column_names(),
            values@ == e.spec_columns(),
            names@.len() == values@.len(),
            0 <= i <= names.len(),
            fields@.len() == i,
            forall|j: int|
                0 <= j < i ==> (#[trigger] fields@[j])@ == (
                    E::spec_column_names()[j],
                    e.spec_columns()[j],
                ),
        decreases names.len() - i,
    {
        assert(names.deep_view()[i as int] == names@[i as int]@);
        fields.push(WireField { name: names[i].clone(), value: values[i].clone() });
        i = i + 1;
    }
    let r = WireRecord { id_field: String::from_str(E::id_field_name()), id: e.id(), fields };
    proof {
        assert(r@.fields =~= spec_encode_wire(*e).fields);
    }
    r
}

/// Deserializes a wire record to an entity instance, if the id field name
/// and every column name match the declared schema.
pub fn decode_wire<E: Entity>(r: &WireRecord) -> (res: Option<E>)
    ensures
        res == spec_decode_wire::<E>(r@),
{
    let id_field = String::from_str(E::id_field_name());
    if !(r.id_field == id_field) {
        return None;
    }
    let names = E::column_names();
    if r.fields.len() != names.len() {
        return None;
    }
    let mut values: Vec<ColumnValue> = Vec::new();
    let mut i: usize = 0;
    while i < r.fields.len()
        invariant
            names.deep_view() == E::spec_column_names(),
            r.fields@.len() == names@.len(),
            0 <= i <= r.fields.len(),
            values@.len() == i,
            forall|j: int| 0 <= j < i ==> (#[trigger] r.fields@[j])@.0 == E::spec_column_names()[j],
            forall|j: int| 0 <= j < i ==> #[trigger] values@[j] == r.fields@[j]@.1,
        decreases r.fields.len() - i,
    {
        assert(names.deep_view()[i as int] == names@[i as int]@);
        if !(r.fields[i].name == names[i]) {
            proof {
                assert(r@.fields[i as int].0 != E::spec_column_names()[i as int]);
            }
            return None;
        }
        values.push(r.fields[i].value.clone());
        i = i + 1;
    }
    let res = E::from_columns(r.id, values);
    proof {
        assert(forall|j: int|
            0 <= j < r@.fields.len() ==> (#[trigger] r@.fields[j]).0 == E::spec_column_names()[j]);
        assert(values@ =~= r@.fields.map_values(|f: (Seq<char>, ColumnValue)| f.1));
    }
    res
}

/// Wire round trip: serializing an entity instance and deserializing the
/// result yields a value equal in all declared columns and the identifier.
pub proof fn lemma_wire_round_trip<E: Entity>(e: E)
    ensures
        spec_decode_wire::<E>(spec_encode_wire(e)) == Some(e),
{
    e.lemma_columns_aligned();
    e.lemma_from_columns_round_trip();
    let enc = spec_encode_wire(e);
    assert(enc.fields.map_values(|f: (Seq<char>, ColumnValue)| f.1) =~= e.spec_columns());
}

/// A storage row: the identifier and one value per declared column, in
/// schema order.
#[derive(PartialEq, Eq, Debug)]
pub struct Row {
    pub id: u64,
    pub values: Vec<ColumnValue>,
}

/// The mathematical image of a [`Row`].
pub struct RowSpec {
    pub id: u64,
    pub values: Seq<ColumnValue>,
}

impl View for Row {
    type V = RowSpec;

    open spec fn view(&self) -> RowSpec {
        RowSpec { id: self.id, values: self.values@ }
    }
}

/// The storage row an entity instance maps to.
pub open spec fn spec_to_row<E: Entity>(e: E) -> RowSpec {
    RowSpec { id: e.spec_id(), values: e.spec_columns() }
}

/// The entity a storage row maps back to: the row must carry exactly one
/// value per declared column.
pub open spec fn spec_from_row<E: Entity>(r: RowSpec) -> Option<E> {
    if r.values.len() == E::spec_column_names().len() {
        E::spec_from_columns(r.id, r.values)
    } else {
        None
    }
}

/// Maps an entity instance to its storage row.
pub fn to_row<E: Entity>(e: &E) -> (r: Row)
    ensures
        r@ == spec_to_row(*e),
{
    Row { id: e.id(), values: e.column_values() }
}

/// Maps a storage row back to an entity instance, if it carries one value
/// per declared column.
pub fn from_row<E: Entity>(r: &Row) -> (res: Option<E>)
    ensures
        res == spec_from_row::<E>(r@),
{
    let names = E::column_names();
    if r.values.len() != names.len() {
        return None;
    }
    let mut values: Vec<ColumnValue> = Vec::new();
    let mut i: usize = 0;
    while i < r.values.len()
        invariant
            0 <= i <= r.values.len(),
            values@.len() == i,
            forall|j: int| 0 <= j < i ==> #[trigger] values@[j] == r.values@[j],
        decreases r.values.len() - i,
    {
        values.push(r.values[i].clone());
        i = i + 1;
    }
    proof {
        assert(values@ =~= r.values@);
    }
    E::from_columns(r.id, values)
}

/// Storage round trip: mapping an entity instance to its row and back
/// yields the same instance.
pub proof fn lemma_row_round_trip<E: Entity>(e: E)
    ensures
        spec_from_row::<E>(spec_to_row(e)) == Some(e),
{
    e.lemma_columns_aligned();
    e.lemma_from_columns_round_trip();
}

} // verus!
