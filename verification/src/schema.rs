//! Row schemas.
//!
//! A schema is an ordered sequence of fields; each field has a name, a
//! logical type and a nullability bit.  Schemas are value-equal when their
//! field sequences match element-wise.  Field names are byte strings so the
//! wire form is independent of any text encoding.

use vstd::prelude::*;

verus! {

broadcast use crate::views::lemma_deep_view_len, crate::views::lemma_deep_view_index;

/// The logical types of the vocabulary.
#[derive(Clone, Copy, Debug, PartialEq, Eq, Structural)]
pub enum DataType {
    Boolean,
    Int32,
    Int64,
    UInt32,
    UInt64,
    Utf8,
}

impl DeepView for DataType {
    type V = DataType;

    open spec fn deep_view(&self) -> DataType {
        *self
    }
}

/// A named, typed, null-aware column.
#[derive(Debug, PartialEq)]
pub struct Field {
    pub name: Vec<u8>,
    pub data_type: DataType,
    pub nullable: bool,
}

/// The mathematical image of a [`Field`].
pub ghost struct FieldV {
    pub name: Seq<u8>,
    pub data_type: DataType,
    pub nullable: bool,
}

impl DeepView for Field {
    type V = FieldV;

    open spec fn deep_view(&self) -> FieldV {
        FieldV { name: self.name@, data_type: self.data_type, nullable: self.nullable }
    }
}

/// An ordered field sequence describing a row layout.
#[derive(Debug, PartialEq)]
pub struct Schema {
    pub fields: Vec<Field>,
}

/// The mathematical image of a [`Schema`]: its field sequence.
pub type SchemaV = Seq<FieldV>;

impl DeepView for Schema {
    type V = SchemaV;

    open spec fn deep_view(&self) -> SchemaV {
        self.fields.deep_view()
    }
}

impl Field {
    pub fn new(name: Vec<u8>, data_type: DataType, nullable: bool) -> (f: Field)
        ensures
            f.deep_view() == (FieldV { name: name@, data_type, nullable }),
    {
        Field { name, data_type, nullable }
    }
}

impl Schema {
    pub fn new(fields: Vec<Field>) -> (s: Schema)
        ensures
            s.deep_view() == fields.deep_view(),
    {
        Schema { fields }
    }

    /// Number of fields.
    pub fn len(&self) -> (n: usize)
        ensures
            n == self.deep_view().len(),
    {
        self.fields.len()
    }
}

/// Compares two byte strings.
pub fn bytes_eq(a: &Vec<u8>, b: &Vec<u8>) -> (r: bool)
    ensures
        r == (a@ == b@),
{
    if a.len() != b.len() {
        return false;
    }
    let mut k: usize = 0;
    while k < a.len()
        invariant
            k <= a@.len(),
            a@.len() == b@.len(),
            forall|m: int| 0 <= m < k ==> a@[m] == b@[m],
        decreases a@.len() - k,
    {
        if a[k] != b[k] {
            return false;
        }
        k = k + 1;
    }
    proof {
        assert(a@ =~= b@);
    }
    true
}

/// Copies a byte string.
pub fn copy_bytes(a: &Vec<u8>) -> (r: Vec<u8>)
    ensures
        r@ == a@,
{
    let mut r: Vec<u8> = Vec::new();
    let mut k: usize = 0;
    while k < a.len()
        invariant
            k <= a@.len(),
            r@ == a@.subrange(0, k as int),
        decreases a@.len() - k,
    {
        r.push(a[k]);
        assert(r@ =~= a@.subrange(0, k + 1 as int));
        k = k + 1;
    }
    assert(r@ =~= a@);
    r
}

/// Copies a field.
pub fn copy_field(f: &Field) -> (r: Field)
    ensures
        r.deep_view() == f.deep_view(),
{
    Field { name: copy_bytes(&f.name), data_type: f.data_type, nullable: f.nullable }
}

/// Copies a schema.
pub fn copy_schema(s: &Schema) -> (r: Schema)
    ensures
        r.deep_view() == s.deep_view(),
{
    let mut fields: Vec<Field> = Vec::new();
    let mut k: usize = 0;
    while k < s.fields.len()
        invariant
            k <= s.fields@.len(),
            fields.deep_view() == s.deep_view().subrange(0, k as int),
        decreases s.fields@.len() - k,
    {
        let f = copy_field(&s.fields[k]);
        let ghost pre = fields;
        let ghost fx = f;
        fields.push(f);
        proof {
            crate::views::lemma_deep_view_push(fields, pre, fx);
            assert(fields.deep_view() =~= s.deep_view().subrange(0, k + 1 as int));
        }
        k = k + 1;
    }
    assert(fields.deep_view() =~= s.deep_view());
    Schema { fields }
}

/// Compares two fields by name, type and nullability.
pub fn field_eq(a: &Field, b: &Field) -> (r: bool)
    ensures
        r == (a.deep_view() == b.deep_view()),
{
    let r = bytes_eq(&a.name, &b.name) && a.data_type == b.data_type && a.nullable
        == b.nullable;
    r
}

/// Compares two schemas element-wise.
pub fn schema_eq(a: &Schema, b: &Schema) -> (r: bool)
    ensures
        r == (a.deep_view() == b.deep_view()),
{
    if a.fields.len() != b.fields.len() {
        proof {
            assert(a.deep_view().len() != b.deep_view().len());
        }
        return false;
    }
    let mut k: usize = 0;
    while k < a.fields.len()
        invariant
            k <= a.fields@.len(),
            a.fields@.len() == b.fields@.len(),
            a.deep_view().len() == b.deep_view().len() == a.fields@.len(),
            forall|m: int| 0 <= m < k ==> a.deep_view()[m] == b.deep_view()[m],
        decreases a.fields@.len() - k,
    {
        if !field_eq(&a.fields[k], &b.fields[k]) {
            proof {
                assert(a.deep_view()[k as int] != b.deep_view()[k as int]);
            }
            return false;
        }
        k = k + 1;
    }
    proof {
        assert(a.deep_view() =~= b.deep_view());
    }
    true
}

} // verus!
