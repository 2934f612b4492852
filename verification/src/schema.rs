use vstd::prelude::*;
use std::sync::Arc;

verus! {

/// The type of a column or of a scalar value.
#[derive(Clone, Copy, PartialEq, Eq, Structural, Debug)]
pub enum DataType {
    Null,
    Boolean,
    Int64,
    UInt64,
    Utf8,
}

/// One named, typed column of a schema.
#[derive(PartialEq, Debug)]
pub struct DataField {
    pub name: String,
    pub data_type: DataType,
    pub nullable: bool,
}

impl Clone for DataField {
    fn clone(&self) -> (r: Self)
        ensures
            r == *self,
    {
        DataField { name: self.name.clone(), data_type: self.data_type, nullable: self.nullable }
    }
}

/// An ordered, typed column list.
#[derive(PartialEq, Debug)]
pub struct DataSchema {
    pub fields: Vec<DataField>,
}

/// Schemas are shared, immutable, and reference counted.
pub type DataSchemaRef = Arc<DataSchema>;

/// The mathematical content of a shared schema: its column sequence.
pub open spec fn schema_view(s: DataSchemaRef) -> Seq<DataField> {
    (*s).fields@
}

impl DataSchema {
    /// A schema with no columns.
    pub fn empty() -> (r: DataSchemaRef)
        ensures
            schema_view(r) == Seq::<DataField>::empty(),
    {
        Arc::new(DataSchema { fields: Vec::new() })
    }

    /// A shared schema over the given columns.
    pub fn new(fields: Vec<DataField>) -> (r: DataSchemaRef)
        ensures
            schema_view(r) == fields@,
    {
        Arc::new(DataSchema { fields })
    }
}

} // verus!
