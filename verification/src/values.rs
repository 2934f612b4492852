use vstd::prelude::*;
use crate::schema::{DataSchemaRef, DataType};

verus! {

/// A single scalar value, possibly the null value.
#[derive(PartialEq, Debug)]
pub enum DataValue {
    Null,
    Boolean(bool),
    Int64(i64),
    UInt64(u64),
    Utf8(String),
}

impl Clone for DataValue {
    fn clone(&self) -> (r: Self)
        ensures
            r == *self,
    {
        match self {
            DataValue::Null => DataValue::Null,
            DataValue::Boolean(v) => DataValue::Boolean(*v),
            DataValue::Int64(v) => DataValue::Int64(*v),
            DataValue::UInt64(v) => DataValue::UInt64(*v),
            DataValue::Utf8(v) => DataValue::Utf8(v.clone()),
        }
    }
}

impl DataValue {
    /// The type a value belongs to.
    pub open spec fn spec_data_type(&self) -> DataType {
        match self {
            DataValue::Null => DataType::Null,
            DataValue::Boolean(_) => DataType::Boolean,
            DataValue::Int64(_) => DataType::Int64,
            DataValue::UInt64(_) => DataType::UInt64,
            DataValue::Utf8(_) => DataType::Utf8,
        }
    }

    pub fn data_type(&self) -> (r: DataType)
        ensures
            r == self.spec_data_type(),
    {
        match self {
            DataValue::Null => DataType::Null,
            DataValue::Boolean(_) => DataType::Boolean,
            DataValue::Int64(_) => DataType::Int64,
            DataValue::UInt64(_) => DataType::UInt64,
            DataValue::Utf8(_) => DataType::Utf8,
        }
    }

    pub fn is_null(&self) -> (r: bool)
        ensures
            r == (*self is Null),
    {
        match self {
            DataValue::Null => true,
            _ => false,
        }
    }
}

/// A computed column: one value per row, or one scalar for all rows.
#[derive(PartialEq, Debug)]
pub enum DataColumnarValue {
    Scalar(DataValue),
    Array(Vec<DataValue>),
}

/// One batch of rows, with the schema its columns conform to.
#[derive(Debug)]
pub struct DataBlock {
    pub schema: DataSchemaRef,
    pub columns: Vec<DataColumnarValue>,
}

} // verus!
