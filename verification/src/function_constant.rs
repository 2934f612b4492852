use vstd::prelude::*;
use crate::error::PlanError;
use crate::schema::{DataSchema, DataType};
use crate::values::{DataBlock, DataColumnarValue, DataValue};

verus! {

/// A scalar function the expression evaluator can drive.
#[derive(Debug)]
pub enum Function {
    Constant(ConstantFunction),
}

/// The function that yields one fixed value: for every block it
/// evaluates to its value, and as an aggregate it accumulates nothing
/// and merges to its value.
#[derive(Debug)]
pub struct ConstantFunction {
    value: DataValue,
}

impl Clone for ConstantFunction {
    fn clone(&self) -> (r: Self)
        ensures
            r == *self,
    {
        ConstantFunction { value: self.value.clone() }
    }
}

impl ConstantFunction {
    /// The fixed value the function yields.
    pub closed spec fn spec_value(&self) -> DataValue {
        self.value
    }

    pub fn try_create(value: DataValue) -> (r: Result<Function, PlanError>)
        ensures
            r matches Ok(f) && f matches Function::Constant(c) && c.spec_value() == value,
    {
        Ok(Function::Constant(ConstantFunction { value }))
    }

    /// The type of the value, whatever the input schema.
    pub fn return_type(&self, _input_schema: &DataSchema) -> (r: Result<DataType, PlanError>)
        ensures
            r == Ok::<DataType, PlanError>(self.spec_value().spec_data_type()),
    {
        Ok(self.value.data_type())
    }

    /// Whether the value is the null value, whatever the input schema.
    pub fn nullable(&self, _input_schema: &DataSchema) -> (r: Result<bool, PlanError>)
        ensures
            r == Ok::<bool, PlanError>(self.spec_value() is Null),
    {
        Ok(self.value.is_null())
    }

    /// Evaluates to the fixed value as a scalar, for every block.
    pub fn eval(&self, _block: &DataBlock) -> (r: Result<DataColumnarValue, PlanError>)
        ensures
            r matches Ok(c) && c matches DataColumnarValue::Scalar(v) && v == self.spec_value(),
    {
        Ok(DataColumnarValue::Scalar(self.value.clone()))
    }

    /// Depth has no effect on a constant.
    pub fn set_depth(&mut self, _depth: usize)
        ensures
            *final(self) == *old(self),
    {
    }

    /// Accumulating a block changes nothing.
    pub fn accumulate(&mut self, _block: &DataBlock) -> (r: Result<(), PlanError>)
        ensures
            *final(self) == *old(self),
            r == Ok::<(), PlanError>(()),
    {
        Ok(())
    }

    /// The accumulated state: the fixed value alone.
    pub fn accumulate_result(&self) -> (r: Result<Vec<DataValue>, PlanError>)
        ensures
            r matches Ok(vs) && vs@ == seq![self.spec_value()],
    {
        let mut vs: Vec<DataValue> = Vec::new();
        vs.push(self.value.clone());
        proof {
            assert(vs@ =~= seq![self.spec_value()]);
        }
        Ok(vs)
    }

    /// Merging partial states changes nothing.
    pub fn merge(&mut self, _states: &Vec<DataValue>) -> (r: Result<(), PlanError>)
        ensures
            *final(self) == *old(self),
            r == Ok::<(), PlanError>(()),
    {
        Ok(())
    }

    /// The merged result: the fixed value.
    pub fn merge_result(&self) -> (r: Result<DataValue, PlanError>)
        ensures
            r matches Ok(v) && v == self.spec_value(),
    {
        Ok(self.value.clone())
    }
}

} // verus!
