use vstd::prelude::*;
use crate::values::DataValue;

verus! {

/// An expression carried by a plan node. The planner core treats
/// expressions as payload: their evaluation is a collaborator's concern.
#[derive(PartialEq, Debug)]
pub enum ExpressionPlan {
    /// A literal value.
    Constant(DataValue),
    /// A reference to a named column of the input.
    Field(String),
}

impl Clone for ExpressionPlan {
    fn clone(&self) -> (r: Self)
        ensures
            r == *self,
    {
        match self {
            ExpressionPlan::Constant(v) => ExpressionPlan::Constant(v.clone()),
            ExpressionPlan::Field(name) => ExpressionPlan::Field(name.clone()),
        }
    }
}

/// Copies an expression list; the copy holds the same expressions.
pub fn clone_expressions(exprs: &Vec<ExpressionPlan>) -> (r: Vec<ExpressionPlan>)
    ensures
        r@ == exprs@,
{
    let r = exprs.clone();
    proof {
        assert(r@ =~= exprs@);
    }
    r
}

} // verus!
