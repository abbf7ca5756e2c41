use vstd::prelude::*;
use crate::expression::SharedExpression;

verus! {

/// The expressions of a `GROUP BY` clause, in order.
#[derive(Clone, Debug)]
pub struct GroupBy {
    by: Vec<SharedExpression>,
}

impl GroupBy {
    /// The expressions, in order.
    pub closed spec fn spec_by(&self) -> Seq<SharedExpression> {
        self.by@
    }

    /// The expressions, in order.
    pub fn get_by(&self) -> (r: &Vec<SharedExpression>)
        ensures
            r@ == self.spec_by(),
    {
        &self.by
    }

    /// Groups by `fields`, in the order given.
    pub fn by<'a>(fields: &'a [SharedExpression]) -> (r: GroupBy)
        ensures
            r.spec_by() == fields@,
    {
        let mut by: Vec<SharedExpression> = Vec::new();
        let mut i: usize = 0;
        while i < fields.len()
            invariant
                i <= fields@.len(),
                by@ == fields@.take(i as int),
            decreases fields@.len() - i,
        {
            by.push(fields[i].clone());
            i = i + 1;
            assert(by@ =~= fields@.take(i as int));
        }
        assert(fields@.take(fields@.len() as int) =~= fields@);
        GroupBy { by }
    }
}

} // verus!
