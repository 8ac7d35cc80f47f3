use vstd::prelude::*;
use crate::selection::{Operation, Selection};

verus! {

/// What the model layer tells a builder about one model.
#[derive(Debug)]
pub struct QueryInfo {
    pub model: String,
    /// The scalar fields that a query fetches when it is not told otherwise.
    pub scalar_selections: Vec<Selection>,
}

/// Counts the records of a model that match a filter.
pub struct Count<Where, OrderBy, Cursor> {
    pub info: QueryInfo,
    pub where_params: Vec<Where>,
    pub order_by_params: Vec<OrderBy>,
    pub cursor_params: Vec<Cursor>,
    pub skip: Option<i64>,
    pub take: Option<i64>,
}

impl<Where, OrderBy, Cursor> Count<Where, OrderBy, Cursor> {
    pub fn new(info: QueryInfo, where_params: Vec<Where>) -> (r: Self)
        ensures
            r.info == info,
            r.where_params == where_params,
            r.order_by_params@ == Seq::<OrderBy>::empty(),
            r.cursor_params@ == Seq::<Cursor>::empty(),
            r.skip is None,
            r.take is None,
    {
        Count {
            info,
            where_params,
            order_by_params: Vec::new(),
            cursor_params: Vec::new(),
            skip: None,
            take: None,
        }
    }
}

/// Sets new values on every record of a model that matches a filter.
pub struct UpdateMany<Where, SetValue> {
    pub info: QueryInfo,
    pub where_params: Vec<Where>,
    pub set_params: Vec<SetValue>,
}

impl<Where, SetValue> UpdateMany<Where, SetValue> {
    pub fn new(info: QueryInfo, where_params: Vec<Where>, set_params: Vec<SetValue>) -> (r: Self)
        ensures
            r.info == info,
            r.where_params == where_params,
            r.set_params == set_params,
    {
        UpdateMany { info, where_params, set_params }
    }
}

/// Deletes every record of a model that matches a filter.
pub struct DeleteMany<Where> {
    pub info: QueryInfo,
    pub where_params: Vec<Where>,
}

impl<Where> DeleteMany<Where> {
    pub fn new(info: QueryInfo, where_params: Vec<Where>) -> (r: Self)
        ensures
            r.info == info,
            r.where_params == where_params,
    {
        DeleteMany { info, where_params }
    }
}

/// A query that can be sent as one unit of a batch: it hands out its
/// operation without running it.
pub trait BatchQuery: Sized {
    type RawType;

    type ReturnType;

    /// `op` is the operation that this query stands for.
    spec fn is_operation(&self, op: Operation) -> bool;

    /// What the engine's result becomes for the caller.
    spec fn converted(raw: Self::RawType) -> Self::ReturnType;

    fn graphql(self) -> (r: Operation)
        ensures
            self.is_operation(r),
    ;

    fn convert<E>(raw: Result<Self::RawType, E>) -> (r: Result<Self::ReturnType, E>)
        ensures
            match raw {
                Ok(x) => r == Ok::<Self::ReturnType, E>(Self::converted(x)),
                Err(e) => r == Err::<Self::ReturnType, E>(e),
            },
    ;
}

/// Takes the operation out of each query, in order, without running any.
pub fn batch_operations<Q: BatchQuery>(queries: Vec<Q>) -> (r: Vec<Operation>)
    ensures
        r@.len() == queries@.len(),
        forall|i: int| 0 <= i < queries@.len() ==> (#[trigger] queries@[i]).is_operation(r@[i]),
{
    let ghost orig = queries@;
    let mut rest = crate::value::reversed(queries);
    let mut out: Vec<Operation> = Vec::new();
    while rest.len() > 0
        invariant
            out@.len() + rest@.len() == orig.len(),
            forall|i: int| 0 <= i < rest@.len() ==> rest@[i] == orig[orig.len() - 1 - i],
            forall|i: int| 0 <= i < out@.len() ==> (#[trigger] orig[i]).is_operation(out@[i]),
        decreases rest@.len(),
    {
        let q = rest.pop().unwrap();
        let ghost idx = out@.len() as int;
        assert(q == orig[idx]);
        out.push(q.graphql());
    }
    out
}

} // verus!
