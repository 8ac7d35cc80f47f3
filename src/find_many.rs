use std::marker::PhantomData;
use vstd::prelude::*;
use vstd::string::*;
use crate::args::{
    into_pairs, into_selections, many_args_spec, many_arguments, pairs_of, selections_of, Arg,
    IntoPair, IntoSelection, args_match,
};
use crate::query::{BatchQuery, Count, DeleteMany, QueryInfo, UpdateMany};
use crate::selection::{Operation, Selection, SelectionBuilder};
use crate::value::Value;

verus! {

/// The key under which every many-query reports its records.
pub open spec fn result_alias() -> Seq<char> {
    "result"@
}

/// `s` is the root node of a many-query on `model`: named after the model,
/// aliased to the result key, with the arguments `args` and the children
/// `nested`.
pub open spec fn is_many_selection(
    s: Selection,
    model: Seq<char>,
    args: Seq<Arg>,
    nested: Seq<Selection>,
) -> bool {
    &&& s.name@ == "findMany"@ + model
    &&& s.alias is Some
    &&& s.alias->0@ == result_alias()
    &&& args_match(s.arguments@, args)
    &&& s.nested_selections@ == nested
}

/// Finds the records of a model that match a filter, with ordering, a
/// cursor and paging.
pub struct FindMany<Where, With, OrderBy, Cursor, SetValue, Data> {
    pub info: QueryInfo,
    pub where_params: Vec<Where>,
    pub with_params: Vec<With>,
    pub order_by_params: Vec<OrderBy>,
    pub cursor_params: Vec<Cursor>,
    pub skip: Option<i64>,
    pub take: Option<i64>,
    pub _marker: PhantomData<(SetValue, Data)>,
}

impl<Where, With, OrderBy, Cursor, SetValue, Data> FindMany<
    Where,
    With,
    OrderBy,
    Cursor,
    SetValue,
    Data,
> where Where: IntoPair, With: IntoSelection, OrderBy: IntoPair, Cursor: IntoPair, SetValue: IntoPair {
    /// The arguments that this query sends.
    pub open spec fn args_spec(&self) -> Seq<Arg> {
        many_args_spec(
            pairs_of(self.where_params@),
            pairs_of(self.order_by_params@),
            pairs_of(self.cursor_params@),
            self.skip,
            self.take,
        )
    }

    /// The children that this query fetches by default: the model's scalar
    /// fields, then the requested relations.
    pub open spec fn default_nested(&self) -> Seq<Selection> {
        self.info.scalar_selections@ + selections_of(self.with_params@)
    }

    pub fn new(info: QueryInfo, where_params: Vec<Where>) -> (r: Self)
        ensures
            r.info == info,
            r.where_params == where_params,
            r.with_params@ == Seq::<With>::empty(),
            r.order_by_params@ == Seq::<OrderBy>::empty(),
            r.cursor_params@ == Seq::<Cursor>::empty(),
            r.skip is None,
            r.take is None,
    {
        FindMany {
            info,
            where_params,
            with_params: Vec::new(),
            order_by_params: Vec::new(),
            cursor_params: Vec::new(),
            skip: None,
            take: None,
            _marker: PhantomData,
        }
    }

    pub fn with(self, param: With) -> (r: Self)
        ensures
            r.with_params@ == self.with_params@.push(param),
            r.info == self.info,
            r.where_params == self.where_params,
            r.order_by_params == self.order_by_params,
            r.cursor_params == self.cursor_params,
            r.skip == self.skip,
            r.take == self.take,
    {
        let mut s = self;
        s.with_params.push(param);
        s
    }

    pub fn order_by(self, param: OrderBy) -> (r: Self)
        ensures
            r.order_by_params@ == self.order_by_params@.push(param),
            r.info == self.info,
            r.where_params == self.where_params,
            r.with_params == self.with_params,
            r.cursor_params == self.cursor_params,
            r.skip == self.skip,
            r.take == self.take,
    {
        let mut s = self;
        s.order_by_params.push(param);
        s
    }

    pub fn cursor(self, param: Cursor) -> (r: Self)
        ensures
            r.cursor_params@ == self.cursor_params@.push(param),
            r.info == self.info,
            r.where_params == self.where_params,
            r.with_params == self.with_params,
            r.order_by_params == self.order_by_params,
            r.skip == self.skip,
            r.take == self.take,
    {
        let mut s = self;
        s.cursor_params.push(param);
        s
    }

    pub fn skip(self, skip: i64) -> (r: Self)
        ensures
            r.skip == Some(skip),
            r.info == self.info,
            r.where_params == self.where_params,
            r.with_params == self.with_params,
            r.order_by_params == self.order_by_params,
            r.cursor_params == self.cursor_params,
            r.take == self.take,
    {
        let mut s = self;
        s.skip = Some(skip);
        s
    }

    pub fn take(self, take: i64) -> (r: Self)
        ensures
            r.take == Some(take),
            r.info == self.info,
            r.where_params == self.where_params,
            r.with_params == self.with_params,
            r.order_by_params == self.order_by_params,
            r.cursor_params == self.cursor_params,
            r.skip == self.skip,
    {
        let mut s = self;
        s.take = Some(take);
        s
    }

    /// Turns the query into one that sets `data` on every matching record;
    /// only the model and the filter carry over.
    pub fn update(self, data: Vec<SetValue>) -> (r: UpdateMany<Where, SetValue>)
        ensures
            r.info == self.info,
            r.where_params == self.where_params,
            r.set_params == data,
    {
        UpdateMany::new(self.info, self.where_params, data)
    }

    /// Turns the query into one that deletes every matching record; only
    /// the model and the filter carry over.
    pub fn delete(self) -> (r: DeleteMany<Where>)
        ensures
            r.info == self.info,
            r.where_params == self.where_params,
    {
        DeleteMany::new(self.info, self.where_params)
    }

    /// Turns the query into one that counts the matching records; only the
    /// model and the filter carry over.
    pub fn count(self) -> (r: Count<Where, OrderBy, Cursor>)
        ensures
            r.info == self.info,
            r.where_params == self.where_params,
            r.order_by_params@ == Seq::<OrderBy>::empty(),
            r.cursor_params@ == Seq::<Cursor>::empty(),
            r.skip is None,
            r.take is None,
    {
        Count::new(self.info, self.where_params)
    }

    fn to_selection(
        model: &String,
        where_params: Vec<Where>,
        order_by_params: Vec<OrderBy>,
        cursor_params: Vec<Cursor>,
        skip: Option<i64>,
        take: Option<i64>,
    ) -> (r: SelectionBuilder)
        ensures
            r.name@ == "findMany"@ + model@,
            r.alias is Some,
            r.alias->0@ == result_alias(),
            args_match(
                r.arguments@,
                many_args_spec(
                    pairs_of(where_params@),
                    pairs_of(order_by_params@),
                    pairs_of(cursor_params@),
                    skip,
                    take,
                ),
            ),
            r.nested_selections@ == Seq::<Selection>::empty(),
    {
        let mut name = String::from_str("findMany");
        name.append(model.as_str());
        let mut selection = Selection::builder(name);
        selection.alias(String::from_str("result"));
        selection.arguments = many_arguments(
            into_pairs(where_params),
            into_pairs(order_by_params),
            into_pairs(cursor_params),
            skip,
            take,
        );
        selection
    }

    /// Builds the query's operation with the children `selections` in place
    /// of the default ones.
    pub fn select(self, selections: Vec<Selection>) -> (r: Operation)
        ensures
            r is Read,
            is_many_selection(r->Read_0, self.info.model@, self.args_spec(), selections@),
    {
        let mut selection = Self::to_selection(
            &self.info.model,
            self.where_params,
            self.order_by_params,
            self.cursor_params,
            self.skip,
            self.take,
        );
        selection.nested_selections(selections);
        Operation::Read(selection.build())
    }

    /// Builds the query's operation with the model's scalar fields and the
    /// requested relations as children.
    pub(crate) fn exec_operation(self) -> (r: Operation)
        ensures
            r is Read,
            is_many_selection(r->Read_0, self.info.model@, self.args_spec(), self.default_nested()),
    {
        let QueryInfo { model, scalar_selections } = self.info;
        let mut selection = Self::to_selection(
            &model,
            self.where_params,
            self.order_by_params,
            self.cursor_params,
            self.skip,
            self.take,
        );
        selection.nested_selections(scalar_selections);
        selection.nested_selections(into_selections(self.with_params));
        Operation::Read(selection.build())
    }
}

impl<Where, With, OrderBy, Cursor, SetValue, Data> BatchQuery for FindMany<
    Where,
    With,
    OrderBy,
    Cursor,
    SetValue,
    Data,
> where Where: IntoPair, With: IntoSelection, OrderBy: IntoPair, Cursor: IntoPair, SetValue: IntoPair {
    type RawType = Data;

    type ReturnType = Data;

    open spec fn is_operation(&self, op: Operation) -> bool {
        &&& op is Read
        &&& is_many_selection(op->Read_0, self.info.model@, self.args_spec(), self.default_nested())
    }

    open spec fn converted(raw: Data) -> Data {
        raw
    }

    fn graphql(self) -> (r: Operation) {
        self.exec_operation()
    }

    fn convert<E>(raw: Result<Data, E>) -> (r: Result<Data, E>) {
        raw
    }
}

/// Every many-query reports its records under the same key, whatever the
/// models of two queries are.
pub proof fn lemma_result_alias_fixed<W1, H1, O1, C1, S1, D1, W2, H2, O2, C2, S2, D2>(
    a: FindMany<W1, H1, O1, C1, S1, D1>,
    op_a: Operation,
    b: FindMany<W2, H2, O2, C2, S2, D2>,
    op_b: Operation,
) where
    W1: IntoPair,
    H1: IntoSelection,
    O1: IntoPair,
    C1: IntoPair,
    S1: IntoPair,
    W2: IntoPair,
    H2: IntoSelection,
    O2: IntoPair,
    C2: IntoPair,
    S2: IntoPair,

    requires
        a.is_operation(op_a),
        b.is_operation(op_b),
    ensures
        op_a->Read_0.alias is Some,
        op_b->Read_0.alias is Some,
        op_a->Read_0.alias->0@ == op_b->Read_0.alias->0@,
        op_a->Read_0.alias->0@ == "result"@,
{
}

/// The parameters of a many-query, apart from any particular query kind.
#[derive(Clone)]
pub struct ManyArgs<Where, With, OrderBy, Cursor> {
    pub where_params: Vec<Where>,
    pub with_params: Vec<With>,
    pub order_by_params: Vec<OrderBy>,
    pub cursor_params: Vec<Cursor>,
    pub skip: Option<i64>,
    pub take: Option<i64>,
}

impl<Where, With, OrderBy, Cursor> ManyArgs<Where, With, OrderBy, Cursor> where
    Where: IntoPair,
    With: IntoSelection,
    OrderBy: IntoPair,
    Cursor: IntoPair,
 {
    /// The arguments that these parameters stand for.
    pub open spec fn args_spec(&self) -> Seq<Arg> {
        many_args_spec(
            pairs_of(self.where_params@),
            pairs_of(self.order_by_params@),
            pairs_of(self.cursor_params@),
            self.skip,
            self.take,
        )
    }

    pub fn new(where_params: Vec<Where>) -> (r: Self)
        ensures
            r.where_params == where_params,
            r.with_params@ == Seq::<With>::empty(),
            r.order_by_params@ == Seq::<OrderBy>::empty(),
            r.cursor_params@ == Seq::<Cursor>::empty(),
            r.skip is None,
            r.take is None,
    {
        ManyArgs {
            where_params,
            with_params: Vec::new(),
            order_by_params: Vec::new(),
            cursor_params: Vec::new(),
            skip: None,
            take: None,
        }
    }

    pub fn with(self, param: With) -> (r: Self)
        ensures
            r.with_params@ == self.with_params@.push(param),
            r.where_params == self.where_params,
            r.order_by_params == self.order_by_params,
            r.cursor_params == self.cursor_params,
            r.skip == self.skip,
            r.take == self.take,
    {
        let mut s = self;
        s.with_params.push(param);
        s
    }

    pub fn order_by(self, param: OrderBy) -> (r: Self)
        ensures
            r.order_by_params@ == self.order_by_params@.push(param),
            r.where_params == self.where_params,
            r.with_params == self.with_params,
            r.cursor_params == self.cursor_params,
            r.skip == self.skip,
            r.take == self.take,
    {
        let mut s = self;
        s.order_by_params.push(param);
        s
    }

    pub fn cursor(self, param: Cursor) -> (r: Self)
        ensures
            r.cursor_params@ == self.cursor_params@.push(param),
            r.where_params == self.where_params,
            r.with_params == self.with_params,
            r.order_by_params == self.order_by_params,
            r.skip == self.skip,
            r.take == self.take,
    {
        let mut s = self;
        s.cursor_params.push(param);
        s
    }

    pub fn skip(self, skip: i64) -> (r: Self)
        ensures
            r.skip == Some(skip),
            r.where_params == self.where_params,
            r.with_params == self.with_params,
            r.order_by_params == self.order_by_params,
            r.cursor_params == self.cursor_params,
            r.take == self.take,
    {
        let mut s = self;
        s.skip = Some(skip);
        s
    }

    pub fn take(self, take: i64) -> (r: Self)
        ensures
            r.take == Some(take),
            r.where_params == self.where_params,
            r.with_params == self.with_params,
            r.order_by_params == self.order_by_params,
            r.cursor_params == self.cursor_params,
            r.skip == self.skip,
    {
        let mut s = self;
        s.take = Some(take);
        s
    }

    /// The arguments and the requested child nodes, for a query built
    /// elsewhere.
    pub fn to_graphql(self) -> (r: (Vec<(String, Value)>, Vec<Selection>))
        ensures
            args_match(r.0@, self.args_spec()),
            r.1@ == selections_of(self.with_params@),
    {
        let nested = into_selections(self.with_params);
        let arguments = many_arguments(
            into_pairs(self.where_params),
            into_pairs(self.order_by_params),
            into_pairs(self.cursor_params),
            self.skip,
            self.take,
        );
        (arguments, nested)
    }
}

} // verus!
