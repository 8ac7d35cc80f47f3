use vstd::prelude::*;
use crate::selection::Selection;
use crate::value::{merge_entries, merged_object, reversed, Value};

verus! {

/// A parameter that serialises to one `(field, value)` pair.
pub trait IntoPair: Sized {
    spec fn pair(&self) -> (String, Value);

    fn into_pair(self) -> (r: (String, Value))
        ensures
            r == self.pair(),
    ;
}

/// A parameter that stands for one child node of a query.
pub trait IntoSelection: Sized {
    spec fn selection(&self) -> Selection;

    fn into_selection(self) -> (r: Selection)
        ensures
            r == self.selection(),
    ;
}

/// One filter on a field.
#[derive(Debug)]
pub struct SerializedWhere {
    pub field: String,
    pub value: Value,
}

impl IntoPair for SerializedWhere {
    open spec fn pair(&self) -> (String, Value) {
        (self.field, self.value)
    }

    fn into_pair(self) -> (r: (String, Value)) {
        (self.field, self.value)
    }
}

impl IntoPair for (String, Value) {
    open spec fn pair(&self) -> (String, Value) {
        *self
    }

    fn into_pair(self) -> (r: (String, Value)) {
        self
    }
}

impl IntoSelection for Selection {
    open spec fn selection(&self) -> Selection {
        *self
    }

    fn into_selection(self) -> (r: Selection) {
        self
    }
}

/// The pairs that the parameters `ps` serialise to, in order.
pub open spec fn pairs_of<T: IntoPair>(ps: Seq<T>) -> Seq<(String, Value)> {
    ps.map_values(|p: T| p.pair())
}

/// The child nodes that the parameters `ps` stand for, in order.
pub open spec fn selections_of<T: IntoSelection>(ps: Seq<T>) -> Seq<Selection> {
    ps.map_values(|p: T| p.selection())
}

/// What one argument of a many-query is: an object made of entries, or an
/// integer, under a name.
pub ghost enum Arg {
    Object(Seq<char>, Seq<(String, Value)>),
    Int(Seq<char>, i64),
}

impl Arg {
    pub open spec fn name(self) -> Seq<char> {
        match self {
            Arg::Object(n, _) => n,
            Arg::Int(n, _) => n,
        }
    }

    /// The argument `a` is this one.
    pub open spec fn describes(self, a: (String, Value)) -> bool {
        &&& a.0@ == self.name()
        &&& match self {
            Arg::Object(_, entries) => a.1 is Object && a.1->Object_0@ == entries,
            Arg::Int(_, n) => a.1 == Value::Int(n),
        }
    }
}

/// The arguments `args` are those that `expected` describes, in that order.
pub open spec fn args_match(args: Seq<(String, Value)>, expected: Seq<Arg>) -> bool {
    &&& args.len() == expected.len()
    &&& forall|i: int| 0 <= i < args.len() ==> (#[trigger] expected[i]).describes(args[i])
}

/// An object argument named `name` when `pairs` is not empty, none otherwise.
pub open spec fn object_arg(name: Seq<char>, pairs: Seq<(String, Value)>) -> Seq<Arg> {
    if pairs.len() > 0 {
        seq![Arg::Object(name, merge_entries(pairs))]
    } else {
        Seq::empty()
    }
}

/// An integer argument named `name` when `n` is set, none otherwise.
pub open spec fn int_arg(name: Seq<char>, n: Option<i64>) -> Seq<Arg> {
    match n {
        Some(v) => seq![Arg::Int(name, v)],
        None => Seq::empty(),
    }
}

/// The arguments of a many-query: `where`, `orderBy`, `cursor`, `skip`,
/// `take`, each only when given.
pub open spec fn many_args_spec(
    where_pairs: Seq<(String, Value)>,
    order_by_pairs: Seq<(String, Value)>,
    cursor_pairs: Seq<(String, Value)>,
    skip: Option<i64>,
    take: Option<i64>,
) -> Seq<Arg> {
    object_arg("where"@, where_pairs) + object_arg("orderBy"@, order_by_pairs) + object_arg(
        "cursor"@,
        cursor_pairs,
    ) + int_arg("skip"@, skip) + int_arg("take"@, take)
}

/// Some argument of `args` is named `name`.
pub open spec fn has_arg(args: Seq<Arg>, name: Seq<char>) -> bool {
    exists|i: int| 0 <= i < args.len() && (#[trigger] args[i]).name() == name
}

/// No two arguments of `args` share a name.
pub open spec fn names_unique(args: Seq<Arg>) -> bool {
    forall|i: int, j: int|
        0 <= i < j < args.len() ==> (#[trigger] args[i]).name() != (#[trigger] args[j]).name()
}

/// A many-query sends each argument at most once. `where`, `orderBy` and
/// `cursor` are sent exactly when their parameter lists are not empty, and
/// then as the object that merges their pairs; `skip` and `take` are sent
/// exactly when they were set, zero included, with the value set.
pub proof fn lemma_many_args(
    where_pairs: Seq<(String, Value)>,
    order_by_pairs: Seq<(String, Value)>,
    cursor_pairs: Seq<(String, Value)>,
    skip: Option<i64>,
    take: Option<i64>,
)
    ensures
        ({
            let args = many_args_spec(where_pairs, order_by_pairs, cursor_pairs, skip, take);
            &&& names_unique(args)
            &&& has_arg(args, "where"@) <==> where_pairs.len() > 0
            &&& has_arg(args, "orderBy"@) <==> order_by_pairs.len() > 0
            &&& has_arg(args, "cursor"@) <==> cursor_pairs.len() > 0
            &&& has_arg(args, "skip"@) <==> skip is Some
            &&& has_arg(args, "take"@) <==> take is Some
            &&& forall|i: int|
                0 <= i < args.len() ==> {
                    &&& (#[trigger] args[i]).name() == "where"@ ==> args[i] == Arg::Object(
                        "where"@,
                        merge_entries(where_pairs),
                    )
                    &&& args[i].name() == "orderBy"@ ==> args[i] == Arg::Object(
                        "orderBy"@,
                        merge_entries(order_by_pairs),
                    )
                    &&& args[i].name() == "cursor"@ ==> args[i] == Arg::Object(
                        "cursor"@,
                        merge_entries(cursor_pairs),
                    )
                    &&& args[i].name() == "skip"@ ==> args[i] == Arg::Int("skip"@, skip->0)
                    &&& args[i].name() == "take"@ ==> args[i] == Arg::Int("take"@, take->0)
                }
        }),
{
    reveal_strlit("where");
    reveal_strlit("orderBy");
    reveal_strlit("cursor");
    reveal_strlit("skip");
    reveal_strlit("take");
    let a1 = object_arg("where"@, where_pairs);
    let a2 = object_arg("orderBy"@, order_by_pairs);
    let a3 = object_arg("cursor"@, cursor_pairs);
    let a4 = int_arg("skip"@, skip);
    let a5 = int_arg("take"@, take);
    let args = many_args_spec(where_pairs, order_by_pairs, cursor_pairs, skip, take);
    let l1 = a1.len() as int;
    let l2 = l1 + a2.len();
    let l3 = l2 + a3.len();
    let l4 = l3 + a4.len();
    assert(args == a1 + a2 + a3 + a4 + a5);
    assert("where"@.len() == 5 && "orderBy"@.len() == 7 && "cursor"@.len() == 6);
    assert("skip"@.len() == 4 && "take"@.len() == 4 && "skip"@[0] != "take"@[0]);
    assert forall|i: int| 0 <= i < args.len() implies {
        ||| i < l1 && i == 0 && #[trigger] args[i] == a1[0]
        ||| l1 <= i < l2 && i == l1 && args[i] == a2[0]
        ||| l2 <= i < l3 && i == l2 && args[i] == a3[0]
        ||| l3 <= i < l4 && i == l3 && args[i] == a4[0]
        ||| l4 <= i && i == l4 && args[i] == a5[0]
    } by {}
    if where_pairs.len() > 0 {
        assert(args[0].name() == "where"@);
    }
    if order_by_pairs.len() > 0 {
        assert(args[l1].name() == "orderBy"@);
    }
    if cursor_pairs.len() > 0 {
        assert(args[l2].name() == "cursor"@);
    }
    if skip is Some {
        assert(args[l3].name() == "skip"@);
    }
    if take is Some {
        assert(args[l4].name() == "take"@);
    }
}

/// Serialises each parameter, keeping their order.
pub fn into_pairs<T: IntoPair>(ps: Vec<T>) -> (r: Vec<(String, Value)>)
    ensures
        r@ == pairs_of(ps@),
{
    let ghost orig = ps@;
    let mut rest = reversed(ps);
    let mut out: Vec<(String, Value)> = Vec::new();
    while rest.len() > 0
        invariant
            out@.len() + rest@.len() == orig.len(),
            forall|i: int| 0 <= i < rest@.len() ==> rest@[i] == orig[orig.len() - 1 - i],
            forall|i: int| 0 <= i < out@.len() ==> out@[i] == orig[i].pair(),
        decreases rest@.len(),
    {
        let p = rest.pop().unwrap();
        out.push(p.into_pair());
    }
    assert(out@ == pairs_of(orig));
    out
}

/// Turns each parameter into its child node, keeping their order.
pub fn into_selections<T: IntoSelection>(ps: Vec<T>) -> (r: Vec<Selection>)
    ensures
        r@ == selections_of(ps@),
{
    let ghost orig = ps@;
    let mut rest = reversed(ps);
    let mut out: Vec<Selection> = Vec::new();
    while rest.len() > 0
        invariant
            out@.len() + rest@.len() == orig.len(),
            forall|i: int| 0 <= i < rest@.len() ==> rest@[i] == orig[orig.len() - 1 - i],
            forall|i: int| 0 <= i < out@.len() ==> out@[i] == orig[i].selection(),
        decreases rest@.len(),
    {
        let p = rest.pop().unwrap();
        out.push(p.into_selection());
    }
    assert(out@ == selections_of(orig));
    out
}

/// Matching argument lists concatenate.
pub proof fn lemma_args_match_concat(
    a: Seq<(String, Value)>,
    ea: Seq<Arg>,
    b: Seq<(String, Value)>,
    eb: Seq<Arg>,
)
    requires
        args_match(a, ea),
        args_match(b, eb),
    ensures
        args_match(a + b, ea + eb),
{
    assert forall|i: int| 0 <= i < (a + b).len() implies (#[trigger] (ea + eb)[i]).describes(
        (a + b)[i],
    ) by {
        if i < a.len() {
            assert(ea[i].describes(a[i]));
        } else {
            assert(eb[i - a.len()].describes(b[i - a.len()]));
        }
    }
}

/// Appends an object argument named `name` that merges `pairs`, unless
/// `pairs` is empty.
fn push_object_arg(args: &mut Vec<(String, Value)>, name: &str, pairs: Vec<(String, Value)>)
    ensures
        final(args)@ == old(args)@ + final(args)@.subrange(
            old(args)@.len() as int,
            final(args)@.len() as int,
        ),
        args_match(
            final(args)@.subrange(old(args)@.len() as int, final(args)@.len() as int),
            object_arg(name@, pairs@),
        ),
{
    let ghost start = args@;
    if pairs.len() > 0 {
        let ghost p = pairs@;
        let v = merged_object(pairs);
        args.push((String::from_str(name), v));
        assert(args@.subrange(start.len() as int, args@.len() as int) =~= seq![args@.last()]);
        assert(object_arg(name@, p)[0].describes(args@.last()));
    } else {
        assert(args@.subrange(start.len() as int, args@.len() as int) =~= Seq::empty());
    }
    assert(args@ =~= start + args@.subrange(start.len() as int, args@.len() as int));
}

/// Appends an integer argument named `name` when `n` is set.
fn push_int_arg(args: &mut Vec<(String, Value)>, name: &str, n: Option<i64>)
    ensures
        final(args)@ == old(args)@ + final(args)@.subrange(
            old(args)@.len() as int,
            final(args)@.len() as int,
        ),
        args_match(
            final(args)@.subrange(old(args)@.len() as int, final(args)@.len() as int),
            int_arg(name@, n),
        ),
{
    let ghost start = args@;
    match n {
        Some(v) => {
            args.push((String::from_str(name), Value::Int(v)));
            assert(args@.subrange(start.len() as int, args@.len() as int) =~= seq![args@.last()]);
            assert(int_arg(name@, n)[0].describes(args@.last()));
        },
        None => {
            assert(args@.subrange(start.len() as int, args@.len() as int) =~= Seq::empty());
        },
    }
    assert(args@ =~= start + args@.subrange(start.len() as int, args@.len() as int));
}

/// Builds the arguments of a many-query from its serialised parameters.
pub fn many_arguments(
    where_pairs: Vec<(String, Value)>,
    order_by_pairs: Vec<(String, Value)>,
    cursor_pairs: Vec<(String, Value)>,
    skip: Option<i64>,
    take: Option<i64>,
) -> (r: Vec<(String, Value)>)
    ensures
        args_match(r@, many_args_spec(where_pairs@, order_by_pairs@, cursor_pairs@, skip, take)),
{
    let ghost w = where_pairs@;
    let ghost o = order_by_pairs@;
    let ghost c = cursor_pairs@;
    let mut args: Vec<(String, Value)> = Vec::new();
    assert(args_match(args@, Seq::<Arg>::empty()));
    let ghost a0 = args@;
    push_object_arg(&mut args, "where", where_pairs);
    proof {
        lemma_args_match_concat(a0, Seq::empty(), args@.subrange(a0.len() as int, args@.len() as int), object_arg("where"@, w));
        assert(Seq::<Arg>::empty() + object_arg("where"@, w) =~= object_arg("where"@, w));
    }
    let ghost a1 = args@;
    let ghost e1 = object_arg("where"@, w);
    push_object_arg(&mut args, "orderBy", order_by_pairs);
    proof {
        lemma_args_match_concat(a1, e1, args@.subrange(a1.len() as int, args@.len() as int), object_arg("orderBy"@, o));
    }
    let ghost a2 = args@;
    let ghost e2 = e1 + object_arg("orderBy"@, o);
    push_object_arg(&mut args, "cursor", cursor_pairs);
    proof {
        lemma_args_match_concat(a2, e2, args@.subrange(a2.len() as int, args@.len() as int), object_arg("cursor"@, c));
    }
    let ghost a3 = args@;
    let ghost e3 = e2 + object_arg("cursor"@, c);
    push_int_arg(&mut args, "skip", skip);
    proof {
        lemma_args_match_concat(a3, e3, args@.subrange(a3.len() as int, args@.len() as int), int_arg("skip"@, skip));
    }
    let ghost a4 = args@;
    let ghost e4 = e3 + int_arg("skip"@, skip);
    push_int_arg(&mut args, "take", take);
    proof {
        lemma_args_match_concat(a4, e4, args@.subrange(a4.len() as int, args@.len() as int), int_arg("take"@, take));
    }
    args
}

} // verus!
