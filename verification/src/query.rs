//! The fluent query builder, its mathematical model, and the text it
//! compiles to.
use vstd::prelude::*;
use crate::text::{
    ascii_upper, decimal, decimal_injective, is_ascii_text, joined, push_decimal, push_joined, texts,
    to_upper, upper, upper_is_idempotent,
};
use crate::value::Value;

verus! {

/// The name under which the value of the filter at position `i` is bound.
pub open spec fn param_name(i: nat) -> Seq<char> {
    "param_"@ + decimal(i)
}

/// The predicate clause of the filter at position `i`: field and operator
/// written out, the value referred to by its parameter.
pub open spec fn predicate(field: Seq<char>, operator: Seq<char>, i: nat) -> Seq<char> {
    field + " "@ + operator + " $"@ + param_name(i)
}

/// The bindings of a statement as pairs of a name's text and a value.
pub open spec fn bound(v: Seq<(String, Value)>) -> Seq<(Seq<char>, Value)> {
    v.map_values(|b: (String, Value)| (b.0@, b.1))
}

/// The filter clause: absent without filters, else the predicates joined
/// by `AND` in the order given.
pub open spec fn where_clause(filters: Seq<Seq<char>>) -> Seq<char> {
    if filters.len() == 0 {
        Seq::empty()
    } else {
        " WHERE "@ + joined(filters, " AND "@)
    }
}

/// The sort clause: absent without a sort key.
pub open spec fn order_clause(order: Option<(Seq<char>, Seq<char>)>) -> Seq<char> {
    match order {
        Some((field, direction)) => " ORDER BY "@ + field + " "@ + direction,
        None => Seq::empty(),
    }
}

/// The clause that bounds the number of rows: absent without a bound.
pub open spec fn limit_clause(limit: Option<u32>) -> Seq<char> {
    match limit {
        Some(n) => " LIMIT "@ + decimal(n as nat),
        None => Seq::empty(),
    }
}

/// The clause that skips leading rows: absent without an offset.
pub open spec fn start_clause(start: Option<u32>) -> Seq<char> {
    match start {
        Some(n) => " START "@ + decimal(n as nat),
        None => Seq::empty(),
    }
}

/// The eager-fetch clause: absent without fields, else the fields joined by
/// commas in the order given.
pub open spec fn fetch_clause(fields: Seq<Seq<char>>) -> Seq<char> {
    if fields.len() == 0 {
        Seq::empty()
    } else {
        " FETCH "@ + joined(fields, ", "@)
    }
}

/// What a query builder has accumulated, as plain mathematical data.
pub struct QueryModel {
    /// Table name or graph-traversal path that rows are selected from.
    pub source: Seq<char>,
    /// Predicate clauses, in the order they were added.
    pub filters: Seq<Seq<char>>,
    /// Parameter name and value of each filter, in the same order.
    pub bindings: Seq<(Seq<char>, Value)>,
    /// Related fields to expand, in the order they were added.
    pub fetch_fields: Seq<Seq<char>>,
    /// The active sort key: field and upper-case direction.
    pub order: Option<(Seq<char>, Seq<char>)>,
    /// Most rows to return, if bounded.
    pub limit: Option<u32>,
    /// Rows to skip, if any.
    pub start: Option<u32>,
}

impl QueryModel {
    /// A query on `source` with nothing else configured.
    pub open spec fn fresh(source: Seq<char>) -> QueryModel {
        QueryModel {
            source,
            filters: Seq::empty(),
            bindings: Seq::empty(),
            fetch_fields: Seq::empty(),
            order: None,
            limit: None,
            start: None,
        }
    }

    /// The same query selecting from the path `start_node` `traversal`.
    pub open spec fn from_graph(self, start_node: Seq<char>, traversal: Seq<char>) -> QueryModel {
        QueryModel { source: start_node + traversal, ..self }
    }

    /// The same query with one more filter: its predicate refers to the
    /// next parameter in sequence, and `value` is bound under that name.
    pub open spec fn filter(self, field: Seq<char>, operator: Seq<char>, value: Value) -> QueryModel {
        QueryModel {
            filters: self.filters.push(predicate(field, operator, self.filters.len())),
            bindings: self.bindings.push((param_name(self.filters.len()), value)),
            ..self
        }
    }

    /// The same query with `field` added to the fields to expand.
    pub open spec fn fetch_field(self, field: Seq<char>) -> QueryModel {
        QueryModel { fetch_fields: self.fetch_fields.push(field), ..self }
    }

    /// The same query sorted by `field`, the direction in upper case.
    pub open spec fn order_by(self, field: Seq<char>, direction: Seq<char>) -> QueryModel {
        QueryModel { order: Some((field, upper(direction))), ..self }
    }

    /// The same query returning at most `n` rows.
    pub open spec fn limit(self, n: u32) -> QueryModel {
        QueryModel { limit: Some(n), ..self }
    }

    /// The same query skipping the first `n` rows.
    pub open spec fn start(self, n: u32) -> QueryModel {
        QueryModel { start: Some(n), ..self }
    }

    /// Every filter has its binding, and the binding at position `i` is
    /// named `param_i`.
    pub open spec fn wf(self) -> bool {
        &&& self.bindings.len() == self.filters.len()
        &&& forall|i: int|
            0 <= i < self.bindings.len() ==> (#[trigger] self.bindings[i]).0 == param_name(i as nat)
    }

    /// The model after adding the filters `fs`, each a field, an operator
    /// and a value, one after another.
    pub open spec fn with_filters(self, fs: Seq<(Seq<char>, Seq<char>, Value)>) -> QueryModel
        decreases fs.len(),
    {
        if fs.len() == 0 {
            self
        } else {
            self.with_filters(fs.drop_last()).filter(fs.last().0, fs.last().1, fs.last().2)
        }
    }

    /// The query text: the selection, then each configured clause in the
    /// fixed order filter, sort, limit, start, fetch.
    pub open spec fn text(self) -> Seq<char> {
        "SELECT * FROM "@ + self.source + where_clause(self.filters) + order_clause(self.order)
            + limit_clause(self.limit) + start_clause(self.start) + fetch_clause(
            self.fetch_fields,
        )
    }
}

/// A sort key and its direction.
pub struct Order {
    pub field: String,
    pub direction: String,
}

/// A compiled query: the text to execute and the values to bind by name.
#[derive(Debug, PartialEq, Eq)]
pub struct Statement {
    pub text: String,
    pub bindings: Vec<(String, Value)>,
}

/// A single-use accumulator of query fragments.
pub struct QueryBuilder {
    from_source: String,
    filters: Vec<String>,
    bindings: Vec<(String, Value)>,
    fetch_fields: Vec<String>,
    order: Option<Order>,
    limit: Option<u32>,
    start: Option<u32>,
}

/// Parameters at different positions have different names.
pub proof fn param_names_distinct(i: nat, j: nat)
    requires
        param_name(i) == param_name(j),
    ensures
        i == j,
{
    let p = "param_"@;
    assert(decimal(i) =~= param_name(i).subrange(p.len() as int, param_name(i).len() as int));
    assert(decimal(j) =~= param_name(j).subrange(p.len() as int, param_name(j).len() as int));
    decimal_injective(i, j);
}

/// In a well-formed query no parameter name is bound twice.
pub proof fn bound_names_unique(q: QueryModel)
    requires
        q.wf(),
    ensures
        forall|i: int, j: int|
            0 <= i < j < q.bindings.len() ==> (#[trigger] q.bindings[i]).0 != (
            #[trigger] q.bindings[j]).0,
{
    assert forall|i: int, j: int| 0 <= i < j < q.bindings.len() implies (#[trigger] q.bindings[i]).0
        != (#[trigger] q.bindings[j]).0 by {
        if q.bindings[i].0 == q.bindings[j].0 {
            param_names_distinct(i as nat, j as nat);
        }
    }
}

/// Adding filters to a well-formed query keeps what was there and appends,
/// in the order given, one predicate and one binding per filter: the filter
/// that lands at position `j` refers to `param_j` and binds its own value
/// under that name. Nothing else of the query changes.
pub proof fn filters_keep_order(q: QueryModel, fs: Seq<(Seq<char>, Seq<char>, Value)>)
    requires
        q.wf(),
    ensures
        q.with_filters(fs).wf(),
        q.with_filters(fs).filters.len() == q.filters.len() + fs.len(),
        q.with_filters(fs).filters.take(q.filters.len() as int) == q.filters,
        q.with_filters(fs).bindings.take(q.filters.len() as int) == q.bindings,
        forall|j: int|
            q.filters.len() <= j < q.filters.len() + fs.len() ==> (#[trigger] q.with_filters(
                fs,
            ).filters[j]) == predicate(
                fs[j - q.filters.len()].0,
                fs[j - q.filters.len()].1,
                j as nat,
            ),
        forall|j: int|
            q.filters.len() <= j < q.filters.len() + fs.len() ==> (#[trigger] q.with_filters(
                fs,
            ).bindings[j]) == (param_name(j as nat), fs[j - q.filters.len()].2),
        q.with_filters(fs).source == q.source,
        q.with_filters(fs).fetch_fields == q.fetch_fields,
        q.with_filters(fs).order == q.order,
        q.with_filters(fs).limit == q.limit,
        q.with_filters(fs).start == q.start,
    decreases fs.len(),
{
    let k = q.filters.len() as int;
    if fs.len() == 0 {
        assert(q.filters.take(k) =~= q.filters);
        assert(q.bindings.take(k) =~= q.bindings);
    } else {
        let head = fs.drop_last();
        let prev = q.with_filters(head);
        let r = q.with_filters(fs);
        filters_keep_order(q, head);
        assert(r.filters.take(k) =~= prev.filters.take(k));
        assert(r.bindings.take(k) =~= prev.bindings.take(k));
        assert forall|j: int| k <= j < k + fs.len() implies (#[trigger] r.filters[j]) == predicate(
            fs[j - k].0,
            fs[j - k].1,
            j as nat,
        ) by {
            if j < k + head.len() {
                assert(r.filters[j] == prev.filters[j]);
                assert(head[j - k] == fs[j - k]);
            }
        }
        assert forall|j: int| k <= j < k + fs.len() implies (#[trigger] r.bindings[j]) == (
            param_name(j as nat),
            fs[j - k].2,
        ) by {
            if j < k + head.len() {
                assert(r.bindings[j] == prev.bindings[j]);
                assert(head[j - k] == fs[j - k]);
            }
        }
    }
}

/// A query built from nothing but `n` filters has a filter clause of exactly
/// those `n` predicates joined by `AND`, in the order they were added, and
/// binds the names `param_0` to `param_(n-1)`, each once, each to the value
/// of the filter at its position.
pub proof fn filters_compile_in_order(source: Seq<char>, fs: Seq<(Seq<char>, Seq<char>, Value)>)
    ensures
        ({
            let q = QueryModel::fresh(source).with_filters(fs);
            &&& q.filters == Seq::new(fs.len(), |i: int| predicate(fs[i].0, fs[i].1, i as nat))
            &&& q.bindings == Seq::new(fs.len(), |i: int| (param_name(i as nat), fs[i].2))
            &&& forall|i: int, j: int|
                0 <= i < j < fs.len() ==> (#[trigger] q.bindings[i]).0 != (#[trigger] q.bindings[j]).0
            &&& fs.len() > 0 ==> q.text() == "SELECT * FROM "@ + source + " WHERE "@ + joined(
                q.filters,
                " AND "@,
            )
            &&& fs.len() == 0 ==> q.text() == "SELECT * FROM "@ + source
        }),
{
    let f = QueryModel::fresh(source);
    let q = f.with_filters(fs);
    filters_keep_order(f, fs);
    assert(q.filters =~= Seq::new(fs.len(), |i: int| predicate(fs[i].0, fs[i].1, i as nat)));
    assert(q.bindings =~= Seq::new(fs.len(), |i: int| (param_name(i as nat), fs[i].2)));
    bound_names_unique(q);
    assert(q.text() =~= "SELECT * FROM "@ + source + where_clause(q.filters));
}

/// With no filter, sort key, bound, offset or fetch field, the query text
/// is the bare selection from the source.
pub proof fn bare_query_text(q: QueryModel)
    requires
        q.filters.len() == 0,
        q.order is None,
        q.limit is None,
        q.start is None,
        q.fetch_fields.len() == 0,
    ensures
        q.text() == "SELECT * FROM "@ + q.source,
{
    assert(q.text() =~= "SELECT * FROM "@ + q.source);
}

/// Each configuration step keeps a query well-formed, and a fresh query is.
pub proof fn steps_keep_wf(q: QueryModel, a: Seq<char>, b: Seq<char>, value: Value, n: u32)
    requires
        q.wf(),
    ensures
        QueryModel::fresh(a).wf(),
        q.from_graph(a, b).wf(),
        q.filter(a, b, value).wf(),
        q.fetch_field(a).wf(),
        q.order_by(a, b).wf(),
        q.limit(n).wf(),
        q.start(n).wf(),
{
}

/// Setting the sort key with an ASCII direction stores the direction in
/// upper case, and setting it again with the stored direction changes
/// nothing.
pub proof fn order_by_is_idempotent(q: QueryModel, field: Seq<char>, direction: Seq<char>)
    requires
        is_ascii_text(direction),
    ensures
        q.order_by(field, direction).order == Some((field, ascii_upper(direction))),
        q.order_by(field, direction).order_by(field, upper(direction)) == q.order_by(
            field,
            direction,
        ),
{
    upper_is_idempotent(direction);
}

proof fn texts_empty()
    ensures
        texts(Seq::<String>::empty()) == Seq::<Seq<char>>::empty(),
        bound(Seq::<(String, Value)>::empty()) == Seq::<(Seq<char>, Value)>::empty(),
{
    assert(texts(Seq::<String>::empty()) =~= Seq::<Seq<char>>::empty());
    assert(bound(Seq::<(String, Value)>::empty()) =~= Seq::<(Seq<char>, Value)>::empty());
}

proof fn texts_push(v: Seq<String>, s: String)
    ensures
        texts(v.push(s)) == texts(v).push(s@),
{
    assert(texts(v.push(s)) =~= texts(v).push(s@));
}

proof fn bound_push(v: Seq<(String, Value)>, name: String, value: Value)
    ensures
        bound(v.push((name, value))) == bound(v).push((name@, value)),
{
    assert(bound(v.push((name, value))) =~= bound(v).push((name@, value)));
}

fn push_where(out: &mut String, filters: &Vec<String>)
    ensures
        final(out)@ == old(out)@ + where_clause(texts(filters@)),
{
    if filters.len() > 0 {
        out.append(" WHERE ");
        push_joined(out, filters, " AND ");
    }
    assert(out@ =~= old(out)@ + where_clause(texts(filters@)));
}

fn push_order(out: &mut String, order: &Option<Order>)
    ensures
        final(out)@ == old(out)@ + order_clause(order_model(*order)),
{
    match order {
        Some(o) => {
            out.append(" ORDER BY ");
            out.append(o.field.as_str());
            out.append(" ");
            out.append(o.direction.as_str());
        },
        None => {},
    }
    assert(out@ =~= old(out)@ + order_clause(order_model(*order)));
}

fn push_limit(out: &mut String, limit: Option<u32>)
    ensures
        final(out)@ == old(out)@ + limit_clause(limit),
{
    match limit {
        Some(n) => {
            out.append(" LIMIT ");
            push_decimal(out, n as u64);
        },
        None => {},
    }
    assert(out@ =~= old(out)@ + limit_clause(limit));
}

fn push_start(out: &mut String, start: Option<u32>)
    ensures
        final(out)@ == old(out)@ + start_clause(start),
{
    match start {
        Some(n) => {
            out.append(" START ");
            push_decimal(out, n as u64);
        },
        None => {},
    }
    assert(out@ =~= old(out)@ + start_clause(start));
}

fn push_fetch(out: &mut String, fields: &Vec<String>)
    ensures
        final(out)@ == old(out)@ + fetch_clause(texts(fields@)),
{
    if fields.len() > 0 {
        out.append(" FETCH ");
        push_joined(out, fields, ", ");
    }
    assert(out@ =~= old(out)@ + fetch_clause(texts(fields@)));
}

/// The sort key of a builder as texts.
pub open spec fn order_model(order: Option<Order>) -> Option<(Seq<char>, Seq<char>)> {
    match order {
        Some(o) => Some((o.field@, o.direction@)),
        None => None,
    }
}

impl View for QueryBuilder {
    type V = QueryModel;

    closed spec fn view(&self) -> QueryModel {
        QueryModel {
            source: self.from_source@,
            filters: texts(self.filters@),
            bindings: bound(self.bindings@),
            fetch_fields: texts(self.fetch_fields@),
            order: order_model(self.order),
            limit: self.limit,
            start: self.start,
        }
    }
}

impl QueryBuilder {
    #[verifier::type_invariant]
    closed spec fn inv(self) -> bool {
        self@.wf()
    }

    /// A builder that selects from `table`, with nothing else configured.
    pub fn new(table: &str) -> (r: QueryBuilder)
        ensures
            r@ == QueryModel::fresh(table@),
    {
        let r = QueryBuilder {
            from_source: String::from_str(table),
            filters: Vec::new(),
            bindings: Vec::new(),
            fetch_fields: Vec::new(),
            order: None,
            limit: None,
            start: None,
        };
        proof {
            texts_empty();
        }
        r
    }

    /// Selects from a graph-traversal path instead of a table: the start
    /// node followed directly by the traversal expression.
    pub fn from_graph(self, start_node: &str, traversal: &str) -> (r: QueryBuilder)
        ensures
            r@ == self@.from_graph(start_node@, traversal@),
    {
        proof {
            use_type_invariant(&self);
        }
        let mut source = String::from_str(start_node);
        source.append(traversal);
        let r = QueryBuilder {
            from_source: source,
            filters: self.filters,
            bindings: self.bindings,
            fetch_fields: self.fetch_fields,
            order: self.order,
            limit: self.limit,
            start: self.start,
        };
        assert(r@ =~~= self@.from_graph(start_node@, traversal@));
        r
    }

    /// Adds the predicate `field operator $param_i`, where `i` is the number
    /// of filters added before, and binds `value` under `param_i`. Field and
    /// operator are written into the query text as they are.
    pub fn filter(self, field: &str, operator: &str, value: Value) -> (r: QueryBuilder)
        ensures
            r@ == self@.filter(field@, operator@, value),
    {
        proof {
            use_type_invariant(&self);
        }
        let mut name = String::from_str("param_");
        push_decimal(&mut name, self.filters.len() as u64);
        let mut clause = String::from_str(field);
        clause.append(" ");
        clause.append(operator);
        clause.append(" $");
        clause.append(name.as_str());
        let mut filters = self.filters;
        let mut bindings = self.bindings;
        proof {
            texts_push(filters@, clause);
            bound_push(bindings@, name, value);
        }
        filters.push(clause);
        bindings.push((name, value));
        let r = QueryBuilder {
            from_source: self.from_source,
            filters,
            bindings,
            fetch_fields: self.fetch_fields,
            order: self.order,
            limit: self.limit,
            start: self.start,
        };
        assert(r@ =~~= self@.filter(field@, operator@, value));
        r
    }

    /// Adds a related field to expand in the result.
    pub fn fetch_field(self, field: &str) -> (r: QueryBuilder)
        ensures
            r@ == self@.fetch_field(field@),
    {
        proof {
            use_type_invariant(&self);
        }
        let mut fetch_fields = self.fetch_fields;
        let item = String::from_str(field);
        proof {
            texts_push(fetch_fields@, item);
        }
        fetch_fields.push(item);
        let r = QueryBuilder {
            from_source: self.from_source,
            filters: self.filters,
            bindings: self.bindings,
            fetch_fields,
            order: self.order,
            limit: self.limit,
            start: self.start,
        };
        assert(r@ =~~= self@.fetch_field(field@));
        r
    }

    /// Sets the one active sort key, replacing any earlier one. The
    /// direction is stored in upper case.
    pub fn order_by(self, field: &str, direction: &str) -> (r: QueryBuilder)
        ensures
            r@ == self@.order_by(field@, direction@),
    {
        proof {
            use_type_invariant(&self);
        }
        let order = Order { field: String::from_str(field), direction: to_upper(direction) };
        let r = QueryBuilder {
            from_source: self.from_source,
            filters: self.filters,
            bindings: self.bindings,
            fetch_fields: self.fetch_fields,
            order: Some(order),
            limit: self.limit,
            start: self.start,
        };
        assert(r@ =~~= self@.order_by(field@, direction@));
        r
    }

    /// Bounds the number of rows returned.
    pub fn limit(self, limit: u32) -> (r: QueryBuilder)
        ensures
            r@ == self@.limit(limit),
    {
        proof {
            use_type_invariant(&self);
        }
        let r = QueryBuilder {
            from_source: self.from_source,
            filters: self.filters,
            bindings: self.bindings,
            fetch_fields: self.fetch_fields,
            order: self.order,
            limit: Some(limit),
            start: self.start,
        };
        assert(r@ =~~= self@.limit(limit));
        r
    }

    /// Sets the number of rows skipped before the first one returned.
    pub fn start(self, start: u32) -> (r: QueryBuilder)
        ensures
            r@ == self@.start(start),
    {
        proof {
            use_type_invariant(&self);
        }
        let r = QueryBuilder {
            from_source: self.from_source,
            filters: self.filters,
            bindings: self.bindings,
            fetch_fields: self.fetch_fields,
            order: self.order,
            limit: self.limit,
            start: Some(start),
        };
        assert(r@ =~~= self@.start(start));
        r
    }

    /// Consumes the builder and compiles it: the query text with its clauses
    /// in fixed order, and every recorded binding, named `param_0`,
    /// `param_1`, ... in the order of the filters.
    pub fn compile(self) -> (r: Statement)
        ensures
            r.text@ == self@.text(),
            bound(r.bindings@) == self@.bindings,
            self@.wf(),
    {
        proof {
            use_type_invariant(&self);
        }
        let mut sql = String::from_str("SELECT * FROM ");
        sql.append(self.from_source.as_str());
        push_where(&mut sql, &self.filters);
        push_order(&mut sql, &self.order);
        push_limit(&mut sql, self.limit);
        push_start(&mut sql, self.start);
        push_fetch(&mut sql, &self.fetch_fields);
        Statement { text: sql, bindings: self.bindings }
    }
}

} // verus!
