//! A composable, clause-accumulating SELECT statement builder.
//!
//! The builder collects select columns, source tables, join clauses, AND-ed
//! predicates, order-by columns, a limit expression, named common-table
//! expressions and unioned statements — in any call order — and renders them
//! as text in one fixed clause order: WITH, SELECT, FROM, JOIN, WHERE,
//! ORDER BY, LIMIT, UNION.
//!
//! The accumulated state of a builder is modelled by the ghost [`StmtView`];
//! every builder method says exactly how it changes that state, and
//! [`spec_render`] says what text a state renders to, so rendering is a pure
//! function of the accumulated state.

use vstd::prelude::*;

verus! {

/// The accumulated state of one statement: the clause lists in their render
/// order.  `withs` and `unions` hold whole sub-statements.
#[verifier::ext_equal]
pub ghost struct StmtView {
    pub withs: Seq<NamedStmtView>,
    pub selects: Seq<Seq<char>>,
    pub froms: Seq<Seq<char>>,
    pub joins: Seq<Seq<char>>,
    pub wheres: Seq<Seq<char>>,
    pub orders: Seq<Seq<char>>,
    pub limit: Seq<char>,
    pub unions: Seq<StmtView>,
}

/// One named common-table expression: its name and its statement.
#[verifier::ext_equal]
pub ghost struct NamedStmtView {
    pub name: Seq<char>,
    pub statement: StmtView,
}

/// The state of a builder that has accumulated nothing.
pub open spec fn empty_stmt() -> StmtView {
    StmtView {
        withs: Seq::empty(),
        selects: Seq::empty(),
        froms: Seq::empty(),
        joins: Seq::empty(),
        wheres: Seq::empty(),
        orders: Seq::empty(),
        limit: Seq::empty(),
        unions: Seq::empty(),
    }
}

/// The text a join clause accumulates to.
pub open spec fn join_entry(table: Seq<char>, on_clause: Seq<char>) -> Seq<char> {
    "INNER JOIN "@ + table + " ON ("@ + on_clause + ")"@
}

pub open spec fn with_select(v: StmtView, column: Seq<char>) -> StmtView {
    StmtView { selects: v.selects.push(column), ..v }
}

pub open spec fn with_from(v: StmtView, table: Seq<char>) -> StmtView {
    StmtView { froms: v.froms.push(table), ..v }
}

pub open spec fn with_join(v: StmtView, table: Seq<char>, on_clause: Seq<char>) -> StmtView {
    StmtView { joins: v.joins.push(join_entry(table, on_clause)), ..v }
}

pub open spec fn with_where(v: StmtView, predicate: Seq<char>) -> StmtView {
    StmtView { wheres: v.wheres.push(predicate), ..v }
}

pub open spec fn with_order_by(v: StmtView, column: Seq<char>) -> StmtView {
    StmtView { orders: v.orders.push(column), ..v }
}

pub open spec fn with_limit(v: StmtView, expression: Seq<char>) -> StmtView {
    StmtView { limit: expression, ..v }
}

pub open spec fn with_union(v: StmtView, other: StmtView) -> StmtView {
    StmtView { unions: v.unions.push(other), ..v }
}

pub open spec fn with_cte(v: StmtView, name: Seq<char>, statement: StmtView) -> StmtView {
    StmtView { withs: v.withs.push(NamedStmtView { name, statement }), ..v }
}

/// The whitespace conventions of one render: the separator between clauses,
/// the indentation inside a common-table expression, and the list comma.
#[verifier::ext_equal]
pub ghost struct FmtView {
    pub sep: Seq<char>,
    pub indent: Seq<char>,
    pub comma: Seq<char>,
}

/// Compact mode separates clauses by single spaces; pretty mode puts each
/// clause on its own line and indents common-table expressions.
pub open spec fn spec_formatters(pretty: bool) -> FmtView {
    if pretty {
        FmtView { sep: "\n"@, indent: "\t"@, comma: ", "@ }
    } else {
        FmtView { sep: " "@, indent: ""@, comma: ","@ }
    }
}

/// The formatters of a common-table expression's body: one indent step is
/// folded into the separator.
pub open spec fn inner_fmt(f: FmtView) -> FmtView {
    FmtView { sep: f.sep + f.indent, indent: f.indent, comma: f.comma }
}

/// `parts` joined by `sep`, as `[T]::join` does it.
pub open spec fn join_seqs(parts: Seq<Seq<char>>, sep: Seq<char>) -> Seq<char>
    decreases parts.len(),
{
    if parts.len() == 0 {
        Seq::empty()
    } else if parts.len() == 1 {
        parts[0]
    } else {
        parts[0] + sep + join_seqs(parts.drop_first(), sep)
    }
}

/// A character the renderer strips from the end of the finished text: ASCII
/// whitespace, which covers every separator and indent it emits.
pub open spec fn is_trailing_space(c: char) -> bool {
    c == ' ' || c == '\t' || c == '\n' || c == '\r'
}

/// `text` with its trailing whitespace removed.
pub open spec fn trim_end_spec(text: Seq<char>) -> Seq<char>
    decreases text.len(),
{
    if text.len() == 0 {
        text
    } else if is_trailing_space(text.last()) {
        trim_end_spec(text.drop_last())
    } else {
        text
    }
}

/// The WITH clause body: every common-table expression as
/// `name AS ( … )` followed by a comma, concatenated; the body of each is
/// rendered one indent step deeper.
pub open spec fn withs_fold(withs: Seq<NamedStmtView>, f: FmtView) -> Seq<char>
    decreases withs, 0int,
{
    if withs.len() == 0 {
        Seq::empty()
    } else {
        withs_fold(withs.drop_last(), f) + withs.last().name + " AS ("@ + f.sep + f.indent
            + spec_render(withs.last().statement, inner_fmt(f)) + f.sep + ")"@ + f.comma
    }
}

/// The WITH block: the fold above with its trailing comma stripped, between
/// the `WITH ` keyword and a separator; empty when there is no common-table
/// expression.
pub open spec fn with_block(withs: Seq<NamedStmtView>, f: FmtView) -> Seq<char>
    decreases withs, 1int,
{
    if withs.len() == 0 {
        Seq::empty()
    } else {
        let folded = withs_fold(withs, f);
        "WITH "@ + folded.subrange(0, folded.len() - f.comma.len()) + f.sep
    }
}

pub open spec fn select_block(selects: Seq<Seq<char>>, f: FmtView) -> Seq<char> {
    if selects.len() == 0 {
        Seq::empty()
    } else {
        "SELECT "@ + join_seqs(selects, f.comma) + f.sep
    }
}

pub open spec fn from_block(froms: Seq<Seq<char>>, f: FmtView) -> Seq<char> {
    if froms.len() == 0 {
        Seq::empty()
    } else {
        "FROM "@ + join_seqs(froms, f.comma) + f.sep
    }
}

pub open spec fn join_block(joins: Seq<Seq<char>>, f: FmtView) -> Seq<char> {
    if joins.len() == 0 {
        Seq::empty()
    } else {
        join_seqs(joins, f.sep) + f.sep
    }
}

pub open spec fn where_block(wheres: Seq<Seq<char>>, f: FmtView) -> Seq<char> {
    if wheres.len() == 0 {
        Seq::empty()
    } else {
        "WHERE "@ + join_seqs(wheres, " AND "@) + f.sep
    }
}

/// Order-by columns are joined with a literal ` and `, an inherited quirk of
/// the renderer, not real SQL semantics.
pub open spec fn order_by_block(orders: Seq<Seq<char>>, f: FmtView) -> Seq<char> {
    if orders.len() == 0 {
        Seq::empty()
    } else {
        "ORDER BY "@ + join_seqs(orders, " and "@) + f.sep
    }
}

pub open spec fn limit_block(limit: Seq<char>, f: FmtView) -> Seq<char> {
    if limit.len() == 0 {
        Seq::empty()
    } else {
        "LIMIT "@ + limit + f.sep
    }
}

/// The unioned statements, each rendered and prefixed by a separator.
pub open spec fn unions_fold(unions: Seq<StmtView>, f: FmtView) -> Seq<char>
    decreases unions, 0int,
{
    if unions.len() == 0 {
        Seq::empty()
    } else {
        unions_fold(unions.drop_last(), f) + f.sep + spec_render(unions.last(), f)
    }
}

/// A union wraps the statement so far and the unioned statements in
/// parentheses around the `UNION` keyword; without unions the text is left
/// as it is.
pub open spec fn union_wrap(text: Seq<char>, unions: Seq<StmtView>, f: FmtView) -> Seq<char>
    decreases unions, 1int,
{
    if unions.len() == 0 {
        text
    } else {
        "("@ + f.sep + text + ") UNION ("@ + unions_fold(unions, f) + f.sep + ")"@
    }
}

/// The text a statement state renders to: the clause blocks in their fixed
/// order — WITH, SELECT, FROM, JOIN, WHERE, ORDER BY, LIMIT — wrapped by the
/// UNION clause, with trailing whitespace trimmed.
pub open spec fn spec_render(v: StmtView, f: FmtView) -> Seq<char>
    decreases v, 2int,
{
    trim_end_spec(
        union_wrap(
            with_block(v.withs, f) + select_block(v.selects, f) + from_block(v.froms, f)
                + join_block(v.joins, f) + where_block(v.wheres, f) + order_by_block(v.orders, f)
                + limit_block(v.limit, f),
            v.unions,
            f,
        ),
    )
}

/// The views of a list of strings.
pub open spec fn char_seqs(strings: Seq<String>) -> Seq<Seq<char>> {
    Seq::new(strings.len(), |i: int| strings[i]@)
}

proof fn lemma_char_seqs_push(strings: Seq<String>, s: String)
    ensures
        char_seqs(strings.push(s)) == char_seqs(strings).push(s@),
{
    assert(char_seqs(strings.push(s)) =~= char_seqs(strings).push(s@));
}

proof fn lemma_stmts_of_push(builders: Seq<SelectBuilder>, builder: SelectBuilder)
    ensures
        SelectBuilder::stmts_of(builders.push(builder)) == SelectBuilder::stmts_of(builders).push(
            builder.stmt(),
        ),
{
    assert(builders.push(builder).drop_last() =~= builders);
}

proof fn lemma_withs_of_push(clauses: Seq<WithClause>, clause: WithClause)
    ensures
        SelectBuilder::withs_of(clauses.push(clause)) == SelectBuilder::withs_of(clauses).push(
            NamedStmtView { name: clause.name@, statement: clause.statement.stmt() },
        ),
{
    assert(clauses.push(clause).drop_last() =~= clauses);
}

proof fn lemma_stmts_of_props(builders: Seq<SelectBuilder>)
    ensures
        SelectBuilder::stmts_of(builders).len() == builders.len(),
        forall|i: int|
            0 <= i < builders.len() ==> #[trigger] SelectBuilder::stmts_of(builders)[i]
                == builders[i].stmt(),
    decreases builders.len(),
{
    if builders.len() > 0 {
        lemma_stmts_of_props(builders.drop_last());
        assert(forall|i: int|
            0 <= i < builders.len() - 1 ==> #[trigger] builders.drop_last()[i] == builders[i]);
    }
}

proof fn lemma_withs_of_props(clauses: Seq<WithClause>)
    ensures
        SelectBuilder::withs_of(clauses).len() == clauses.len(),
        forall|i: int|
            0 <= i < clauses.len() ==> #[trigger] SelectBuilder::withs_of(clauses)[i]
                == (NamedStmtView {
                name: clauses[i].name@,
                statement: clauses[i].statement.stmt(),
            }),
    decreases clauses.len(),
{
    if clauses.len() > 0 {
        lemma_withs_of_props(clauses.drop_last());
        assert(forall|i: int|
            0 <= i < clauses.len() - 1 ==> #[trigger] clauses.drop_last()[i] == clauses[i]);
    }
}

/// A non-empty WITH fold always ends in the list comma, so the comma can be
/// stripped again.
proof fn lemma_withs_fold_comma(withs: Seq<NamedStmtView>, f: FmtView)
    requires
        withs.len() > 0,
    ensures
        withs_fold(withs, f).len() >= f.comma.len(),
{
}

/// `join_seqs` grows on the right when one more part is appended.
proof fn lemma_join_seqs_push(parts: Seq<Seq<char>>, part: Seq<char>, sep: Seq<char>)
    ensures
        join_seqs(parts.push(part), sep) == if parts.len() == 0 {
            part
        } else {
            join_seqs(parts, sep) + sep + part
        },
    decreases parts.len(),
{
    if parts.len() == 0 {
        assert(parts.push(part)[0] == part);
    } else {
        assert(parts.push(part).drop_first() =~= parts.drop_first().push(part));
        lemma_join_seqs_push(parts.drop_first(), part, sep);
        if parts.len() == 1 {
            assert(parts.push(part)[0] == parts[0]);
        } else {
            assert((parts[0] + sep + join_seqs(parts.drop_first(), sep)) + sep + part =~= parts[0]
                + sep + (join_seqs(parts.drop_first(), sep) + sep + part));
        }
    }
}

/// The whitespace conventions of one render, as executable values; see
/// `FmtView`.
pub struct Formatters {
    sep: String,
    indent: String,
    comma: String,
}

impl Formatters {
    /// The conventions this value stands for.
    pub closed spec fn fmt(self) -> FmtView {
        FmtView { sep: self.sep@, indent: self.indent@, comma: self.comma@ }
    }

    /// The conventions of compact or pretty rendering; see `spec_formatters`.
    pub fn new(pretty: bool) -> (fmts: Self)
        ensures
            fmts.fmt() == spec_formatters(pretty),
    {
        if pretty {
            Formatters { sep: "\n".to_owned(), indent: "\t".to_owned(), comma: ", ".to_owned() }
        } else {
            Formatters { sep: " ".to_owned(), indent: "".to_owned(), comma: ",".to_owned() }
        }
    }
}

/// `items` joined by `sep`, as `[String]::join` renders a list.
fn join_strings(items: &Vec<String>, sep: &str) -> (joined: String)
    ensures
        joined@ == join_seqs(char_seqs(items@), sep@),
{
    let ghost parts = char_seqs(items@);
    let mut joined = String::new();
    let mut i: usize = 0;
    while i < items.len()
        invariant
            0 <= i <= items@.len(),
            parts == char_seqs(items@),
            joined@ == join_seqs(parts.subrange(0, i as int), sep@),
        decreases items@.len() - i,
    {
        if i > 0 {
            joined.append(sep);
        }
        joined.append(items[i].as_str());
        proof {
            assert(parts.subrange(0, i + 1) =~= parts.subrange(0, i as int).push(parts[i as int]));
            lemma_join_seqs_push(parts.subrange(0, i as int), parts[i as int], sep@);
        }
        i = i + 1;
    }
    proof {
        assert(parts.subrange(0, items@.len() as int) =~= parts);
    }
    joined
}

fn is_space_char(c: char) -> (space: bool)
    ensures
        space == is_trailing_space(c),
{
    c == ' ' || c == '\t' || c == '\n' || c == '\r'
}

/// `text` with its trailing whitespace removed, as `str::trim_end` leaves
/// the text the renderer builds.
fn trim_end_string(text: String) -> (trimmed: String)
    ensures
        trimmed@ == trim_end_spec(text@),
{
    let n = text.as_str().unicode_len();
    let mut k = n;
    proof {
        assert(text@.subrange(0, n as int) =~= text@);
    }
    while k > 0 && is_space_char(text.as_str().get_char(k - 1))
        invariant
            0 <= k <= n,
            n == text@.len(),
            trim_end_spec(text@) == trim_end_spec(text@.subrange(0, k as int)),
        decreases k,
    {
        proof {
            assert(text@.subrange(0, k as int).drop_last() =~= text@.subrange(0, k - 1));
        }
        k = k - 1;
    }
    proof {
        if k == 0 {
            assert(text@.subrange(0, 0) =~= Seq::<char>::empty());
        }
    }
    text.as_str().substring_char(0, k).to_owned()
}

/// One named common-table expression held by a builder.
pub struct WithClause {
    pub name: String,
    pub statement: SelectBuilder,
}

/// The clause accumulator; see the module documentation.
pub struct SelectBuilder {
    from_items: Vec<String>,
    join_items: Vec<String>,
    limit_item: String,
    order_by_items: Vec<String>,
    select_items: Vec<String>,
    union_items: Vec<SelectBuilder>,
    where_items: Vec<String>,
    with_items: Vec<WithClause>,
}

impl SelectBuilder {
    /// The accumulated state this builder stands for.
    pub closed spec fn stmt(self) -> StmtView
        decreases self, 1int,
    {
        StmtView {
            withs: Self::withs_of(self.with_items@),
            selects: char_seqs(self.select_items@),
            froms: char_seqs(self.from_items@),
            joins: char_seqs(self.join_items@),
            wheres: char_seqs(self.where_items@),
            orders: char_seqs(self.order_by_items@),
            limit: self.limit_item@,
            unions: Self::stmts_of(self.union_items@),
        }
    }

    /// The states of a list of builders, in order.
    pub closed spec fn stmts_of(builders: Seq<SelectBuilder>) -> Seq<StmtView>
        decreases builders, 0int,
    {
        if builders.len() == 0 {
            Seq::empty()
        } else {
            Self::stmts_of(builders.drop_last()).push(builders.last().stmt())
        }
    }

    /// The named states of a list of common-table expressions, in order.
    pub closed spec fn withs_of(clauses: Seq<WithClause>) -> Seq<NamedStmtView>
        decreases clauses, 0int,
    {
        if clauses.len() == 0 {
            Seq::empty()
        } else {
            Self::withs_of(clauses.drop_last()).push(
                NamedStmtView {
                    name: clauses.last().name@,
                    statement: clauses.last().statement.stmt(),
                },
            )
        }
    }

    /// A builder with nothing accumulated; it renders to the empty string.
    pub fn new() -> (builder: Self)
        ensures
            builder.stmt() == empty_stmt(),
    {
        let builder = SelectBuilder {
            from_items: Vec::new(),
            join_items: Vec::new(),
            limit_item: String::new(),
            order_by_items: Vec::new(),
            select_items: Vec::new(),
            union_items: Vec::new(),
            where_items: Vec::new(),
            with_items: Vec::new(),
        };
        proof {
            assert(builder.stmt() =~~= empty_stmt());
        }
        builder
    }

    /// Adds a select column.
    pub fn select(self, column: &str) -> (builder: Self)
        ensures
            builder.stmt() == with_select(self.stmt(), column@),
    {
        let ghost before = self;
        let mut builder = self;
        builder.select_items.push(column.to_owned());
        proof {
            lemma_char_seqs_push(before.select_items@, builder.select_items@.last());
            assert(builder.stmt() =~~= with_select(before.stmt(), column@));
        }
        builder
    }

    /// Adds a source table.
    pub fn from(self, table: &str) -> (builder: Self)
        ensures
            builder.stmt() == with_from(self.stmt(), table@),
    {
        let ghost before = self;
        let mut builder = self;
        builder.from_items.push(table.to_owned());
        proof {
            lemma_char_seqs_push(before.from_items@, builder.from_items@.last());
            assert(builder.stmt() =~~= with_from(before.stmt(), table@));
        }
        builder
    }

    /// Adds an inner join of `table` on `on_clause`.
    pub fn inner_join(self, table: &str, on_clause: &str) -> (builder: Self)
        ensures
            builder.stmt() == with_join(self.stmt(), table@, on_clause@),
    {
        let ghost before = self;
        let mut entry = String::new();
        entry.append("INNER JOIN ");
        entry.append(table);
        entry.append(" ON (");
        entry.append(on_clause);
        entry.append(")");
        let mut builder = self;
        builder.join_items.push(entry);
        proof {
            lemma_char_seqs_push(before.join_items@, builder.join_items@.last());
            assert(builder.stmt() =~~= with_join(before.stmt(), table@, on_clause@));
        }
        builder
    }

    /// Adds a predicate; all predicates are AND-combined when rendered.
    pub fn where_clause(self, predicate: &str) -> (builder: Self)
        ensures
            builder.stmt() == with_where(self.stmt(), predicate@),
    {
        let ghost before = self;
        let mut builder = self;
        builder.where_items.push(predicate.to_owned());
        proof {
            lemma_char_seqs_push(before.where_items@, builder.where_items@.last());
            assert(builder.stmt() =~~= with_where(before.stmt(), predicate@));
        }
        builder
    }

    /// Adds a predicate, like `where_clause`; reads better after one.
    pub fn and(self, predicate: &str) -> (builder: Self)
        ensures
            builder.stmt() == with_where(self.stmt(), predicate@),
    {
        self.where_clause(predicate)
    }

    /// Adds an order-by column.
    pub fn order_by(self, column: &str) -> (builder: Self)
        ensures
            builder.stmt() == with_order_by(self.stmt(), column@),
    {
        let ghost before = self;
        let mut builder = self;
        builder.order_by_items.push(column.to_owned());
        proof {
            lemma_char_seqs_push(before.order_by_items@, builder.order_by_items@.last());
            assert(builder.stmt() =~~= with_order_by(before.stmt(), column@));
        }
        builder
    }

    /// Sets the limit expression, replacing any earlier one.
    pub fn limit(self, expression: &str) -> (builder: Self)
        ensures
            builder.stmt() == with_limit(self.stmt(), expression@),
    {
        let ghost before = self;
        let mut builder = self;
        builder.limit_item = expression.to_owned();
        proof {
            assert(builder.stmt() =~~= with_limit(before.stmt(), expression@));
        }
        builder
    }

    /// Adds a statement to union with this one.
    pub fn union(self, other: Self) -> (builder: Self)
        ensures
            builder.stmt() == with_union(self.stmt(), other.stmt()),
    {
        let ghost before = self;
        let ghost other_view = other.stmt();
        let mut builder = self;
        builder.union_items.push(other);
        proof {
            lemma_stmts_of_push(before.union_items@, builder.union_items@.last());
            assert(builder.stmt() =~~= with_union(before.stmt(), other_view));
        }
        builder
    }

    /// Renders the accumulated state compactly; pure, so rendering the same
    /// state twice yields byte-identical text.
    pub fn as_string(&self) -> (text: String)
        ensures
            text@ == spec_render(self.stmt(), spec_formatters(false)),
    {
        let fmts = Formatters::new(false);
        self.concat(&fmts)
    }

    /// Renders the accumulated state, compactly or prettily; the mode only
    /// affects whitespace, never which clauses are emitted.
    pub fn render(&self, pretty: bool) -> (text: String)
        ensures
            text@ == spec_render(self.stmt(), spec_formatters(pretty)),
    {
        let fmts = Formatters::new(pretty);
        self.concat(&fmts)
    }

    /// Renders the accumulated state with the given whitespace conventions:
    /// the clause blocks in their fixed order, trailing whitespace trimmed.
    fn concat(&self, fmts: &Formatters) -> (text: String)
        ensures
            text@ == spec_render(self.stmt(), fmts.fmt()),
        decreases *self, 2int,
    {
        let query = String::new();
        let query = self.concat_with(query, fmts);
        let query = self.concat_select(query, fmts);
        let query = self.concat_from(query, fmts);
        let query = self.concat_join(query, fmts);
        let query = self.concat_where(query, fmts);
        let query = self.concat_order_by(query, fmts);
        let query = self.concat_limit(query, fmts);
        proof {
            let v = self.stmt();
            let f = fmts.fmt();
            assert(query@ =~= with_block(v.withs, f) + select_block(v.selects, f) + from_block(
                v.froms,
                f,
            ) + join_block(v.joins, f) + where_block(v.wheres, f) + order_by_block(v.orders, f)
                + limit_block(v.limit, f));
        }
        let query = self.concat_union(query, fmts);
        trim_end_string(query)
    }

    #[verifier::loop_isolation(false)]
    fn concat_with(&self, query: String, fmts: &Formatters) -> (extended: String)
        ensures
            extended@ == query@ + with_block(self.stmt().withs, fmts.fmt()),
        decreases *self, 1int,
    {
        let ghost old_query_view = query@;
        if self.with_items.len() == 0 {
            proof {
                lemma_withs_of_props(self.with_items@);
                assert(query@ + with_block(self.stmt().withs, fmts.fmt()) =~= query@);
            }
            return query;
        }

        let mut inner_sep = String::new();
        inner_sep.append(fmts.sep.as_str());
        inner_sep.append(fmts.indent.as_str());
        let inner = Formatters {
            sep: inner_sep,
            indent: fmts.indent.clone(),
            comma: fmts.comma.clone(),
        };
        assert(inner.fmt() == inner_fmt(fmts.fmt()));

        let ghost withs = self.stmt().withs;
        proof {
            lemma_withs_of_props(self.with_items@);
        }

        let mut folded = String::new();
        let mut i: usize = 0;
        while i < self.with_items.len()
            invariant
                0 <= i <= self.with_items@.len(),
                folded@ == withs_fold(withs.subrange(0, i as int), fmts.fmt()),
            decreases self.with_items@.len() - i,
        {
            let item = &self.with_items[i];
            proof {
                assert(decreases_to!(*self => item.statement));
            }
            let rendered = item.statement.concat(&inner);
            folded.append(item.name.as_str());
            folded.append(" AS (");
            folded.append(fmts.sep.as_str());
            folded.append(fmts.indent.as_str());
            folded.append(rendered.as_str());
            folded.append(fmts.sep.as_str());
            folded.append(")");
            folded.append(fmts.comma.as_str());
            proof {
                assert(withs.subrange(0, i + 1).drop_last() =~= withs.subrange(0, i as int));
                assert(withs.subrange(0, i + 1).last() == withs[i as int]);
            }
            i = i + 1;
        }
        proof {
            assert(withs.subrange(0, self.with_items@.len() as int) =~= withs);
            lemma_withs_fold_comma(withs, fmts.fmt());
        }

        let folded_len = folded.as_str().unicode_len();
        let comma_len = fmts.comma.as_str().unicode_len();
        let stripped = folded.as_str().substring_char(0, folded_len - comma_len);

        let mut extended = query;
        extended.append("WITH ");
        extended.append(stripped);
        extended.append(fmts.sep.as_str());
        proof {
            assert(extended@ =~= old_query_view + with_block(self.stmt().withs, fmts.fmt()));
        }
        extended
    }

    fn concat_select(&self, query: String, fmts: &Formatters) -> (extended: String)
        ensures
            extended@ == query@ + select_block(self.stmt().selects, fmts.fmt()),
        decreases *self, 1int,
    {
        if self.select_items.len() == 0 {
            proof {
                assert(query@ + select_block(self.stmt().selects, fmts.fmt()) =~= query@);
            }
            return query;
        }
        let columns = join_strings(&self.select_items, fmts.comma.as_str());
        let ghost old_query_view = query@;
        let mut extended = query;
        extended.append("SELECT ");
        extended.append(columns.as_str());
        extended.append(fmts.sep.as_str());
        proof {
            assert(extended@ =~= old_query_view + select_block(self.stmt().selects, fmts.fmt()));
        }
        extended
    }

    fn concat_from(&self, query: String, fmts: &Formatters) -> (extended: String)
        ensures
            extended@ == query@ + from_block(self.stmt().froms, fmts.fmt()),
        decreases *self, 1int,
    {
        if self.from_items.len() == 0 {
            proof {
                assert(query@ + from_block(self.stmt().froms, fmts.fmt()) =~= query@);
            }
            return query;
        }
        let tables = join_strings(&self.from_items, fmts.comma.as_str());
        let ghost old_query_view = query@;
        let mut extended = query;
        extended.append("FROM ");
        extended.append(tables.as_str());
        extended.append(fmts.sep.as_str());
        proof {
            assert(extended@ =~= old_query_view + from_block(self.stmt().froms, fmts.fmt()));
        }
        extended
    }

    fn concat_join(&self, query: String, fmts: &Formatters) -> (extended: String)
        ensures
            extended@ == query@ + join_block(self.stmt().joins, fmts.fmt()),
        decreases *self, 1int,
    {
        if self.join_items.len() == 0 {
            proof {
                assert(query@ + join_block(self.stmt().joins, fmts.fmt()) =~= query@);
            }
            return query;
        }
        let joins = join_strings(&self.join_items, fmts.sep.as_str());
        let ghost old_query_view = query@;
        let mut extended = query;
        extended.append(joins.as_str());
        extended.append(fmts.sep.as_str());
        proof {
            assert(extended@ =~= old_query_view + join_block(self.stmt().joins, fmts.fmt()));
        }
        extended
    }

    fn concat_where(&self, query: String, fmts: &Formatters) -> (extended: String)
        ensures
            extended@ == query@ + where_block(self.stmt().wheres, fmts.fmt()),
        decreases *self, 1int,
    {
        if self.where_items.len() == 0 {
            proof {
                assert(query@ + where_block(self.stmt().wheres, fmts.fmt()) =~= query@);
            }
            return query;
        }
        let predicates = join_strings(&self.where_items, " AND ");
        let ghost old_query_view = query@;
        let mut extended = query;
        extended.append("WHERE ");
        extended.append(predicates.as_str());
        extended.append(fmts.sep.as_str());
        proof {
            assert(extended@ =~= old_query_view + where_block(self.stmt().wheres, fmts.fmt()));
        }
        extended
    }

    fn concat_order_by(&self, query: String, fmts: &Formatters) -> (extended: String)
        ensures
            extended@ == query@ + order_by_block(self.stmt().orders, fmts.fmt()),
        decreases *self, 1int,
    {
        if self.order_by_items.len() == 0 {
            proof {
                assert(query@ + order_by_block(self.stmt().orders, fmts.fmt()) =~= query@);
            }
            return query;
        }
        let columns = join_strings(&self.order_by_items, " and ");
        let ghost old_query_view = query@;
        let mut extended = query;
        extended.append("ORDER BY ");
        extended.append(columns.as_str());
        extended.append(fmts.sep.as_str());
        proof {
            assert(extended@ =~= old_query_view + order_by_block(self.stmt().orders, fmts.fmt()));
        }
        extended
    }

    fn concat_limit(&self, query: String, fmts: &Formatters) -> (extended: String)
        ensures
            extended@ == query@ + limit_block(self.stmt().limit, fmts.fmt()),
        decreases *self, 1int,
    {
        if self.limit_item.as_str().is_empty() {
            proof {
                assert(query@ + limit_block(self.stmt().limit, fmts.fmt()) =~= query@);
            }
            return query;
        }
        let ghost old_query_view = query@;
        let mut extended = query;
        extended.append("LIMIT ");
        extended.append(self.limit_item.as_str());
        extended.append(fmts.sep.as_str());
        proof {
            assert(extended@ =~= old_query_view + limit_block(self.stmt().limit, fmts.fmt()));
        }
        extended
    }

    #[verifier::loop_isolation(false)]
    fn concat_union(&self, query: String, fmts: &Formatters) -> (extended: String)
        ensures
            extended@ == union_wrap(query@, self.stmt().unions, fmts.fmt()),
        decreases *self, 1int,
    {
        if self.union_items.len() == 0 {
            return query;
        }

        let ghost unions = self.stmt().unions;
        proof {
            lemma_stmts_of_props(self.union_items@);
        }

        let mut another = String::new();
        let mut i: usize = 0;
        while i < self.union_items.len()
            invariant
                0 <= i <= self.union_items@.len(),
                another@ == unions_fold(unions.subrange(0, i as int), fmts.fmt()),
            decreases self.union_items@.len() - i,
        {
            let item = &self.union_items[i];
            proof {
                assert(decreases_to!(*self => *item));
            }
            let rendered = item.concat(fmts);
            another.append(fmts.sep.as_str());
            another.append(rendered.as_str());
            proof {
                assert(unions.subrange(0, i + 1).drop_last() =~= unions.subrange(0, i as int));
                assert(unions.subrange(0, i + 1).last() == unions[i as int]);
            }
            i = i + 1;
        }
        proof {
            assert(unions.subrange(0, self.union_items@.len() as int) =~= unions);
        }

        let mut extended = String::new();
        extended.append("(");
        extended.append(fmts.sep.as_str());
        extended.append(query.as_str());
        extended.append(") UNION (");
        extended.append(another.as_str());
        extended.append(fmts.sep.as_str());
        extended.append(")");
        proof {
            assert(extended@ =~= union_wrap(query@, self.stmt().unions, fmts.fmt()));
        }
        extended
    }

    /// Registers a named common-table expression.
    pub fn with(self, name: &str, statement: Self) -> (builder: Self)
        ensures
            builder.stmt() == with_cte(self.stmt(), name@, statement.stmt()),
    {
        let ghost before = self;
        let ghost statement_view = statement.stmt();
        let mut builder = self;
        builder.with_items.push(WithClause { name: name.to_owned(), statement });
        proof {
            lemma_withs_of_push(before.with_items@, builder.with_items@.last());
            assert(builder.stmt() =~~= with_cte(before.stmt(), name@, statement_view));
        }
        builder
    }
}


proof fn lemma_stmts_of_equal(left: Seq<SelectBuilder>, right: Seq<SelectBuilder>)
    requires
        left.len() == right.len(),
        forall|i: int| 0 <= i < left.len() ==> #[trigger] left[i].stmt() == right[i].stmt(),
    ensures
        SelectBuilder::stmts_of(left) == SelectBuilder::stmts_of(right),
    decreases left.len(),
{
    if left.len() > 0 {
        assert(forall|i: int|
            0 <= i < left.len() - 1 ==> #[trigger] left.drop_last()[i] == left[i]);
        assert(forall|i: int|
            0 <= i < right.len() - 1 ==> #[trigger] right.drop_last()[i] == right[i]);
        lemma_stmts_of_equal(left.drop_last(), right.drop_last());
        assert(left.last().stmt() == right.last().stmt());
    }
}

proof fn lemma_withs_of_equal(left: Seq<WithClause>, right: Seq<WithClause>)
    requires
        left.len() == right.len(),
        forall|i: int|
            0 <= i < left.len() ==> (#[trigger] left[i]).name@ == right[i].name@
                && left[i].statement.stmt() == right[i].statement.stmt(),
    ensures
        SelectBuilder::withs_of(left) == SelectBuilder::withs_of(right),
    decreases left.len(),
{
    if left.len() > 0 {
        assert(forall|i: int|
            0 <= i < left.len() - 1 ==> #[trigger] left.drop_last()[i] == left[i]);
        assert(forall|i: int|
            0 <= i < right.len() - 1 ==> #[trigger] right.drop_last()[i] == right[i]);
        lemma_withs_of_equal(left.drop_last(), right.drop_last());
    }
}

impl Clone for WithClause {
    /// An independent copy standing for the same named statement.
    fn clone(&self) -> (copy: Self)
        ensures
            copy.name@ == self.name@,
            copy.statement.stmt() == self.statement.stmt(),
        decreases *self, 1int,
    {
        proof {
            assert(decreases_to!(*self => self.statement));
        }
        WithClause { name: self.name.clone(), statement: self.statement.clone() }
    }
}

impl Clone for SelectBuilder {
    /// An independent copy with the same accumulated state, so one shared
    /// base can be specialized several times.
    #[verifier::loop_isolation(false)]
    fn clone(&self) -> (copy: Self)
        ensures
            copy.stmt() == self.stmt(),
        decreases *self, 2int,
    {
        let mut union_items: Vec<SelectBuilder> = Vec::new();
        let mut i: usize = 0;
        while i < self.union_items.len()
            invariant
                0 <= i <= self.union_items@.len(),
                union_items@.len() == i,
                forall|j: int|
                    0 <= j < i ==> (#[trigger] union_items@[j]).stmt()
                        == self.union_items@[j].stmt(),
            decreases self.union_items@.len() - i,
        {
            let item = &self.union_items[i];
            proof {
                assert(decreases_to!(*self => *item));
            }
            union_items.push(item.clone());
            i = i + 1;
        }

        let mut with_items: Vec<WithClause> = Vec::new();
        let mut k: usize = 0;
        while k < self.with_items.len()
            invariant
                0 <= k <= self.with_items@.len(),
                with_items@.len() == k,
                forall|j: int|
                    0 <= j < k ==> (#[trigger] with_items@[j]).name@ == self.with_items@[j].name@
                        && with_items@[j].statement.stmt() == self.with_items@[j].statement.stmt(),
            decreases self.with_items@.len() - k,
        {
            let item = &self.with_items[k];
            proof {
                assert(decreases_to!(*self => *item));
            }
            with_items.push(item.clone());
            k = k + 1;
        }

        let copy = SelectBuilder {
            from_items: self.from_items.clone(),
            join_items: self.join_items.clone(),
            limit_item: self.limit_item.clone(),
            order_by_items: self.order_by_items.clone(),
            select_items: self.select_items.clone(),
            union_items,
            where_items: self.where_items.clone(),
            with_items,
        };
        proof {
            assert(char_seqs(copy.from_items@) =~= char_seqs(self.from_items@));
            assert(char_seqs(copy.join_items@) =~= char_seqs(self.join_items@));
            assert(char_seqs(copy.order_by_items@) =~= char_seqs(self.order_by_items@));
            assert(char_seqs(copy.select_items@) =~= char_seqs(self.select_items@));
            assert(char_seqs(copy.where_items@) =~= char_seqs(self.where_items@));
            lemma_stmts_of_equal(copy.union_items@, self.union_items@);
            lemma_withs_of_equal(copy.with_items@, self.with_items@);
            assert(copy.stmt() =~~= self.stmt());
        }
        copy
    }
}

/// Accumulation across distinct clause families commutes: a select column, a
/// source table and a predicate land in the same state — and therefore
/// render to the same text — no matter in which order the builder methods
/// were called.
pub proof fn lemma_clause_families_commute(
    v: StmtView,
    column: Seq<char>,
    table: Seq<char>,
    predicate: Seq<char>,
    f: FmtView,
)
    ensures
        with_where(with_from(with_select(v, column), table), predicate) == with_select(
            with_from(with_where(v, predicate), table),
            column,
        ),
        with_from(with_select(v, column), table) == with_select(with_from(v, table), column),
        with_where(with_select(v, column), predicate) == with_select(
            with_where(v, predicate),
            column,
        ),
        with_where(with_from(v, table), predicate) == with_from(with_where(v, predicate), table),
        spec_render(with_where(with_from(with_select(v, column), table), predicate), f)
            == spec_render(with_select(with_from(with_where(v, predicate), table), column), f),
{
}

/// Rendering is a pure function of the accumulated state: two builders in
/// the same state render to byte-identical text, so rendering the same
/// statement twice yields the same text both times.
pub proof fn lemma_render_deterministic(left: StmtView, right: StmtView, f: FmtView)
    requires
        left == right,
    ensures
        spec_render(left, f) == spec_render(right, f),
{
}

} // verus!
