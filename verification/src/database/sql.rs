//! The SQL query builder, as the error listing uses it: a `SELECT` built from
//! a table, fields, joins, `WHERE` conditions, a limit and an offset.
use vstd::prelude::*;
use crate::text::decimal;

verus! {

/// The query builder of the `sql-builder` crate.
#[verifier::external_type_specification]
#[verifier::external_body]
pub struct ExSqlBuilder(sql_builder::SqlBuilder);

/// The table a builder selects from.
pub uninterp spec fn sql_table(b: sql_builder::SqlBuilder) -> Seq<char>;

/// The fields a builder selects, in order.
pub uninterp spec fn sql_fields(b: sql_builder::SqlBuilder) -> Seq<Seq<char>>;

/// The join parts of a builder (`JOIN <table>` and its `ON` constraint), in order.
pub uninterp spec fn sql_joins(b: sql_builder::SqlBuilder) -> Seq<Seq<char>>;

/// The `WHERE` conditions of a builder, in order.
pub uninterp spec fn sql_wheres(b: sql_builder::SqlBuilder) -> Seq<Seq<char>>;

/// The limit of a builder: empty when none was set, else its text.
pub uninterp spec fn sql_limit(b: sql_builder::SqlBuilder) -> Seq<Seq<char>>;

/// The offset of a builder: empty when none was set, else its text.
pub uninterp spec fn sql_offset(b: sql_builder::SqlBuilder) -> Seq<Seq<char>>;

/// The builder is a plain `SELECT ... FROM` query: no `DISTINCT`, grouping,
/// ordering or union, and joins of the plain `JOIN` kind.
pub uninterp spec fn sql_plain_select(b: sql_builder::SqlBuilder) -> bool;

/// The decimal text of an integer, with a leading `-` when negative.
pub open spec fn int_text(n: int) -> Seq<char> {
    if n < 0 {
        "-"@ + decimal((-n) as nat)
    } else {
        decimal(n as nat)
    }
}

/// `s` with each single quote doubled.
pub open spec fn escape_quotes(s: Seq<char>) -> Seq<char>
    decreases s.len(),
{
    if s.len() == 0 {
        Seq::empty()
    } else if s[0] == '\'' {
        "''"@ + escape_quotes(s.drop_first())
    } else {
        seq![s[0]] + escape_quotes(s.drop_first())
    }
}

/// A text as an SQL string literal.
pub open spec fn quoted(s: Seq<char>) -> Seq<char> {
    "'"@ + escape_quotes(s) + "'"@
}

/// `template` with its first `?` replaced by `arg`.
pub open spec fn bind_first(template: Seq<char>, arg: Seq<char>) -> Seq<char>
    decreases template.len(),
{
    if template.len() == 0 {
        template
    } else if template[0] == '?' {
        arg + template.drop_first()
    } else {
        seq![template[0]] + bind_first(template.drop_first(), arg)
    }
}

/// `parts` joined with `sep` between each two.
pub open spec fn join_with(parts: Seq<Seq<char>>, sep: Seq<char>) -> Seq<char>
    decreases parts.len(),
{
    if parts.len() == 0 {
        Seq::empty()
    } else if parts.len() == 1 {
        parts[0]
    } else {
        join_with(parts.drop_last(), sep) + sep + parts.last()
    }
}

/// The `WHERE` part: nothing, the one condition, or the conditions in
/// parentheses joined with `AND`.
pub open spec fn where_text(wheres: Seq<Seq<char>>) -> Seq<char> {
    if wheres.len() == 0 {
        Seq::empty()
    } else if wheres.len() == 1 {
        " WHERE "@ + wheres[0]
    } else {
        " WHERE "@ + join_with(wheres.map_values(|w: Seq<char>| "("@ + w + ")"@), " AND "@)
    }
}

/// The text of a plain `SELECT`.
pub open spec fn select_text(
    table: Seq<char>,
    fields: Seq<Seq<char>>,
    joins: Seq<Seq<char>>,
    wheres: Seq<Seq<char>>,
    limit: Seq<Seq<char>>,
    offset: Seq<Seq<char>>,
) -> Seq<char> {
    "SELECT "@ + (if fields.len() == 0 { "*"@ } else { join_with(fields, ", "@) }) + " FROM "@ + table
        + (if joins.len() == 0 { Seq::empty() } else { " "@ + join_with(joins, " "@) })
        + where_text(wheres)
        + (if limit.len() == 0 { Seq::empty() } else { " LIMIT "@ + limit[0] })
        + (if offset.len() == 0 { Seq::empty() } else { " OFFSET "@ + offset[0] })
        + ";"@
}

/// Calls `SqlBuilder::select_from`. Claimed (from its source): a plain select
/// from `table` with no fields, joins, conditions, limit or offset.
#[verifier::external_body]
pub(crate) fn select_from(table: &str) -> (b: sql_builder::SqlBuilder)
    ensures
        sql_plain_select(b),
        sql_table(b) == table@,
        sql_fields(b) == Seq::<Seq<char>>::empty(),
        sql_joins(b) == Seq::<Seq<char>>::empty(),
        sql_wheres(b) == Seq::<Seq<char>>::empty(),
        sql_limit(b) == Seq::<Seq<char>>::empty(),
        sql_offset(b) == Seq::<Seq<char>>::empty(),
{
    sql_builder::SqlBuilder::select_from(table)
}

/// Calls `SqlBuilder::field`. Claimed: appends the field and changes nothing else.
#[verifier::external_body]
pub(crate) fn field(b: &mut sql_builder::SqlBuilder, f: &str)
    ensures
        sql_plain_select(*final(b)) == sql_plain_select(*old(b)),
        sql_table(*final(b)) == sql_table(*old(b)),
        sql_fields(*final(b)) == sql_fields(*old(b)).push(f@),
        sql_joins(*final(b)) == sql_joins(*old(b)),
        sql_wheres(*final(b)) == sql_wheres(*old(b)),
        sql_limit(*final(b)) == sql_limit(*old(b)),
        sql_offset(*final(b)) == sql_offset(*old(b)),
{
    b.field(f);
}

/// Calls `SqlBuilder::join`. Claimed: on a plain select, appends the join
/// part `JOIN <table>` and changes nothing else.
#[verifier::external_body]
pub(crate) fn join(b: &mut sql_builder::SqlBuilder, table: &str)
    requires
        sql_plain_select(*old(b)),
    ensures
        sql_plain_select(*final(b)),
        sql_table(*final(b)) == sql_table(*old(b)),
        sql_fields(*final(b)) == sql_fields(*old(b)),
        sql_joins(*final(b)) == sql_joins(*old(b)).push("JOIN "@ + table@),
        sql_wheres(*final(b)) == sql_wheres(*old(b)),
        sql_limit(*final(b)) == sql_limit(*old(b)),
        sql_offset(*final(b)) == sql_offset(*old(b)),
{
    b.join(table);
}

/// Calls `SqlBuilder::on`. Claimed: appends ` ON <constraint>` to the last
/// join part, if there is one, and changes nothing else.
#[verifier::external_body]
pub(crate) fn on(b: &mut sql_builder::SqlBuilder, constraint: &str)
    ensures
        sql_plain_select(*final(b)) == sql_plain_select(*old(b)),
        sql_table(*final(b)) == sql_table(*old(b)),
        sql_fields(*final(b)) == sql_fields(*old(b)),
        sql_joins(*old(b)).len() == 0 ==> sql_joins(*final(b)) == sql_joins(*old(b)),
        sql_joins(*old(b)).len() > 0 ==> sql_joins(*final(b)) == sql_joins(*old(b)).update(
            sql_joins(*old(b)).len() - 1,
            sql_joins(*old(b)).last() + " ON "@ + constraint@,
        ),
        sql_wheres(*final(b)) == sql_wheres(*old(b)),
        sql_limit(*final(b)) == sql_limit(*old(b)),
        sql_offset(*final(b)) == sql_offset(*old(b)),
{
    b.on(constraint);
}

/// Calls `SqlBuilder::and_where`. Claimed: appends the condition and changes
/// nothing else.
#[verifier::external_body]
pub(crate) fn and_where(b: &mut sql_builder::SqlBuilder, cond: &str)
    ensures
        sql_plain_select(*final(b)) == sql_plain_select(*old(b)),
        sql_table(*final(b)) == sql_table(*old(b)),
        sql_fields(*final(b)) == sql_fields(*old(b)),
        sql_joins(*final(b)) == sql_joins(*old(b)),
        sql_wheres(*final(b)) == sql_wheres(*old(b)).push(cond@),
        sql_limit(*final(b)) == sql_limit(*old(b)),
        sql_offset(*final(b)) == sql_offset(*old(b)),
{
    b.and_where(cond);
}

/// Calls `SqlBuilder::limit`. Claimed: the limit becomes the decimal text of
/// `n`; nothing else changes.
#[verifier::external_body]
pub(crate) fn limit(b: &mut sql_builder::SqlBuilder, n: i32)
    ensures
        sql_plain_select(*final(b)) == sql_plain_select(*old(b)),
        sql_table(*final(b)) == sql_table(*old(b)),
        sql_fields(*final(b)) == sql_fields(*old(b)),
        sql_joins(*final(b)) == sql_joins(*old(b)),
        sql_wheres(*final(b)) == sql_wheres(*old(b)),
        sql_limit(*final(b)) == seq![int_text(n as int)],
        sql_offset(*final(b)) == sql_offset(*old(b)),
{
    b.limit(n);
}

/// Calls `SqlBuilder::offset`. Claimed: the offset becomes the decimal text
/// of `n`; nothing else changes.
#[verifier::external_body]
pub(crate) fn offset(b: &mut sql_builder::SqlBuilder, n: i32)
    ensures
        sql_plain_select(*final(b)) == sql_plain_select(*old(b)),
        sql_table(*final(b)) == sql_table(*old(b)),
        sql_fields(*final(b)) == sql_fields(*old(b)),
        sql_joins(*final(b)) == sql_joins(*old(b)),
        sql_wheres(*final(b)) == sql_wheres(*old(b)),
        sql_limit(*final(b)) == sql_limit(*old(b)),
        sql_offset(*final(b)) == seq![int_text(n as int)],
{
    b.offset(n);
}

/// Calls `SqlBuilder::sql`, keeping the text and dropping the error.
/// Claimed: for a plain select from a named table the call succeeds (it
/// fails only for a missing table name) and gives `select_text` of the
/// builder's parts.
#[verifier::external_body]
pub(crate) fn sql(b: &sql_builder::SqlBuilder) -> (r: Option<String>)
    ensures
        sql_plain_select(*b) && sql_table(*b).len() > 0 ==> r is Some,
        r matches Some(q) ==> (sql_plain_select(*b) ==> q@ == select_text(
            sql_table(*b),
            sql_fields(*b),
            sql_joins(*b),
            sql_wheres(*b),
            sql_limit(*b),
            sql_offset(*b),
        )),
{
    b.sql().ok()
}

/// Calls `Bind::bind` of `sql-builder` with an `i32`. Claimed: the first `?`
/// of the template is replaced by the decimal text of the value.
#[verifier::external_body]
pub(crate) fn bind_i32(template: &str, v: i32) -> (r: String)
    ensures
        r@ == bind_first(template@, int_text(v as int)),
{
    sql_builder::bind::Bind::bind(&template, &v)
}

/// Calls `Bind::bind` of `sql-builder` with a `u64`. Claimed: the first `?`
/// of the template is replaced by the decimal text of the value.
#[verifier::external_body]
pub(crate) fn bind_u64(template: &str, v: u64) -> (r: String)
    ensures
        r@ == bind_first(template@, decimal(v as nat)),
{
    sql_builder::bind::Bind::bind(&template, &v)
}

/// Calls `Bind::bind` of `sql-builder` with a `String`. Claimed: the first
/// `?` of the template is replaced by the value as an SQL string literal
/// (single quotes around it, each single quote in it doubled).
#[verifier::external_body]
pub(crate) fn bind_string(template: &str, v: &String) -> (r: String)
    ensures
        r@ == bind_first(template@, quoted(v@)),
{
    sql_builder::bind::Bind::bind(&template, v)
}

} // verus!
