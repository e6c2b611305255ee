//! The SQL of the catalog queries.

use vstd::prelude::*;
use vstd::string::*;
use crate::text::{double_quotes, doubled, join, joined, texts};

verus! {

/// The text of an optional filter value.
pub open spec fn filter_text(value: Option<&str>) -> Option<Seq<char>> {
    match value {
        Some(text) => Some(text@),
        None => None,
    }
}

/// `value` as an SQL string literal.
pub open spec fn literal(value: Seq<char>) -> Seq<char> {
    "'"@ + doubled(value) + "'"@
}

/// The condition that `column` holds `value`; none without a value.
pub open spec fn condition(column: Seq<char>, value: Option<Seq<char>>) -> Seq<Seq<char>> {
    match value {
        Some(text) => seq![column + " = "@ + literal(text)],
        None => Seq::empty(),
    }
}

/// A `WHERE` clause that asks for all the conditions; empty without any.
pub open spec fn where_text(conditions: Seq<Seq<char>>) -> Seq<char> {
    if conditions.len() == 0 {
        Seq::empty()
    } else {
        "WHERE "@ + joined(conditions, " AND "@)
    }
}

/// The query for all catalogs.
pub open spec fn catalogs_text() -> Seq<char> {
    "SELECT DISTINCT SCHEMA_NAME AS CATALOG_NAME FROM SYS.EXA_ALL_SCHEMAS ORDER BY CATALOG_NAME"@
}

/// The query for the schemas, or for the one that `catalog` names.
pub open spec fn schemas_text(catalog: Option<Seq<char>>) -> Seq<char> {
    match catalog {
        Some(name) => "SELECT SCHEMA_NAME FROM SYS.EXA_ALL_SCHEMAS WHERE SCHEMA_NAME = "@
            + literal(name) + " ORDER BY SCHEMA_NAME"@,
        None => "SELECT SCHEMA_NAME FROM SYS.EXA_ALL_SCHEMAS ORDER BY SCHEMA_NAME"@,
    }
}

/// What the tables query asks for: tables and views only, in the given schema
/// and of the given name where these are given. A catalog is a schema by
/// another name, so the two filters meet in the same column.
pub open spec fn table_conditions(
    catalog: Option<Seq<char>>,
    schema: Option<Seq<char>>,
    table: Option<Seq<char>>,
) -> Seq<Seq<char>> {
    seq!["OBJECT_TYPE IN ('TABLE', 'VIEW')"@] + condition("ROOT_NAME"@, catalog) + condition(
        "ROOT_NAME"@,
        schema,
    ) + condition("OBJECT_NAME"@, table)
}

/// The query for tables and views.
pub open spec fn tables_text(
    catalog: Option<Seq<char>>,
    schema: Option<Seq<char>>,
    table: Option<Seq<char>>,
) -> Seq<char> {
    "SELECT ROOT_NAME AS TABLE_SCHEMA, OBJECT_NAME AS TABLE_NAME, OBJECT_TYPE AS TABLE_TYPE FROM SYS.EXA_ALL_OBJECTS "@
        + where_text(table_conditions(catalog, schema, table))
        + " ORDER BY ROOT_NAME, OBJECT_NAME"@
}

/// What the columns query asks for. Here too a catalog is a schema.
pub open spec fn column_conditions(
    catalog: Option<Seq<char>>,
    schema: Option<Seq<char>>,
    table: Option<Seq<char>>,
    column: Option<Seq<char>>,
) -> Seq<Seq<char>> {
    condition("COLUMN_SCHEMA"@, catalog) + condition("COLUMN_SCHEMA"@, schema) + condition(
        "COLUMN_TABLE"@,
        table,
    ) + condition("COLUMN_NAME"@, column)
}

/// The query for columns.
pub open spec fn columns_text(
    catalog: Option<Seq<char>>,
    schema: Option<Seq<char>>,
    table: Option<Seq<char>>,
    column: Option<Seq<char>>,
) -> Seq<char> {
    "SELECT COLUMN_SCHEMA, COLUMN_TABLE, COLUMN_NAME, COLUMN_TYPE, COLUMN_NUM_PREC, COLUMN_NUM_SCALE, COLUMN_IS_NULLABLE FROM SYS.EXA_ALL_COLUMNS "@
        + where_text(column_conditions(catalog, schema, table, column))
        + " ORDER BY COLUMN_SCHEMA, COLUMN_TABLE, ORDINAL_POSITION"@
}

/// Appends `value` to `sql` as an SQL string literal.
fn append_literal(sql: &mut String, value: &str)
    ensures
        final(sql)@ == old(sql)@ + literal(value@),
{
    let escaped = double_quotes(value);
    sql.append("'");
    sql.append(escaped.as_str());
    sql.append("'");
    assert(sql@ =~= old(sql)@ + literal(value@));
}

/// Adds the condition that `column` holds `value`, where there is a value.
fn push_condition(conditions: &mut Vec<String>, column: &str, value: Option<&str>)
    ensures
        texts(final(conditions)@) == texts(old(conditions)@) + condition(
            column@,
            filter_text(value),
        ),
{
    if let Some(text) = value {
        let mut sql = column.to_string();
        sql.append(" = ");
        append_literal(&mut sql, text);
        conditions.push(sql);
    }
    assert(texts(conditions@) =~= texts(old(conditions)@) + condition(column@, filter_text(value)));
}

/// The `WHERE` clause for the conditions.
fn where_clause(conditions: &Vec<String>) -> (sql: String)
    ensures
        sql@ == where_text(texts(conditions@)),
{
    if conditions.len() == 0 {
        String::new()
    } else {
        let all = join(conditions, " AND ");
        let mut sql = "WHERE ".to_string();
        sql.append(all.as_str());
        sql
    }
}

/// The query for all catalogs.
pub fn catalogs_sql() -> (sql: String)
    ensures
        sql@ == catalogs_text(),
{
    "SELECT DISTINCT SCHEMA_NAME AS CATALOG_NAME FROM SYS.EXA_ALL_SCHEMAS ORDER BY CATALOG_NAME".to_string()
}

/// The query for the schemas, or for the one that `catalog` names.
pub fn schemas_sql(catalog: Option<&str>) -> (sql: String)
    ensures
        sql@ == schemas_text(filter_text(catalog)),
{
    match catalog {
        Some(name) => {
            let mut sql =
                "SELECT SCHEMA_NAME FROM SYS.EXA_ALL_SCHEMAS WHERE SCHEMA_NAME = ".to_string();
            append_literal(&mut sql, name);
            sql.append(" ORDER BY SCHEMA_NAME");
            sql
        },
        None => "SELECT SCHEMA_NAME FROM SYS.EXA_ALL_SCHEMAS ORDER BY SCHEMA_NAME".to_string(),
    }
}

/// The query for tables and views.
pub fn tables_sql(catalog: Option<&str>, schema: Option<&str>, table: Option<&str>) -> (sql:
    String)
    ensures
        sql@ == tables_text(filter_text(catalog), filter_text(schema), filter_text(table)),
{
    let mut conditions: Vec<String> = Vec::new();
    conditions.push("OBJECT_TYPE IN ('TABLE', 'VIEW')".to_string());
    assert(texts(conditions@) =~= seq!["OBJECT_TYPE IN ('TABLE', 'VIEW')"@]);
    push_condition(&mut conditions, "ROOT_NAME", catalog);
    push_condition(&mut conditions, "ROOT_NAME", schema);
    push_condition(&mut conditions, "OBJECT_NAME", table);

    let clause = where_clause(&conditions);
    let mut sql =
        "SELECT ROOT_NAME AS TABLE_SCHEMA, OBJECT_NAME AS TABLE_NAME, OBJECT_TYPE AS TABLE_TYPE FROM SYS.EXA_ALL_OBJECTS ".to_string();
    sql.append(clause.as_str());
    sql.append(" ORDER BY ROOT_NAME, OBJECT_NAME");
    sql
}

/// The query for columns.
pub fn columns_sql(
    catalog: Option<&str>,
    schema: Option<&str>,
    table: Option<&str>,
    column: Option<&str>,
) -> (sql: String)
    ensures
        sql@ == columns_text(
            filter_text(catalog),
            filter_text(schema),
            filter_text(table),
            filter_text(column),
        ),
{
    let mut conditions: Vec<String> = Vec::new();
    assert(texts(conditions@) =~= Seq::empty());
    push_condition(&mut conditions, "COLUMN_SCHEMA", catalog);
    assert(texts(conditions@) =~= condition("COLUMN_SCHEMA"@, filter_text(catalog)));
    push_condition(&mut conditions, "COLUMN_SCHEMA", schema);
    push_condition(&mut conditions, "COLUMN_TABLE", table);
    push_condition(&mut conditions, "COLUMN_NAME", column);

    let clause = where_clause(&conditions);
    let mut sql =
        "SELECT COLUMN_SCHEMA, COLUMN_TABLE, COLUMN_NAME, COLUMN_TYPE, COLUMN_NUM_PREC, COLUMN_NUM_SCALE, COLUMN_IS_NULLABLE FROM SYS.EXA_ALL_COLUMNS ".to_string();
    sql.append(clause.as_str());
    sql.append(" ORDER BY COLUMN_SCHEMA, COLUMN_TABLE, ORDINAL_POSITION");
    sql
}

/// A catalog alone and the same name as a schema alone ask the same queries
/// for tables and for columns.
pub proof fn catalog_filters_as_schema(
    name: Seq<char>,
    table: Option<Seq<char>>,
    column: Option<Seq<char>>,
)
    ensures
        tables_text(Some(name), None, table) == tables_text(None, Some(name), table),
        columns_text(Some(name), None, table, column) == columns_text(
            None,
            Some(name),
            table,
            column,
        ),
{
    assert(table_conditions(Some(name), None, table) =~= table_conditions(
        None,
        Some(name),
        table,
    ));
    assert(column_conditions(Some(name), None, table, column) =~= column_conditions(
        None,
        Some(name),
        table,
        column,
    ));
}

/// A literal in a query stands for the value that it was made of, and ends
/// before the SQL that follows it.
pub proof fn literal_stands_for_its_value(value: Seq<char>, rest: Seq<char>)
    requires
        rest.len() == 0 || rest[0] != '\'',
    ensures
        (literal(value) + rest)[0] == '\'',
        crate::text::read_literal((literal(value) + rest).skip(1)) == Some((value, rest)),
{
    reveal_strlit("'");
    assert("'"@ =~= seq!['\'']);
    crate::text::literal_reads_back(value, rest);
    assert((literal(value) + rest).skip(1) =~= doubled(value) + seq!['\''] + rest);
}

/// Different schema names ask different queries.
pub proof fn schema_filters_differ(a: Seq<char>, b: Seq<char>)
    requires
        schemas_text(Some(a)) == schemas_text(Some(b)),
    ensures
        a == b,
{
    let head = "SELECT SCHEMA_NAME FROM SYS.EXA_ALL_SCHEMAS WHERE SCHEMA_NAME = "@;
    let tail = " ORDER BY SCHEMA_NAME"@;
    reveal_strlit(" ORDER BY SCHEMA_NAME");
    literal_stands_for_its_value(a, tail);
    literal_stands_for_its_value(b, tail);
    assert(schemas_text(Some(a)).skip(head.len() as int) =~= literal(a) + tail);
    assert(schemas_text(Some(b)).skip(head.len() as int) =~= literal(b) + tail);
}

/// The filter that `column` holds `value`; none without a value.
pub open spec fn given(column: Seq<char>, value: Option<Seq<char>>) -> Seq<(Seq<char>, Seq<char>)> {
    match value {
        Some(text) => seq![(column, text)],
        None => Seq::empty(),
    }
}

/// The filters of the tables query: columns and the values that they hold.
pub open spec fn table_filters(
    catalog: Option<Seq<char>>,
    schema: Option<Seq<char>>,
    table: Option<Seq<char>>,
) -> Seq<(Seq<char>, Seq<char>)> {
    given("ROOT_NAME"@, catalog) + given("ROOT_NAME"@, schema) + given("OBJECT_NAME"@, table)
}

/// The filters of the columns query: columns and the values that they hold.
pub open spec fn column_filters(
    catalog: Option<Seq<char>>,
    schema: Option<Seq<char>>,
    table: Option<Seq<char>>,
    column: Option<Seq<char>>,
) -> Seq<(Seq<char>, Seq<char>)> {
    given("COLUMN_SCHEMA"@, catalog) + given("COLUMN_SCHEMA"@, schema) + given(
        "COLUMN_TABLE"@,
        table,
    ) + given("COLUMN_NAME"@, column)
}

/// The columns of the filters.
pub open spec fn filtered(filters: Seq<(Seq<char>, Seq<char>)>) -> Seq<Seq<char>> {
    filters.map_values(|filter: (Seq<char>, Seq<char>)| filter.0)
}

/// Reads SQL that starts with one filter for each of the columns, the first
/// behind `lead` and the others behind ` AND `: the filters and what follows
/// them.
pub open spec fn read_filters(sql: Seq<char>, lead: Seq<char>, columns: Seq<Seq<char>>) -> Option<
    (Seq<(Seq<char>, Seq<char>)>, Seq<char>),
>
    decreases columns.len(),
{
    if columns.len() == 0 {
        Some((Seq::empty(), sql))
    } else {
        let opening = lead + columns[0] + " = "@ + seq!['\''];
        if !opening.is_prefix_of(sql) {
            None
        } else {
            match crate::text::read_literal(sql.skip(opening.len() as int)) {
                Some((value, behind)) => match read_filters(behind, " AND "@, columns.skip(1)) {
                    Some((others, rest)) => Some((seq![(columns[0], value)] + others, rest)),
                    None => None,
                },
                None => None,
            }
        }
    }
}

/// The condition that a filter stands for.
spec fn filter_condition(filter: (Seq<char>, Seq<char>)) -> Seq<char> {
    filter.0 + " = "@ + literal(filter.1)
}

/// The conditions that filters stand for.
spec fn filter_conditions(filters: Seq<(Seq<char>, Seq<char>)>) -> Seq<Seq<char>> {
    filters.map_values(|filter: (Seq<char>, Seq<char>)| filter_condition(filter))
}

/// The conditions of the filters, each behind ` AND `.
spec fn further(filters: Seq<(Seq<char>, Seq<char>)>) -> Seq<char>
    decreases filters.len(),
{
    if filters.len() == 0 {
        Seq::empty()
    } else {
        " AND "@ + filter_condition(filters[0]) + further(filters.skip(1))
    }
}

proof fn joined_goes_further(conditions: Seq<Seq<char>>, filters: Seq<(Seq<char>, Seq<char>)>)
    requires
        conditions.len() > 0,
    ensures
        joined(conditions + filter_conditions(filters), " AND "@) == joined(conditions, " AND "@)
            + further(filters),
    decreases filters.len(),
{
    if filters.len() == 0 {
        assert(conditions + filter_conditions(filters) =~= conditions);
        assert(joined(conditions, " AND "@) + further(filters) =~= joined(conditions, " AND "@));
    } else {
        let more = conditions.push(filter_condition(filters[0]));
        joined_goes_further(more, filters.skip(1));
        assert(conditions + filter_conditions(filters) =~= more + filter_conditions(
            filters.skip(1),
        ));
        assert(more.drop_last() =~= conditions);
        assert(joined(more, " AND "@) + further(filters.skip(1)) =~= joined(conditions, " AND "@)
            + further(filters));
    }
}

/// One filter and what follows it read back, if the others do.
proof fn filter_reads_back(
    lead: Seq<char>,
    filters: Seq<(Seq<char>, Seq<char>)>,
    rest: Seq<char>,
)
    requires
        filters.len() > 0,
        rest.len() == 0 || rest[0] != '\'',
        read_filters(further(filters.skip(1)) + rest, " AND "@, filtered(filters.skip(1))) == Some(
            (filters.skip(1), rest),
        ),
    ensures
        read_filters(
            lead + filter_condition(filters[0]) + further(filters.skip(1)) + rest,
            lead,
            filtered(filters),
        ) == Some((filters, rest)),
{
    reveal_strlit("'");
    reveal_strlit(" AND ");
    assert("'"@ =~= seq!['\'']);
    let (column, value) = filters[0];
    let behind = further(filters.skip(1)) + rest;
    let sql = lead + filter_condition(filters[0]) + further(filters.skip(1)) + rest;
    let opening = lead + column + " = "@ + seq!['\''];
    literal_stands_for_its_value(value, behind);
    assert(sql =~= opening + (literal(value) + behind).skip(1));
    assert(sql.take(opening.len() as int) =~= opening);
    assert(sql.skip(opening.len() as int) =~= (literal(value) + behind).skip(1));
    assert(filtered(filters).skip(1) =~= filtered(filters.skip(1)));
    assert(seq![filters[0]] + filters.skip(1) =~= filters);
}

proof fn further_reads_back(filters: Seq<(Seq<char>, Seq<char>)>, rest: Seq<char>)
    requires
        rest.len() == 0 || rest[0] != '\'',
    ensures
        read_filters(further(filters) + rest, " AND "@, filtered(filters)) == Some(
            (filters, rest),
        ),
    decreases filters.len(),
{
    if filters.len() == 0 {
        assert(further(filters) + rest =~= rest);
        assert(filters =~= Seq::empty());
    } else {
        further_reads_back(filters.skip(1), rest);
        filter_reads_back(" AND "@, filters, rest);
        assert(further(filters) + rest =~= " AND "@ + filter_condition(filters[0]) + further(
            filters.skip(1),
        ) + rest);
    }
}

/// The tables query asks for tables and views, then for each given filter in
/// turn, and for nothing else: whatever the values are, each is read back as
/// it was given, and its literal ends before what follows it.
pub proof fn table_filters_read_back(
    catalog: Option<Seq<char>>,
    schema: Option<Seq<char>>,
    table: Option<Seq<char>>,
)
    ensures
        ({
            let filters = table_filters(catalog, schema, table);
            let head =
                "SELECT ROOT_NAME AS TABLE_SCHEMA, OBJECT_NAME AS TABLE_NAME, OBJECT_TYPE AS TABLE_TYPE FROM SYS.EXA_ALL_OBJECTS "@
                + "WHERE "@ + "OBJECT_TYPE IN ('TABLE', 'VIEW')"@;
            let sql = tables_text(catalog, schema, table);
            &&& head.is_prefix_of(sql)
            &&& read_filters(sql.skip(head.len() as int), " AND "@, filtered(filters)) == Some(
                (filters, " ORDER BY ROOT_NAME, OBJECT_NAME"@),
            )
        }),
{
    let filters = table_filters(catalog, schema, table);
    let select =
        "SELECT ROOT_NAME AS TABLE_SCHEMA, OBJECT_NAME AS TABLE_NAME, OBJECT_TYPE AS TABLE_TYPE FROM SYS.EXA_ALL_OBJECTS "@;
    let kind = "OBJECT_TYPE IN ('TABLE', 'VIEW')"@;
    let head = select + "WHERE "@ + kind;
    let tail = " ORDER BY ROOT_NAME, OBJECT_NAME"@;
    let sql = tables_text(catalog, schema, table);
    reveal_strlit(" ORDER BY ROOT_NAME, OBJECT_NAME");
    assert(table_conditions(catalog, schema, table) =~= seq![kind] + filter_conditions(filters));
    joined_goes_further(seq![kind], filters);
    further_reads_back(filters, tail);
    assert(sql =~= head + (further(filters) + tail));
    assert(sql.take(head.len() as int) =~= head);
    assert(sql.skip(head.len() as int) =~= further(filters) + tail);
}

/// The columns query asks for each given filter in turn, and for nothing
/// else: whatever the values are, each is read back as it was given, and its
/// literal ends before what follows it.
pub proof fn column_filters_read_back(
    catalog: Option<Seq<char>>,
    schema: Option<Seq<char>>,
    table: Option<Seq<char>>,
    column: Option<Seq<char>>,
)
    ensures
        ({
            let filters = column_filters(catalog, schema, table, column);
            let head =
                "SELECT COLUMN_SCHEMA, COLUMN_TABLE, COLUMN_NAME, COLUMN_TYPE, COLUMN_NUM_PREC, COLUMN_NUM_SCALE, COLUMN_IS_NULLABLE FROM SYS.EXA_ALL_COLUMNS "@;
            let sql = columns_text(catalog, schema, table, column);
            &&& head.is_prefix_of(sql)
            &&& read_filters(sql.skip(head.len() as int), "WHERE "@, filtered(filters)) == Some(
                (filters, " ORDER BY COLUMN_SCHEMA, COLUMN_TABLE, ORDINAL_POSITION"@),
            )
        }),
{
    let filters = column_filters(catalog, schema, table, column);
    let head =
        "SELECT COLUMN_SCHEMA, COLUMN_TABLE, COLUMN_NAME, COLUMN_TYPE, COLUMN_NUM_PREC, COLUMN_NUM_SCALE, COLUMN_IS_NULLABLE FROM SYS.EXA_ALL_COLUMNS "@;
    let tail = " ORDER BY COLUMN_SCHEMA, COLUMN_TABLE, ORDINAL_POSITION"@;
    let sql = columns_text(catalog, schema, table, column);
    let conditions = column_conditions(catalog, schema, table, column);
    reveal_strlit(" ORDER BY COLUMN_SCHEMA, COLUMN_TABLE, ORDINAL_POSITION");
    assert(conditions =~= filter_conditions(filters));
    assert(sql =~= head + (where_text(conditions) + tail));
    assert(sql.take(head.len() as int) =~= head);
    assert(sql.skip(head.len() as int) =~= where_text(conditions) + tail);
    if filters.len() == 0 {
        assert(filters =~= Seq::empty());
        assert(where_text(conditions) + tail =~= tail);
    } else {
        let first = seq![filter_condition(filters[0])];
        assert(conditions =~= first + filter_conditions(filters.skip(1)));
        joined_goes_further(first, filters.skip(1));
        further_reads_back(filters.skip(1), tail);
        filter_reads_back("WHERE "@, filters, tail);
        assert(where_text(conditions) + tail =~= "WHERE "@ + filter_condition(filters[0]) + further(
            filters.skip(1),
        ) + tail);
    }
}

/// With the same filters given, different values ask different tables
/// queries.
pub proof fn table_filters_differ(
    catalogs: (Option<Seq<char>>, Option<Seq<char>>),
    schemas: (Option<Seq<char>>, Option<Seq<char>>),
    tables: (Option<Seq<char>>, Option<Seq<char>>),
)
    requires
        catalogs.0 is Some == catalogs.1 is Some,
        schemas.0 is Some == schemas.1 is Some,
        tables.0 is Some == tables.1 is Some,
        tables_text(catalogs.0, schemas.0, tables.0) == tables_text(
            catalogs.1,
            schemas.1,
            tables.1,
        ),
    ensures
        catalogs.0 == catalogs.1,
        schemas.0 == schemas.1,
        tables.0 == tables.1,
{
    let a = table_filters(catalogs.0, schemas.0, tables.0);
    let b = table_filters(catalogs.1, schemas.1, tables.1);
    table_filters_read_back(catalogs.0, schemas.0, tables.0);
    table_filters_read_back(catalogs.1, schemas.1, tables.1);
    assert(filtered(a) =~= filtered(b));
    assert(a == b);
    if catalogs.0 is Some {
        assert(a[0].1 == b[0].1);
    }
    let before_schema = given("ROOT_NAME"@, catalogs.0).len() as int;
    if schemas.0 is Some {
        assert(a[before_schema].1 == b[before_schema].1);
    }
    if tables.0 is Some {
        assert(a.last().1 == b.last().1);
    }
}

/// With the same filters given, different values ask different columns
/// queries.
pub proof fn column_filters_differ(
    catalogs: (Option<Seq<char>>, Option<Seq<char>>),
    schemas: (Option<Seq<char>>, Option<Seq<char>>),
    tables: (Option<Seq<char>>, Option<Seq<char>>),
    columns: (Option<Seq<char>>, Option<Seq<char>>),
)
    requires
        catalogs.0 is Some == catalogs.1 is Some,
        schemas.0 is Some == schemas.1 is Some,
        tables.0 is Some == tables.1 is Some,
        columns.0 is Some == columns.1 is Some,
        columns_text(catalogs.0, schemas.0, tables.0, columns.0) == columns_text(
            catalogs.1,
            schemas.1,
            tables.1,
            columns.1,
        ),
    ensures
        catalogs.0 == catalogs.1,
        schemas.0 == schemas.1,
        tables.0 == tables.1,
        columns.0 == columns.1,
{
    let a = column_filters(catalogs.0, schemas.0, tables.0, columns.0);
    let b = column_filters(catalogs.1, schemas.1, tables.1, columns.1);
    column_filters_read_back(catalogs.0, schemas.0, tables.0, columns.0);
    column_filters_read_back(catalogs.1, schemas.1, tables.1, columns.1);
    assert(filtered(a) =~= filtered(b));
    assert(a == b);
    if catalogs.0 is Some {
        assert(a[0].1 == b[0].1);
    }
    let before_schema = given("COLUMN_SCHEMA"@, catalogs.0).len() as int;
    if schemas.0 is Some {
        assert(a[before_schema].1 == b[before_schema].1);
    }
    let before_table = before_schema + given("COLUMN_SCHEMA"@, schemas.0).len();
    if tables.0 is Some {
        assert(a[before_table].1 == b[before_table].1);
    }
    if columns.0 is Some {
        assert(a.last().1 == b.last().1);
    }
}

/// A filter is the text that was given, whatever it is; without one there is
/// none.
pub proof fn filter_is_the_given_text(value: &str)
    ensures
        filter_text(Some(value)) == Some(value@),
        filter_text(None) is None,
{
}

/// The catalogs query is one fixed text.
pub proof fn catalogs_query_is_fixed()
    ensures
        catalogs_text()
            == "SELECT DISTINCT SCHEMA_NAME AS CATALOG_NAME FROM SYS.EXA_ALL_SCHEMAS ORDER BY CATALOG_NAME"@,
{
}

/// The schemas query asks for the schema of the given name, and for nothing
/// else: behind the equals sign stands a literal that reads back as the name,
/// and behind that only the order.
pub proof fn schema_filter_reads_back(name: Seq<char>)
    ensures
        ({
            let head = "SELECT SCHEMA_NAME FROM SYS.EXA_ALL_SCHEMAS WHERE SCHEMA_NAME = "@;
            let sql = schemas_text(Some(name));
            &&& head.is_prefix_of(sql)
            &&& sql.skip(head.len() as int)[0] == '\''
            &&& crate::text::read_literal(sql.skip(head.len() as int + 1)) == Some(
                (name, " ORDER BY SCHEMA_NAME"@),
            )
            &&& sql == head + seq!['\''] + doubled(name) + seq!['\''] + " ORDER BY SCHEMA_NAME"@
        }),
        schemas_text(None) == "SELECT SCHEMA_NAME FROM SYS.EXA_ALL_SCHEMAS ORDER BY SCHEMA_NAME"@,
{
    let head = "SELECT SCHEMA_NAME FROM SYS.EXA_ALL_SCHEMAS WHERE SCHEMA_NAME = "@;
    let tail = " ORDER BY SCHEMA_NAME"@;
    let sql = schemas_text(Some(name));
    reveal_strlit("'");
    reveal_strlit(" ORDER BY SCHEMA_NAME");
    assert("'"@ =~= seq!['\'']);
    literal_stands_for_its_value(name, tail);
    assert(sql =~= head + (literal(name) + tail));
    assert(sql.take(head.len() as int) =~= head);
    assert(sql.skip(head.len() as int) =~= literal(name) + tail);
    assert(sql.skip(head.len() as int + 1) =~= (literal(name) + tail).skip(1));
    assert(sql =~= head + seq!['\''] + doubled(name) + seq!['\''] + tail);
}

/// Without filters the tables query asks for all tables and views. Each
/// filter that is given adds one condition in front of the order: a catalog or
/// a schema on the schema's name, and a table on the table's name. The rest
/// stays as it is.
pub proof fn tables_query_by_filter(
    catalog: Option<Seq<char>>,
    schema: Option<Seq<char>>,
    name: Seq<char>,
)
    ensures
        tables_text(None, None, None) == "SELECT ROOT_NAME AS TABLE_SCHEMA, OBJECT_NAME AS TABLE_NAME, OBJECT_TYPE AS TABLE_TYPE FROM SYS.EXA_ALL_OBJECTS "@ + "WHERE "@
            + "OBJECT_TYPE IN ('TABLE', 'VIEW')"@ + " ORDER BY ROOT_NAME, OBJECT_NAME"@,
        ({
            let end = " ORDER BY ROOT_NAME, OBJECT_NAME"@;
            let plain = tables_text(None, None, None);
            let catalog_only = tables_text(catalog, None, None);
            let no_table = tables_text(catalog, schema, None);
            &&& tables_text(Some(name), None, None) == plain.take(plain.len() - end.len())
                + " AND "@ + "ROOT_NAME"@ + " = "@ + seq!['\'']
                + doubled(name) + seq!['\''] + end
            &&& tables_text(catalog, Some(name), None) == catalog_only.take(
                catalog_only.len() - end.len(),
            ) + " AND "@ + "ROOT_NAME"@ + " = "@ + seq!['\'']
                + doubled(name) + seq!['\''] + end
            &&& tables_text(catalog, schema, Some(name)) == no_table.take(
                no_table.len() - end.len(),
            ) + " AND "@ + "OBJECT_NAME"@ + " = "@ + seq!['\'']
                + doubled(name) + seq!['\''] + end
        }),
{
    reveal_strlit("'");
    assert("'"@ =~= seq!['\'']);
    let kind = "OBJECT_TYPE IN ('TABLE', 'VIEW')"@;
    assert(table_conditions(None, None, None) =~= seq![kind]);
    let added = |column: Seq<char>| column + " = "@ + literal(name);
    assert(table_conditions(Some(name), None, None) =~= seq![kind].push(added("ROOT_NAME"@)));
    assert(table_conditions(catalog, Some(name), None) =~= table_conditions(
        catalog,
        None,
        None,
    ).push(added("ROOT_NAME"@)));
    assert(table_conditions(catalog, schema, Some(name)) =~= table_conditions(
        catalog,
        schema,
        None,
    ).push(added("OBJECT_NAME"@)));
    one_more_table_condition(seq![kind], "ROOT_NAME"@, name);
    one_more_table_condition(table_conditions(catalog, None, None), "ROOT_NAME"@, name);
    one_more_table_condition(table_conditions(catalog, schema, None), "OBJECT_NAME"@, name);
}

proof fn one_more_table_condition(conditions: Seq<Seq<char>>, column: Seq<char>, name: Seq<char>)
    requires
        conditions.len() > 0,
    ensures
        ({
            let select =
                "SELECT ROOT_NAME AS TABLE_SCHEMA, OBJECT_NAME AS TABLE_NAME, OBJECT_TYPE AS TABLE_TYPE FROM SYS.EXA_ALL_OBJECTS "@;
            let end = " ORDER BY ROOT_NAME, OBJECT_NAME"@;
            let sql = select + where_text(conditions) + end;
            let more = conditions.push(column + " = "@ + literal(name));
            select + where_text(more) + end == sql.take(sql.len() - end.len()) + " AND "@ + column
                + " = "@ + seq!['\''] + doubled(name) + seq!['\''] + end
        }),
{
    reveal_strlit("'");
    assert("'"@ =~= seq!['\'']);
    let select =
        "SELECT ROOT_NAME AS TABLE_SCHEMA, OBJECT_NAME AS TABLE_NAME, OBJECT_TYPE AS TABLE_TYPE FROM SYS.EXA_ALL_OBJECTS "@;
    let end = " ORDER BY ROOT_NAME, OBJECT_NAME"@;
    let added = column + " = "@ + literal(name);
    let sql = select + where_text(conditions) + end;
    let more = conditions.push(added);
    crate::text::joined_by_part(conditions, added, " AND "@);
    assert(sql.take(sql.len() - end.len()) =~= select + where_text(conditions));
    assert(select + where_text(more) + end =~= sql.take(sql.len() - end.len()) + " AND "@ + column
        + " = "@ + seq!['\''] + doubled(name) + seq!['\''] + end);
}

/// Without filters the columns query asks for all columns. Each filter that
/// is given adds one condition in front of the order: a catalog or a schema on
/// the schema's name, a table on the table's name, and a column on the
/// column's name. The rest stays as it is.
pub proof fn columns_query_by_filter(
    catalog: Option<Seq<char>>,
    schema: Option<Seq<char>>,
    table: Option<Seq<char>>,
    name: Seq<char>,
)
    ensures
        columns_text(None, None, None, None) == "SELECT COLUMN_SCHEMA, COLUMN_TABLE, COLUMN_NAME, COLUMN_TYPE, COLUMN_NUM_PREC, COLUMN_NUM_SCALE, COLUMN_IS_NULLABLE FROM SYS.EXA_ALL_COLUMNS "@
            + " ORDER BY COLUMN_SCHEMA, COLUMN_TABLE, ORDINAL_POSITION"@,
        ({
            let end = " ORDER BY COLUMN_SCHEMA, COLUMN_TABLE, ORDINAL_POSITION"@;
            let plain = columns_text(None, None, None, None);
            let catalog_only = columns_text(catalog, None, None, None);
            let no_table = columns_text(catalog, schema, None, None);
            let no_column = columns_text(catalog, schema, table, None);
            &&& columns_text(Some(name), None, None, None) == plain.take(plain.len() - end.len())
                + "WHERE "@ + "COLUMN_SCHEMA"@ + " = "@ + seq!['\'']
                + doubled(name) + seq!['\''] + end
            &&& columns_text(catalog, Some(name), None, None) == catalog_only.take(
                catalog_only.len() - end.len(),
            ) + (if catalog is None {
                "WHERE "@
            } else {
                " AND "@
            }) + "COLUMN_SCHEMA"@ + " = "@ + seq!['\''] + doubled(name) + seq!['\''] + end
            &&& columns_text(catalog, schema, Some(name), None) == no_table.take(
                no_table.len() - end.len(),
            ) + (if catalog is None && schema is None {
                "WHERE "@
            } else {
                " AND "@
            }) + "COLUMN_TABLE"@ + " = "@ + seq!['\''] + doubled(name) + seq!['\''] + end
            &&& columns_text(catalog, schema, table, Some(name)) == no_column.take(
                no_column.len() - end.len(),
            ) + (if catalog is None && schema is None && table is None {
                "WHERE "@
            } else {
                " AND "@
            }) + "COLUMN_NAME"@ + " = "@ + seq!['\''] + doubled(name) + seq!['\''] + end
        }),
{
    let conditions = column_conditions(catalog, schema, table, None);
    assert(column_conditions(None, None, None, None) =~= Seq::empty());
    assert(columns_text(None, None, None, None) =~= "SELECT COLUMN_SCHEMA, COLUMN_TABLE, COLUMN_NAME, COLUMN_TYPE, COLUMN_NUM_PREC, COLUMN_NUM_SCALE, COLUMN_IS_NULLABLE FROM SYS.EXA_ALL_COLUMNS "@
        + " ORDER BY COLUMN_SCHEMA, COLUMN_TABLE, ORDINAL_POSITION"@);
    let added = |column: Seq<char>| column + " = "@ + literal(name);
    assert(column_conditions(Some(name), None, None, None) =~= column_conditions(
        None,
        None,
        None,
        None,
    ).push(added("COLUMN_SCHEMA"@)));
    assert(column_conditions(catalog, Some(name), None, None) =~= column_conditions(
        catalog,
        None,
        None,
        None,
    ).push(added("COLUMN_SCHEMA"@)));
    assert(column_conditions(catalog, schema, Some(name), None) =~= column_conditions(
        catalog,
        schema,
        None,
        None,
    ).push(added("COLUMN_TABLE"@)));
    assert(column_conditions(catalog, schema, table, Some(name)) =~= conditions.push(
        added("COLUMN_NAME"@),
    ));
    one_more_column_condition(
        column_conditions(None, None, None, None),
        "COLUMN_SCHEMA"@,
        name,
    );
    one_more_column_condition(
        column_conditions(catalog, None, None, None),
        "COLUMN_SCHEMA"@,
        name,
    );
    one_more_column_condition(
        column_conditions(catalog, schema, None, None),
        "COLUMN_TABLE"@,
        name,
    );
    one_more_column_condition(conditions, "COLUMN_NAME"@, name);
}

proof fn one_more_column_condition(
    conditions: Seq<Seq<char>>,
    column: Seq<char>,
    name: Seq<char>,
)
    ensures
        ({
            let select =
                "SELECT COLUMN_SCHEMA, COLUMN_TABLE, COLUMN_NAME, COLUMN_TYPE, COLUMN_NUM_PREC, COLUMN_NUM_SCALE, COLUMN_IS_NULLABLE FROM SYS.EXA_ALL_COLUMNS "@;
            let end = " ORDER BY COLUMN_SCHEMA, COLUMN_TABLE, ORDINAL_POSITION"@;
            let sql = select + where_text(conditions) + end;
            let more = conditions.push(column + " = "@ + literal(name));
            select + where_text(more) + end == sql.take(sql.len() - end.len()) + (if conditions.len()
                == 0 {
                "WHERE "@
            } else {
                " AND "@
            }) + column + " = "@ + seq!['\''] + doubled(name) + seq!['\''] + end
        }),
{
    reveal_strlit("'");
    assert("'"@ =~= seq!['\'']);
    let select =
        "SELECT COLUMN_SCHEMA, COLUMN_TABLE, COLUMN_NAME, COLUMN_TYPE, COLUMN_NUM_PREC, COLUMN_NUM_SCALE, COLUMN_IS_NULLABLE FROM SYS.EXA_ALL_COLUMNS "@;
    let end = " ORDER BY COLUMN_SCHEMA, COLUMN_TABLE, ORDINAL_POSITION"@;
    let added = column + " = "@ + literal(name);
    let sql = select + where_text(conditions) + end;
    let more = conditions.push(added);
    crate::text::joined_by_part(conditions, added, " AND "@);
    assert(sql.take(sql.len() - end.len()) =~= select + where_text(conditions));
    if conditions.len() == 0 {
        assert(more =~= seq![added]);
    }
    assert(select + where_text(more) + end =~= sql.take(sql.len() - end.len()) + (if conditions.len()
        == 0 {
        "WHERE "@
    } else {
        " AND "@
    }) + column + " = "@ + seq!['\''] + doubled(name) + seq!['\''] + end);
}

} // verus!
