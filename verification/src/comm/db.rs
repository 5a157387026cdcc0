use vstd::prelude::*;

verus! {

/// The query that wraps `query` so that each of its rows comes back as one
/// JSON object, in the column `j`.
pub open spec fn row_to_json_sql(query: Seq<char>) -> Seq<char> {
    "select row_to_json(t) as j from ("@ + query + ") t"@
}

/// Builds the text sent to the database for `select_json`: `str_query`
/// inside `select row_to_json(t) as j from (` ... `) t`.
pub fn select_json_sql(str_query: &str) -> (r: String)
    ensures
        r@ == row_to_json_sql(str_query@),
{
    let mut sql = String::from_str("select row_to_json(t) as j from (");
    sql.append(str_query);
    sql.append(") t");
    sql
}

/// The whole query is sent, whatever its length: the text is the 33
/// characters `select row_to_json(t) as j from (`, then every character of
/// `query` in order, then the 3 characters `) t`.
pub proof fn law_whole_query_wrapped(query: Seq<char>)
    ensures
        row_to_json_sql(query).len() == query.len() + 36,
        row_to_json_sql(query).take(33) == "select row_to_json(t) as j from ("@,
        row_to_json_sql(query).subrange(33, 33 + query.len() as int) == query,
        row_to_json_sql(query).skip(33 + query.len() as int) == ") t"@,
{
    reveal_strlit("select row_to_json(t) as j from (");
    reveal_strlit(") t");
    let r = row_to_json_sql(query);
    assert(r.take(33) =~= "select row_to_json(t) as j from ("@);
    assert(r.subrange(33, 33 + query.len() as int) =~= query);
    assert(r.skip(33 + query.len() as int) =~= ") t"@);
}

} // verus!
