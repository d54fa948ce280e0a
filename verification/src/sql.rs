use vstd::prelude::*;

verus! {

/// A SQL statement and the text values bound to its `?` placeholders, in order.
#[derive(Debug, Clone, PartialEq, Eq)]
pub struct SqlStatement {
    pub sql: String,
    pub params: Vec<String>,
}

/// The texts of a list of strings.
pub open spec fn texts(v: Seq<String>) -> Seq<Seq<char>> {
    v.map_values(|p: String| p@)
}

impl View for SqlStatement {
    type V = (Seq<char>, Seq<Seq<char>>);

    open spec fn view(&self) -> (Seq<char>, Seq<Seq<char>>) {
        (self.sql@, texts(self.params@))
    }
}

/// The entries of a comma-separated list as SQL text writes them: joined by ", ".
pub open spec fn listed(items: Seq<Seq<char>>) -> Seq<char>
    decreases items.len(),
{
    if items.len() == 0 {
        Seq::empty()
    } else if items.len() == 1 {
        items[0]
    } else {
        listed(items.drop_last()) + ", "@ + items.last()
    }
}

/// A list entry holds no comma and no parenthesis, so a list splits into its entries in
/// one way only.
pub open spec fn bare(s: Seq<char>) -> bool {
    forall|j: int| 0 <= j < s.len() ==> s[j] != ',' && s[j] != '(' && s[j] != ')'
}

/// How many of the first `i` entries are the positional placeholder `?`.
pub open spec fn placeholders_before(items: Seq<Seq<char>>, i: int) -> nat
    decreases i,
{
    if i <= 0 {
        0
    } else {
        placeholders_before(items, i - 1) + if items[i - 1] == "?"@ { 1nat } else { 0nat }
    }
}

/// The value entry `i` of a VALUES list stores, given the bound values `params`: a `?` takes
/// the next bound value in order, a quoted text `'x'` stores `x`; anything else (a numbered
/// placeholder, an expression) is not read.
pub open spec fn item_value(items: Seq<Seq<char>>, params: Seq<Seq<char>>, i: int) -> Option<Seq<char>> {
    let item = items[i];
    if item == "?"@ {
        if placeholders_before(items, i) < params.len() {
            Some(params[placeholders_before(items, i) as int])
        } else {
            None
        }
    } else if item.len() >= 2 && item[0] == '\'' && item[item.len() - 1] == '\'' {
        Some(item.subrange(1, item.len() - 1))
    } else {
        None
    }
}

/// The text of an insert: some head (`INSERT INTO table `), the parenthesised column list,
/// some text (`VALUES `), and the parenthesised value list that ends the statement.
pub open spec fn insert_shape(head: Seq<char>, cols: Seq<Seq<char>>, mid: Seq<char>, items: Seq<Seq<char>>) -> Seq<char> {
    head + "("@ + listed(cols) + ")"@ + mid + "("@ + listed(items) + ")"@
}

/// Running the insert `stmt` stores `value` in the column named `column`: the statement's
/// column list names `column` at some position, and the value list's entry at the same
/// position stores `value` (no placeholder stands outside the value list).
pub open spec fn inserts(stmt: (Seq<char>, Seq<Seq<char>>), column: Seq<char>, value: Seq<char>) -> bool {
    exists|head: Seq<char>, cols: Seq<Seq<char>>, mid: Seq<char>, items: Seq<Seq<char>>, i: int|
        #![trigger insert_shape(head, cols, mid, items), cols[i]]
        stmt.0 == insert_shape(head, cols, mid, items)
        && placeholders(head) == 0
        && placeholders(mid) == 0
        && cols.len() == items.len()
        && (forall|k: int| 0 <= k < cols.len() ==> bare(#[trigger] cols[k]) && bare(items[k]))
        && 0 <= i < cols.len()
        && cols[i] == column
        && item_value(items, stmt.1, i) == Some(value)
}

/// Establishes `inserts` from a reading of the statement's text.
pub proof fn lemma_inserts_intro(
    stmt: (Seq<char>, Seq<Seq<char>>),
    head: Seq<char>,
    cols: Seq<Seq<char>>,
    mid: Seq<char>,
    items: Seq<Seq<char>>,
    i: int,
    value: Seq<char>,
)
    requires
        stmt.0 == insert_shape(head, cols, mid, items),
        placeholders(head) == 0,
        placeholders(mid) == 0,
        cols.len() == items.len(),
        forall|k: int| 0 <= k < cols.len() ==> bare(#[trigger] cols[k]) && bare(items[k]),
        0 <= i < cols.len(),
        item_value(items, stmt.1, i) == Some(value),
    ensures
        inserts(stmt, cols[i], value),
{
    assert(cols[i] == cols[i]);
}

/// The number of `?` placeholders in a SQL text.
pub open spec fn placeholders(s: Seq<char>) -> nat
    decreases s.len(),
{
    if s.len() == 0 {
        0
    } else {
        placeholders(s.drop_last()) + if s.last() == '?' { 1nat } else { 0nat }
    }
}

pub proof fn lemma_placeholders_concat(a: Seq<char>, b: Seq<char>)
    ensures
        placeholders(a + b) == placeholders(a) + placeholders(b),
    decreases b.len(),
{
    if b.len() == 0 {
        assert(a + b =~= a);
    } else {
        lemma_placeholders_concat(a, b.drop_last());
        assert((a + b).drop_last() =~= a + b.drop_last());
    }
}

/// Whether `s` ends with `suffix`.
pub open spec fn ends_with(s: Seq<char>, suffix: Seq<char>) -> bool {
    s.len() >= suffix.len() && s.subrange(s.len() - suffix.len(), s.len() as int) == suffix
}

/// The text of an update: a head (`UPDATE table SET `), the assignments joined by ", ",
/// and the rest (the `WHERE` clause).
pub open spec fn update_shape(head: Seq<char>, assignments: Seq<Seq<char>>, rest: Seq<char>) -> Seq<char> {
    head + listed(assignments) + rest
}

/// Running the update `stmt` sets the column `column` to `value`: its text is a head with
/// no placeholder ending in `SET `, then assignments that each bind one placeholder, and the
/// assignment at position `i` is `column = ?`, so it takes the `i`-th bound value.
pub open spec fn sets(stmt: (Seq<char>, Seq<Seq<char>>), column: Seq<char>, value: Seq<char>) -> bool {
    exists|head: Seq<char>, assignments: Seq<Seq<char>>, rest: Seq<char>, i: int|
        #![trigger update_shape(head, assignments, rest), assignments[i]]
        stmt.0 == update_shape(head, assignments, rest)
        && placeholders(head) == 0
        && ends_with(head, "SET "@)
        && (forall|k: int| 0 <= k < assignments.len()
            ==> bare(#[trigger] assignments[k]) && placeholders(assignments[k]) == 1)
        && 0 <= i < assignments.len()
        && assignments[i] == column + " = ?"@
        && i < stmt.1.len()
        && stmt.1[i] == value
}

/// A text with no `?` in it has no placeholder.
pub proof fn lemma_no_placeholders(s: Seq<char>)
    requires
        forall|i: int| 0 <= i < s.len() ==> s[i] != '?',
    ensures
        placeholders(s) == 0,
    decreases s.len(),
{
    if s.len() > 0 {
        lemma_no_placeholders(s.drop_last());
    }
}

/// Establishes `sets` from a reading of the statement's text.
pub proof fn lemma_sets_intro(
    stmt: (Seq<char>, Seq<Seq<char>>),
    head: Seq<char>,
    assignments: Seq<Seq<char>>,
    rest: Seq<char>,
    i: int,
    column: Seq<char>,
)
    requires
        stmt.0 == update_shape(head, assignments, rest),
        placeholders(head) == 0,
        ends_with(head, "SET "@),
        forall|k: int| 0 <= k < assignments.len()
            ==> bare(#[trigger] assignments[k]) && placeholders(assignments[k]) == 1,
        0 <= i < assignments.len(),
        assignments[i] == column + " = ?"@,
        i < stmt.1.len(),
    ensures
        sets(stmt, column, stmt.1[i]),
{
    assert(assignments[i] == assignments[i]);
}

/// A list whose entries each hold one placeholder holds one per entry.
pub proof fn lemma_listed_placeholders(items: Seq<Seq<char>>)
    requires
        forall|k: int| 0 <= k < items.len() ==> placeholders(#[trigger] items[k]) == 1,
    ensures
        placeholders(listed(items)) == items.len(),
    decreases items.len(),
{
    if items.len() == 0 {
    } else if items.len() == 1 {
    } else {
        let init = items.drop_last();
        assert forall|k: int| 0 <= k < init.len() implies placeholders(#[trigger] init[k]) == 1 by {
            assert(init[k] == items[k]);
        }
        lemma_listed_placeholders(init);
        reveal_strlit(", ");
        reveal_with_fuel(placeholders, 3);
        assert(placeholders(", "@) == 0) by {
            reveal_strlit(",");
            reveal_strlit("");
            assert(", "@.drop_last() =~= ","@);
            assert(","@.drop_last() =~= ""@);
        }
        lemma_placeholders_concat(listed(init), ", "@);
        lemma_placeholders_concat(listed(init) + ", "@, items.last());
    }
}

/// The statement acts on the rows whose `column` equals `value`: its text ends in
/// `WHERE column = ?`, it binds one value per placeholder, and the last value is `value`.
pub open spec fn keyed_by(stmt: (Seq<char>, Seq<Seq<char>>), column: Seq<char>, value: Seq<char>) -> bool {
    &&& ends_with(stmt.0, " WHERE "@ + column + " = ?"@)
    &&& stmt.1.len() == placeholders(stmt.0)
    &&& stmt.1.len() > 0
    &&& stmt.1.last() == value
}

/// A failed database call; what went wrong is not looked at.
#[derive(Debug, Clone, Copy, PartialEq, Eq)]
pub struct DbError;

/// The statement `sql` with the values `params`.
pub fn statement(sql: &str, params: Vec<String>) -> (r: SqlStatement)
    ensures
        r.sql@ == sql@,
        r.params@ == params@,
{
    SqlStatement { sql: sql.to_string(), params }
}

/// Appends a copy of `s` to `v`.
pub fn push_text(v: &mut Vec<String>, s: &String)
    ensures
        texts(final(v)@) == texts(old(v)@).push(s@),
{
    v.push(s.clone());
    assert(texts(v@) =~= texts(old(v)@).push(s@));
}

/// A list of one text.
pub fn list1(a: &String) -> (r: Vec<String>)
    ensures
        texts(r@) == seq![a@],
{
    let mut v = Vec::new();
    assert(texts(v@) =~= Seq::<Seq<char>>::empty());
    push_text(&mut v, a);
    v
}

/// A list of two texts.
pub fn list2(a: &String, b: &String) -> (r: Vec<String>)
    ensures
        texts(r@) == seq![a@, b@],
{
    let mut v = list1(a);
    push_text(&mut v, b);
    v
}

/// A list of four texts.
pub fn list4(a: &String, b: &String, c: &String, d: &String) -> (r: Vec<String>)
    ensures
        texts(r@) == seq![a@, b@, c@, d@],
{
    let mut v = list2(a, b);
    push_text(&mut v, c);
    push_text(&mut v, d);
    v
}

/// A list of five texts.
pub fn list5(a: &String, b: &String, c: &String, d: &String, e: &String) -> (r: Vec<String>)
    ensures
        texts(r@) == seq![a@, b@, c@, d@, e@],
{
    let mut v = list4(a, b, c, d);
    push_text(&mut v, e);
    v
}

/// A list of six texts.
pub fn list6(a: &String, b: &String, c: &String, d: &String, e: &String, f: &String) -> (r: Vec<String>)
    ensures
        texts(r@) == seq![a@, b@, c@, d@, e@, f@],
{
    let mut v = list5(a, b, c, d, e);
    push_text(&mut v, f);
    v
}

/// A list of seven texts.
pub fn list7(a: &String, b: &String, c: &String, d: &String, e: &String, f: &String, g: &String) -> (r: Vec<String>)
    ensures
        texts(r@) == seq![a@, b@, c@, d@, e@, f@, g@],
{
    let mut v = list6(a, b, c, d, e, f);
    push_text(&mut v, g);
    v
}

} // verus!
