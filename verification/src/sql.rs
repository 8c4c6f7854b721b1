//! The `insert` statement that stores a movie: one column for each member of
//! the JSON object that serde makes of a `MovieDetail`, in sorted order, and
//! the member's text bound to each placeholder in the same order.
use vstd::prelude::*;

use itertools::Itertools;

use crate::model::MovieDetail;

verus! {

/// One member of a serialized JSON object: its name and, when the member's
/// value is a JSON string, that string.
#[derive(Debug, Clone, PartialEq, Eq)]
pub struct JsonField {
    pub name: String,
    pub text: Option<String>,
}

/// The text of an optional string.
pub open spec fn opt_view(o: Option<String>) -> Option<Seq<char>> {
    match o {
        Some(s) => Some(s@),
        None => None,
    }
}

impl View for JsonField {
    type V = (Seq<char>, Option<Seq<char>>);

    open spec fn view(&self) -> (Seq<char>, Option<Seq<char>>) {
        (self.name@, opt_view(self.text))
    }
}

/// The members of a JSON object, as name and text.
pub open spec fn fields_view(fields: Seq<JsonField>) -> Seq<(Seq<char>, Option<Seq<char>>)> {
    fields.map_values(|f: JsonField| f@)
}

/// The texts of a sequence of strings.
pub open spec fn strings_view(items: Seq<String>) -> Seq<Seq<char>> {
    items.map_values(|s: String| s@)
}

/// The member names of a JSON object, in the object's order.
pub open spec fn field_names(fields: Seq<(Seq<char>, Option<Seq<char>>)>) -> Seq<Seq<char>> {
    fields.map_values(|f: (Seq<char>, Option<Seq<char>>)| f.0)
}

/// The text of the member called `name`.
pub open spec fn text_of(fields: Seq<(Seq<char>, Option<Seq<char>>)>, name: Seq<char>) -> Option<
    Seq<char>,
> {
    fields[choose|i: int| 0 <= i < fields.len() && fields[i].0 == name].1
}

/// Every member of the object holds a JSON string.
pub open spec fn all_text(fields: Seq<(Seq<char>, Option<Seq<char>>)>) -> bool {
    forall|i: int| 0 <= i < fields.len() ==> (#[trigger] fields[i]).1 is Some
}

/// The values bound to the placeholders of the statement over `columns`: the
/// text of each column's member, in column order.
pub open spec fn bound_values(
    fields: Seq<(Seq<char>, Option<Seq<char>>)>,
    columns: Seq<Seq<char>>,
) -> Seq<Seq<char>> {
    columns.map_values(|c: Seq<char>| text_of(fields, c).unwrap())
}

/// `items` written one after another with `sep` between neighbours.
pub open spec fn join_with(items: Seq<Seq<char>>, sep: Seq<char>) -> Seq<char>
    decreases items.len(),
{
    if items.len() == 0 {
        Seq::empty()
    } else if items.len() == 1 {
        items[0]
    } else {
        join_with(items.drop_last(), sep) + sep + items.last()
    }
}

/// `a` comes no later than `b` in byte-wise lexicographic order, the order of
/// Rust strings.
pub open spec fn bytes_le(a: Seq<u8>, b: Seq<u8>) -> bool
    decreases a.len(),
{
    if a.len() == 0 {
        true
    } else if b.len() == 0 {
        false
    } else if a[0] != b[0] {
        a[0] < b[0]
    } else {
        bytes_le(a.drop_first(), b.drop_first())
    }
}

/// Joining writes the items in order with the separator between neighbours:
/// one item is itself, and one more item adds the separator and that item.
pub proof fn law_join_with_steps(items: Seq<Seq<char>>, sep: Seq<char>, x: Seq<char>)
    ensures
        join_with(Seq::empty(), sep) == Seq::<char>::empty(),
        join_with(seq![x], sep) == x,
        items.len() > 0 ==> join_with(items.push(x), sep) == join_with(items, sep) + sep + x,
{
    assert(seq![x].len() == 1);
    if items.len() > 0 {
        assert(items.push(x).drop_last() =~= items);
    }
}

/// The k-th bound value is the text of the k-th column's member, and there is
/// one per column.
pub proof fn law_bound_value_per_column(
    fields: Seq<(Seq<char>, Option<Seq<char>>)>,
    columns: Seq<Seq<char>>,
    k: int,
)
    requires
        0 <= k < columns.len(),
    ensures
        bound_values(fields, columns).len() == columns.len(),
        text_of(fields, columns[k]) is Some ==> Some(bound_values(fields, columns)[k])
            == text_of(fields, columns[k]),
{
}

/// The statement names the columns, then lists one `?` per column, each list
/// separated by commas, inside the fixed `insert ... returning` frame.
pub proof fn law_insert_sql_frame(columns: Seq<Seq<char>>)
    ensures
        insert_sql(columns) == "insert into movie("@ + join_with(columns, ", "@) + ") values ("@
            + join_with(Seq::new(columns.len(), |i: int| "?"@), ", "@)
            + ") returning id as movie_id, title"@,
        placeholders(columns.len()).len() == columns.len(),
        forall|i: int| 0 <= i < columns.len() ==> #[trigger] placeholders(columns.len())[i] == "?"@,
{
    assert(placeholders(columns.len()) =~= Seq::new(columns.len(), |i: int| "?"@));
}

/// `n` placeholders.
pub open spec fn placeholders(n: nat) -> Seq<Seq<char>> {
    Seq::new(n, |i: int| "?"@)
}

/// The statement that inserts a movie with the given columns and returns the
/// new row's id and title.
pub open spec fn insert_sql(columns: Seq<Seq<char>>) -> Seq<char> {
    "insert into movie("@ + join_with(columns, ", "@) + ") values ("@ + join_with(
        placeholders(columns.len()),
        ", "@,
    ) + ") returning id as movie_id, title"@
}

/// What `Itertools::sorted` yields for strings with these texts.
pub uninterp spec fn itertools_sorted(items: Seq<Seq<char>>) -> Seq<Seq<char>>;

/// Calls `Itertools::sorted` (which collects the items and sorts them with
/// `slice::sort`, by `Ord`) on the items, then owns them again. Claimed: the
/// result is the name applied to the input, holds the same strings as the
/// input, and is in ascending byte-wise order, the `Ord` of `String`.
#[verifier::external_body]
fn sorted_strings(items: &Vec<String>) -> (r: Vec<String>)
    ensures
        strings_view(r@) == itertools_sorted(strings_view(items@)),
        strings_view(r@).to_multiset() == strings_view(items@).to_multiset(),
        forall|i: int, j: int|
            0 <= i < j < r@.len() ==> bytes_le(
                vstd::utf8::encode_utf8(r@[i]@),
                vstd::utf8::encode_utf8(r@[j]@),
            ),
{
    items.iter().sorted().cloned().collect()
}

/// Calls `Itertools::join`, which writes the first item, then the separator
/// and the next item for each further item, each item by `Display` (a
/// `String` displays as itself). Claimed: the result is `join_with`.
#[verifier::external_body]
fn join_strings(items: &Vec<String>, sep: &str) -> (r: String)
    ensures
        r@ == join_with(strings_view(items@), sep@),
{
    items.iter().join(sep)
}

/// The members of a JSON object, as serde writes a struct: each name once.
pub struct JsonRecord {
    fields: Vec<JsonField>,
}

impl View for JsonRecord {
    type V = Seq<(Seq<char>, Option<Seq<char>>)>;

    closed spec fn view(&self) -> Seq<(Seq<char>, Option<Seq<char>>)> {
        fields_view(self.fields@)
    }
}

impl JsonRecord {
    #[verifier::type_invariant]
    spec fn names_distinct(self) -> bool {
        field_names(fields_view(self.fields@)).no_duplicates()
    }

    /// The object with these members; `None` when two members share a name.
    pub fn from_fields(fields: Vec<JsonField>) -> (r: Option<JsonRecord>)
        ensures
            r is Some <==> field_names(fields_view(fields@)).no_duplicates(),
            r matches Some(rec) ==> rec@ == fields_view(fields@),
    {
        let n = fields.len();
        let ghost names = field_names(fields_view(fields@));
        let mut i: usize = 0;
        while i < n
            invariant
                n == fields@.len(),
                names == field_names(fields_view(fields@)),
                i <= n,
                forall|a: int, b: int| 0 <= a < b < n && a < i ==> names[a] != names[b],
            decreases n - i,
        {
            let mut j: usize = i + 1;
            while j < n
                invariant
                    n == fields@.len(),
                    names == field_names(fields_view(fields@)),
                    i < n,
                    i < j <= n,
                    forall|a: int, b: int| 0 <= a < b < n && a < i ==> names[a] != names[b],
                    forall|b: int| i < b < j ==> names[i as int] != names[b],
                decreases n - j,
            {
                if fields[i].name == fields[j].name {
                    assert(names[i as int] == names[j as int]);
                    return None;
                }
                j = j + 1;
            }
            i = i + 1;
        }
        Some(JsonRecord { fields })
    }

    /// The members, in order.
    pub fn fields(&self) -> (r: &Vec<JsonField>)
        ensures
            fields_view(r@) == self@,
    {
        &self.fields
    }

    /// Whether every member holds a JSON string, as binding the record needs.
    pub fn all_text(&self) -> (r: bool)
        ensures
            r == all_text(self@),
    {
        let n = self.fields.len();
        let mut i: usize = 0;
        while i < n
            invariant
                n == self.fields@.len(),
                i <= n,
                forall|k: int| 0 <= k < i ==> (#[trigger] self@[k]).1 is Some,
            decreases n - i,
        {
            if self.fields[i].text.is_none() {
                assert(self@[i as int].1 is None);
                return false;
            }
            i = i + 1;
        }
        true
    }

    /// The member names, in order.
    fn names(&self) -> (r: Vec<String>)
        ensures
            strings_view(r@) == field_names(self@),
    {
        let n = self.fields.len();
        let mut out: Vec<String> = Vec::new();
        let mut i: usize = 0;
        while i < n
            invariant
                n == self.fields@.len(),
                i <= n,
                out@.len() == i,
                forall|k: int| 0 <= k < i ==> (#[trigger] out@[k])@ == self.fields@[k].name@,
            decreases n - i,
        {
            out.push(self.fields[i].name.clone());
            i = i + 1;
        }
        assert(strings_view(out@) =~= field_names(self@));
        out
    }

    /// Where the member called `name` stands.
    fn position(&self, name: &String) -> (r: Option<usize>)
        ensures
            r matches Some(i) ==> i < self@.len() && self@[i as int].0 == name@,
            r is None ==> !field_names(self@).contains(name@),
    {
        let n = self.fields.len();
        let mut i: usize = 0;
        while i < n
            invariant
                n == self.fields@.len(),
                i <= n,
                forall|k: int| 0 <= k < i ==> (#[trigger] self@[k]).0 != name@,
            decreases n - i,
        {
            if self.fields[i].name == *name {
                return Some(i);
            }
            i = i + 1;
        }
        proof {
            if field_names(self@).contains(name@) {
                let k = choose|k: int| 0 <= k < field_names(self@).len() && field_names(self@)[k] == name@;
                assert(self@[k].0 == name@);
            }
        }
        None
    }

}

/// What occurs in a sequence occurs in every sequence with the same multiset.
proof fn lemma_same_members(a: Seq<Seq<char>>, b: Seq<Seq<char>>, x: Seq<char>)
    requires
        a.to_multiset() == b.to_multiset(),
        a.contains(x),
    ensures
        b.contains(x),
{
    a.to_multiset_ensures();
    b.to_multiset_ensures();
    assert(a.to_multiset().count(x) > 0);
    assert(b.to_multiset().count(x) > 0);
}

/// A sequence with the same multiset as a duplicate-free one is duplicate-free.
proof fn lemma_same_multiset_no_duplicates(a: Seq<Seq<char>>, b: Seq<Seq<char>>)
    requires
        a.to_multiset() == b.to_multiset(),
        b.no_duplicates(),
    ensures
        a.no_duplicates(),
{
    b.lemma_multiset_has_no_duplicates();
    a.lemma_multiset_has_no_duplicates_conv();
}

/// The insert statement depends on the member names alone: two records with
/// the same names, whatever their texts, give the same statement.
pub proof fn lemma_statement_depends_on_names(
    a: Seq<(Seq<char>, Option<Seq<char>>)>,
    b: Seq<(Seq<char>, Option<Seq<char>>)>,
)
    requires
        field_names(a) == field_names(b),
    ensures
        insert_sql(itertools_sorted(field_names(a))) == insert_sql(
            itertools_sorted(field_names(b)),
        ),
{
}

/// In an object whose names are distinct, the text of the member at `i` is
/// the text of the member named as it.
pub proof fn lemma_text_at(fields: Seq<(Seq<char>, Option<Seq<char>>)>, i: int)
    requires
        field_names(fields).no_duplicates(),
        0 <= i < fields.len(),
    ensures
        text_of(fields, fields[i].0) == fields[i].1,
{
    let names = field_names(fields);
    let k = choose|k: int| 0 <= k < fields.len() && fields[k].0 == fields[i].0;
    assert(names[k] == names[i]);
}

/// `n` copies of the placeholder `?`.
fn question_marks(n: usize) -> (r: Vec<String>)
    ensures
        strings_view(r@) == placeholders(n as nat),
{
    let mut out: Vec<String> = Vec::new();
    let mut i: usize = 0;
    while i < n
        invariant
            i <= n,
            out@.len() == i,
            forall|k: int| 0 <= k < i ==> (#[trigger] out@[k])@ == "?"@,
        decreases n - i,
    {
        out.push(String::from_str("?"));
        i = i + 1;
    }
    assert(strings_view(out@) =~= placeholders(n as nat));
    out
}

/// A query for the database: its SQL text and the strings bound to its
/// placeholders, in order.
#[derive(Debug, Clone, PartialEq, Eq)]
pub struct SqlQuery {
    pub sql: String,
    pub binds: Vec<String>,
}

impl MovieDetail {
    /// The statement that inserts a movie whose serialized form is
    /// `serialized`: a column for each member, in sorted order, and as many
    /// placeholders. The columns are exactly the member names, each once, in
    /// ascending byte-wise order.
    pub fn get_insert_statement(serialized: &JsonRecord) -> (sql: String)
        ensures
            sql@ == insert_sql(itertools_sorted(field_names(serialized@))),
            itertools_sorted(field_names(serialized@)).to_multiset() == field_names(
                serialized@,
            ).to_multiset(),
            itertools_sorted(field_names(serialized@)).no_duplicates(),
            forall|i: int, j: int|
                0 <= i < j < itertools_sorted(field_names(serialized@)).len() ==> bytes_le(
                    vstd::utf8::encode_utf8(itertools_sorted(field_names(serialized@))[i]),
                    vstd::utf8::encode_utf8(itertools_sorted(field_names(serialized@))[j]),
                ),
    {
        proof {
            use_type_invariant(serialized);
        }
        let names = serialized.names();
        let sorted = sorted_strings(&names);
        proof {
            lemma_same_multiset_no_duplicates(strings_view(sorted@), field_names(serialized@));
        }
        let columns = join_strings(&sorted, ", ");
        let marks = question_marks(sorted.len());
        let values = join_strings(&marks, ", ");
        let mut sql = String::from_str("insert into movie(");
        sql.append(columns.as_str());
        sql.append(") values (");
        sql.append(values.as_str());
        sql.append(") returning id as movie_id, title");
        assert(strings_view(sorted@).len() == sorted@.len());
        sql
    }

    /// `q` with the text of each member of `serialized` bound after its
    /// existing binds, member by member in sorted name order. Every member must
    /// hold a JSON string.
    pub fn bind_insert_statement(serialized: &JsonRecord, q: SqlQuery) -> (r: SqlQuery)
        requires
            all_text(serialized@),
        ensures
            r.sql == q.sql,
            strings_view(r.binds@) == strings_view(q.binds@) + bound_values(
                serialized@,
                itertools_sorted(field_names(serialized@)),
            ),
    {
        proof {
            use_type_invariant(serialized);
        }
        let names = serialized.names();
        let sorted = sorted_strings(&names);
        let ghost columns = strings_view(sorted@);
        let ghost start = strings_view(q.binds@);
        let mut r = q;
        let n = sorted.len();
        let mut i: usize = 0;
        while i < n
            invariant
                n == sorted@.len(),
                i <= n,
                r.sql == q.sql,
                columns == strings_view(sorted@),
                columns.to_multiset() == field_names(serialized@).to_multiset(),
                all_text(serialized@),
                field_names(serialized@).no_duplicates(),
                strings_view(r.binds@) =~= start + bound_values(serialized@, columns.take(i as int)),
            decreases n - i,
        {
            let name = &sorted[i];
            proof {
                assert(columns[i as int] == name@);
                assert(columns.contains(name@));
                lemma_same_members(columns, field_names(serialized@), name@);
            }
            match serialized.position(name) {
                Some(p) => {
                    proof {
                        lemma_text_at(serialized@, p as int);
                    }
                    match &serialized.fields[p].text {
                        Some(t) => {
                            let ghost before = strings_view(r.binds@);
                            r.binds.push(t.clone());
                            assert(columns.take(i + 1) =~= columns.take(i as int).push(name@));
                            assert(strings_view(r.binds@) =~= before.push(t@));
                        },
                        None => {
                            assert(serialized@[p as int].1 is Some);
                        },
                    }
                },
                None => {
                    assert(false);
                },
            }
            i = i + 1;
        }
        assert(columns.take(n as int) =~= columns);
        r
    }
}

/// The query that stores a movie: the insert statement of its serialized form,
/// with the member texts bound in the statement's column order. Every column is
/// a member and every member a column, the columns ascend in byte-wise order,
/// there is one placeholder per column, and the k-th bound value is the text of
/// the k-th column's member.
pub fn insert_query(serialized: &JsonRecord) -> (q: SqlQuery)
    requires
        all_text(serialized@),
    ensures
        ({
            let columns = itertools_sorted(field_names(serialized@));
            &&& q.sql@ == insert_sql(columns)
            &&& strings_view(q.binds@) == bound_values(serialized@, columns)
            &&& columns.to_multiset() == field_names(serialized@).to_multiset()
            &&& columns.no_duplicates()
            &&& forall|i: int, j: int|
                0 <= i < j < columns.len() ==> bytes_le(
                    vstd::utf8::encode_utf8(columns[i]),
                    vstd::utf8::encode_utf8(columns[j]),
                )
            &&& placeholders(columns.len()).len() == q.binds@.len()
            &&& forall|k: int|
                0 <= k < columns.len() ==> Some(#[trigger] strings_view(q.binds@)[k]) == text_of(
                    serialized@,
                    columns[k],
                )
        }),
{
    proof {
        use_type_invariant(serialized);
    }
    let names = serialized.names();
    let sorted = sorted_strings(&names);
    let ghost columns = strings_view(sorted@);
    let sql = MovieDetail::get_insert_statement(serialized);
    assert(columns == itertools_sorted(field_names(serialized@)));
    let empty: Vec<String> = Vec::new();
    assert(strings_view(empty@) =~= Seq::<Seq<char>>::empty());
    let q = MovieDetail::bind_insert_statement(serialized, SqlQuery { sql, binds: empty });
    proof {
        assert(strings_view(q.binds@) =~= bound_values(serialized@, columns));
        assert forall|k: int| 0 <= k < columns.len() implies Some(
            #[trigger] strings_view(q.binds@)[k],
        ) == text_of(serialized@, columns[k]) by {
            assert(columns.contains(columns[k]));
            lemma_same_members(columns, field_names(serialized@), columns[k]);
            let p = choose|p: int|
                0 <= p < field_names(serialized@).len() && field_names(serialized@)[p]
                    == columns[k];
            assert(serialized@[p].0 == columns[k]);
            lemma_text_at(serialized@, p);
            assert(serialized@[p].1 is Some);
        }
    }
    q
}

} // verus!
