//! The post store: the fields a post query can name, the order of a list,
//! and the building of the update query.
use vstd::prelude::*;
use vstd::string::*;
use crate::data::{
    SqlArg, SqlQuery, assignment_list, bindable_text, builder_args, builder_new, builder_push,
    builder_push_bind_int, builder_push_bind_text, builder_sql, placeholder,
};
use crate::dto::UpdatePostRequest;

verus! {

/// A field of a post, with a value. Times are microseconds since the Unix
/// epoch.
#[derive(Debug)]
pub enum Field {
    Id(u32),
    Title(String),
    Content(String),
    AuthorId(u32),
    CreatedAt(i64),
    UpdatedAt(i64),
}

pub enum FieldView {
    Id(u32),
    Title(Seq<char>),
    Content(Seq<char>),
    AuthorId(u32),
    CreatedAt(i64),
    UpdatedAt(i64),
}

impl View for Field {
    type V = FieldView;

    open spec fn view(&self) -> FieldView {
        match self {
            Field::Id(v) => FieldView::Id(*v),
            Field::Title(t) => FieldView::Title(t@),
            Field::Content(c) => FieldView::Content(c@),
            Field::AuthorId(a) => FieldView::AuthorId(*a),
            Field::CreatedAt(t) => FieldView::CreatedAt(*t),
            Field::UpdatedAt(t) => FieldView::UpdatedAt(*t),
        }
    }
}

/// The column a field stands for.
pub open spec fn field_name(f: FieldView) -> Seq<char> {
    match f {
        FieldView::Id(_) => "id"@,
        FieldView::AuthorId(_) => "author_id"@,
        FieldView::Content(_) => "content"@,
        FieldView::Title(_) => "title"@,
        FieldView::CreatedAt(_) => "created_at"@,
        FieldView::UpdatedAt(_) => "updated_at"@,
    }
}

/// The fields an update may set.
pub open spec fn updatable(f: FieldView) -> bool {
    f is Title || f is Content || f is AuthorId
}

/// The value an update binds for a field it may set.
pub open spec fn update_arg(f: FieldView) -> SqlArg {
    match f {
        FieldView::Title(t) => SqlArg::Text(t),
        FieldView::Content(c) => SqlArg::Text(c),
        FieldView::AuthorId(a) => SqlArg::Int(a as i64),
        _ => SqlArg::Int(0),
    }
}

pub open spec fn fields_view(fields: Seq<Field>) -> Seq<FieldView> {
    fields.map_values(|f: Field| f@)
}

pub open spec fn field_names(fv: Seq<FieldView>) -> Seq<Seq<char>> {
    fv.map_values(|f: FieldView| field_name(f))
}

pub open spec fn update_args(fv: Seq<FieldView>) -> Seq<SqlArg> {
    fv.map_values(|f: FieldView| update_arg(f))
}

/// An update binds, for each field it sets and in the order given, that
/// field's own value: a title or a content as its text, an author as the
/// author's id.
pub proof fn lemma_update_args_bind_values(fv: Seq<FieldView>)
    ensures
        update_args(fv).len() == fv.len(),
        forall|k: int| 0 <= k < fv.len() ==> match #[trigger] fv[k] {
            FieldView::Title(t) => update_args(fv)[k] == SqlArg::Text(t),
            FieldView::Content(c) => update_args(fv)[k] == SqlArg::Text(c),
            FieldView::AuthorId(a) => update_args(fv)[k] == SqlArg::Int(a as i64),
            _ => true,
        },
{
}

/// The SQL text of the update of post `id` that sets the fields: each field
/// is bound in order, then the id.
pub open spec fn update_sql(fv: Seq<FieldView>) -> Seq<char> {
    "UPDATE posts SET "@ + assignment_list(field_names(fv), ","@)
        + ", updated_at = NOW() WHERE id ="@ + placeholder(fv.len() + 1) + " RETURNING *;"@
}

/// Every field that is bound, each one before the first field an update may set not,
/// fits in one bound value.
#[verifier::opaque]
pub open spec fn bound_texts_fit(fv: Seq<FieldView>) -> bool {
    forall|k: int| 0 <= k < fv.len() && (forall|j: int| 0 <= j < k ==> updatable(#[trigger] fv[j]))
        ==> bindable(#[trigger] fv[k])
}

/// A field whose value PostgreSQL can take as one bound value.
pub open spec fn bindable(f: FieldView) -> bool {
    match f {
        FieldView::Title(t) => bindable_text(t),
        FieldView::Content(c) => bindable_text(c),
        _ => true,
    }
}

/// Field `i` is the first one an update may not set.
pub open spec fn first_not_updatable(fv: Seq<FieldView>, i: int) -> bool {
    &&& 0 <= i < fv.len()
    &&& !updatable(fv[i])
    &&& forall|k: int| 0 <= k < i ==> updatable(#[trigger] fv[k])
}

impl Field {
    /// The column the field stands for.
    pub fn name(&self) -> (r: &'static str)
        ensures
            r@ == field_name(self@),
    {
        match self {
            Field::Id(_) => "id",
            Field::AuthorId(_) => "author_id",
            Field::Content(_) => "content",
            Field::Title(_) => "title",
            Field::CreatedAt(_) => "created_at",
            Field::UpdatedAt(_) => "updated_at",
        }
    }

    /// The fields an update request sets: the content first, then the title,
    /// each when it is given.
    pub fn list_from_update(value: UpdatePostRequest) -> (r: Vec<Field>)
        ensures
            fields_view(r@) == (match value.content {
                Some(c) => seq![FieldView::Content(c@)],
                None => Seq::empty(),
            }) + (match value.title {
                Some(t) => seq![FieldView::Title(t@)],
                None => Seq::empty(),
            }),
    {
        let mut v: Vec<Field> = Vec::new();
        if let Some(content) = value.content {
            v.push(Field::Content(content));
        }
        if let Some(title) = value.title {
            v.push(Field::Title(title));
        }
        assert(fields_view(v@) =~= (match value.content {
            Some(c) => seq![FieldView::Content(c@)],
            None => Seq::empty(),
        }) + (match value.title {
            Some(t) => seq![FieldView::Title(t@)],
            None => Seq::empty(),
        }));
        v
    }
}

/// The number of posts from the count query: the count's column must be
/// there (else the store's `no column found` error); the count is taken
/// modulo 2^32 as the store's `u32`.
pub fn count_result(count: Option<i64>) -> (r: Result<u32, String>)
    ensures
        match count {
            Some(c) => r == Ok::<u32, String>(c as u32),
            None => r matches Err(m) && m@ == "no column found for name: couldn't get count from posts"@,
        },
{
    match count {
        Some(c) => Ok(c as u32),
        None => Err(String::from_str("no column found for name: couldn't get count from posts")),
    }
}

/// The order of a list of posts.
#[derive(Debug, Clone, Copy, PartialEq, Eq)]
pub enum Order {
    Asc,
    Desc,
}

impl Order {
    pub open spec fn sql_text(&self) -> Seq<char> {
        match self {
            Order::Asc => "ASC"@,
            Order::Desc => "DESC"@,
        }
    }

    /// `ASC` or `DESC`.
    pub fn as_sql(&self) -> (r: &'static str)
        ensures
            r@ == self.sql_text(),
    {
        match self {
            Order::Asc => "ASC",
            Order::Desc => "DESC",
        }
    }
}

/// The query that updates post `id`, setting the fields and the update time.
/// Refused with `empty fields` when no field is given, and with
/// `field <name> is not supported` for the first field an update may not
/// set (id and the times). Every text must fit in one bound value.
pub fn update_query(id: u32, fields: Vec<Field>) -> (r: Result<SqlQuery, String>)
    requires
        bound_texts_fit(fields_view(fields@)),
    ensures
        ({
            let fv = fields_view(fields@);
            match r {
                Ok(q) => {
                    &&& fv.len() > 0
                    &&& forall|k: int| 0 <= k < fv.len() ==> updatable(#[trigger] fv[k])
                    &&& builder_sql(q) == update_sql(fv)
                    &&& builder_args(q) == update_args(fv).push(SqlArg::Int(id as i64))
                    &&& builder_args(q).len() == fields@.len() + 1
                    &&& forall|k: int| 0 <= k < fields@.len() ==> match #[trigger] fields@[k] {
                        Field::Title(t) => builder_args(q)[k] == SqlArg::Text(t@),
                        Field::Content(c) => builder_args(q)[k] == SqlArg::Text(c@),
                        Field::AuthorId(a) => builder_args(q)[k] == SqlArg::Int(a as i64),
                        _ => false,
                    }
                    &&& builder_args(q)[fields@.len() as int] == SqlArg::Int(id as i64)
                },
                Err(m) => {
                    ||| fv.len() == 0 && m@ == "empty fields"@
                    ||| exists|i: int| #[trigger] first_not_updatable(fv, i)
                        && m@ == "field "@ + field_name(fv[i]) + " is not supported"@
                },
            }
        }),
{
    let ghost fv = fields_view(fields@);
    let n = fields.len();
    if n == 0 {
        return Err(String::from_str("empty fields"));
    }
    let mut q = builder_new("UPDATE posts SET ");
    let mut i: usize = 0;
    assert(fv.take(0) =~= Seq::<FieldView>::empty());
    assert(field_names(fv.take(0)) =~= Seq::<Seq<char>>::empty());
    assert(update_args(fv.take(0)) =~= Seq::<SqlArg>::empty());
    assert(builder_sql(q) =~= "UPDATE posts SET "@ + assignment_list(field_names(fv.take(0)), ","@));
    while i < n
        invariant
            n == fields@.len(),
            fv == fields_view(fields@),
            bound_texts_fit(fields_view(fields@)),
            0 <= i <= n,
            forall|k: int| 0 <= k < i ==> updatable(#[trigger] fv[k]),
            builder_sql(q) == "UPDATE posts SET "@ + assignment_list(field_names(fv.take(i as int)), ","@),
            builder_args(q) == update_args(fv.take(i as int)),
        decreases n - i,
    {
        let f = &fields[i];
        assert(bindable(fv[i as int])) by {
            reveal(bound_texts_fit);
        }
        assert(fv[i as int] == fields@[i as int]@);
        if i > 0 {
            builder_push(&mut q, ",");
        }
        builder_push(&mut q, f.name());
        builder_push(&mut q, "=");
        assert(builder_args(q).len() == i) by {
            assert(update_args(fv.take(i as int)).len() == i);
        }
        match f {
            Field::Title(t) => {
                builder_push_bind_text(&mut q, t.clone());
            },
            Field::Content(c) => {
                builder_push_bind_text(&mut q, c.clone());
            },
            Field::AuthorId(a) => {
                builder_push_bind_int(&mut q, *a as i64);
            },
            _ => {
                assert(first_not_updatable(fv, i as int));
                let mut m = String::from_str("field ");
                m.append(f.name());
                m.append(" is not supported");
                return Err(m);
            },
        }
        proof {
            let names = field_names(fv.take(i + 1));
            assert(names.drop_last() =~= field_names(fv.take(i as int)));
            assert(names.last() == field_name(fv[i as int]));
            assert(names.len() == i + 1);
            assert(update_args(fv.take(i + 1)) =~= update_args(fv.take(i as int)).push(update_arg(fv[i as int])));
            assert(builder_sql(q) =~= "UPDATE posts SET "@ + assignment_list(names, ","@));
        }
        i = i + 1;
    }
    assert(fv.take(n as int) =~= fv);
    builder_push(&mut q, ", updated_at = NOW() WHERE id =");
    assert(builder_args(q).len() == n) by {
        assert(update_args(fv).len() == n);
    }
    builder_push_bind_int(&mut q, id as i64);
    builder_push(&mut q, " RETURNING *;");
    assert(builder_sql(q) =~= update_sql(fv));
    proof {
        lemma_update_args_bind_values(fv);
        assert forall|k: int| 0 <= k < fields@.len() implies fv[k] == (#[trigger] fields@[k])@ by {}
    }
    Ok(q)
}

} // verus!
