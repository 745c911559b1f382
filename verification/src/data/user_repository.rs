//! The user store: the fields a user query can name, and the building of the
//! query that finds a user by any of several fields.
use vstd::prelude::*;
use vstd::string::*;
use crate::data::{
    SqlArg, SqlQuery, assignment_list, bindable_text, builder_args, builder_new, builder_push,
    builder_push_bind_text, builder_sql,
};

verus! {

/// A field of a user, with a value. `created_at` is in microseconds since
/// the Unix epoch.
#[derive(Debug)]
pub enum Field {
    Id(u32),
    Username(String),
    Email(String),
    Password(String),
    CreatedAt(i64),
}

pub enum FieldView {
    Id(u32),
    Username(Seq<char>),
    Email(Seq<char>),
    Password(Seq<char>),
    CreatedAt(i64),
}

impl View for Field {
    type V = FieldView;

    open spec fn view(&self) -> FieldView {
        match self {
            Field::Id(v) => FieldView::Id(*v),
            Field::Username(u) => FieldView::Username(u@),
            Field::Email(e) => FieldView::Email(e@),
            Field::Password(p) => FieldView::Password(p@),
            Field::CreatedAt(t) => FieldView::CreatedAt(*t),
        }
    }
}

/// The column a field stands for.
pub open spec fn field_name(f: FieldView) -> Seq<char> {
    match f {
        FieldView::Id(_) => "id"@,
        FieldView::Username(_) => "username"@,
        FieldView::Email(_) => "email"@,
        FieldView::Password(_) => "password"@,
        FieldView::CreatedAt(_) => "created_at"@,
    }
}

/// The fields a user can be looked up by.
pub open spec fn searchable(f: FieldView) -> bool {
    f is Username || f is Email
}

/// Every field that is bound, each one before the first field a lookup may use not,
/// fits in one bound value.
#[verifier::opaque]
pub open spec fn bound_texts_fit(fv: Seq<FieldView>) -> bool {
    forall|k: int| 0 <= k < fv.len() && (forall|j: int| 0 <= j < k ==> searchable(#[trigger] fv[j]))
        ==> bindable(#[trigger] fv[k])
}

/// A field whose value PostgreSQL can take as one bound value.
pub open spec fn bindable(f: FieldView) -> bool {
    match f {
        FieldView::Username(u) => bindable_text(u),
        FieldView::Email(e) => bindable_text(e),
        _ => true,
    }
}

pub open spec fn search_arg(f: FieldView) -> SqlArg {
    match f {
        FieldView::Username(u) => SqlArg::Text(u),
        FieldView::Email(e) => SqlArg::Text(e),
        _ => SqlArg::Int(0),
    }
}

pub open spec fn fields_view(fields: Seq<Field>) -> Seq<FieldView> {
    fields.map_values(|f: Field| f@)
}

pub open spec fn field_names(fv: Seq<FieldView>) -> Seq<Seq<char>> {
    fv.map_values(|f: FieldView| field_name(f))
}

pub open spec fn search_args(fv: Seq<FieldView>) -> Seq<SqlArg> {
    fv.map_values(|f: FieldView| search_arg(f))
}

/// A lookup binds, for each field and in the order given, that field's own
/// value: the user name or the email as its text.
pub proof fn lemma_search_args_bind_values(fv: Seq<FieldView>)
    ensures
        search_args(fv).len() == fv.len(),
        forall|k: int| 0 <= k < fv.len() ==> match #[trigger] fv[k] {
            FieldView::Username(u) => search_args(fv)[k] == SqlArg::Text(u),
            FieldView::Email(e) => search_args(fv)[k] == SqlArg::Text(e),
            _ => true,
        },
{
}

/// The SQL text of the lookup of a user matching any of the fields.
pub open spec fn find_by_any_sql(fv: Seq<FieldView>) -> Seq<char> {
    "SELECT * FROM users WHERE "@ + assignment_list(field_names(fv), " or "@)
}

impl Field {
    /// The column the field stands for.
    pub fn name(&self) -> (r: &'static str)
        ensures
            r@ == field_name(self@),
    {
        match self {
            Field::Id(_) => "id",
            Field::Username(_) => "username",
            Field::Email(_) => "email",
            Field::Password(_) => "password",
            Field::CreatedAt(_) => "created_at",
        }
    }
}

/// A deletion found its user when it removed a row.
pub fn delete_found(rows_affected: u64) -> (r: bool)
    ensures
        r == (rows_affected > 0),
{
    rows_affected > 0
}

/// The query that finds a user whose field equals any of the values given.
/// Refused with `empty fields` when no field is given, and with
/// `field is not supported` when a field other than the user name and the
/// email is given. Every text must fit in one bound value.
pub fn find_by_any_query(fields: Vec<Field>) -> (r: Result<SqlQuery, String>)
    requires
        bound_texts_fit(fields_view(fields@)),
    ensures
        ({
            let fv = fields_view(fields@);
            match r {
                Ok(q) => {
                    &&& fv.len() > 0
                    &&& forall|k: int| 0 <= k < fv.len() ==> searchable(#[trigger] fv[k])
                    &&& builder_sql(q) == find_by_any_sql(fv)
                    &&& builder_args(q) == search_args(fv)
                    &&& builder_args(q).len() == fields@.len()
                    &&& forall|k: int| 0 <= k < fields@.len() ==> match #[trigger] fields@[k] {
                        Field::Username(u) => builder_args(q)[k] == SqlArg::Text(u@),
                        Field::Email(e) => builder_args(q)[k] == SqlArg::Text(e@),
                        _ => false,
                    }
                },
                Err(m) => {
                    ||| fv.len() == 0 && m@ == "empty fields"@
                    ||| (exists|i: int| 0 <= i < fv.len() && !searchable(#[trigger] fv[i]))
                        && m@ == "field is not supported"@
                },
            }
        }),
{
    let ghost fv = fields_view(fields@);
    let n = fields.len();
    if n == 0 {
        return Err(String::from_str("empty fields"));
    }
    let mut q = builder_new("SELECT * FROM users WHERE ");
    let mut i: usize = 0;
    assert(fv.take(0) =~= Seq::<FieldView>::empty());
    assert(field_names(fv.take(0)) =~= Seq::<Seq<char>>::empty());
    assert(search_args(fv.take(0)) =~= Seq::<SqlArg>::empty());
    assert(builder_sql(q) =~= "SELECT * FROM users WHERE "@ + assignment_list(field_names(fv.take(0)), " or "@));
    while i < n
        invariant
            n == fields@.len(),
            fv == fields_view(fields@),
            bound_texts_fit(fields_view(fields@)),
            0 <= i <= n,
            forall|k: int| 0 <= k < i ==> searchable(#[trigger] fv[k]),
            builder_sql(q) == "SELECT * FROM users WHERE "@ + assignment_list(field_names(fv.take(i as int)), " or "@),
            builder_args(q) == search_args(fv.take(i as int)),
        decreases n - i,
    {
        let f = &fields[i];
        assert(bindable(fv[i as int])) by {
            reveal(bound_texts_fit);
        }
        assert(fv[i as int] == fields@[i as int]@);
        if i > 0 {
            builder_push(&mut q, " or ");
        }
        builder_push(&mut q, f.name());
        builder_push(&mut q, "=");
        assert(builder_args(q).len() == i) by {
            assert(search_args(fv.take(i as int)).len() == i);
        }
        match f {
            Field::Email(e) => {
                builder_push_bind_text(&mut q, e.clone());
            },
            Field::Username(u) => {
                builder_push_bind_text(&mut q, u.clone());
            },
            _ => {
                assert(!searchable(fv[i as int]));
                return Err(String::from_str("field is not supported"));
            },
        }
        proof {
            let names = field_names(fv.take(i + 1));
            assert(names.drop_last() =~= field_names(fv.take(i as int)));
            assert(names.last() == field_name(fv[i as int]));
            assert(names.len() == i + 1);
            assert(search_args(fv.take(i + 1)) =~= search_args(fv.take(i as int)).push(search_arg(fv[i as int])));
            assert(builder_sql(q) =~= "SELECT * FROM users WHERE "@ + assignment_list(names, " or "@));
        }
        i = i + 1;
    }
    assert(fv.take(n as int) =~= fv);
    proof {
        lemma_search_args_bind_values(fv);
        assert forall|k: int| 0 <= k < fields@.len() implies fv[k] == (#[trigger] fields@[k])@ by {}
    }
    Ok(q)
}

} // verus!
