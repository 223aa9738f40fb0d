//! The decisions of the `AuthUser` derive, on a plain description of the
//! annotated item: which field is the id, which the session auth hash, and
//! which error an unusable item gets. The macro shell that reads tokens and
//! emits the impl lives with the compiler.

use vstd::prelude::*;

use crate::text::{push_str, text_eq};

verus! {

/// The shape of the item the derive is applied to.
#[derive(Debug, Clone, PartialEq, Eq)]
pub enum ItemShape {
    /// A struct with named fields, given by name in declaration order.
    NamedStruct(Vec<String>),
    /// A tuple or unit struct.
    UnnamedStruct,
    /// An enum or union.
    NotAStruct,
}

/// The annotated item: the `key = "value"` entries of its `#[auth_user(..)]`
/// attributes in order, and its shape.
#[derive(Debug, Clone, PartialEq, Eq)]
pub struct DeriveInputDesc {
    /// The attribute entries, in order.
    pub attributes: Vec<(String, String)>,
    /// The item's shape.
    pub shape: ItemShape,
}

/// Why the derive refuses an item, in the order the checks run.
#[derive(Debug, Clone, PartialEq, Eq)]
pub enum DeriveError {
    /// No `id = ".."` entry.
    MissingId,
    /// The item is not a struct.
    NotAStruct,
    /// The struct's fields are not named.
    UnnamedFields,
    /// No field has the configured id name.
    IdNotFound(String),
}

/// The fields the generated impl reads, by index into the named fields.
#[derive(Debug, Clone, Copy, PartialEq, Eq, Structural)]
pub struct DerivePlan {
    /// The field returned by `id`.
    pub id_field: usize,
    /// The field returned by `session_auth_hash`; `None` makes it return
    /// `None`.
    pub hash_field: Option<usize>,
}

/// The value of the last entry with `key`, as the attribute scan leaves it.
pub open spec fn last_value(attrs: Seq<(Seq<char>, Seq<char>)>, key: Seq<char>) -> Option<Seq<char>>
    decreases attrs.len(),
{
    if attrs.len() == 0 {
        None
    } else if attrs.last().0 == key {
        Some(attrs.last().1)
    } else {
        last_value(attrs.drop_last(), key)
    }
}

/// The index of the last field named `name`.
pub open spec fn last_index(fields: Seq<Seq<char>>, name: Seq<char>) -> Option<int>
    decreases fields.len(),
{
    if fields.len() == 0 {
        None
    } else if fields.last() == name {
        Some(fields.len() - 1)
    } else {
        last_index(fields.drop_last(), name)
    }
}

/// The attribute entries as text.
pub open spec fn attr_view(attrs: Seq<(String, String)>) -> Seq<(Seq<char>, Seq<char>)> {
    attrs.map_values(|p: (String, String)| (p.0@, p.1@))
}

/// The field names as text.
pub open spec fn fields_view(fields: Seq<String>) -> Seq<Seq<char>> {
    fields.map_values(|f: String| f@)
}

/// What the derive decides: the id entry is required first, then a struct,
/// then named fields, then a field with the id name; the hash field is used
/// when a field has its name and silently dropped otherwise.
pub open spec fn derive_decision(attrs: Seq<(Seq<char>, Seq<char>)>, shape: ItemShape) -> Result<
    (int, Option<int>),
    DeriveError,
> {
    match last_value(attrs, "id"@) {
        None => Err(DeriveError::MissingId),
        Some(id) => match shape {
            ItemShape::NotAStruct => Err(DeriveError::NotAStruct),
            ItemShape::UnnamedStruct => Err(DeriveError::UnnamedFields),
            ItemShape::NamedStruct(fields) => match last_index(fields_view(fields@), id) {
                None => Err(DeriveError::IdNotFound(arbitrary())),
                Some(i) => Ok(
                    (
                        i,
                        match last_value(attrs, "session_auth_hash"@) {
                            None => None,
                            Some(h) => last_index(fields_view(fields@), h),
                        },
                    ),
                ),
            },
        },
    }
}

/// The value of the last entry with `key`.
fn find_last_value(attrs: &Vec<(String, String)>, key: &str) -> (r: Option<String>)
    ensures
        crate::cookie::opt_view(r) == last_value(attr_view(attrs@), key@),
{
    let ghost v = attr_view(attrs@);
    let mut found: Option<String> = None;
    let mut i: usize = 0;
    assert(v.take(0) =~= Seq::<(Seq<char>, Seq<char>)>::empty());
    while i < attrs.len()
        invariant
            0 <= i <= attrs.len(),
            v == attr_view(attrs@),
            crate::cookie::opt_view(found) == last_value(v.take(i as int), key@),
        decreases attrs.len() - i,
    {
        assert(v.take(i + 1).drop_last() =~= v.take(i as int));
        assert(v.take(i + 1).last() == v[i as int]);
        assert(v[i as int] == (attrs@[i as int].0@, attrs@[i as int].1@));
        if text_eq(attrs[i].0.as_str(), key) {
            found = Some(attrs[i].1.clone());
        }
        i = i + 1;
    }
    assert(v.take(attrs.len() as int) =~= v);
    found
}

/// The index of the last field named `name`.
fn find_last_index(fields: &Vec<String>, name: &str) -> (r: Option<usize>)
    ensures
        match r {
            Some(i) => last_index(fields_view(fields@), name@) == Some(i as int),
            None => last_index(fields_view(fields@), name@) is None,
        },
{
    let ghost v = fields_view(fields@);
    let mut found: Option<usize> = None;
    let mut i: usize = 0;
    assert(v.take(0) =~= Seq::<Seq<char>>::empty());
    while i < fields.len()
        invariant
            0 <= i <= fields.len(),
            v == fields_view(fields@),
            match found {
                Some(k) => last_index(v.take(i as int), name@) == Some(k as int),
                None => last_index(v.take(i as int), name@) is None,
            },
        decreases fields.len() - i,
    {
        assert(v.take(i + 1).drop_last() =~= v.take(i as int));
        assert(v.take(i + 1).last() == v[i as int]);
        if text_eq(fields[i].as_str(), name) {
            found = Some(i);
        }
        i = i + 1;
    }
    assert(v.take(fields.len() as int) =~= v);
    found
}

/// Plans the `AuthUser` impl for an item (see [`derive_decision`]); an
/// `IdNotFound` error carries the configured id name.
pub fn plan_auth_user_derive(input: &DeriveInputDesc) -> (r: Result<DerivePlan, DeriveError>)
    ensures
        ({
            let d = derive_decision(attr_view(input.attributes@), input.shape);
            match r {
                Ok(p) => d == Ok::<(int, Option<int>), DeriveError>(
                    (
                        p.id_field as int,
                        match p.hash_field {
                            Some(h) => Some(h as int),
                            None => None,
                        },
                    ),
                ),
                Err(DeriveError::IdNotFound(name)) => d is Err && (d matches Err(
                    DeriveError::IdNotFound(_),
                )) && last_value(attr_view(input.attributes@), "id"@) == Some(name@),
                Err(e) => d == Err::<(int, Option<int>), DeriveError>(e),
            }
        }),
{
    let id = match find_last_value(&input.attributes, "id") {
        Some(id) => id,
        None => return Err(DeriveError::MissingId),
    };
    let fields = match &input.shape {
        ItemShape::NotAStruct => return Err(DeriveError::NotAStruct),
        ItemShape::UnnamedStruct => return Err(DeriveError::UnnamedFields),
        ItemShape::NamedStruct(fields) => fields,
    };
    let id_field = match find_last_index(fields, id.as_str()) {
        Some(i) => i,
        None => return Err(DeriveError::IdNotFound(id)),
    };
    let hash_field = match find_last_value(&input.attributes, "session_auth_hash") {
        None => None,
        Some(h) => find_last_index(fields, h.as_str()),
    };
    Ok(DerivePlan { id_field, hash_field })
}

impl DeriveError {
    /// The compile error the derive reports.
    pub fn message(&self) -> (m: String)
        ensures
            m@ == match *self {
                DeriveError::MissingId => "missing required #[auth_user(id = \"field_name\")] attribute"@,
                DeriveError::NotAStruct => "AuthUser derive only supports structs"@,
                DeriveError::UnnamedFields => "AuthUser derive only supports named fields"@,
                DeriveError::IdNotFound(name) => "id field `"@ + name@ + "` not found in struct"@,
            },
    {
        let mut m = String::new();
        match self {
            DeriveError::MissingId => push_str(&mut m, "missing required #[auth_user(id = \"field_name\")] attribute"),
            DeriveError::NotAStruct => push_str(&mut m, "AuthUser derive only supports structs"),
            DeriveError::UnnamedFields => push_str(&mut m, "AuthUser derive only supports named fields"),
            DeriveError::IdNotFound(name) => {
                push_str(&mut m, "id field `");
                push_str(&mut m, name.as_str());
                push_str(&mut m, "` not found in struct");
            },
        }
        m
    }
}

} // verus!
