//! What the declaration of a record type amounts to: the name of its table,
//! the names of its columns, and its indexes.
//!
//! A declaration is read as plain values: the name of the type, and for each
//! field its name and its attributes, each attribute with the one word it
//! may carry in brackets.

use vstd::prelude::*;
use crate::orm::schema::idx::IndexType;
use crate::table::{distinct, position_of, lemma_position_of};
use crate::text::same_text;

verus! {

/// An attribute on a type or a field: its name and the word in its brackets,
/// if it has one.
#[derive(Debug, Clone, PartialEq, Eq)]
pub struct Attribute {
    pub name: String,
    pub argument: Option<String>,
}

/// A field as far as indexes go: the name of its column and the index it
/// belongs to, if any.
#[derive(Debug, Clone, PartialEq, Eq)]
pub struct FieldDecl {
    pub column: String,
    pub index: Option<(String, IndexType)>,
}

/// An index of a table: its name, its kind and its columns in the order of
/// the fields.
#[derive(Debug, Clone, PartialEq, Eq)]
pub struct IndexDecl {
    pub name: String,
    pub index_type: IndexType,
    pub for_columns: Vec<String>,
}

/// The mathematical value of an [`Attribute`].
pub type AttributeView = (Seq<char>, Option<Seq<char>>);

/// The mathematical value of a [`FieldDecl`].
pub type FieldView = (Seq<char>, Option<(Seq<char>, IndexType)>);

/// The mathematical value of an [`IndexDecl`].
pub type IndexView = (Seq<char>, IndexType, Seq<Seq<char>>);

impl View for Attribute {
    type V = AttributeView;

    open spec fn view(&self) -> AttributeView {
        (
            self.name@,
            match self.argument {
                Some(word) => Some(word@),
                None => None,
            },
        )
    }
}

impl View for FieldDecl {
    type V = FieldView;

    open spec fn view(&self) -> FieldView {
        (
            self.column@,
            match self.index {
                Some((name, kind)) => Some((name@, kind)),
                None => None,
            },
        )
    }
}

impl View for IndexDecl {
    type V = IndexView;

    open spec fn view(&self) -> IndexView {
        (self.name@, self.index_type, self.for_columns@.map_values(|c: String| c@))
    }
}

/// The values of a row of attributes, in order.
pub open spec fn attributes_view(attrs: Seq<Attribute>) -> Seq<AttributeView> {
    attrs.map_values(|a: Attribute| a@)
}

/// The values of a row of fields, in order.
pub open spec fn fields_view(fields: Seq<FieldDecl>) -> Seq<FieldView> {
    fields.map_values(|f: FieldDecl| f@)
}

/// The values of a row of indexes, in order.
pub open spec fn indexes_view(indexes: Seq<IndexDecl>) -> Seq<IndexView> {
    indexes.map_values(|i: IndexDecl| i@)
}

/// The word of the first attribute called `name` that carries one.
pub open spec fn declared(attrs: Seq<AttributeView>, name: Seq<char>) -> Option<Seq<char>>
    decreases attrs.len(),
{
    if attrs.len() == 0 {
        None
    } else if attrs[0].0 == name && attrs[0].1 is Some {
        attrs[0].1
    } else {
        declared(attrs.drop_first(), name)
    }
}

/// The index that one attribute puts a field into, if it puts it into one.
///
/// `col_primary` and `col_primary_autoinc` both name the index
/// `col_primary`; `col_index` and `col_unique` name the index by the word
/// they carry, and say nothing without one.
pub open spec fn index_of(attr: AttributeView) -> Option<(Seq<char>, IndexType)> {
    if attr.0 == "col_primary"@ {
        Some(("col_primary"@, IndexType::Primary))
    } else if attr.0 == "col_primary_autoinc"@ {
        Some(("col_primary"@, IndexType::PrimaryAutoInc))
    } else if attr.0 == "col_unique"@ {
        match attr.1 {
            Some(word) => Some((word, IndexType::Unique)),
            None => None,
        }
    } else if attr.0 == "col_index"@ {
        match attr.1 {
            Some(word) => Some((word, IndexType::Index)),
            None => None,
        }
    } else {
        None
    }
}

/// The index that the first attribute that names one puts a field into.
pub open spec fn first_index(attrs: Seq<AttributeView>) -> Option<(Seq<char>, IndexType)>
    decreases attrs.len(),
{
    if attrs.len() == 0 {
        None
    } else if index_of(attrs[0]) is Some {
        index_of(attrs[0])
    } else {
        first_index(attrs.drop_first())
    }
}

/// The columns of the fields that belong to the index `name`, in the order
/// of the fields.
pub open spec fn columns_in(fields: Seq<FieldView>, name: Seq<char>) -> Seq<Seq<char>>
    decreases fields.len(),
{
    if fields.len() == 0 {
        Seq::empty()
    } else {
        let before = columns_in(fields.drop_last(), name);
        match fields.last().1 {
            Some((index, _)) => if index == name {
                before.push(fields.last().0)
            } else {
                before
            },
            None => before,
        }
    }
}

/// The kind of the index `name`: the kind that the last field of that index
/// gives it.
pub open spec fn kind_in(fields: Seq<FieldView>, name: Seq<char>) -> Option<IndexType>
    decreases fields.len(),
{
    if fields.len() == 0 {
        None
    } else {
        match fields.last().1 {
            Some((index, kind)) => if index == name {
                Some(kind)
            } else {
                kind_in(fields.drop_last(), name)
            },
            None => kind_in(fields.drop_last(), name),
        }
    }
}

/// The names of the indexes, each once, in the order in which the fields
/// first mention them.
pub open spec fn names_in(fields: Seq<FieldView>) -> Seq<Seq<char>>
    decreases fields.len(),
{
    if fields.len() == 0 {
        Seq::empty()
    } else {
        let before = names_in(fields.drop_last());
        match fields.last().1 {
            Some((index, _)) => if before.contains(index) {
                before
            } else {
                before.push(index)
            },
            None => before,
        }
    }
}

/// The indexes that a row of fields declares.
pub open spec fn grouped(fields: Seq<FieldView>) -> Seq<IndexView> {
    Seq::new(
        names_in(fields).len(),
        |i: int|
            (
                names_in(fields)[i],
                kind_in(fields, names_in(fields)[i]).unwrap(),
                columns_in(fields, names_in(fields)[i]),
            ),
    )
}

/// No index is named twice, and every index named has a kind.
pub proof fn lemma_names_in(fields: Seq<FieldView>)
    ensures
        distinct(names_in(fields)),
        forall|name: Seq<char>| names_in(fields).contains(name) <==> kind_in(fields, name) is Some,
    decreases fields.len(),
{
    if fields.len() > 0 {
        let before = names_in(fields.drop_last());
        lemma_names_in(fields.drop_last());
        match fields.last().1 {
            Some((index, _)) => {
                if !before.contains(index) {
                    let after = before.push(index);
                    assert forall|i: int, j: int| 0 <= i < j < after.len() implies after[i]
                        != after[j] by {
                        if j == before.len() {
                            assert(before.contains(before[i]));
                        }
                    }
                    assert forall|name: Seq<char>| after.contains(name) <==> kind_in(
                        fields,
                        name,
                    ) is Some by {
                        if after.contains(name) {
                            let i = choose|i: int| 0 <= i < after.len() && after[i] == name;
                            if i < before.len() {
                                assert(before.contains(before[i]));
                            }
                        }
                        if name == index {
                            assert(after[before.len() as int] == index);
                        }
                        if before.contains(name) {
                            let i = choose|i: int| 0 <= i < before.len() && before[i] == name;
                            assert(after[i] == name);
                        }
                    }
                }
            },
            None => {},
        }
    }
}

/// The name of the table of a type: the word that its `table_name`
/// attribute carries, or else the name of the type.
pub fn table_name(struct_name: &str, attrs: &Vec<Attribute>) -> (name: String)
    ensures
        name@ == match declared(attributes_view(attrs@), "table_name"@) {
            Some(word) => word,
            None => struct_name@,
        },
{
    match extract_table_name(attrs) {
        Some(word) => word,
        None => struct_name.to_owned(),
    }
}

/// The word that the first `table_name` attribute with a word carries.
pub fn extract_table_name(attrs: &Vec<Attribute>) -> (name: Option<String>)
    ensures
        match name {
            Some(word) => declared(attributes_view(attrs@), "table_name"@) == Some(word@),
            None => declared(attributes_view(attrs@), "table_name"@) is None,
        },
{
    find_declared(attrs, "table_name")
}

/// The name of the column of a field: the word that its `col_name`
/// attribute carries, or else the name of the field.
pub fn extract_column_name(field_name: &str, attrs: &Vec<Attribute>) -> (name: String)
    ensures
        name@ == match declared(attributes_view(attrs@), "col_name"@) {
            Some(word) => word,
            None => field_name@,
        },
{
    match find_declared(attrs, "col_name") {
        Some(word) => word,
        None => field_name.to_owned(),
    }
}

/// Finds the word of the first attribute called `name` that carries one.
fn find_declared(attrs: &Vec<Attribute>, name: &str) -> (found: Option<String>)
    ensures
        match found {
            Some(word) => declared(attributes_view(attrs@), name@) == Some(word@),
            None => declared(attributes_view(attrs@), name@) is None,
        },
{
    let ghost all = attributes_view(attrs@);
    let mut i: usize = 0;
    assert(all.subrange(0, all.len() as int) =~= all);
    while i < attrs.len()
        invariant
            i <= attrs.len(),
            all == attributes_view(attrs@),
            declared(all, name@) == declared(all.subrange(i as int, all.len() as int), name@),
        decreases attrs.len() - i,
    {
        let ghost rest = all.subrange(i as int, all.len() as int);
        assert(rest[0] == attrs@[i as int]@);
        assert(rest.drop_first() =~= all.subrange(i + 1, all.len() as int));
        if same_text(attrs[i].name.as_str(), name) {
            if let Some(word) = &attrs[i].argument {
                return Some(word.clone());
            }
        }
        i += 1;
    }
    None
}

/// The index that the attributes of a field put it into: the first
/// attribute that names an index decides.
pub fn extract_idx_name(attrs: &Vec<Attribute>) -> (index: Option<(String, IndexType)>)
    ensures
        match index {
            Some((name, kind)) => first_index(attributes_view(attrs@)) == Some((name@, kind)),
            None => first_index(attributes_view(attrs@)) is None,
        },
{
    let ghost all = attributes_view(attrs@);
    let mut i: usize = 0;
    assert(all.subrange(0, all.len() as int) =~= all);
    while i < attrs.len()
        invariant
            i <= attrs.len(),
            all == attributes_view(attrs@),
            first_index(all) == first_index(all.subrange(i as int, all.len() as int)),
        decreases attrs.len() - i,
    {
        let ghost rest = all.subrange(i as int, all.len() as int);
        assert(rest[0] == attrs@[i as int]@);
        assert(rest.drop_first() =~= all.subrange(i + 1, all.len() as int));
        let attr = &attrs[i];
        let name = attr.name.as_str();
        if same_text(name, "col_primary") {
            return Some(("col_primary".to_owned(), IndexType::Primary));
        } else if same_text(name, "col_primary_autoinc") {
            return Some(("col_primary".to_owned(), IndexType::PrimaryAutoInc));
        } else if same_text(name, "col_unique") {
            if let Some(word) = &attr.argument {
                return Some((word.clone(), IndexType::Unique));
            }
        } else if same_text(name, "col_index") {
            if let Some(word) = &attr.argument {
                return Some((word.clone(), IndexType::Index));
            }
        }
        i += 1;
    }
    None
}

/// Gathers the fields into the indexes they declare: one index per name,
/// in the order in which the names first occur, each with the columns of its
/// fields in their order and with the kind its last field gives it.
pub fn extract_table_idxs(fields: &Vec<FieldDecl>) -> (indexes: Vec<IndexDecl>)
    ensures
        indexes_view(indexes@) == grouped(fields_view(fields@)),
{
    let ghost all = fields_view(fields@);
    let mut indexes: Vec<IndexDecl> = Vec::new();
    let mut i: usize = 0;
    assert(all.subrange(0, 0) =~= Seq::empty());
    assert(indexes_view(indexes@) =~= grouped(all.subrange(0, 0)));
    while i < fields.len()
        invariant
            i <= fields.len(),
            all == fields_view(fields@),
            indexes_view(indexes@) == grouped(all.subrange(0, i as int)),
        decreases fields.len() - i,
    {
        let ghost seen = all.subrange(0, i as int);
        let ghost next = all.subrange(0, i + 1);
        let ghost before = indexes_view(indexes@);
        proof {
            assert(next.drop_last() =~= seen);
            assert(next.last() == fields@[i as int]@);
            lemma_names_in(seen);
            lemma_names_in(next);
        }
        match &fields[i].index {
            Some((name, kind)) => {
                let ghost names = names_in(seen);
                proof {
                    lemma_position_of(names, name@);
                    assert(names.len() == before.len());
                    assert forall|k: int| 0 <= k < names.len() implies names[k] == before[k].0 by {}
                }
                let mut j: usize = 0;
                while j < indexes.len() && !same_text(indexes[j].name.as_str(), name.as_str())
                    invariant
                        j <= indexes.len(),
                        indexes_view(indexes@) == before,
                        names.len() == before.len(),
                        forall|k: int| 0 <= k < names.len() ==> names[k] == before[k].0,
                        forall|k: int| 0 <= k < j ==> names[k] != name@,
                    decreases indexes.len() - j,
                {
                    assert(indexes_view(indexes@)[j as int] == indexes@[j as int]@);
                    j += 1;
                }
                if j < indexes.len() {
                    proof {
                        assert(indexes_view(indexes@)[j as int] == indexes@[j as int]@);
                        assert(names[j as int] == name@);
                        assert(names.contains(name@));
                    }
                    let group = &mut indexes[j];
                    group.index_type = *kind;
                    group.for_columns.push(fields[i].column.clone());
                    proof {
                        let after = indexes_view(indexes@);
                        let goal = grouped(next);
                        assert(names_in(next) == names);
                        assert(after.len() == goal.len());
                        assert forall|k: int| 0 <= k < after.len() implies after[k] == goal[k] by {
                            assert(after[k] == indexes@[k]@);
                            assert(before[k] == (
                                names[k],
                                kind_in(seen, names[k]).unwrap(),
                                columns_in(seen, names[k]),
                            ));
                            if k == j {
                                assert(after[k].2 =~= before[k].2.push(fields@[i as int].column@));
                            } else {
                                assert(names[k] != names[j as int]);
                            }
                        }
                        assert(after =~= goal);
                    }
                } else {
                    proof {
                        assert(!names.contains(name@)) by {
                            if names.contains(name@) {
                                let k = choose|k: int| 0 <= k < names.len() && names[k] == name@;
                                assert(names[k] != name@);
                            }
                        }
                    }
                    let mut for_columns: Vec<String> = Vec::new();
                    for_columns.push(fields[i].column.clone());
                    indexes.push(IndexDecl { name: name.clone(), index_type: *kind, for_columns });
                    proof {
                        let after = indexes_view(indexes@);
                        let goal = grouped(next);
                        assert(names_in(next) == names.push(name@));
                        assert(kind_in(seen, name@) is None);
                        assert(columns_in(seen, name@) =~= Seq::empty()) by {
                            lemma_no_kind_no_columns(seen, name@);
                        }
                        assert(after.len() == goal.len());
                        assert forall|k: int| 0 <= k < after.len() implies after[k] == goal[k] by {
                            assert(after[k] == indexes@[k]@);
                            if k < before.len() {
                                assert(before[k] == (
                                    names[k],
                                    kind_in(seen, names[k]).unwrap(),
                                    columns_in(seen, names[k]),
                                ));
                                assert(names.contains(names[k]));
                            } else {
                                assert(after[k].2 =~= seq![fields@[i as int].column@]);
                                assert(goal[k].2 =~= seq![fields@[i as int].column@]);
                            }
                        }
                        assert(after =~= goal);
                    }
                }
            },
            None => {
                proof {
                    assert(names_in(next) == names_in(seen));
                    assert(grouped(next) =~= grouped(seen));
                }
            },
        }
        i += 1;
    }
    assert(all.subrange(0, fields.len() as int) =~= all);
    indexes
}

/// An index that no field has given a kind has no columns.
proof fn lemma_no_kind_no_columns(fields: Seq<FieldView>, name: Seq<char>)
    requires
        kind_in(fields, name) is None,
    ensures
        columns_in(fields, name) == Seq::<Seq<char>>::empty(),
    decreases fields.len(),
{
    if fields.len() > 0 {
        lemma_no_kind_no_columns(fields.drop_last(), name);
    }
}

} // verus!
