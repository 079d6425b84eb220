//! The shape of a struct, as the generator reads it.
use vstd::prelude::*;

verus! {

/// One field of a struct: its name, if it has one, and the source text of
/// its type.
pub struct FieldShape {
    pub name: Option<String>,
    pub ty: String,
}

/// A struct definition, as plain text pieces.
pub struct StructShape {
    /// The struct's identifier.
    pub name: String,
    /// Its generic parameters as declared, bounds included (`'a`, `T: Clone`,
    /// `const N: usize`).
    pub params: Vec<String>,
    /// The same parameters as arguments of the struct's type (`'a`, `T`, `N`).
    pub args: Vec<String>,
    /// Its where clause with the keyword (`where T: Copy`), or empty text.
    pub where_clause: String,
    /// Its fields, in declaration order.
    pub fields: Vec<FieldShape>,
}

/// Why no implementations can be generated for a struct.
#[derive(Debug, PartialEq, Eq)]
pub enum GenError {
    /// The field at this position has no name.
    UnnamedField { index: usize },
}

/// The name of a field, or empty text for an unnamed one.
pub open spec fn name_of(f: FieldShape) -> Seq<char> {
    match f.name {
        Some(n) => n@,
        None => Seq::empty(),
    }
}

/// The names of the fields, in order.
pub open spec fn field_names(fields: Seq<FieldShape>) -> Seq<Seq<char>> {
    fields.map_values(|f: FieldShape| name_of(f))
}

/// The types of the fields, in order.
pub open spec fn field_types(fields: Seq<FieldShape>) -> Seq<Seq<char>> {
    fields.map_values(|f: FieldShape| f.ty@)
}

/// Every field has a name.
pub open spec fn all_named(fields: Seq<FieldShape>) -> bool {
    forall|i: int| 0 <= i < fields.len() ==> (#[trigger] fields[i]).name is Some
}

/// `index` is the position of the first field without a name.
pub open spec fn first_unnamed(fields: Seq<FieldShape>, index: int) -> bool {
    &&& 0 <= index < fields.len()
    &&& fields[index].name is None
    &&& all_named(fields.take(index))
}

/// Collects the names of the fields, or reports the first unnamed one.
pub fn named_fields(fields: &Vec<FieldShape>) -> (r: Result<Vec<String>, GenError>)
    ensures
        r is Ok <==> all_named(fields@),
        r matches Ok(names) ==> crate::text::views(names@) == field_names(fields@),
        r matches Err(GenError::UnnamedField { index }) ==> first_unnamed(fields@, index as int),
{
    let mut names: Vec<String> = Vec::new();
    let mut i: usize = 0;
    while i < fields.len()
        invariant
            i <= fields.len(),
            all_named(fields@.take(i as int)),
            names@.len() == i,
            crate::text::views(names@) == field_names(fields@.take(i as int)),
        decreases fields.len() - i,
    {
        assert(fields@.take(i + 1).drop_last() =~= fields@.take(i as int));
        match &fields[i].name {
            Some(n) => {
                let ghost old_names = names@;
                let c = n.clone();
                assert(name_of(fields@[i as int]) == c@);
                names.push(c);
                assert(names@ == old_names.push(c));
                assert(fields@.take(i + 1)[i as int] == fields@[i as int]);
                assert forall|j: int| 0 <= j < i implies #[trigger] names@[j]@ == name_of(fields@[j]) by {
                    assert(crate::text::views(old_names)[j] == field_names(fields@.take(i as int))[j]);
                    assert(names@[j] == old_names[j]);
                    assert(fields@.take(i as int)[j] == fields@[j]);
                    assert(crate::text::views(old_names)[j] == old_names[j]@);
                    assert(field_names(fields@.take(i as int))[j] == name_of(fields@[j]));
                }
                assert(crate::text::views(names@) =~= field_names(fields@.take(i + 1)));
                assert(all_named(fields@.take(i + 1))) by {
                    assert forall|j: int| 0 <= j < i + 1 implies (#[trigger] fields@.take(i + 1)[j]).name is Some by {
                        if j < i {
                            assert(fields@.take(i + 1)[j] == fields@.take(i as int)[j]);
                        }
                    }
                }
            },
            None => {
                assert(!all_named(fields@)) by {
                    assert(fields@[i as int].name is None);
                }
                return Err(GenError::UnnamedField { index: i });
            },
        }
        i = i + 1;
    }
    assert(fields@.take(fields.len() as int) =~= fields@);
    Ok(names)
}

} // verus!
