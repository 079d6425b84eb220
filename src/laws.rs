//! Laws of the generator, stated over the specifications of its output.
use vstd::prelude::*;
use crate::generate::{
    construct_impl, construct_params, duck_impl, field_impl, field_impl_seq, field_init, field_inits,
    field_list_type, generated, guarded_impl, name_type, source_param, target_param,
};
use crate::shape::{StructShape, all_named, field_names, field_types};
use crate::text::views;

verus! {

/// Each field gets exactly one `Field` impl, keyed by the field's name and
/// typed by its declared type, and the output holds no other `Field` impl:
/// it is the sequence of those impls, in declaration order, followed by the
/// `ConstructFrom`, `ConstDuck` and `ConstDuckGeneric` impls.
pub proof fn lemma_one_field_capability_per_field(s: StructShape)
    requires
        all_named(s.fields@),
    ensures
        field_impl_seq(s).len() == s.fields@.len(),
        forall|i: int|
            0 <= i < s.fields@.len() ==> #[trigger] field_impl_seq(s)[i] == field_impl(
                s,
                field_names(s.fields@)[i],
                field_types(s.fields@)[i],
            ),
        generated(s) == field_impl_seq(s).flatten() + construct_impl(s) + duck_impl(s)
            + guarded_impl(s),
{
}

/// The field list follows declaration order: for fields `(a, b, c)` it is
/// `a`, then the list of `(b, c)`, and the list of no fields is the empty
/// terminator.
pub proof fn lemma_field_list_declaration_order(names: Seq<Seq<char>>)
    ensures
        names.len() == 0 ==> field_list_type(names) == "::constduck::FieldListNil"@,
        names.len() > 0 ==> field_list_type(names) == "::constduck::FieldListCons<"@ + name_type(
            names[0],
        ) + ", "@ + field_list_type(names.drop_first()) + ">"@,
{
    if names.len() > 0 {
        assert(names.map_values(|n: Seq<char>| name_type(n)).drop_first() =~= names.drop_first().map_values(
            |n: Seq<char>| name_type(n),
        ));
    }
}

/// Construction covers every field: the `ConstructFrom` impl takes the
/// struct's own generic parameters unchanged, then for field `i` a target
/// convertible into its declared type, then a source bound to supply each
/// field by name; and it initialises each field, in order, from the value
/// supplied for its own name.
pub proof fn lemma_construct_covers_every_field(s: StructShape)
    ensures
        construct_params(s).len() == s.params@.len() + s.fields@.len() + 1,
        construct_params(s).take(s.params@.len() as int) == views(s.params@),
        forall|i: int|
            0 <= i < s.fields@.len() ==> #[trigger] construct_params(s)[s.params@.len() + i]
                == target_param(i as nat, field_types(s.fields@)[i]),
        construct_params(s).last() == source_param(field_names(s.fields@)),
        field_inits(s).len() == s.fields@.len(),
        forall|i: int|
            0 <= i < s.fields@.len() ==> #[trigger] field_inits(s)[i] == field_init(
                field_names(s.fields@)[i],
            ),
{
    assert(construct_params(s).take(s.params@.len() as int) =~= views(s.params@));
}

} // verus!
