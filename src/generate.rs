//! Generation of the capability implementations of a struct, as Rust source.
use vstd::prelude::*;
use crate::shape::{
    GenError, StructShape, all_named, field_names, field_types, first_unnamed,
    name_of, named_fields,
};
use crate::text::{lemma_views_push, angled, angled_text, decimal, decimal_text, joined, join_text, nest, nest_text, views};

verus! {

/// The type-level form of a field name: one `NameCons` per character,
/// carrying its scalar value, ending in `NameNil`.
pub open spec fn name_type(n: Seq<char>) -> Seq<char> {
    nest(
        n.map_values(|c: char| decimal(c as nat)),
        "::constduck::NameCons<"@,
        "::constduck::NameNil"@,
    )
}

/// The field list of a struct with these field names: a `FieldListCons` per
/// name, in the given order, ending in `FieldListNil`.
pub open spec fn field_list_type(names: Seq<Seq<char>>) -> Seq<char> {
    nest(
        names.map_values(|n: Seq<char>| name_type(n)),
        "::constduck::FieldListCons<"@,
        "::constduck::FieldListNil"@,
    )
}

/// The opening of an impl of `cap` for the struct, with these generic
/// parameters, up to and including its brace.
pub open spec fn impl_head(params: Seq<Seq<char>>, cap: Seq<char>, s: StructShape) -> Seq<char> {
    "impl"@ + angled(params) + " "@ + cap + " for "@ + s.name@ + angled(views(s.args@)) + " "@
        + s.where_clause@ + " {"@
}

/// The `Field` impl for the field named `n` of type `t`.
pub open spec fn field_impl(s: StructShape, n: Seq<char>, t: Seq<char>) -> Seq<char> {
    impl_head(views(s.params@), "::constduck::Field<"@ + name_type(n) + ">"@, s) + " type Ty = "@
        + t + "; fn get(&self) -> &Self::Ty { &self."@ + n
        + " } fn get_consume(self) -> Self::Ty { self."@ + n
        + " } fn set(&mut self, new_value: Self::Ty) { self."@ + n + " = new_value; } }\n"@
}

/// One `Field` impl per field of the struct, in declaration order.
pub open spec fn field_impl_seq(s: StructShape) -> Seq<Seq<char>> {
    Seq::new(
        s.fields@.len(),
        |i: int| field_impl(s, name_of(s.fields@[i]), s.fields@[i].ty@),
    )
}

/// The generic parameter that receives the value supplied for field `i`,
/// of type `t`.
pub open spec fn target_param(i: nat, t: Seq<char>) -> Seq<char> {
    "__K"@ + decimal(i) + ": ::core::convert::Into<"@ + t + ">"@
}

/// The bound on the source that supplies field `i`, named `n`.
pub open spec fn source_bound(i: nat, n: Seq<char>) -> Seq<char> {
    "::constduck::WithField<"@ + name_type(n) + ", Output = __K"@ + decimal(i) + ">"@
}

/// The source parameter, bound to supply every named field.
pub open spec fn source_param(names: Seq<Seq<char>>) -> Seq<char> {
    if names.len() == 0 {
        "__D"@
    } else {
        "__D: "@ + joined(Seq::new(names.len(), |i: int| source_bound(i as nat, names[i])), " + "@)
    }
}

/// The generic parameters of the `ConstructFrom` impl: the struct's own,
/// then one target per field, then the source.
pub open spec fn construct_params(s: StructShape) -> Seq<Seq<char>> {
    let types = field_types(s.fields@);
    views(s.params@) + Seq::new(types.len(), |i: int| target_param(i as nat, types[i])).push(
        source_param(field_names(s.fields@)),
    )
}

/// The initialiser of field `n`, from the value the source supplies for it.
pub open spec fn field_init(n: Seq<char>) -> Seq<char> {
    n + ": <__D as ::constduck::WithField<"@ + name_type(n) + ">>::value(&data).into(), "@
}

/// The initialisers of the fields, in declaration order.
pub open spec fn field_inits(s: StructShape) -> Seq<Seq<char>> {
    field_names(s.fields@).map_values(|n: Seq<char>| field_init(n))
}

/// The `ConstructFrom` impl of the struct.
pub open spec fn construct_impl(s: StructShape) -> Seq<char> {
    impl_head(construct_params(s), "::constduck::ConstructFrom<__D>"@, s)
        + " fn construct(data: __D) -> Self { Self { "@ + field_inits(s).flatten() + "} } }\n"@
}

/// The items shared by the `ConstDuck` and `ConstDuckGeneric` impls.
pub open spec fn duck_body(s: StructShape) -> Seq<char> {
    " const NAME: &'static str = \""@ + s.name@ + "\"; type Fields = "@ + field_list_type(
        field_names(s.fields@),
    ) + "; }\n"@
}

/// The `ConstDuck` impl of the struct.
pub open spec fn duck_impl(s: StructShape) -> Seq<char> {
    impl_head(views(s.params@), "::constduck::ConstDuck"@, s) + duck_body(s)
}

/// The generic parameters of the `ConstDuckGeneric` impl: the struct's own,
/// then the guard.
pub open spec fn guarded_params(s: StructShape) -> Seq<Seq<char>> {
    views(s.params@).push("__T"@)
}

/// The `ConstDuckGeneric` impl of the struct.
pub open spec fn guarded_impl(s: StructShape) -> Seq<char> {
    impl_head(guarded_params(s), "::constduck::ConstDuckGeneric<__T>"@, s) + duck_body(s)
}

/// Everything generated for a struct whose fields all have names.
pub open spec fn generated(s: StructShape) -> Seq<char> {
    field_impl_seq(s).flatten() + construct_impl(s) + duck_impl(s) + guarded_impl(s)
}

/// Writes the type-level form of a field name.
pub fn name_type_text(name: &str) -> (r: String)
    ensures
        r@ == name_type(name@),
{
    let len = name.unicode_len();
    let mut codes: Vec<String> = Vec::new();
    let mut i: usize = 0;
    while i < len
        invariant
            i <= len,
            len == name@.len(),
            views(codes@) == name@.take(i as int).map_values(|c: char| decimal(c as nat)),
        decreases len - i,
    {
        let c = name.get_char(i);
        let code = decimal_text(c as u32 as u64);
        let ghost before = codes@;
        codes.push(code);
        assert(views(codes@) =~= name@.take(i + 1).map_values(|c: char| decimal(c as nat))) by {
            assert(views(before).len() == i);
            assert forall|j: int| 0 <= j < i implies #[trigger] codes@[j]@ == decimal(name@[j] as nat) by {
                assert(codes@[j] == before[j]);
                assert(views(before)[j] == name@.take(i as int).map_values(|c: char| decimal(c as nat))[j]);
            }
        }
        i = i + 1;
    }
    assert(name@.take(len as int) =~= name@);
    nest_text(&codes, "::constduck::NameCons<", "::constduck::NameNil")
}

/// Writes the field list of a struct with these field names, in their order.
pub fn field_list_text(names: &Vec<String>) -> (r: String)
    ensures
        r@ == field_list_type(views(names@)),
{
    let mut items: Vec<String> = Vec::new();
    let mut i: usize = 0;
    while i < names.len()
        invariant
            i <= names.len(),
            views(items@) == views(names@.take(i as int)).map_values(|n: Seq<char>| name_type(n)),
        decreases names.len() - i,
    {
        let item = name_type_text(names[i].as_str());
        let ghost before = items@;
        items.push(item);
        assert(views(items@) =~= views(names@.take(i + 1)).map_values(|n: Seq<char>| name_type(n))) by {
            assert(views(before).len() == i);
            assert forall|j: int| 0 <= j < i implies #[trigger] items@[j]@ == name_type(names@[j]@) by {
                assert(items@[j] == before[j]);
                assert(views(before)[j] == views(names@.take(i as int)).map_values(|n: Seq<char>| name_type(n))[j]);
            }
        }
        i = i + 1;
    }
    assert(names@.take(names.len() as int) =~= names@);
    nest_text(&items, "::constduck::FieldListCons<", "::constduck::FieldListNil")
}

fn impl_head_text(params: &Vec<String>, cap: &str, s: &StructShape) -> (r: String)
    ensures
        r@ == impl_head(views(params@), cap@, *s),
{
    let mut out = String::from_str("impl");
    out.append(angled_text(params).as_str());
    out.append(" ");
    out.append(cap);
    out.append(" for ");
    out.append(s.name.as_str());
    out.append(angled_text(&s.args).as_str());
    out.append(" ");
    out.append(s.where_clause.as_str());
    out.append(" {");
    out
}

/// Writes the `Field` impl for the field named `name` of type `ty`.
pub fn field_impl_text(s: &StructShape, name: &String, ty: &String) -> (r: String)
    ensures
        r@ == field_impl(*s, name@, ty@),
{
    let mut cap = String::from_str("::constduck::Field<");
    cap.append(name_type_text(name.as_str()).as_str());
    cap.append(">");
    let mut out = impl_head_text(&s.params, cap.as_str(), s);
    out.append(" type Ty = ");
    out.append(ty.as_str());
    out.append("; fn get(&self) -> &Self::Ty { &self.");
    out.append(name.as_str());
    out.append(" } fn get_consume(self) -> Self::Ty { self.");
    out.append(name.as_str());
    out.append(" } fn set(&mut self, new_value: Self::Ty) { self.");
    out.append(name.as_str());
    out.append(" = new_value; } }\n");
    out
}

fn copy_strings(v: &Vec<String>) -> (r: Vec<String>)
    ensures
        views(r@) == views(v@),
{
    let mut out: Vec<String> = Vec::new();
    let mut i: usize = 0;
    while i < v.len()
        invariant
            i <= v.len(),
            views(out@) == views(v@.take(i as int)),
        decreases v.len() - i,
    {
        let ghost before = out@;
        out.push(v[i].clone());
        proof {
            lemma_views_push(before, v@[i as int]);
            assert(v@.take(i + 1) =~= v@.take(i as int).push(v@[i as int]));
            lemma_views_push(v@.take(i as int), v@[i as int]);
        }
        i = i + 1;
    }
    assert(v@.take(v.len() as int) =~= v@);
    out
}

/// Lists the generic parameters of the `ConstructFrom` impl: the struct's
/// own, one conversion target per field, and the source bound to supply
/// every field.
pub fn construct_params_text(s: &StructShape, names: &Vec<String>) -> (r: Vec<String>)
    requires
        views(names@) == field_names(s.fields@),
    ensures
        views(r@) == construct_params(*s),
{
    let ghost types = field_types(s.fields@);
    let ghost own = views(s.params@);
    let mut out = copy_strings(&s.params);
    let mut i: usize = 0;
    while i < s.fields.len()
        invariant
            i <= s.fields.len(),
            types == field_types(s.fields@),
            views(out@) == own + Seq::new(i as nat, |k: int| target_param(k as nat, types[k])),
        decreases s.fields.len() - i,
    {
        let mut p = String::from_str("__K");
        p.append(decimal_text(i as u64).as_str());
        p.append(": ::core::convert::Into<");
        p.append(s.fields[i].ty.as_str());
        p.append(">");
        let ghost before = out@;
        out.push(p);
        proof {
            lemma_views_push(before, p);
        }
        assert(views(out@) =~= own + Seq::new((i + 1) as nat, |k: int| target_param(k as nat, types[k])));
        i = i + 1;
    }
    let ghost targets = views(out@);
    let ghost n = field_names(s.fields@);
    let ghost before = out@;
    if names.len() == 0 {
        let d = String::from_str("__D");
        out.push(d);
        proof {
            lemma_views_push(before, d);
        }
    } else {
        let mut bounds: Vec<String> = Vec::new();
        let mut j: usize = 0;
        while j < names.len()
            invariant
                j <= names.len(),
                views(names@) == n,
                views(bounds@) == Seq::new(j as nat, |k: int| source_bound(k as nat, n[k])),
            decreases names.len() - j,
        {
            let mut b = String::from_str("::constduck::WithField<");
            b.append(name_type_text(names[j].as_str()).as_str());
            b.append(", Output = __K");
            b.append(decimal_text(j as u64).as_str());
            b.append(">");
            assert(names@[j as int]@ == n[j as int]);
            let ghost before = bounds@;
            bounds.push(b);
            proof {
                lemma_views_push(before, b);
            }
            assert(views(bounds@) =~= Seq::new((j + 1) as nat, |k: int| source_bound(k as nat, n[k])));
            j = j + 1;
        }
        let mut d = String::from_str("__D: ");
        d.append(join_text(&bounds, " + ").as_str());
        out.push(d);
        proof {
            lemma_views_push(before, d);
        }
    }
    assert(views(out@) =~= construct_params(*s));
    out
}

/// Writes the `ConstructFrom` impl of the struct.
pub fn construct_impl_text(s: &StructShape, names: &Vec<String>) -> (r: String)
    requires
        views(names@) == field_names(s.fields@),
    ensures
        r@ == construct_impl(*s),
{
    let params = construct_params_text(s, names);
    let mut out = impl_head_text(&params, "::constduck::ConstructFrom<__D>", s);
    out.append(" fn construct(data: __D) -> Self { Self { ");
    let ghost start = out@;
    let ghost inits = field_inits(*s);
    let mut i: usize = 0;
    while i < names.len()
        invariant
            i <= names.len(),
            views(names@) == field_names(s.fields@),
            inits == field_inits(*s),
            out@ == start + inits.take(i as int).flatten(),
        decreases names.len() - i,
    {
        out.append(names[i].as_str());
        out.append(": <__D as ::constduck::WithField<");
        out.append(name_type_text(names[i].as_str()).as_str());
        out.append(">>::value(&data).into(), ");
        proof {
            assert(inits.take(i + 1) =~= inits.take(i as int).push(inits[i as int]));
            inits.take(i as int).lemma_flatten_push(inits[i as int]);
            assert(names@[i as int]@ == field_names(s.fields@)[i as int]);
        }
        assert(out@ =~= start + inits.take(i + 1).flatten());
        i = i + 1;
    }
    assert(inits.take(names.len() as int) =~= inits);
    out.append("} } }\n");
    out
}

fn duck_body_text(s: &StructShape, names: &Vec<String>) -> (r: String)
    requires
        views(names@) == field_names(s.fields@),
    ensures
        r@ == duck_body(*s),
{
    let mut out = String::from_str(" const NAME: &'static str = \"");
    out.append(s.name.as_str());
    out.append("\"; type Fields = ");
    out.append(field_list_text(names).as_str());
    out.append("; }\n");
    out
}

/// Writes the `ConstDuck` impl of the struct.
pub fn duck_impl_text(s: &StructShape, names: &Vec<String>) -> (r: String)
    requires
        views(names@) == field_names(s.fields@),
    ensures
        r@ == duck_impl(*s),
{
    let mut out = impl_head_text(&s.params, "::constduck::ConstDuck", s);
    out.append(duck_body_text(s, names).as_str());
    out
}

/// Lists the generic parameters of the `ConstDuckGeneric` impl: the
/// struct's own, then the guard.
pub fn guarded_params_text(s: &StructShape) -> (r: Vec<String>)
    ensures
        views(r@) == guarded_params(*s),
{
    let mut out = copy_strings(&s.params);
    let ghost before = out@;
    let t = String::from_str("__T");
    out.push(t);
    proof {
        lemma_views_push(before, t);
    }
    assert(views(out@) =~= guarded_params(*s));
    out
}

/// Writes the `ConstDuckGeneric` impl of the struct.
pub fn guarded_impl_text(s: &StructShape, names: &Vec<String>) -> (r: String)
    requires
        views(names@) == field_names(s.fields@),
    ensures
        r@ == guarded_impl(*s),
{
    let params = guarded_params_text(s);
    let mut out = impl_head_text(&params, "::constduck::ConstDuckGeneric<__T>", s);
    out.append(duck_body_text(s, names).as_str());
    out
}

/// Writes every capability impl of the struct: one `Field` impl per field,
/// `ConstructFrom`, `ConstDuck` and `ConstDuckGeneric`. Fails, producing
/// nothing, when a field has no name.
pub fn generate(s: &StructShape) -> (r: Result<String, GenError>)
    ensures
        r is Ok <==> all_named(s.fields@),
        r matches Ok(text) ==> text@ == generated(*s),
        r matches Err(GenError::UnnamedField { index }) ==> first_unnamed(s.fields@, index as int),
{
    let names = match named_fields(&s.fields) {
        Ok(names) => names,
        Err(e) => {
            return Err(e);
        },
    };
    let ghost impls = field_impl_seq(*s);
    assert(views(names@).len() == names@.len());
    let mut out = String::new();
    let mut i: usize = 0;
    while i < s.fields.len()
        invariant
            i <= s.fields.len(),
            names@.len() == s.fields@.len(),
            views(names@) == field_names(s.fields@),
            impls == field_impl_seq(*s),
            out@ == impls.take(i as int).flatten(),
        decreases s.fields.len() - i,
    {
        let item = field_impl_text(s, &names[i], &s.fields[i].ty);
        out.append(item.as_str());
        proof {
            assert(names@[i as int]@ == field_names(s.fields@)[i as int]);
            assert(impls.take(i + 1) =~= impls.take(i as int).push(impls[i as int]));
            impls.take(i as int).lemma_flatten_push(impls[i as int]);
        }
        i = i + 1;
    }
    assert(impls.take(s.fields.len() as int) =~= impls);
    out.append(construct_impl_text(s, &names).as_str());
    out.append(duck_impl_text(s, &names).as_str());
    out.append(guarded_impl_text(s, &names).as_str());
    Ok(out)
}

} // verus!
