use vstd::prelude::*;

verus! {

/// One character of a type-level field name: the Unicode scalar value `C`,
/// followed by the rest of the name `T`.
pub struct NameCons<const C: u32, T>(pub T);

/// The end of a type-level field name.
pub struct NameNil;

/// A struct whose fields were given capabilities: its name and its fields,
/// in declaration order.
pub trait ConstDuck {
    const NAME: &'static str;

    type Fields: FieldList;
}

/// Identical to [`ConstDuck`], but implemented for every guard type `G`.
///
/// Downstream code can implement its own trait for every
/// `T: ConstDuckGeneric<LocalGuard>`, with `LocalGuard` a type of its own,
/// without conflicting with impls of that trait for concrete types.
pub trait ConstDuckGeneric<G> {
    const NAME: &'static str;

    type Fields: FieldList;
}

/// A list of field names, known at compile time.
pub trait FieldList {
}

/// The first field name `H` of a [`FieldList`], and its tail `T`.
pub struct FieldListCons<H, T: FieldList>(pub H, pub T);

/// The end of a [`FieldList`].
pub struct FieldListNil;

impl<H, T: FieldList> FieldList for FieldListCons<H, T> {
}

impl FieldList for FieldListNil {
}

/// Access to the field whose type-level name is `N`.
pub trait Field<N> {
    type Ty;

    fn get(&self) -> &Self::Ty;

    fn get_consume(self) -> Self::Ty;

    fn set(&mut self, value: Self::Ty);
}

/// A source that can supply a value for the field whose type-level name is `N`.
pub trait WithField<N> {
    type Output;

    fn value(&self) -> Self::Output;
}

/// A type that can be built from a source of type `T`.
pub trait ConstructFrom<T>: Sized {
    fn construct(t: T) -> Self;
}

} // verus!
