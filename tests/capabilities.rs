use constduck::{
    ConstDuck, ConstDuckGeneric, ConstructFrom, Field, FieldListCons, FieldListNil, NameCons,
    NameNil, WithField,
};

// Type-level names, as the generator spells them.
type Money = NameCons<109, NameCons<111, NameCons<110, NameCons<101, NameCons<121, NameNil>>>>>;
type Name = NameCons<110, NameCons<97, NameCons<109, NameCons<101, NameNil>>>>;
type Counter = NameCons<99, NameCons<111, NameCons<117, NameCons<110, NameCons<116, NameCons<101, NameCons<114, NameNil>>>>>>>;
type Text = NameCons<116, NameCons<101, NameCons<120, NameCons<116, NameNil>>>>;

struct Donald {
    name: String,
    money: i64,
}

// The impls below are what the generator writes for `Donald`.
impl ::constduck::Field<Name> for Donald {
    type Ty = String;
    fn get(&self) -> &Self::Ty { &self.name }
    fn get_consume(self) -> Self::Ty { self.name }
    fn set(&mut self, new_value: Self::Ty) { self.name = new_value; }
}

impl ::constduck::Field<Money> for Donald {
    type Ty = i64;
    fn get(&self) -> &Self::Ty { &self.money }
    fn get_consume(self) -> Self::Ty { self.money }
    fn set(&mut self, new_value: Self::Ty) { self.money = new_value; }
}

impl ::constduck::ConstDuck for Donald {
    const NAME: &'static str = "Donald";
    type Fields = FieldListCons<Name, FieldListCons<Money, FieldListNil>>;
}

impl<__T> ::constduck::ConstDuckGeneric<__T> for Donald {
    const NAME: &'static str = "Donald";
    type Fields = FieldListCons<Name, FieldListCons<Money, FieldListNil>>;
}

struct Tally {
    counter: u32,
    text: String,
}

impl<__K0: ::core::convert::Into<u32>, __K1: ::core::convert::Into<String>, __D: ::constduck::WithField<Counter, Output = __K0> + ::constduck::WithField<Text, Output = __K1>> ::constduck::ConstructFrom<__D> for Tally {
    fn construct(data: __D) -> Self {
        Self {
            counter: <__D as ::constduck::WithField<Counter>>::value(&data).into(),
            text: <__D as ::constduck::WithField<Text>>::value(&data).into(),
        }
    }
}

struct Source;

impl WithField<Counter> for Source {
    type Output = u32;
    fn value(&self) -> u32 { 5u32 }
}

impl WithField<Text> for Source {
    type Output = String;
    fn value(&self) -> String { String::new() }
}

struct Narrow;

impl WithField<Counter> for Narrow {
    type Output = u8;
    fn value(&self) -> u8 { 200 }
}

impl WithField<Text> for Narrow {
    type Output = &'static str;
    fn value(&self) -> &'static str { "hi" }
}

fn deduct<T: Field<Money, Ty = i64>>(t: &mut T) {
    let v = *t.get() - 5;
    t.set(v);
}

#[test]
fn donald_money_round_trip() {
    let mut d = Donald { name: "Donald".to_string(), money: 10 };
    assert_eq!(*<Donald as Field<Money>>::get(&d), 10);
    <Donald as Field<Money>>::set(&mut d, -5);
    assert_eq!(*<Donald as Field<Money>>::get(&d), -5);
    assert_eq!(d.name, "Donald");
}

#[test]
fn set_then_get_each_field() {
    let mut d = Donald { name: String::new(), money: 0 };
    <Donald as Field<Name>>::set(&mut d, "Daisy".to_string());
    assert_eq!(<Donald as Field<Name>>::get(&d), "Daisy");
    assert_eq!(d.money, 0);
    deduct(&mut d);
    assert_eq!(*<Donald as Field<Money>>::get(&d), -5);
}

#[test]
fn get_consume_returns_stored_value() {
    let d = Donald { name: "Scrooge".to_string(), money: 7 };
    assert_eq!(<Donald as Field<Name>>::get_consume(d), "Scrooge");
    let d = Donald { name: "Scrooge".to_string(), money: 7 };
    assert_eq!(<Donald as Field<Money>>::get_consume(d), 7);
}

#[test]
fn construct_from_source() {
    let t = Tally::construct(Source);
    assert_eq!(t.counter, 5);
    assert_eq!(t.text, "");
}

#[test]
fn construct_converts_supplied_values() {
    let t = Tally::construct(Narrow);
    assert_eq!(t.counter, 200);
    assert_eq!(t.text, "hi");
}

#[test]
fn struct_name_is_exposed() {
    assert_eq!(<Donald as ConstDuck>::NAME, "Donald");
    assert_eq!(<Donald as ConstDuckGeneric<()>>::NAME, "Donald");
}

// Two downstream traits, each with a blanket impl keyed on its own guard,
// beside a concrete impl for a foreign type.
struct GuardA;
struct GuardB;

trait Describe {
    fn describe(&self) -> String;
}

impl<T: ConstDuckGeneric<GuardA>> Describe for T {
    fn describe(&self) -> String {
        format!("a {}", T::NAME)
    }
}

impl Describe for u32 {
    fn describe(&self) -> String {
        format!("the number {self}")
    }
}

trait Label {
    fn label() -> String;
}

impl<T: ConstDuckGeneric<GuardB>> Label for T {
    fn label() -> String {
        format!("[{}]", T::NAME)
    }
}

impl Label for u64 {
    fn label() -> String {
        "u64".to_string()
    }
}

#[test]
fn guards_do_not_conflict() {
    let d = Donald { name: String::new(), money: 1 };
    assert_eq!(d.describe(), "a Donald");
    assert_eq!(3u32.describe(), "the number 3");
    assert_eq!(<Donald as Label>::label(), "[Donald]");
    assert_eq!(<u64 as Label>::label(), "u64");
}
