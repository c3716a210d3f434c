use declarative::attributes::decl_field_attributes;
use declarative::attributes::AttributeError;
use declarative::attributes::Attributes;
use declarative::attributes::FieldAttribute;
use declarative::attributes::NestedItem;
use declarative::generate::decl_fields;
use declarative::generate::declarative;
use declarative::generate::Body;
use declarative::generate::Field;
use declarative::generate::GenerateError;

fn pair(name: &str, value: u32) -> NestedItem<u32> {
    NestedItem::NameValue(name.to_string(), value)
}

fn list(name: &str, items: Vec<NestedItem<u32>>) -> FieldAttribute<u32> {
    FieldAttribute::List(name.to_string(), items)
}

fn resolved(attrs: &[FieldAttribute<u32>]) -> Result<(Option<u32>, Option<u32>), AttributeError> {
    decl_field_attributes(attrs).map(|a| (a.array_length.copied(), a.parameters.copied()))
}

#[test]
fn no_attributes_no_directives() {
    assert_eq!(resolved(&[]), Ok((None, None)));
    assert_eq!(resolved(&[FieldAttribute::Other]), Ok((None, None)));
    assert_eq!(resolved(&[list("declarative", vec![])]), Ok((None, None)));
}

#[test]
fn length_and_arguments() {
    let attrs = [list("declarative", vec![pair("length", 7), pair("arguments", 9)])];
    assert_eq!(resolved(&attrs), Ok((Some(7), Some(9))));
    let attrs = [list("declarative", vec![pair("arguments", 9)])];
    assert_eq!(resolved(&attrs), Ok((None, Some(9))));
    let attrs = [list("declarative", vec![pair("length", 7)])];
    assert_eq!(resolved(&attrs), Ok((Some(7), None)));
}

#[test]
fn directives_over_several_lists() {
    let attrs = [
        list("declarative", vec![pair("arguments", 1)]),
        FieldAttribute::Other,
        list("declarative", vec![pair("length", 2)]),
    ];
    assert_eq!(resolved(&attrs), Ok((Some(2), Some(1))));
}

#[test]
fn other_lists_are_passed_over() {
    let attrs = [
        list("derive", vec![pair("length", 1), pair("length", 2), NestedItem::Other]),
        list("Declarative", vec![pair("bogus", 1)]),
        list("declarative", vec![pair("length", 3)]),
    ];
    assert_eq!(resolved(&attrs), Ok((Some(3), None)));
}

#[test]
fn repeated_directives_are_refused() {
    let attrs = [list("declarative", vec![pair("length", 1), pair("length", 1)])];
    assert_eq!(resolved(&attrs), Err(AttributeError::MultipleArrayLengths));
    let attrs = [
        list("declarative", vec![pair("arguments", 1)]),
        list("declarative", vec![pair("arguments", 2)]),
    ];
    assert_eq!(resolved(&attrs), Err(AttributeError::MultipleParameters));
}

#[test]
fn unknown_entries_are_refused() {
    let attrs = [list("declarative", vec![pair("len", 1)])];
    assert_eq!(resolved(&attrs), Err(AttributeError::Unrecognized));
    let attrs = [list("declarative", vec![pair("length", 1), NestedItem::Other])];
    assert_eq!(resolved(&attrs), Err(AttributeError::Unrecognized));
    let attrs = [list("declarative", vec![pair("Length", 1)])];
    assert_eq!(resolved(&attrs), Err(AttributeError::Unrecognized));
}

#[test]
fn first_refusal_is_reported() {
    let attrs = [
        list("declarative", vec![pair("length", 1), pair("length", 2), pair("bogus", 3)]),
        list("declarative", vec![pair("arguments", 1), pair("arguments", 2)]),
    ];
    assert_eq!(resolved(&attrs), Err(AttributeError::MultipleArrayLengths));
    let attrs = [
        list("declarative", vec![pair("bogus", 3), pair("length", 1), pair("length", 2)]),
    ];
    assert_eq!(resolved(&attrs), Err(AttributeError::Unrecognized));
}

#[test]
fn directives_one_by_one() {
    let (a, b) = (1u32, 2u32);
    let mut attributes: Attributes<u32> = Attributes::default();
    assert_eq!(attributes.array_length, None);
    assert_eq!(attributes.parameters, None);
    assert_eq!(attributes.with_params(&a), Ok(()));
    assert_eq!(attributes.parameters, Some(&a));
    assert_eq!(attributes.with_params(&b), Err(AttributeError::MultipleParameters));
    assert_eq!(attributes.parameters, Some(&a));
    assert_eq!(attributes.array_length, None);
    assert_eq!(attributes.array_length(&b), Ok(()));
    assert_eq!(attributes.array_length, Some(&b));
    assert_eq!(attributes.array_length(&a), Err(AttributeError::MultipleArrayLengths));
    assert_eq!(attributes.array_length, Some(&b));
}

fn plain(attrs: Vec<FieldAttribute<u32>>) -> Field<u32> {
    Field { by_reference: false, attrs }
}

fn reference(attrs: Vec<FieldAttribute<u32>>) -> Field<u32> {
    Field { by_reference: true, attrs }
}

#[test]
fn one_decode_for_each_field_but_references() {
    let fields = [
        reference(vec![]),
        plain(vec![]),
        plain(vec![]),
        plain(vec![list("declarative", vec![pair("length", 5)])]),
        reference(vec![list("declarative", vec![pair("bogus", 0)])]),
        plain(vec![list("declarative", vec![pair("arguments", 6), pair("length", 7)])]),
    ];
    let steps = decl_fields(&fields).unwrap();
    let got: Vec<_> = steps
        .iter()
        .map(|s| (s.field, s.attributes.array_length.copied(), s.attributes.parameters.copied()))
        .collect();
    assert_eq!(
        got,
        vec![(1, None, None), (2, None, None), (3, Some(5), None), (5, Some(7), Some(6))]
    );
}

#[test]
fn no_fields_no_decodes() {
    assert!(decl_fields::<u32>(&[]).unwrap().is_empty());
    assert!(decl_fields(&[reference(vec![])]).unwrap().is_empty());
}

#[test]
fn first_refused_field_is_reported() {
    let fields = [
        plain(vec![]),
        plain(vec![list("declarative", vec![pair("arguments", 1), pair("arguments", 1)])]),
        plain(vec![list("declarative", vec![pair("bogus", 1)])]),
    ];
    assert_eq!(decl_fields(&fields).err(), Some(AttributeError::MultipleParameters));
}

#[test]
fn only_structs_have_a_decoder() {
    let other: Body<u32> = Body::Other;
    assert_eq!(declarative(&other).err(), Some(GenerateError::NotAStruct));
    let body = Body::Struct(vec![plain(vec![]), reference(vec![])]);
    let steps = declarative(&body).unwrap();
    assert_eq!(steps.len(), 1);
    assert_eq!(steps[0].field, 0);
    let body = Body::Struct(vec![plain(vec![list("declarative", vec![NestedItem::Other])])]);
    assert_eq!(
        declarative(&body).err(),
        Some(GenerateError::Field(AttributeError::Unrecognized))
    );
}
