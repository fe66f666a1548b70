use serde_nothing::{
    is_nothing, FewNothing, Nothing, NothingDeserializeError, NothingSerializeError, Shape, Value,
    VariantShape,
};

fn text(s: &str) -> Value {
    Value::Str(String::from(s))
}

fn debug<T: std::fmt::Debug>(x: T) -> String {
    format!("{:?}", x)
}

#[test]
fn booleans_are_nothing_only_when_false() {
    assert_eq!(Nothing.serialize_bool(false), Ok(()));
    assert_eq!(Nothing.serialize_bool(true), Err(NothingSerializeError));
    assert!(is_nothing(&Value::Bool(false)));
    assert!(!is_nothing(&Value::Bool(true)));
}

#[test]
fn numbers_are_nothing_only_when_zero() {
    assert_eq!(Nothing.serialize_i8(0), Ok(()));
    assert_eq!(Nothing.serialize_i8(-1), Err(NothingSerializeError));
    assert_eq!(Nothing.serialize_u64(0), Ok(()));
    assert_eq!(Nothing.serialize_u64(u64::MAX), Err(NothingSerializeError));
    assert_eq!(Nothing.serialize_i128(i128::MIN), Err(NothingSerializeError));
    assert_eq!(Nothing.serialize_u128(0), Ok(()));
    assert!(is_nothing(&Value::U16(0)));
    assert!(!is_nothing(&Value::I64(7)));
}

#[test]
fn characters_are_nothing_only_when_null() {
    assert_eq!(Nothing.serialize_char('\0'), Ok(()));
    assert_eq!(Nothing.serialize_char('a'), Err(NothingSerializeError));
}

#[test]
fn text_and_bytes_are_nothing_only_when_empty() {
    assert_eq!(Nothing.serialize_str(""), Ok(()));
    assert_eq!(Nothing.serialize_str("0"), Err(NothingSerializeError));
    assert_eq!(Nothing.serialize_bytes(&[]), Ok(()));
    assert_eq!(Nothing.serialize_bytes(&[0]), Err(NothingSerializeError));
    assert!(is_nothing(&Value::Bytes(vec![])));
    assert!(!is_nothing(&Value::Bytes(vec![0])));
}

#[test]
fn options_are_nothing_only_when_absent() {
    assert_eq!(Nothing.serialize_none(), Ok(()));
    assert_eq!(Nothing.serialize_some(), Err(NothingSerializeError));
    assert!(is_nothing(&Value::Absent));
    assert!(!is_nothing(&Value::Present(Box::new(Value::Unit))));
}

#[test]
fn unit_forms_are_nothing() {
    assert_eq!(Nothing.serialize_unit(), Ok(()));
    assert_eq!(Nothing.serialize_unit_struct("Marker"), Ok(()));
    assert_eq!(Nothing.serialize_unit_variant("E", 3, "D"), Ok(()));
    assert!(is_nothing(&Value::UnitVariant(3)));
}

#[test]
fn newtypes_follow_their_inner_value() {
    assert!(is_nothing(&Value::NewtypeStruct(Box::new(Value::U8(0)))));
    assert!(!is_nothing(&Value::NewtypeStruct(Box::new(Value::U8(1)))));
    assert!(is_nothing(&Value::NewtypeVariant(2, Box::new(text("")))));
    assert!(!is_nothing(&Value::NewtypeVariant(0, Box::new(text("x")))));
}

#[test]
fn collections_are_nothing_only_without_elements() {
    let mut marker = Nothing;
    assert_eq!(marker.serialize_seq_element(), Err(NothingSerializeError));
    assert_eq!(marker.serialize_key(), Err(NothingSerializeError));
    assert_eq!(marker.serialize_value(), Err(NothingSerializeError));
    assert_eq!(Nothing.collect_seq(false), Ok(()));
    assert_eq!(Nothing.collect_seq(true), Err(NothingSerializeError));
    assert_eq!(Nothing.collect_map(false), Ok(()));
    assert_eq!(Nothing.collect_map(true), Err(NothingSerializeError));
    assert!(is_nothing(&Value::Dict(vec![])));
    assert!(!is_nothing(&Value::Dict(vec![(Value::Unit, Value::Unit)])));
    // Even an element that is itself nothing makes a sequence something.
    assert!(!is_nothing(&Value::Sequence(vec![Value::Unit])));
}

#[test]
fn composites_are_nothing_when_every_slot_is() {
    assert!(is_nothing(&Value::Tuple(vec![])));
    assert!(is_nothing(&Value::TupleStruct(vec![Value::Absent, Value::Unit])));
    assert!(!is_nothing(&Value::TupleStruct(vec![Value::Absent, Value::Bool(true)])));
    assert!(is_nothing(&Value::TupleVariant(1, vec![Value::Char('\0')])));
    assert!(!is_nothing(&Value::StructVariant(0, vec![Value::Char('x')])));
    let nested = Value::Struct(vec![Value::Tuple(vec![Value::U8(0)]), Value::Sequence(vec![])]);
    assert!(is_nothing(&nested));
    let mut marker = Nothing;
    assert_eq!(marker.skip_field("ignored"), Ok(()));
    assert_eq!(Nothing.end(), Ok(()));
}

#[test]
fn rendered_text_is_nothing_only_when_empty() {
    assert_eq!(Nothing.collect_str_piece(""), Ok(()));
    assert_eq!(Nothing.collect_str_piece("x"), Err(NothingSerializeError));
}

#[test]
fn primitive_requests_get_empty_answers() {
    assert!(!Nothing.deserialize_bool());
    assert_eq!(Nothing.deserialize_i8(), 0);
    assert_eq!(Nothing.deserialize_u128(), 0);
    assert_eq!(Nothing.deserialize_char(), '\0');
    assert_eq!(Nothing.deserialize_str(), "");
    assert!(Nothing.deserialize_bytes().is_empty());
    assert_eq!(Nothing.deserialize_identifier(), 0);
    assert_eq!(Nothing.deserialize_any(), ());
}

#[test]
fn shapes_decode_to_their_empty_values() {
    assert_eq!(debug(Nothing.deserialize(&Shape::Any)), debug(Ok::<Value, NothingDeserializeError>(Value::Unit)));
    assert_eq!(debug(Nothing.deserialize(&Shape::Optional)), debug(Ok::<Value, NothingDeserializeError>(Value::Absent)));
    assert_eq!(debug(Nothing.deserialize(&Shape::Sequence)), debug(Ok::<Value, NothingDeserializeError>(Value::Sequence(vec![]))));
    assert_eq!(debug(Nothing.deserialize(&Shape::Dict)), debug(Ok::<Value, NothingDeserializeError>(Value::Dict(vec![]))));
    assert_eq!(debug(Nothing.deserialize(&Shape::Identifier)), debug(Ok::<Value, NothingDeserializeError>(Value::U8(0))));
    assert_eq!(debug(Nothing.deserialize(&Shape::IgnoredAny)), debug(Ok::<Value, NothingDeserializeError>(Value::Unit)));
    let newtype = Shape::NewtypeStruct(Box::new(Shape::Char));
    let expected = Value::NewtypeStruct(Box::new(Value::Char('\0')));
    assert_eq!(debug(Nothing.deserialize(&newtype)), debug(Ok::<Value, NothingDeserializeError>(expected)));
}

#[test]
fn enums_decode_to_their_first_variant() {
    let unit_first = Shape::Enum(vec![VariantShape::Unit, VariantShape::Newtype(Shape::Bool)]);
    assert_eq!(debug(Nothing.deserialize(&unit_first)), debug(Ok::<Value, NothingDeserializeError>(Value::UnitVariant(0))));
    let tuple_first = Shape::Enum(vec![VariantShape::Tuple(vec![Shape::U8, Shape::Str])]);
    let expected = Value::TupleVariant(0, vec![Value::U8(0), text("")]);
    assert_eq!(debug(Nothing.deserialize(&tuple_first)), debug(Ok::<Value, NothingDeserializeError>(expected)));
    let struct_first = Shape::Enum(vec![VariantShape::Struct(vec![Shape::Bool])]);
    let expected = Value::StructVariant(0, vec![Value::Bool(false)]);
    assert_eq!(debug(Nothing.deserialize(&struct_first)), debug(Ok::<Value, NothingDeserializeError>(expected)));
}

#[test]
fn an_enum_without_variants_cannot_be_made() {
    assert_eq!(Nothing.deserialize(&Shape::Enum(vec![])).is_err(), true);
    let nested = Shape::Tuple(vec![Shape::U8, Shape::Enum(vec![])]);
    assert!(Nothing.deserialize(&nested).is_err());
}

#[test]
fn map_value_without_key_fails() {
    let mut marker = Nothing;
    assert!(matches!(marker.next_key(), Ok(None)));
    assert!(marker.next_value().is_err());
    assert!(matches!(marker.next_entry(), Ok(None)));
    assert!(matches!(marker.next_element(), Ok(None)));
    assert_eq!(marker.size_hint(), Some(0));
}

#[test]
fn few_nothing_hands_out_exactly_its_count() {
    let mut few = FewNothing::new(2);
    assert_eq!(few.size_hint(), Some(2));
    assert!(matches!(few.next_element(&Shape::U8), Ok(Some(Value::U8(0)))));
    assert!(few.next_slot());
    assert_eq!(few.size_hint(), Some(0));
    assert!(!few.next_slot());
    assert!(matches!(few.next_element(&Shape::U8), Ok(None)));
    assert_eq!(Nothing.deserialize_tuple(3).size_hint(), Some(3));
    assert_eq!(Nothing.deserialize_struct(2).size_hint(), Some(2));
    assert_eq!(Nothing.tuple_variant(1).size_hint(), Some(1));
    assert_eq!(Nothing.struct_variant(0).size_hint(), Some(0));
    assert_eq!(Nothing.unit_variant(), Ok(()));
}

#[test]
fn decoded_values_encode_as_nothing() {
    let shapes = vec![
        Shape::Bool,
        Shape::Str,
        Shape::Struct(vec![Shape::U32, Shape::Str, Shape::Optional]),
        Shape::Enum(vec![VariantShape::Newtype(Shape::Tuple(vec![Shape::I16]))]),
    ];
    for shape in &shapes {
        let v = Nothing.deserialize(shape).unwrap();
        assert!(is_nothing(&v));
    }
}

#[test]
fn concrete_cases() {
    assert!(is_nothing(&Value::I32(0)));
    assert!(!is_nothing(&Value::I32(1)));
    assert!(is_nothing(&text("")));
    assert!(!is_nothing(&text("a")));
    assert!(is_nothing(&Value::Sequence(vec![])));
    assert!(!is_nothing(&Value::Sequence(vec![Value::I32(0)])));
    assert!(is_nothing(&Value::Tuple(vec![Value::I32(0), text("")])));
    assert!(!is_nothing(&Value::Tuple(vec![Value::I32(1), text("")])));
    assert!(!is_nothing(&Value::Tuple(vec![Value::I32(0), text("a")])));
    let three = Shape::Tuple(vec![Shape::I32, Shape::I32, Shape::I32]);
    let zeros = Value::Tuple(vec![Value::I32(0), Value::I32(0), Value::I32(0)]);
    assert_eq!(debug(Nothing.deserialize(&three)), debug(Ok::<Value, NothingDeserializeError>(zeros)));
}

#[test]
fn error_messages() {
    assert_eq!(NothingSerializeError.message(), "Not nothing");
    assert_eq!(NothingDeserializeError.message(), "Something expected");
    assert_eq!(NothingSerializeError::custom("detail"), NothingSerializeError);
    assert_eq!(NothingDeserializeError::custom("detail"), NothingDeserializeError);
}
