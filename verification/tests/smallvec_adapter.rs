use poem_vec_adapters::{ElementType, ParseError, PoemSmallVec};
use serde_json::Value;

fn smallvec_numbers(numbers: &[i64]) -> Value {
    Value::Array(numbers.iter().map(|n| Value::from(*n)).collect())
}

fn smallvec_not_an_array() -> Value {
    let mut object = serde_json::Map::new();
    object.insert("not".to_string(), Value::from("an array"));
    Value::Object(object)
}

#[test]
fn specifies_correct_openapi_props() {
    let meta = PoemSmallVec::<u32, 4>::schema_ref();
    assert_eq!(meta.ty, "array");
    assert_eq!(meta.nullable, false);
    assert_eq!(meta.min_items, Some(1));
    assert_eq!(meta.max_items, None);
    assert_eq!(meta.min_length, Some(1));
    assert_eq!(meta.max_length, None);
    let elem_type_name = <u32 as ElementType>::name();
    assert_eq!(meta.title, Some(format!("Vec<{}>", elem_type_name)));
    assert_eq!(
        meta.description.as_deref(),
        Some(format!("at least 1 item of type {}", elem_type_name)).as_deref()
    );
    assert_eq!(meta.items, Some(Box::new(<u32 as ElementType>::schema_ref())));
}

#[test]
fn parse_single_element() {
    let vec = PoemSmallVec::<i32, 4>::parse_from_parameter("42")
        .expect("should parse single element");
    assert_eq!(vec.as_slice(), &[42]);
}

#[test]
fn parse_multiple_elements() {
    let input = vec!["1", "2", "3"];
    let vec = PoemSmallVec::<i32, 4>::parse_from_parameters(input)
        .expect("should parse multiple elements");
    assert_eq!(vec.as_slice(), &[1, 2, 3]);
}

#[test]
fn parse_invalid_single() {
    assert!(PoemSmallVec::<i32, 4>::parse_from_parameter("not_a_number").is_err());
}

#[test]
fn parse_invalid_multiple() {
    let input = vec!["10", "xx", "30"];
    assert!(PoemSmallVec::<i32, 4>::parse_from_parameters(input).is_err());
}

#[test]
fn parse_json_valid_array() {
    let value = smallvec_numbers(&[1, 2, 3]);
    let vec = PoemSmallVec::<i32, 4>::parse_from_json(Some(value))
        .expect("should parse valid JSON array");
    assert_eq!(vec.as_slice(), &[1, 2, 3]);
}

#[test]
fn parse_json_invalid_type() {
    let value = smallvec_not_an_array();
    assert!(PoemSmallVec::<i32, 4>::parse_from_json(Some(value)).is_err());
}

#[test]
fn smallvec_new_and_default_are_empty() {
    assert!(PoemSmallVec::<i32, 4>::new().as_slice().is_empty());
    assert!(PoemSmallVec::<i32, 4>::default().as_slice().is_empty());
    assert_eq!(PoemSmallVec::<u64, 0>::new().len(), 0);
}

#[test]
fn smallvec_grows_past_its_inline_size() {
    let input = vec!["1", "2", "3", "4", "5", "6", "7"];
    let vec = PoemSmallVec::<i32, 2>::parse_from_parameters(input).unwrap();
    assert_eq!(vec.as_slice(), &[1, 2, 3, 4, 5, 6, 7]);
    let vec = PoemSmallVec::<i32, 0>::parse_from_parameter("9").unwrap();
    assert_eq!(vec.as_slice(), &[9]);
    let vec = PoemSmallVec::<u16, 1>::parse_from_json(Some(smallvec_numbers(&[5, 6, 7]))).unwrap();
    assert_eq!(vec.into_inner(), vec![5u16, 6, 7]);
}

#[test]
fn smallvec_single_parameter_equals_list_of_one() {
    for text in ["42", "-7", "0", "xx", "", " 1"] {
        let single = PoemSmallVec::<i32, 4>::parse_from_parameter(text);
        let listed = PoemSmallVec::<i32, 4>::parse_from_parameters(vec![text]);
        match (single, listed) {
            (Ok(a), Ok(b)) => {
                assert_eq!(a.as_slice(), b.as_slice());
                assert_eq!(a.as_slice().len(), 1);
            }
            (Err(a), Err(b)) => assert_eq!(a, b),
            _ => panic!("the two parses differ on {text:?}"),
        }
    }
}

#[test]
fn smallvec_empty_list_of_parameters_is_empty() {
    let vec = PoemSmallVec::<i32, 4>::parse_from_parameters(Vec::new()).unwrap();
    assert!(vec.as_slice().is_empty());
    let vec = PoemSmallVec::<i32, 4>::parse_from_json(Some(Value::Array(Vec::new()))).unwrap();
    assert!(vec.as_slice().is_empty());
}

#[test]
fn smallvec_invalid_parameter_is_reported_with_its_text() {
    let inner = <i32 as poem_openapi::types::ParseFromParameter>::parse_from_parameter("xx")
        .unwrap_err()
        .into_message();
    for input in [
        vec!["xx"],
        vec!["10", "xx", "30"],
        vec!["1", "2", "3", "4", "5", "6", "xx"],
        vec!["xx", "yy"],
    ] {
        let error = PoemSmallVec::<i32, 4>::parse_from_parameters(input).unwrap_err();
        assert_eq!(
            error,
            ParseError::Element {
                raw: "xx".to_string(),
                target: "integer_int32".to_string(),
                message: inner.clone(),
            }
        );
        assert!(error.is_element());
        assert!(error.message().contains("\"xx\""));
    }
}

#[test]
fn smallvec_invalid_json_element_is_reported_with_its_text() {
    let value = Value::Array(vec![Value::from(1), Value::from("x"), Value::from(3)]);
    let inner = <i32 as poem_openapi::types::ParseFromJSON>::parse_from_json(Some(Value::from("x")))
        .unwrap_err()
        .into_message();
    let error = PoemSmallVec::<i32, 4>::parse_from_json(Some(value)).unwrap_err();
    assert_eq!(
        error,
        ParseError::Element {
            raw: "\"x\"".to_string(),
            target: "integer_int32".to_string(),
            message: inner,
        }
    );
}

#[test]
fn smallvec_json_that_is_no_array_is_a_type_mismatch() {
    let error = PoemSmallVec::<i32, 4>::parse_from_json(Some(smallvec_not_an_array())).unwrap_err();
    assert_eq!(error, ParseError::TypeMismatch { actual: "{\"not\":\"an array\"}".to_string() });
    assert!(error.is_type_mismatch());
    assert_eq!(error.message(), "expected an array, found {\"not\":\"an array\"}");
    for value in [Value::Null, Value::from(true), Value::from(3), Value::from("[1]")] {
        let text = value.to_string();
        let error = PoemSmallVec::<i32, 4>::parse_from_json(Some(value)).unwrap_err();
        assert_eq!(error, ParseError::TypeMismatch { actual: text });
    }
}

#[test]
fn smallvec_absent_json_counts_as_null() {
    let error = PoemSmallVec::<i32, 4>::parse_from_json(None).unwrap_err();
    assert_eq!(error, ParseError::TypeMismatch { actual: "null".to_string() });
    let present = PoemSmallVec::<i32, 4>::parse_from_json(Some(Value::default())).unwrap_err();
    assert_eq!(error, present);
}

#[test]
fn smallvec_name_is_that_of_a_list() {
    assert_eq!(PoemSmallVec::<i32, 4>::name(), "list_integer_int32");
    assert_eq!(
        PoemSmallVec::<u64, 4>::name(),
        <Vec<u64> as poem_openapi::types::Type>::name()
    );
}

#[test]
fn smallvec_raw_value_is_the_list() {
    let vec = PoemSmallVec::<i32, 4>::parse_from_parameters(vec!["1", "2"]).unwrap();
    let raw = vec.as_raw_value().unwrap();
    assert_eq!(raw.as_slice(), &[1, 2]);
    assert_eq!(vec.iter().copied().sum::<i32>(), 3);
}

#[test]
fn smallvec_from_vec_keeps_every_element() {
    let list = PoemSmallVec::<i32, 2>::from_vec(vec![4, 5, 6]);
    assert_eq!(list.as_slice(), &[4, 5, 6]);
    let held: smallvec::SmallVec<[i32; 2]> = list.into_inner().into_iter().collect();
    assert!(held.spilled());
    assert_eq!(held.as_slice(), &[4, 5, 6]);
}

#[test]
fn smallvec_is_a_required_value() {
    assert!(PoemSmallVec::<i32, 3>::IS_REQUIRED);
    assert_eq!(
        PoemSmallVec::<i32, 3>::IS_REQUIRED,
        <Vec<i32> as poem_openapi::types::Type>::IS_REQUIRED
    );
}

#[test]
fn smallvec_schema_has_no_upper_bound() {
    let meta = PoemSmallVec::<i32, 4>::schema_ref();
    assert_eq!(meta.title.as_deref(), Some("Vec<integer_int32>"));
    assert_eq!(meta.description.as_deref(), Some("at least 1 item of type integer_int32"));
    assert_eq!(meta.max_items, None);
    assert_eq!(meta.max_length, None);
    assert_eq!(meta.format, None);
    let same = PoemSmallVec::<i32, 64>::schema_ref();
    assert_eq!(meta, same);
}
