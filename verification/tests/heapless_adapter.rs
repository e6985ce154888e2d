use poem_vec_adapters::{ElementType, ParseError, PoemHeaplessVec, Schema};
use serde_json::Value;

fn heapless_numbers(numbers: &[i64]) -> Value {
    Value::Array(numbers.iter().map(|n| Value::from(*n)).collect())
}

fn heapless_not_an_array() -> Value {
    let mut object = serde_json::Map::new();
    object.insert("not".to_string(), Value::from("an array"));
    Value::Object(object)
}

fn check_heapless_openapi_props(
    meta: Schema,
    max: usize,
    element_name: String,
    element_schema: Schema,
) {
    assert_eq!(meta.ty, "array");
    assert_eq!(meta.nullable, false);
    assert_eq!(meta.min_items, Some(1));
    assert_eq!(meta.max_items, Some(max));
    assert_eq!(meta.min_length, Some(1));
    assert_eq!(meta.max_length, Some(max));
    let max_str = max.to_string();
    let max = max_str.as_str();
    assert_eq!(
        meta.description.as_deref(),
        Some(format!("1 to {max} items of type {}", element_name).as_str())
    );
    assert_eq!(meta.items, Some(Box::new(element_schema)));
}

#[test]
fn heapless_specifies_correct_openapi_props() {
    check_heapless_openapi_props(
        PoemHeaplessVec::<u64, 2>::schema_ref(),
        2,
        <u64 as ElementType>::name(),
        <u64 as ElementType>::schema_ref(),
    );
}

#[test]
fn parse_heapless_single_element() {
    let vec = PoemHeaplessVec::<i32, 4>::parse_from_parameter("42")
        .expect("should parse single element");
    assert_eq!(vec.as_slice(), &[42]);
}

#[test]
fn parse_heapless_multiple_elements() {
    let input = vec!["1", "2", "3"];
    let vec = PoemHeaplessVec::<i32, 4>::parse_from_parameters(input)
        .expect("should parse multiple elements");
    assert_eq!(vec.as_slice(), &[1, 2, 3]);
}

#[test]
fn parse_heapless_invalid_single() {
    assert!(PoemHeaplessVec::<i32, 4>::parse_from_parameter("not_a_number").is_err());
}

#[test]
fn parse_heapless_invalid_multiple() {
    let input = vec!["10", "xx", "30"];
    assert!(PoemHeaplessVec::<i32, 4>::parse_from_parameters(input).is_err());
}

#[test]
fn heapless_parse_json_valid_array() {
    let value = heapless_numbers(&[1, 2, 3]);
    let vec = PoemHeaplessVec::<i32, 4>::parse_from_json(Some(value))
        .expect("should parse valid JSON array");
    assert_eq!(vec.as_slice(), &[1, 2, 3]);
}

#[test]
fn heapless_parse_json_invalid_type() {
    let value = heapless_not_an_array();
    assert!(PoemHeaplessVec::<i32, 4>::parse_from_json(Some(value)).is_err());
}

#[test]
fn heapless_schema_labels() {
    let meta = PoemHeaplessVec::<i32, 4>::schema_ref();
    assert_eq!(meta.title.as_deref(), Some("ArrayVec<integer_int32>"));
    assert_eq!(meta.description.as_deref(), Some("1 to 4 items of type integer_int32"));
    assert_eq!(meta.format, None);
    let inner = meta.items.unwrap();
    assert_eq!(inner.ty, "integer");
    assert_eq!(inner.format.as_deref(), Some("int32"));
    let wide = PoemHeaplessVec::<u64, 1024>::schema_ref();
    assert_eq!(wide.max_items, Some(1024));
    assert_eq!(wide.description.as_deref(), Some("1 to 1024 items of type integer(uint64)"));
}

#[test]
fn heapless_new_and_default_are_empty() {
    assert!(PoemHeaplessVec::<i32, 4>::new().as_slice().is_empty());
    assert!(PoemHeaplessVec::<i32, 4>::default().as_slice().is_empty());
    assert_eq!(PoemHeaplessVec::<u64, 0>::new().len(), 0);
}

#[test]
fn heapless_takes_exactly_its_capacity() {
    let vec = PoemHeaplessVec::<i32, 4>::parse_from_parameters(vec!["1", "2", "3", "4"]).unwrap();
    assert_eq!(vec.as_slice(), &[1, 2, 3, 4]);
    let error =
        PoemHeaplessVec::<i32, 4>::parse_from_parameters(vec!["1", "2", "3", "4", "5"])
            .unwrap_err();
    assert_eq!(error, ParseError::CapacityExceeded { capacity: 4 });
    assert!(error.is_capacity_exceeded());
    assert_eq!(error.message(), "too many items (max 4)");
}

#[test]
fn heapless_capacity_comes_before_a_later_invalid_element() {
    let error = PoemHeaplessVec::<i32, 2>::parse_from_parameters(vec!["1", "2", "3", "xx"])
        .unwrap_err();
    assert_eq!(error, ParseError::CapacityExceeded { capacity: 2 });
    let error = PoemHeaplessVec::<i32, 2>::parse_from_parameters(vec!["1", "2", "xx"]).unwrap_err();
    assert!(matches!(error, ParseError::Element { ref raw, .. } if raw == "xx"));
    let error = PoemHeaplessVec::<i32, 2>::parse_from_parameters(vec!["1", "xx", "3", "4"])
        .unwrap_err();
    assert!(matches!(error, ParseError::Element { ref raw, .. } if raw == "xx"));
}

#[test]
fn heapless_of_capacity_zero_takes_nothing() {
    let error = PoemHeaplessVec::<i32, 0>::parse_from_parameter("42").unwrap_err();
    assert_eq!(error, ParseError::CapacityExceeded { capacity: 0 });
    assert_eq!(error.message(), "too many items (max 0)");
    let error = PoemHeaplessVec::<i32, 0>::parse_from_parameter("xx").unwrap_err();
    assert!(error.is_element());
    let vec = PoemHeaplessVec::<i32, 0>::parse_from_parameters(Vec::new()).unwrap();
    assert!(vec.as_slice().is_empty());
}

#[test]
fn heapless_single_parameter_equals_list_of_one() {
    for text in ["42", "-7", "0", "xx", "", " 1", "2147483648"] {
        let single = PoemHeaplessVec::<i32, 4>::parse_from_parameter(text);
        let listed = PoemHeaplessVec::<i32, 4>::parse_from_parameters(vec![text]);
        match (single, listed) {
            (Ok(a), Ok(b)) => {
                assert_eq!(a.as_slice(), b.as_slice());
                assert_eq!(a.as_slice().len(), 1);
            }
            (Err(a), Err(b)) => assert_eq!(a, b),
            _ => panic!("the two parses differ on {text:?}"),
        }
    }
}

#[test]
fn heapless_invalid_parameter_is_reported_with_its_text() {
    let inner = <i32 as poem_openapi::types::ParseFromParameter>::parse_from_parameter("xx")
        .unwrap_err()
        .into_message();
    let error = PoemHeaplessVec::<i32, 4>::parse_from_parameters(vec!["10", "xx", "30"])
        .unwrap_err();
    assert_eq!(
        error,
        ParseError::Element {
            raw: "xx".to_string(),
            target: "integer_int32".to_string(),
            message: inner.clone(),
        }
    );
    assert_eq!(
        error.message(),
        format!("{inner} (occurred while parsing \"xx\" as \"integer_int32\")")
    );
}

#[test]
fn heapless_json_array_over_capacity_is_refused() {
    let vec = PoemHeaplessVec::<i32, 4>::parse_from_json(Some(heapless_numbers(&[1, 2, 3, 4])))
        .unwrap();
    assert_eq!(vec.as_slice(), &[1, 2, 3, 4]);
    let error =
        PoemHeaplessVec::<i32, 4>::parse_from_json(Some(heapless_numbers(&[1, 2, 3, 4, 5])))
            .unwrap_err();
    assert_eq!(error, ParseError::CapacityExceeded { capacity: 4 });
}

#[test]
fn heapless_invalid_json_element_is_reported_with_its_text() {
    let value = Value::Array(vec![Value::from(1), Value::from(2.5), Value::from(3)]);
    let inner = <i32 as poem_openapi::types::ParseFromJSON>::parse_from_json(Some(Value::from(2.5)))
        .unwrap_err()
        .into_message();
    let error = PoemHeaplessVec::<i32, 4>::parse_from_json(Some(value)).unwrap_err();
    assert_eq!(
        error,
        ParseError::Element {
            raw: "2.5".to_string(),
            target: "integer_int32".to_string(),
            message: inner,
        }
    );
    let value = Value::Array(vec![Value::from(1), Value::from(i64::from(i32::MAX) + 1)]);
    let error = PoemHeaplessVec::<i32, 4>::parse_from_json(Some(value)).unwrap_err();
    assert!(matches!(error, ParseError::Element { ref raw, .. } if raw == "2147483648"));
}

#[test]
fn heapless_json_that_is_no_array_is_a_type_mismatch() {
    let error = PoemHeaplessVec::<i32, 4>::parse_from_json(Some(heapless_not_an_array()))
        .unwrap_err();
    assert_eq!(error, ParseError::TypeMismatch { actual: "{\"not\":\"an array\"}".to_string() });
    let error = PoemHeaplessVec::<i32, 4>::parse_from_json(None).unwrap_err();
    assert_eq!(error, ParseError::TypeMismatch { actual: "null".to_string() });
    assert_eq!(error.message(), "expected an array, found null");
}

#[test]
fn heapless_name_is_that_of_an_array() {
    assert_eq!(PoemHeaplessVec::<i32, 4>::name(), "array_integer_int32");
    assert_eq!(
        PoemHeaplessVec::<u16, 8>::name(),
        <[u16; 8] as poem_openapi::types::Type>::name()
    );
}

#[test]
fn heapless_gives_up_its_elements_in_order() {
    let vec = PoemHeaplessVec::<u32, 3>::parse_from_parameters(vec!["7", "8", "9"]).unwrap();
    assert_eq!(vec.as_raw_value().unwrap().as_slice(), &[7, 8, 9]);
    assert_eq!(vec.first(), Some(&7));
    let held: heapless::Vec<u32, 3> = vec.into_inner().into_iter().collect();
    assert_eq!(held.as_slice(), &[7, 8, 9]);
}

#[test]
fn heapless_refuses_where_the_bounded_vector_refuses() {
    let mut held = heapless::Vec::<i32, 2>::new();
    let texts = ["1", "2", "3"];
    let mut refused_at = None;
    for (i, text) in texts.iter().enumerate() {
        if held.push(text.parse::<i32>().unwrap()).is_err() {
            refused_at = Some(i);
            break;
        }
    }
    assert_eq!(refused_at, Some(2));
    assert!(PoemHeaplessVec::<i32, 2>::parse_from_parameters(texts[..2].to_vec()).is_ok());
    assert!(PoemHeaplessVec::<i32, 2>::parse_from_parameters(texts.to_vec()).is_err());
}

#[test]
fn heapless_from_vec_checks_the_capacity() {
    let list = PoemHeaplessVec::<i32, 3>::from_vec(vec![4, 5, 6]).unwrap();
    assert_eq!(list.as_slice(), &[4, 5, 6]);
    let empty = PoemHeaplessVec::<i32, 3>::from_vec(Vec::new()).unwrap();
    assert!(empty.as_slice().is_empty());
    let error = PoemHeaplessVec::<i32, 3>::from_vec(vec![4, 5, 6, 7]).unwrap_err();
    assert_eq!(error, ParseError::CapacityExceeded { capacity: 3 });
    assert!(PoemHeaplessVec::<i32, 0>::from_vec(vec![1]).is_err());
}

#[test]
fn heapless_is_a_required_value() {
    assert!(PoemHeaplessVec::<i32, 3>::IS_REQUIRED);
    assert_eq!(
        PoemHeaplessVec::<i32, 3>::IS_REQUIRED,
        <[i32; 3] as poem_openapi::types::Type>::IS_REQUIRED
    );
}
