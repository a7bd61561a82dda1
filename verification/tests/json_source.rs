use agentquelia::config::JsonSourceConfig;
use agentquelia::error::SourceError;
use agentquelia::sources::json_source::check_indices;
use agentquelia::sources::json_source::extract_value;
use agentquelia::sources::json_source::locate;
use agentquelia::sources::json_source::JsonFound;
use agentquelia::sources::json_source::JsonItem;
use agentquelia::sources::JsonSource;
use agentquelia::sources::RawKind;
use agentquelia::sources::RawValue;

fn config(json_path: &str, unit: &str, multiplier: f64) -> JsonSourceConfig {
    JsonSourceConfig {
        path: "/var/data/meter.json".to_string(),
        json_path: json_path.to_string(),
        unit: unit.to_string(),
        multiplier_bits: multiplier.to_bits(),
    }
}

fn scaled(raw: &RawValue, multiplier_bits: u64) -> f64 {
    raw.text.trim().parse::<f64>().unwrap() * f64::from_bits(multiplier_bits)
}

#[test]
fn test_json_source_simple_path() {
    let content = "{\n            \"power\": 123.45,\n            \"unit\": \"kW\"\n        }\n";
    let source = JsonSource::new(&config("$.power", "kW", 1.0)).unwrap();
    let raw = source.extract_value(content).unwrap();
    let value = scaled(&raw, source.multiplier_bits());

    assert!((value - 123.45).abs() < 0.001);
    assert_eq!(source.unit(), "kW");
}

#[test]
fn test_json_source_nested_path() {
    let content = "{\n            \"meters\": [\n                {\"id\": 1, \"reading\": 100.0},\n                {\"id\": 2, \"reading\": 200.5}\n            ]\n        }\n";
    let source = JsonSource::new(&config("$.meters[0].reading", "MW", 1.0)).unwrap();
    let raw = source.extract_value(content).unwrap();
    let value = scaled(&raw, source.multiplier_bits());

    assert!((value - 100.0).abs() < 0.001);
}

#[test]
fn test_json_source_with_multiplier() {
    let content = "{\n            \"power_kw\": 1000.0\n        }\n";
    let source = JsonSource::new(&config("$.power_kw", "MW", 0.001)).unwrap();
    let raw = source.extract_value(content).unwrap();
    let value = scaled(&raw, source.multiplier_bits());

    assert!((value - 1.0).abs() < 0.0001);
    assert_eq!(source.unit(), "MW");
}

#[test]
fn number_is_carried_by_its_decimal_text() {
    assert_eq!(
        locate("{\"power_kw\": 1000.0}", "$.power_kw"),
        Ok(RawValue { kind: RawKind::Number, text: "1000.0".to_string() })
    );
    assert_eq!(
        locate("{\"n\": -7}", "$.n"),
        Ok(RawValue { kind: RawKind::Number, text: "-7".to_string() })
    );
}

#[test]
fn string_is_handed_back_as_it_stands() {
    assert_eq!(
        locate("{\"v\": \" 12.5 \"}", "$.v"),
        Ok(RawValue { kind: RawKind::Text, text: " 12.5 ".to_string() })
    );
}

#[test]
fn first_of_several_matches_is_taken() {
    let content = "{\"meters\": [{\"reading\": 1.5}, {\"reading\": 2.5}, {\"reading\": 3.5}]}";
    assert_eq!(locate(content, "$.meters[*].reading").unwrap().text, "1.5");
    assert_eq!(locate(content, "$.meters[1,2].reading").unwrap().text, "2.5");
    assert_eq!(locate(content, "$.meters[1:].reading").unwrap().text, "2.5");
    assert_eq!(locate(content, "$.meters[0:3:2].reading").unwrap().text, "1.5");
    assert_eq!(locate(content, "$.meters[?(@.reading > 2)].reading").unwrap().text, "2.5");
    assert_eq!(locate(content, "$..reading").unwrap().text, "1.5");
}

#[test]
fn quoted_keys_may_hold_commas() {
    let content = "{\"a, b\": 4, \"c\": 5, \"names\": [{\"n\": \"x, 1\", \"v\": 9}]}";
    assert_eq!(locate(content, "$['a, b']").unwrap().text, "4");
    assert_eq!(locate(content, "$['c','a, b']").unwrap().text, "5");
    assert_eq!(locate(content, "$.names[?(@.n == 'x, 1')].v").unwrap().text, "9");
}

#[test]
fn other_kinds_of_value_are_no_measurement() {
    let expected = |label: &str| {
        Err(SourceError::InvalidValueType(format!("Expected number, got {}", label)))
    };
    assert_eq!(locate("{\"v\": true}", "$.v"), expected("Bool(true)"));
    assert_eq!(locate("{\"v\": false}", "$.v"), expected("Bool(false)"));
    assert_eq!(locate("{\"v\": null}", "$.v"), expected("Null"));
    assert_eq!(locate("{\"v\": [1, 2]}", "$.v"), expected("Array [Number(1), Number(2)]"));
    assert_eq!(locate("{\"v\": {\"w\": 1}}", "$.v"), expected("Object {\"w\": Number(1)}"));
}

#[test]
fn query_without_a_match_finds_no_value() {
    assert_eq!(
        locate("{\"power\": 1.0}", "$.missing"),
        Err(SourceError::ValueNotFound("No value found at path: $.missing".to_string()))
    );
    assert_eq!(
        locate("{\"v\": [1, 2]}", "$.v[7]"),
        Err(SourceError::ValueNotFound("No value found at path: $.v[7]".to_string()))
    );
    assert_eq!(
        locate("{\"v\": [1, 2]}", "$.v[?(@ > 5)]"),
        Err(SourceError::ValueNotFound("No value found at path: $.v[?(@ > 5)]".to_string()))
    );
    assert_eq!(
        locate("[]", "$[*]"),
        Err(SourceError::ValueNotFound("No value found at path: $[*]".to_string()))
    );
}

#[test]
fn a_null_that_is_matched_is_no_measurement() {
    assert_eq!(
        locate("{\"v\": null}", "$.v"),
        Err(SourceError::InvalidValueType("Expected number, got Null".to_string()))
    );
    assert_eq!(
        locate("[null, 1]", "$[*]"),
        Err(SourceError::InvalidValueType("Expected number, got Null".to_string()))
    );
}

#[test]
fn json_source_reports_a_missing_value() {
    let source = JsonSource::new(&config("$.missing", "kW", 1.0)).unwrap();
    assert!(matches!(
        source.extract_value("{\"power\": 1.0}"),
        Err(SourceError::ValueNotFound(_))
    ));
}

#[test]
fn empty_array_holds_no_value() {
    assert_eq!(
        extract_value(&JsonFound::Array(vec![]), "$.power"),
        Err(SourceError::ValueNotFound("No value found at path: $.power".to_string()))
    );
}

#[test]
fn null_that_stands_alone_holds_no_value() {
    assert_eq!(
        extract_value(&JsonFound::Scalar(JsonItem::Null), "$.power"),
        Err(SourceError::ValueNotFound("No value found at path: $.power".to_string()))
    );
    assert_eq!(
        extract_value(&JsonFound::Array(vec![JsonItem::Null]), "$.power"),
        Err(SourceError::InvalidValueType("Expected number, got Null".to_string()))
    );
    assert_eq!(
        extract_value(&JsonFound::Scalar(JsonItem::Bool(true)), "$.power"),
        Err(SourceError::InvalidValueType("Expected number, got Bool(true)".to_string()))
    );
}

#[test]
fn extract_value_reads_what_was_found() {
    let number = JsonItem::Number("2.5".to_string());
    let text = JsonItem::Text("7".to_string());
    assert_eq!(
        extract_value(&JsonFound::Array(vec![number.clone(), text.clone()]), "$"),
        Ok(RawValue { kind: RawKind::Number, text: "2.5".to_string() })
    );
    assert_eq!(
        extract_value(&JsonFound::Scalar(text), "$"),
        Ok(RawValue { kind: RawKind::Text, text: "7".to_string() })
    );
    assert_eq!(
        extract_value(&JsonFound::Array(vec![JsonItem::Object("Object {}".to_string()), number]), "$"),
        Err(SourceError::InvalidValueType("Expected number, got Object {}".to_string()))
    );
    assert_eq!(
        extract_value(&JsonFound::Scalar(JsonItem::Array("Array []".to_string())), "$"),
        Err(SourceError::InvalidValueType("Expected number, got Array []".to_string()))
    );
}

#[test]
fn malformed_document_is_a_json_error() {
    match locate("{\"v\": ", "$.v") {
        Err(SourceError::JsonError(text)) => assert!(text.contains("EOF"), "{}", text),
        other => panic!("unexpected {:?}", other),
    }
}

#[test]
fn malformed_query_is_a_json_error() {
    match locate("{\"v\": 1}", "$.v[") {
        Err(SourceError::JsonError(text)) => {
            assert!(text.starts_with("Invalid JSONPath: "), "{}", text);
            assert_ne!(text, "Invalid JSONPath: index out of range");
        },
        other => panic!("unexpected {:?}", other),
    }
}

#[test]
fn indices_that_cannot_be_evaluated_are_refused() {
    let refused = Err(SourceError::JsonError("Invalid JSONPath: index out of range".to_string()));
    let content = "{\"v\": [1, 2, 3]}";
    assert_eq!(locate(content, "$.v[1,-2]"), refused);
    assert_eq!(locate(content, "$.v[-1,2]"), refused);
    assert_eq!(locate(content, "$.v[1.5,2]"), refused);
    assert_eq!(locate(content, "$.v[1, 2e3]"), refused);
    assert_eq!(locate(content, "$.v[0:3:0]"), refused);
    assert_eq!(locate(content, "$.v[::0]"), refused);
    assert_eq!(locate(content, "$.v[99999999999999999999]"), refused);
}

#[test]
fn ordinary_indices_pass_the_check() {
    assert!(check_indices("$"));
    assert!(check_indices("$.power"));
    assert!(check_indices("$.meters[0].reading"));
    assert!(check_indices("$.meters[123456789012345678]"));
    assert!(check_indices("$..book[0,1]"));
    assert!(check_indices("$..book[ 0 , 1 , 2 ]"));
    assert!(check_indices("$..book[:2]"));
    assert!(check_indices("$..book[-1:]"));
    assert!(check_indices("$..book[0:10:2]"));
    assert!(check_indices("$..book[1:0]"));
    assert!(check_indices("$['a','b']"));
    assert!(check_indices("$[\"a\", \"b\"]"));
    assert!(check_indices("$..book[?(@.price < 10.5)]"));
    assert!(check_indices("$..book[?(@.author == 'Doe, John')]"));
    assert!(check_indices("$['key with [1,-2] inside']"));
    assert!(check_indices("$['it\\'s, really']"));
    assert!(check_indices("$.devices.12345678901234567890.power"));
    assert!(check_indices("$..book[?(@.isbn == 12345678901234567890)]"));
}

#[test]
fn check_refuses_what_it_must() {
    assert!(!check_indices("$[1,-2]"));
    assert!(!check_indices("$[-1, 2]"));
    assert!(!check_indices("$[1,2.0]"));
    assert!(!check_indices("$[1,]"));
    assert!(!check_indices("$[1,"));
    assert!(!check_indices("$[1,,2]"));
    assert!(!check_indices("$[a,1]"));
    assert!(!check_indices("$[1234567890123456789]"));
    assert!(!check_indices("$[0:5:0]"));
    assert!(!check_indices("$[0:5: 0]"));
    assert!(!check_indices("$[::00]"));
}

#[test]
fn json_source_id_names_the_file() {
    let source = JsonSource::new(&config("$.power", "kW", 1.0)).unwrap();
    assert_eq!(source.source_id(), "json:/var/data/meter.json");
    assert_eq!(source.path(), "/var/data/meter.json");
}

#[test]
fn deep_nesting_is_refused() {
    let shallow = format!("$.a[?({}@.b{})]", "(".repeat(29), ")".repeat(29));
    assert!(check_indices(&shallow));
    let deep = format!("$.a[?({}@.b{})]", "(".repeat(30), ")".repeat(30));
    assert!(!check_indices(&deep));
    let wide = "$.a".to_string() + &"[0]".repeat(500);
    assert!(check_indices(&wide));
}

#[test]
fn every_at_sign_is_a_level_of_nesting() {
    assert!(check_indices(&format!("$[?({}.b)]", "@".repeat(30))));
    assert!(!check_indices(&format!("$[?({}.b)]", "@".repeat(31))));
    assert!(!check_indices(&"@".repeat(33)));
    assert!(!check_indices(&("$".to_string() + &"@".repeat(100_000))));
    let conditions = vec!["@.a > 1"; 30].join(" && ");
    assert!(check_indices(&format!("$[?({})]", conditions)));
    let many = vec!["@.a > 1"; 31].join(" || ");
    assert!(!check_indices(&format!("$[?({})]", many)));
    assert!(check_indices("$['@@@@@@@@@@@@@@@@@@@@@@@@@@@@@@@@@@@@@@@@@@@@@@@@']"));
}

#[test]
fn deepest_admitted_queries_are_evaluated() {
    let document = "{\"a\": [1, 2, {\"b\": 3}]}";
    let parens = format!("$.a[?({}@.b{})].b", "(".repeat(29), ")".repeat(29));
    assert_eq!(locate(document, &parens).unwrap().text, "3");
    let ats = format!("$.a[?({}.b)].b", "@".repeat(30));
    assert!(check_indices(&ats));
    let _ = locate(document, &ats);
    let brackets = format!("$.a{}{}", "[?(@".repeat(10), ")]".repeat(10));
    assert!(check_indices(&brackets));
    let _ = locate(document, &brackets);
}

#[test]
fn lists_that_are_operands_may_hold_any_number() {
    let document = "{\"v\": [-1, 2, 7.5, 9]}";
    assert!(check_indices("$[?(@ in [-1,2])]"));
    assert_eq!(locate(document, "$.v[?(@ in [-1,2])]").unwrap().text, "-1");
    assert_eq!(locate(document, "$.v[?(@ in [7.5, 1e3])]").unwrap().text, "7.5");
    assert_eq!(locate(document, "$.v[?(@ nin [-1, 2, 7.5])]").unwrap().text, "9");
    assert_eq!(locate(document, "$.v[?(@ in [-1,2] || @ == 9)]").unwrap().text, "-1");
    assert!(check_indices("$.v[?(@ anyOf [-1, 2.5])]"));
    assert!(check_indices("$.v[?([-1,2] subsetOf @)]"));
    assert!(check_indices("$.v[?(@ == [99999999999999999999, 1])]"));
    assert!(check_indices("$.v[?(@.a in ['x', 'y'] && @.b in [-1, -2])]"));
}

#[test]
fn lists_that_are_indices_stay_checked() {
    for query in [
        "$.in[1,-2]",
        "$.v.in[1,-2]",
        "$..in[1,-2]",
        "$.. in[1,-2]",
        "$[?(@.. in[1,-2])]",
        "$[?(@.in [1,-2])]",
        "$[?(@.a[1,-2] == 1)]",
        "$[?(@.a == [1,-2].b)]",
        "$[?(@.a == [1,-2][0])]",
        "$[?(@.a == [1,-2] .b)]",
        "$[?(@.a == [1,-2]@)]",
        "$[?(@.a == $[1,-2])]",
        "$[?(@.a == @[1,-2])]",
        "$[?(@.a == [99999999999999999999])]",
        "$[?(@.a in [1,-2]",
        "$[?(@.a in [1,-2",
        "$[?(@.a in [1,-2,'x'])]",
        "$[?(@.a in [1,-2:3])]",
        "$[1,-2]",
        "$ [1,-2]",
        "$['a'][1,-2]",
        "$[0][1,-2]",
        "$.*[1,-2]",
        "$.length()[1,-2]",
    ] {
        assert!(!check_indices(query), "{}", query);
    }
}

#[test]
fn queries_that_pass_the_check_can_be_evaluated() {
    let tokens = [
        "$", ".", "..", "a", "b", "v", "[", "]", "0", "1", "2", "-1", "5", ",", ":", "*", "?(",
        "(", ")", "@", "==", "<", ">=", "~=", "in", "size", "'x'", "\"y\"", "'a,1'", " ",
        ".length()", "1.5", "2e3", "&&", "||", "!", "['a']", "['a','b']", "00", "-0", "+1",
        "99999999999999999999", "123456789012345678", "true", "null", "\\", "'", "[", "]", "[",
        "]", ",", ":", "0", "1", " in ", " nin ", "in", " anyOf ", "[-1,2]", "[1,-2]", "[1.5,2]",
        " == ", ".in", "..", ".. ", "@", "@.a", "?(@", ")]", "[?(", "-1", ",",
    ];
    let documents = [
        "{\"a\": [1, 2, 3, {\"b\": 4.5, \"v\": \"x\"}], \"b\": {\"a\": [[1, 2], [3]]}, \"v\": \"7\"}",
        "[[0, 1, 2, 3, 4, 5], {\"a\": null, \"b\": true}, \"text\", 9]",
        "3.5",
    ];
    let mut seed: u64 = 0x2545_F491_4F6C_DD1D;
    let mut next = |bound: usize| {
        seed ^= seed << 13;
        seed ^= seed >> 7;
        seed ^= seed << 17;
        (seed % bound as u64) as usize
    };
    let mut evaluated = 0;
    for _ in 0..60000 {
        let mut query = String::from("$");
        for _ in 0..(1 + next(11)) {
            query.push_str(tokens[next(tokens.len())]);
        }
        if check_indices(&query) {
            for document in documents {
                let _ = locate(document, &query);
            }
            evaluated += 1;
        }
    }
    assert!(evaluated > 1000);
}
