use targeted_vector::codec::parse_json;
use targeted_vector::engine::App;
use targeted_vector::value::Value;

const TEXTS: &str = r#"{"game_text":{
  "error_track_resource_not_found": ["Missing: "],
  "error_track_resource_not_found_annotation": ["Check the name."],
  "error_variable_not_i32_type": ["is not i32"],
  "error_variable_not_u32_type": ["is not u32"],
  "error_variable_not_f32_type": ["is not f32"],
  "error_variable_not_bool_type": ["is not bool"],
  "error_variable_not_vec_type": ["is not vec"],
  "error_variable_not_string_type": ["is not string"],
  "error_variable_wrong_type_annotation": ["Wrong type."]
}}"#;

fn app() -> App {
    App::new(None, Some(&parse_json(TEXTS).unwrap()))
}

#[test]
fn typed_reads_give_stored_values() {
    let mut a = app();
    a.add_var("i", Value::Int(-4));
    a.add_var("u", Value::from(7u32));
    a.add_var("f", Value::Float(1.5f32.to_bits()));
    a.add_var("b", Value::from(true));
    a.add_var("s", Value::from("hi".to_string()));
    a.add_var("v", Value::from(vec![Value::Int(1), Value::String("x".to_string())]));
    assert_eq!(a.var_i("i"), -4);
    assert_eq!(a.var_u("u"), 7);
    assert_eq!(f32::from_bits(a.var_f("f")), 1.5);
    assert!(a.var_b("b"));
    assert_eq!(a.var_s("s"), "hi");
    let v = a.var_v("v");
    assert_eq!(v.len(), 2);
    assert!(matches!(v[0], Value::Int(1)));
    assert!(matches!(&v[1], Value::String(s) if s == "x"));
    assert!(a.problem_list.is_empty());
    assert_eq!(a.variables[0].discern_type, "Variable");
}

#[test]
fn wrong_type_reads_report_and_give_defaults() {
    let mut a = app();
    a.add_var("flag", Value::Bool(true));
    assert_eq!(a.var_i("flag"), 0);
    assert_eq!(a.problem_list[0].problem, "\"flag\" is not i32");
    assert_eq!(a.problem_list[0].annotation, "Wrong type.");
    assert_eq!(a.var_u("flag"), 0);
    assert_eq!(a.var_f("flag"), 0);
    assert_eq!(a.var_s("flag"), "");
    assert!(a.var_v("flag").is_empty());
    assert_eq!(a.problem_list.len(), 5);
    assert_eq!(a.problem_list[4].problem, "\"flag\" is not vec");
}

#[test]
fn missing_reads_report_the_same_way() {
    let mut a = app();
    assert!(!a.var_b("ghost"));
    assert_eq!(a.problem_list.len(), 1);
    assert_eq!(a.problem_list[0].problem, "\"ghost\" is not bool");
}

#[test]
fn modify_then_read_gives_the_new_value() {
    let mut a = app();
    a.add_var("n", Value::UInt(1));
    a.add_var("m", Value::UInt(2));
    a.modify_var("m", Value::UInt(9));
    assert_eq!(a.var_u("m"), 9);
    assert_eq!(a.var_u("n"), 1);
    assert!(matches!(a.var("m"), Value::UInt(9)));
}

#[test]
fn adding_a_name_twice_keeps_the_first() {
    let mut a = app();
    a.add_var("n", Value::Int(1));
    a.add_var("n", Value::Int(2));
    assert_eq!(a.var_i("n"), 1);
    assert_eq!(a.variables.len(), 2);
}

#[test]
fn decoding_values() {
    let mut a = app();
    assert!(a.var_decode_b(Value::Bool(true)));
    assert_eq!(a.var_decode_i(Value::Int(-2)), -2);
    assert_eq!(a.var_decode_u(Value::UInt(2)), 2);
    assert_eq!(a.var_decode_f(Value::Float(7)), 7);
    assert_eq!(a.var_decode_s(Value::String("z".to_string())), "z");
    assert!(a.problem_list.is_empty());
    assert_eq!(a.var_decode_i(Value::Bool(false)), 0);
    assert_eq!(a.problem_list[0].problem, "\"Bool(false)\" is not i32");
    assert_eq!(a.var_decode_s(Value::UInt(3)), "");
    assert_eq!(a.problem_list[1].problem, "\"UInt(3)\" is not string");
    assert!(!a.var_decode_b(Value::Int(1)));
    assert_eq!(a.var_decode_u(Value::Int(1)), 0);
    assert_eq!(a.var_decode_f(Value::Int(1)), 0);
    assert_eq!(a.problem_list.len(), 5);
}

#[test]
fn values_copy_deeply() {
    let v = Value::Vec(vec![Value::Vec(vec![Value::String("a".to_string())]), Value::Float(3)]);
    let c = v.duplicate();
    match c {
        Value::Vec(items) => {
            assert_eq!(items.len(), 2);
            assert!(matches!(&items[0], Value::Vec(inner) if matches!(&inner[0], Value::String(s) if s == "a")));
            assert!(matches!(items[1], Value::Float(3)));
        }
        _ => panic!("not a list"),
    }
}

#[test]
fn values_are_written_as_debug_lays_them_out() {
    let v = Value::Vec(vec![
        Value::Int(-5),
        Value::Bool(true),
        Value::String("a\"b\n".to_string()),
        Value::UInt(7),
        Value::Float(3),
        Value::Vec(vec![]),
        Value::Int(i32::MIN),
    ]);
    let text = v.debug_text();
    assert_eq!(text, "Vec([Int(-5), Bool(true), String(\"a\\\"b\\n\"), UInt(7), Float(3), Vec([]), Int(-2147483648)])");
    assert_eq!(text, format!("{:?}", v));
    assert_eq!(Value::Bool(false).debug_text(), "Bool(false)");
}

#[test]
fn a_wrong_value_is_reported_with_its_text() {
    let mut a = app();
    assert_eq!(a.var_decode_i(Value::Vec(vec![Value::UInt(1)])), 0);
    assert_eq!(a.problem_list[0].problem, "\"Vec([UInt(1)])\" is not i32");
}
