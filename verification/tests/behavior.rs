//! The generated builder's run-time behaviour: setting, accumulating,
//! replacing, and validated construction.

use builder::descriptor::AttrValue;
use builder::descriptor::AttributeDescriptor;
use builder::descriptor::DeclaredType;
use builder::descriptor::FieldDescriptor;
use builder::descriptor::TypeDescriptor;
use builder::semantics::FieldValue;
use builder::semantics::build;
use builder::semantics::new_builder;
use builder::synth::Artifact;
use builder::synth::find_method;
use builder::synth::synthesize;

fn ty(head: &str, args: Vec<DeclaredType>) -> DeclaredType {
    DeclaredType { head: head.to_string(), args }
}

fn plain(head: &str) -> DeclaredType {
    ty(head, vec![])
}

fn field(name: &str, t: DeclaredType) -> FieldDescriptor {
    FieldDescriptor { name: name.to_string(), ty: t, attrs: vec![] }
}

fn each_attr(value: &str) -> AttributeDescriptor {
    AttributeDescriptor { key: "each".to_string(), value: AttrValue::Text(value.to_string()) }
}

fn method(a: &Artifact, name: &str) -> usize {
    match find_method(a, name) {
        Some(i) => i,
        None => panic!("no generated method is named {}", name),
    }
}

/// The running example: a command with a required executable, an accumulating
/// argument list whose accumulator is named `arg`, and an optional
/// environment.
fn command_artifact() -> Artifact {
    let mut args = field("args", ty("Vec", vec![plain("String")]));
    args.attrs.push(each_attr("arg"));
    let td = TypeDescriptor {
        name: "Command".to_string(),
        visibility: "pub".to_string(),
        fields: vec![
            field("executable", plain("String")),
            args,
            field("env", ty("Option", vec![plain("String")])),
        ],
    };
    synthesize(td).expect("synthesis should succeed")
}

#[test]
fn command_scenario_builds_with_accumulated_args() {
    let a = command_artifact();
    let mut b = new_builder(&a);
    b.set_value(&a, method(&a, "executable"), "ls".to_string());
    b.append_element(&a, method(&a, "arg"), "-l".to_string());
    b.append_element(&a, method(&a, "arg"), "-a".to_string());
    let inst = build(&a, &b).expect("a complete builder must build");
    assert_eq!(inst.fields.len(), 3);
    assert_eq!(inst.fields[0], FieldValue::One("ls".to_string()));
    assert_eq!(
        inst.fields[1],
        FieldValue::Many(vec!["-l".to_string(), "-a".to_string()])
    );
    assert_eq!(inst.fields[2], FieldValue::Maybe(None));
}

#[test]
fn command_scenario_missing_executable_fails_naming_it() {
    let a = command_artifact();
    let mut b = new_builder(&a);
    b.append_element(&a, method(&a, "arg"), "-l".to_string());
    match build(&a, &b) {
        Err(e) => {
            assert_eq!(e.field, "executable");
            assert_eq!(e.message(), "Required field 'executable' is missing");
        },
        Ok(_) => panic!("an incomplete builder must not build"),
    }
}

#[test]
fn build_failure_keeps_the_builder_usable() {
    let a = command_artifact();
    let mut b = new_builder(&a);
    b.append_element(&a, method(&a, "arg"), "-l".to_string());
    assert!(build(&a, &b).is_err());
    b.set_value(&a, method(&a, "executable"), "ls".to_string());
    let inst = build(&a, &b).expect("the retried build must succeed");
    assert_eq!(inst.fields[1], FieldValue::Many(vec!["-l".to_string()]));
}

#[test]
fn required_fields_build_in_any_order() {
    let td = TypeDescriptor {
        name: "Point".to_string(),
        visibility: String::new(),
        fields: vec![field("x", plain("u32")), field("y", plain("u32"))],
    };
    let a = synthesize(td).expect("synthesis should succeed");

    let mut b = new_builder(&a);
    match build(&a, &b) {
        Err(e) => assert_eq!(e.field, "x"),
        Ok(_) => panic!("nothing is set yet"),
    }
    b.set_value(&a, method(&a, "x"), "1".to_string());
    match build(&a, &b) {
        Err(e) => assert_eq!(e.field, "y"),
        Ok(_) => panic!("y is still missing"),
    }
    b.set_value(&a, method(&a, "y"), "2".to_string());
    let inst = build(&a, &b).expect("all required fields are set");
    assert_eq!(inst.fields[0], FieldValue::One("1".to_string()));
    assert_eq!(inst.fields[1], FieldValue::One("2".to_string()));

    let mut c = new_builder(&a);
    c.set_value(&a, method(&a, "y"), "2".to_string());
    match build(&a, &c) {
        Err(e) => assert_eq!(e.field, "x"),
        Ok(_) => panic!("x is still missing"),
    }
    c.set_value(&a, method(&a, "x"), "1".to_string());
    let other = build(&a, &c).expect("order must not matter");
    assert_eq!(inst, other);
}

#[test]
fn setting_twice_keeps_the_last_value() {
    let td = TypeDescriptor {
        name: "Point".to_string(),
        visibility: String::new(),
        fields: vec![
            field("x", plain("u32")),
            field("label", ty("Option", vec![plain("String")])),
        ],
    };
    let a = synthesize(td).expect("synthesis should succeed");
    let mut b = new_builder(&a);
    b.set_value(&a, method(&a, "x"), "1".to_string());
    b.set_value(&a, method(&a, "x"), "2".to_string());
    b.set_value(&a, method(&a, "label"), "first".to_string());
    b.set_value(&a, method(&a, "label"), "second".to_string());
    let inst = build(&a, &b).expect("x is set");
    assert_eq!(inst.fields[0], FieldValue::One("2".to_string()));
    assert_eq!(inst.fields[1], FieldValue::Maybe(Some("second".to_string())));
}

#[test]
fn whole_sequence_setter_replaces_and_never_appends() {
    let td = TypeDescriptor {
        name: "Bag".to_string(),
        visibility: String::new(),
        fields: vec![field("items", ty("Vec", vec![plain("String")]))],
    };
    let a = synthesize(td).expect("synthesis should succeed");
    let mut b = new_builder(&a);
    let items = method(&a, "items");
    b.replace_sequence(&a, items, vec!["a".to_string(), "b".to_string()]);
    b.replace_sequence(&a, items, vec!["c".to_string()]);
    let inst = build(&a, &b).expect("no required fields");
    assert_eq!(inst.fields[0], FieldValue::Many(vec!["c".to_string()]));
}

#[test]
fn replacement_wins_over_prior_appends() {
    let a = command_artifact();
    let mut b = new_builder(&a);
    b.set_value(&a, method(&a, "executable"), "ls".to_string());
    b.append_element(&a, method(&a, "arg"), "-l".to_string());
    b.append_element(&a, method(&a, "arg"), "-a".to_string());
    b.append_element(&a, method(&a, "arg"), "-h".to_string());
    b.replace_sequence(
        &a,
        method(&a, "args"),
        vec!["-x".to_string(), "-y".to_string()],
    );
    let inst = build(&a, &b).expect("executable is set");
    assert_eq!(
        inst.fields[1],
        FieldValue::Many(vec!["-x".to_string(), "-y".to_string()])
    );
}

#[test]
fn matching_accumulator_appends_in_call_order() {
    let mut lines = field("lines", ty("Vec", vec![plain("String")]));
    lines.attrs.push(each_attr("lines"));
    let td = TypeDescriptor {
        name: "Text".to_string(),
        visibility: String::new(),
        fields: vec![lines],
    };
    let a = synthesize(td).expect("synthesis should succeed");
    assert_eq!(a.methods.len(), 1, "the whole-sequence setter is suppressed");
    let mut b = new_builder(&a);
    for part in ["one", "two", "three", "four"] {
        b.append_element(&a, 0, part.to_string());
    }
    let inst = build(&a, &b).expect("no required fields");
    assert_eq!(
        inst.fields[0],
        FieldValue::Many(vec![
            "one".to_string(),
            "two".to_string(),
            "three".to_string(),
            "four".to_string(),
        ])
    );
}

#[test]
fn optional_fields_never_block_and_pass_through() {
    let td = TypeDescriptor {
        name: "Config".to_string(),
        visibility: String::new(),
        fields: vec![
            field("color", ty("Option", vec![plain("String")])),
            field("shade", ty("Option", vec![plain("String")])),
        ],
    };
    let a = synthesize(td).expect("synthesis should succeed");
    let mut b = new_builder(&a);
    b.set_value(&a, method(&a, "shade"), "dark".to_string());
    let inst = build(&a, &b).expect("optional fields never block a build");
    assert_eq!(inst.fields[0], FieldValue::Maybe(None));
    assert_eq!(inst.fields[1], FieldValue::Maybe(Some("dark".to_string())));
}

#[test]
fn empty_sequence_is_a_valid_final_value() {
    let a = command_artifact();
    let mut b = new_builder(&a);
    b.set_value(&a, method(&a, "executable"), "true".to_string());
    let inst = build(&a, &b).expect("args may stay empty");
    assert_eq!(inst.fields[1], FieldValue::Many(vec![]));
}
