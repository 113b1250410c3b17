use vui::form::{Form, ToolInput};

fn call(f: &mut Form, field: &str, action: &str, value: &str) -> String {
    f.apply(&ToolInput::new(field.to_string(), action.to_string(), value.to_string()))
}

#[test]
fn write_sets_field() {
    let mut f = Form::new();
    assert_eq!(call(&mut f, "name", "write", "Ada"), "Set name to \"Ada\"");
    assert_eq!(f.name, "Ada");
    assert_eq!(call(&mut f, "notes", "write", "say \"hi\""), "Set notes to \"say \\\"hi\\\"\"");
    assert_eq!(f.notes, "say \"hi\"");
}

#[test]
fn write_unknown_field() {
    let mut f = Form::new();
    assert_eq!(call(&mut f, "phone", "write", "1"), "Unknown field: phone");
    assert!(f.is_empty());
}

#[test]
fn read_field_and_form() {
    let mut f = Form::new();
    call(&mut f, "email", "write", "a@b.c");
    assert_eq!(call(&mut f, "email", "read", ""), "\"a@b.c\"");
    assert_eq!(call(&mut f, "github", "read", ""), "\"\"");
    assert_eq!(
        call(&mut f, "form", "read", ""),
        "name: \"\"\nemail: \"a@b.c\"\nlinkedin: \"\"\ngithub: \"\"\nnotes: \"\""
    );
    assert_eq!(call(&mut f, "age", "read", ""), "Unknown field: age");
}

#[test]
fn clear_field_and_form() {
    let mut f = Form::new();
    call(&mut f, "name", "write", "Ada");
    call(&mut f, "linkedin", "write", "ada");
    assert_eq!(call(&mut f, "name", "clear", ""), "Cleared name");
    assert_eq!(f.name, "");
    assert_eq!(f.linkedin, "ada");
    assert_eq!(call(&mut f, "form", "clear", ""), "Form cleared");
    assert!(f.is_empty());
    assert_eq!(call(&mut f, "x", "clear", ""), "Unknown field: x");
}

#[test]
fn submit_needs_name_and_email() {
    let mut f = Form::new();
    assert_eq!(call(&mut f, "form", "submit", ""), "Cannot submit: name and email are required");
    call(&mut f, "name", "write", "Ada");
    call(&mut f, "email", "write", "   ");
    assert!(!f.is_ready());
    assert_eq!(call(&mut f, "form", "submit", ""), "Cannot submit: name and email are required");
    call(&mut f, "email", "write", " a@b.c ");
    assert!(f.is_ready());
    assert_eq!(call(&mut f, "form", "submit", ""), "Form submitted");
}

#[test]
fn unknown_action() {
    let mut f = Form::new();
    assert_eq!(call(&mut f, "name", "erase", ""), "Unknown action: erase");
}

#[test]
fn emptiness() {
    let mut f = Form::new();
    assert!(f.is_empty());
    call(&mut f, "github", "write", "x");
    assert!(!f.is_empty());
}
