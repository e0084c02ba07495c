use aleo_new::{CreateError, New};

// A valid name in an available directory yields a plan with the exact
// target path and identifier token.
#[test]
fn plan_valid_name() {
    let cmd = New::new(String::from("hello"));
    let plan = cmd.plan(Some("/work")).unwrap();
    assert_eq!(plan.path, "/work/hello");
    assert_eq!(plan.id_token, "hello.aleo");
}

// The root directory already ends in a separator: no second one is added.
#[test]
fn plan_in_root_directory() {
    let cmd = New::new(String::from("hello"));
    let plan = cmd.plan(Some("/")).unwrap();
    assert_eq!(plan.path, "/hello");
    assert_eq!(plan.id_token, "hello.aleo");
}

// An empty name does not form a valid program identifier.
#[test]
fn plan_empty_name() {
    let cmd = New::new(String::from(""));
    let r = cmd.plan(Some("/work"));
    assert_eq!(r.unwrap_err(), CreateError::InvalidProgramId);
}

// Names with characters outside the identifier grammar are refused.
#[test]
fn plan_invalid_characters() {
    for name in ["my-program", "0foo", "_foo", "Bar", "foO", "a b", "a.b"] {
        let cmd = New::new(String::from(name));
        let r = cmd.plan(Some("/work"));
        assert_eq!(r.unwrap_err(), CreateError::InvalidProgramId, "name: {name}");
    }
}

// A reserved literal-type word is not a valid identifier either.
#[test]
fn plan_reserved_word() {
    let cmd = New::new(String::from("field"));
    let r = cmd.plan(Some("/work"));
    assert_eq!(r.unwrap_err(), CreateError::InvalidProgramId);
}

// An identifier longer than the network's limit is refused.
#[test]
fn plan_name_too_long() {
    let cmd = New::new(String::from("a").repeat(100));
    let r = cmd.plan(Some("/work"));
    assert_eq!(r.unwrap_err(), CreateError::InvalidProgramId);
}

// Underscores and digits after a leading letter are within the grammar.
#[test]
fn plan_underscore_and_digits() {
    let cmd = New::new(String::from("token_v2"));
    let plan = cmd.plan(Some("/work")).unwrap();
    assert_eq!(plan.path, "/work/token_v2");
    assert_eq!(plan.id_token, "token_v2.aleo");
}

// An unavailable working directory fails with the environment error
// before any identifier construction: even an invalid name reports the
// environment failure.
#[test]
fn plan_no_working_directory() {
    let cmd = New::new(String::from("hello"));
    assert_eq!(cmd.plan(None).unwrap_err(), CreateError::Environment);
    let bad = New::new(String::from("not a name"));
    assert_eq!(bad.plan(None).unwrap_err(), CreateError::Environment);
}

// A successful creation yields the confirmation message with the literal
// name and the absolute target path.
#[test]
fn render_success_message() {
    let cmd = New::new(String::from("hello"));
    let msg = cmd.render("/work/hello", Ok(())).unwrap();
    assert_eq!(msg, "\u{2705} Created an Aleo program 'hello' (in \"/work/hello\")");
    assert!(msg.contains("hello"));
    assert!(msg.contains("/work/hello"));
}

// A materializer failure is surfaced unmodified as a creation error.
#[test]
fn render_creation_error() {
    let cmd = New::new(String::from("hello"));
    let report = String::from("The program directory already exists: /work/hello");
    let r = cmd.render("/work/hello", Err(report.clone()));
    assert_eq!(r.unwrap_err(), CreateError::Creation(report));
}

// Running the operation a second time in the same directory: the plan is
// the same, and the materializer's collision report becomes a creation
// error rather than a success message.
#[test]
fn second_run_same_directory() {
    let cmd = New::new(String::from("hello"));
    let first = cmd.plan(Some("/work")).unwrap();
    let second = cmd.plan(Some("/work")).unwrap();
    assert_eq!(first.path, second.path);
    assert_eq!(first.id_token, second.id_token);
    let collision = String::from("The program directory already exists: /work/hello");
    let r = cmd.render(&second.path, Err(collision.clone()));
    assert_eq!(r.unwrap_err(), CreateError::Creation(collision));
}

// The error descriptions: the library's own wording for its own failures,
// the materializer's report passed through unchanged.
#[test]
fn error_messages() {
    assert_eq!(
        CreateError::Environment.message(),
        "failed to determine the current working directory"
    );
    assert_eq!(
        CreateError::InvalidProgramId.message(),
        "the name is not a valid Aleo program identifier"
    );
    assert_eq!(CreateError::Creation(String::from("disk full")).message(), "disk full");
}

// The path join itself: a separator is inserted only where none is
// present, and an empty directory contributes nothing.
#[test]
fn join_path_edges() {
    assert_eq!(aleo_new::path::join_path("/a/b", "c"), "/a/b/c");
    assert_eq!(aleo_new::path::join_path("/a/", "c"), "/a/c");
    assert_eq!(aleo_new::path::join_path("", "c"), "c");
}

// The identifier token is the name with the fixed suffix appended.
#[test]
fn id_token_exact() {
    assert_eq!(aleo_new::id::id_token("hello"), "hello.aleo");
    assert_eq!(aleo_new::id::id_token(""), ".aleo");
}

// A name holding traversal characters never reaches path creation: the
// identifier grammar refuses it.
#[test]
fn plan_traversal_name() {
    let cmd = New::new(String::from("../x"));
    assert_eq!(cmd.plan(Some("/work")).unwrap_err(), CreateError::InvalidProgramId);
}
