use envrender::errors::Error;

#[test]
fn undefined_variable_message_names_the_variable() {
    let e = Error::UndefinedVariable(Some("GLOBAL_VALUE".to_string()));
    assert_eq!(e.message(), "Variable \"GLOBAL_VALUE\" not found");
}

#[test]
fn unnamed_undefined_variable_message() {
    let e = Error::UndefinedVariable(None);
    assert_eq!(e.message(), "Variable not found");
}

#[test]
fn io_and_parse_messages_are_verbatim() {
    let io = Error::SourceIo("No such file or directory".to_string());
    assert_eq!(io.message(), "No such file or directory");
    let parse = Error::SourceParse("Error parsing line: 'x', error at line index: 0".to_string());
    assert_eq!(parse.message(), "Error parsing line: 'x', error at line index: 0");
    let syntax = Error::RenderSyntax("Failed to parse template".to_string());
    assert_eq!(syntax.message(), "Failed to parse template");
}
