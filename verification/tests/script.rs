use chouten::dispatch::build_call;
use chouten::script::{
    console_object_name, instantiation_statement, invocation_wrapper, log_line, log_property_name,
    request_failed_line, request_function_name, resolution_output,
};

#[test]
fn capability_names_are_fixed() {
    assert_eq!(console_object_name(), "console");
    assert_eq!(log_property_name(), "log");
    assert_eq!(request_function_name(), "request");
}

#[test]
fn instantiation_statement_binds_the_instance() {
    assert_eq!(instantiation_statement(), "const instance = new source.default();");
}

#[test]
fn wrapper_embeds_the_call_between_instance_and_then() {
    let w = invocation_wrapper("discover()");
    assert!(w.contains("instance.discover().then(data => {"));
    assert!(w.contains("resolve(JSON.stringify(data));"));
    assert!(w.contains("reject(error);"));
    assert!(w.trim_start().starts_with("new Promise((resolve, reject) => {"));
}

#[test]
fn wrapper_for_search_call_is_exact() {
    let call = build_call("--search", &Some("https://example.com/q".to_string())).unwrap();
    let w = invocation_wrapper(&call);
    let expected = "\n            new Promise((resolve, reject) => {\n                instance.search('https://example.com/q').then(data => {\n                    resolve(JSON.stringify(data));\n                }).catch(error => {\n                    reject(error);\n                });\n            });\n            ";
    assert_eq!(w, expected);
}

#[test]
fn log_line_carries_the_message() {
    assert_eq!(log_line("hello"), "JavaScript console.log: hello");
    assert_eq!(log_line(""), "JavaScript console.log: ");
}

#[test]
fn resolved_value_is_printed_as_is() {
    assert_eq!(resolution_output(Some("{\"a\":1}".to_string())), "{\"a\":1}");
    assert_eq!(resolution_output(Some("[\"x\",\"y\"]".to_string())), "[\"x\",\"y\"]");
}

#[test]
fn missing_value_prints_the_diagnostic() {
    assert_eq!(resolution_output(None), "Promise did not resolve to a value.");
}

#[test]
fn request_failure_line_names_the_error() {
    assert_eq!(request_failed_line("connect timeout"), "Request failed: connect timeout");
}
