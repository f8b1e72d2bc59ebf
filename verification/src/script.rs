//! The fixed text of the script-side protocol: the names under which the
//! host capabilities are installed, the instantiation statement, the
//! promise-wrapping invocation expression, and the lines the host prints.

use vstd::prelude::*;
use vstd::string::StringExecFns;

verus! {

/// The global object carrying the logging capability.
pub fn console_object_name() -> (r: &'static str)
    ensures
        r@ == "console"@,
{
    "console"
}

/// The property of the console object holding the logging function.
pub fn log_property_name() -> (r: &'static str)
    ensures
        r@ == "log"@,
{
    "log"
}

/// The global name under which the request capability is installed.
pub fn request_function_name() -> (r: &'static str)
    ensures
        r@ == "request"@,
{
    "request"
}

/// The statement that constructs the single plugin instance and binds it to
/// the well-known identifier the invocation expression calls through.
pub open spec fn instantiation_text() -> Seq<char> {
    "const instance = new source.default();"@
}

/// Renders the instantiation statement.
pub fn instantiation_statement() -> (r: String)
    ensures
        r@ == instantiation_text(),
{
    "const instance = new source.default();".to_owned()
}

/// Text standing before the call expression in the invocation wrapper; it
/// ends with the bound instance identifier and the member dot.
pub open spec fn wrapper_prefix() -> Seq<char> {
    "\n            new Promise((resolve, reject) => {\n                instance."@
}

/// Text standing after the call expression: the chain that serializes the
/// resolved value to JSON and propagates a rejection.
pub open spec fn wrapper_suffix() -> Seq<char> {
    ".then(data => {\n                    resolve(JSON.stringify(data));\n                }).catch(error => {\n                    reject(error);\n                });\n            });\n            "@
}

/// Wraps a call expression in the promise-chaining invocation expression.
pub fn invocation_wrapper(call: &str) -> (r: String)
    ensures
        r@ == wrapper_prefix() + call@ + wrapper_suffix(),
{
    let mut s = "\n            new Promise((resolve, reject) => {\n                instance.".to_owned();
    s.append(call);
    s.append(
        ".then(data => {\n                    resolve(JSON.stringify(data));\n                }).catch(error => {\n                    reject(error);\n                });\n            });\n            ",
    );
    s
}

/// The prefix of every line the logging capability writes.
pub open spec fn log_prefix() -> Seq<char> {
    "JavaScript console.log: "@
}

/// The diagnostic line for one logged message.
pub fn log_line(message: &str) -> (r: String)
    ensures
        r@ == log_prefix() + message@,
{
    let mut s = "JavaScript console.log: ".to_owned();
    s.append(message);
    s
}

/// The diagnostic printed when the completion value yields no text.
pub open spec fn unresolved_text() -> Seq<char> {
    "Promise did not resolve to a value."@
}

/// The single line printed per run: the extracted result text, or the
/// diagnostic that the promise did not resolve to a value.
pub fn resolution_output(value: Option<String>) -> (r: String)
    ensures
        value matches Some(s) ==> r@ == s@,
        value is None ==> r@ == unresolved_text(),
{
    match value {
        Some(s) => s,
        None => "Promise did not resolve to a value.".to_owned(),
    }
}

/// The diagnostic line for a transport failure, carrying its description.
pub fn request_failed_line(error: &str) -> (r: String)
    ensures
        r@ == "Request failed: "@ + error@,
{
    let mut s = "Request failed: ".to_owned();
    s.append(error);
    s
}

} // verus!
