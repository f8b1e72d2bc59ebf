use chouten::dispatch::build_call;
use chouten::script::{invocation_wrapper, resolution_output};
use chouten::Params;

fn args(list: &[&str]) -> Vec<String> {
    list.iter().map(|s| s.to_string()).collect()
}

// A search run: the arguments validate, the call expression carries the URL,
// the wrapper calls it on the bound instance, and a value the plugin
// resolves is printed verbatim.
#[test]
fn search_run_prints_the_resolved_value() {
    let params = Params::new(&args(&["chouten", "plugin.src", "--search", "https://example.com/q"]))
        .unwrap();
    let call = build_call(&params.option, &params.url).unwrap();
    assert_eq!(call, "search('https://example.com/q')");

    let wrapper = invocation_wrapper(&call);
    assert!(wrapper.contains("instance.search('https://example.com/q').then(data => {"));

    let printed = resolution_output(Some("[\"x\",\"y\"]".to_string()));
    assert_eq!(printed, "[\"x\",\"y\"]");
}

// A discover run resolving to an object prints exactly its JSON text.
#[test]
fn discover_run_prints_the_resolved_object() {
    let params = Params::new(&args(&["chouten", "plugin.src", "--discover"])).unwrap();
    let call = build_call(&params.option, &params.url).unwrap();
    assert_eq!(call, "discover()");

    let printed = resolution_output(Some("{\"a\":1}".to_string()));
    assert_eq!(printed, "{\"a\":1}");
}

// An info run without a URL passes validation with no URL bound and is
// then refused at dispatch with the URL-required message, before any file
// is read or compiled.
#[test]
fn info_without_url_is_refused_before_any_script_interaction() {
    let params = Params::new(&args(&["chouten", "plugin.src", "--info"])).unwrap();
    assert_eq!(params.url, None);

    let d = build_call(&params.option, &params.url);
    assert_eq!(d.unwrap_err().message(), "URL is required for --info option.");
}
