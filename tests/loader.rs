use boop_executor::loader::{ends_with, starts_with, MODULE_EPILOGUE, MODULE_PROLOGUE};
use boop_executor::{
    bundled_script, locate, prepare_module, with_default_extension, wrap_module, LoadError,
    ScriptLocation,
};

#[test]
fn extension_is_appended_when_missing() {
    assert_eq!(with_default_extension("helper"), "helper.js");
    assert_eq!(with_default_extension(""), ".js");
}

#[test]
fn extension_is_kept_when_present() {
    assert_eq!(with_default_extension("helper.js"), "helper.js");
    assert_eq!(with_default_extension(".js"), ".js");
}

#[test]
fn internal_specifier_maps_to_bundled_root() {
    assert_eq!(
        locate("@boop/base64"),
        ScriptLocation::Internal("lib/base64.js".to_string())
    );
    assert_eq!(
        locate("@boop/x.js"),
        ScriptLocation::Internal("lib/x.js".to_string())
    );
}

#[test]
fn plain_specifier_is_external() {
    assert_eq!(locate("x"), ScriptLocation::External("x.js".to_string()));
    assert_eq!(
        locate("dir/@boop/y"),
        ScriptLocation::External("dir/@boop/y.js".to_string())
    );
}

#[test]
fn namespaces_resolve_independently() {
    let internal = locate("@boop/x");
    let external = locate("x");
    assert_ne!(internal, external);
    assert_eq!(internal, ScriptLocation::Internal("lib/x.js".to_string()));
    assert_eq!(external, ScriptLocation::External("x.js".to_string()));
}

#[test]
fn missing_bundled_resource_is_not_found() {
    assert_eq!(
        bundled_script("@boop/missing.js", None),
        Err(LoadError::NotFound("@boop/missing.js".to_string()))
    );
}

#[test]
fn invalid_utf8_resource_is_encoding_error() {
    assert_eq!(
        bundled_script("@boop/bad.js", Some(vec![0x66, 0xff, 0xfe])),
        Err(LoadError::Encoding)
    );
}

#[test]
fn valid_resource_decodes() {
    assert_eq!(
        bundled_script("@boop/ok.js", Some("héllo".as_bytes().to_vec())),
        Ok("héllo".to_string())
    );
    assert_eq!(bundled_script("@boop/empty.js", Some(vec![])), Ok(String::new()));
}

#[test]
fn missing_module_yields_undefined() {
    let loaded = bundled_script("@boop/missing.js", None);
    assert_eq!(prepare_module(loaded), None);
    assert_eq!(prepare_module(Err(LoadError::Io("no such file".to_string()))), None);
}

#[test]
fn loaded_module_is_wrapped() {
    let code = prepare_module(Ok("module.exports = 1;".to_string())).unwrap();
    assert_eq!(
        code,
        format!("{}module.exports = 1;{}", MODULE_PROLOGUE, MODULE_EPILOGUE)
    );
}

#[test]
fn wrapper_surrounds_source() {
    let code = wrap_module("exports.a = 2;");
    assert!(code.starts_with(MODULE_PROLOGUE));
    assert!(code.ends_with(MODULE_EPILOGUE));
    assert!(code.contains("(function (exports, module) {"));
    assert!(code.contains("return module.exports;"));
    assert_eq!(
        code.len(),
        MODULE_PROLOGUE.len() + "exports.a = 2;".len() + MODULE_EPILOGUE.len()
    );
}

#[test]
fn suffix_and_prefix_checks() {
    assert!(ends_with("a.js", ".js"));
    assert!(!ends_with("js", ".js"));
    assert!(ends_with("é", "é"));
    assert!(starts_with("@boop/x", "@boop/"));
    assert!(!starts_with("@boo", "@boop/"));
    assert!(starts_with("anything", ""));
}
