use rex_shim::{sibling_path, LIBRARY_NAME};

#[test]
fn library_name_is_fixed() {
    assert_eq!(LIBRARY_NAME, "Rex Shared Library-original");
}

#[test]
fn sibling_lies_in_the_directory_of_the_shim() {
    assert_eq!(
        sibling_path("/Library/Application Support/Host/REX Shared Library.bundle/Contents/MacOS/REX Shared Library"),
        Some(
            "/Library/Application Support/Host/REX Shared Library.bundle/Contents/MacOS/Rex Shared Library-original"
                .to_string()
        ),
    );
    assert_eq!(
        sibling_path("/opt/host/libshim.so"),
        Some("/opt/host/Rex Shared Library-original".to_string()),
    );
}

#[test]
fn sibling_does_not_depend_on_the_name_of_the_shim() {
    assert_eq!(sibling_path("/opt/host/a"), sibling_path("/opt/host/another name.dylib"));
}

#[test]
fn sibling_of_a_file_in_the_root_directory() {
    assert_eq!(sibling_path("/shim"), Some("/Rex Shared Library-original".to_string()));
}

#[test]
fn sibling_of_a_bare_file_name_is_the_bare_library_name() {
    assert_eq!(sibling_path("shim"), Some("Rex Shared Library-original".to_string()));
}

#[test]
fn sibling_of_a_relative_path() {
    assert_eq!(
        sibling_path("plugins/shim.so"),
        Some("plugins/Rex Shared Library-original".to_string()),
    );
}

#[test]
fn empty_path_has_no_sibling() {
    assert_eq!(sibling_path(""), None);
}

#[test]
fn root_has_no_sibling() {
    assert_eq!(sibling_path("/"), None);
}
