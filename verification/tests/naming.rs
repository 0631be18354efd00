use mako::naming::{
    push_decimal, to_hot_update_chunk_name, to_hot_update_manifest_name, to_sourcemap_name,
};

#[test]
fn hot_update_name_goes_before_the_extension() {
    assert_eq!(
        to_hot_update_chunk_name(&"main.js".to_string(), 12345),
        "main.12345.hot-update.js"
    );
}

#[test]
fn hot_update_name_without_extension_is_appended() {
    assert_eq!(to_hot_update_chunk_name(&"main".to_string(), 12345), "main.12345.hot-update");
}

#[test]
fn hot_update_name_splits_at_the_last_dot() {
    assert_eq!(
        to_hot_update_chunk_name(&"pages.index.async.css".to_string(), 7),
        "pages.index.async.7.hot-update.css"
    );
}

#[test]
fn hot_update_name_of_a_dotfile_has_an_empty_stem() {
    assert_eq!(to_hot_update_chunk_name(&".env".to_string(), 42), ".42.hot-update.env");
}

#[test]
fn hot_update_name_with_a_trailing_dot_has_an_empty_extension() {
    assert_eq!(to_hot_update_chunk_name(&"chunk.".to_string(), 9), "chunk.9.hot-update.");
}

#[test]
fn hot_update_name_of_the_empty_name() {
    assert_eq!(to_hot_update_chunk_name(&String::new(), 0), ".0.hot-update");
}

#[test]
fn hot_update_name_counts_characters_not_bytes() {
    assert_eq!(
        to_hot_update_chunk_name(&"页面.é.js".to_string(), 100),
        "页面.é.100.hot-update.js"
    );
}

#[test]
fn hot_update_name_agrees_with_the_standard_library() {
    let names = ["a.js", "a", "a.b.c", "..", "dir/file.min.js", "x.y."];
    let hashes = [0u64, 9, 10, 99, 100, 12345, 18446744073709551615];
    for name in names {
        for hash in hashes {
            let expected = match name.rsplit_once('.') {
                None => format!("{name}.{hash}.hot-update"),
                Some((left, ext)) => format!("{left}.{hash}.hot-update.{ext}"),
            };
            assert_eq!(to_hot_update_chunk_name(&name.to_string(), hash), expected);
        }
    }
}

#[test]
fn decimal_of_zero_is_one_digit() {
    let mut out = String::new();
    push_decimal(&mut out, 0);
    assert_eq!(out, "0");
}

#[test]
fn decimal_is_appended_to_what_is_there() {
    let mut out = "n=".to_string();
    push_decimal(&mut out, 1090);
    assert_eq!(out, "n=1090");
}

#[test]
fn decimal_of_the_largest_hash() {
    let mut out = String::new();
    push_decimal(&mut out, u64::MAX);
    assert_eq!(out, "18446744073709551615");
}

#[test]
fn manifest_name_is_keyed_by_the_hash() {
    assert_eq!(to_hot_update_manifest_name(12345), "12345.hot-update.json");
    assert_eq!(to_hot_update_manifest_name(0), "0.hot-update.json");
}

#[test]
fn sourcemap_name_appends_map() {
    assert_eq!(to_sourcemap_name(&"main.js".to_string()), "main.js.map");
    assert_eq!(to_sourcemap_name(&"a/b".to_string()), "a/b.map");
}
