use gir_codegen::analysis::{Imports, Status, TypeReference};
use gir_codegen::codegen::general::{
    cfg_condition_string, define_auto_boxed_type, define_boxed_type, define_object_type,
    define_shared_type, impl_interfaces, impl_parents, impl_static_type, start_comments, uses,
    version_condition, version_condition_string, write_vec,
};
use gir_codegen::env::GenerationContext;
use gir_codegen::version::Version;

fn context(repo_hash: Option<&str>) -> GenerationContext {
    GenerationContext {
        library_name: "Gtk".to_string(),
        min_cfg_version: Version::new(3, 4, 0),
        tool_name: "gir".to_string(),
        tool_version: "0.1.0".to_string(),
        repo_hash: repo_hash.map(|hash| hash.to_string()),
    }
}

fn reference(name: &str, status: Status) -> TypeReference {
    TypeReference { name: name.to_string(), status }
}

#[test]
fn start_comments_names_tool_and_repository() {
    let mut w = Vec::new();
    start_comments(&mut w, &context(Some("abc1234")));
    assert_eq!(
        w,
        vec![
            "// This file was generated by gir (0.1.0) from gir-files (abc1234)",
            "// DO NOT EDIT",
        ]
    );
}

#[test]
fn start_comments_marks_unknown_repository() {
    let mut w = Vec::new();
    start_comments(&mut w, &context(None));
    assert_eq!(
        w,
        vec![
            "// This file was generated by gir (0.1.0) from gir-files (???)",
            "// DO NOT EDIT",
        ]
    );
}

#[test]
fn start_comments_keeps_what_was_written() {
    let mut w = vec!["before".to_string()];
    start_comments(&mut w, &context(None));
    assert_eq!(w.len(), 3);
    assert_eq!(w[0], "before");
}

#[test]
fn guard_absent_without_version() {
    assert_eq!(version_condition_string("Gtk", Version::new(3, 4, 0), None, false, 0), None);
    assert_eq!(version_condition_string("Gtk", Version::new(3, 4, 0), None, true, 3), None);
}

#[test]
fn guard_absent_below_minimum() {
    let min = Version::new(3, 4, 0);
    assert_eq!(version_condition_string("Gtk", min, Some(Version::new(3, 3, 9)), false, 0), None);
    assert_eq!(version_condition_string("Gtk", min, Some(Version::new(2, 99, 0)), false, 0), None);
    assert_eq!(version_condition_string("Gtk", min, Some(Version::new(0, 0, 0)), false, 1), None);
}

#[test]
fn guard_present_at_minimum() {
    let min = Version::new(3, 4, 0);
    assert_eq!(
        version_condition_string("Gtk", min, Some(Version::new(3, 4, 0)), false, 0),
        Some("#[cfg(gtk_3_4)]".to_string())
    );
}

#[test]
fn guard_present_above_minimum() {
    let min = Version::new(3, 4, 0);
    assert_eq!(
        version_condition_string("Gtk", min, Some(Version::new(3, 10, 0)), false, 0),
        Some("#[cfg(gtk_3_10)]".to_string())
    );
    assert_eq!(
        version_condition_string("Gtk", min, Some(Version::new(3, 4, 1)), false, 0),
        Some("#[cfg(gtk_3_4_1)]".to_string())
    );
    assert_eq!(
        version_condition_string("Gtk", min, Some(Version::new(4, 0, 0)), false, 0),
        Some("#[cfg(gtk_4_0)]".to_string())
    );
}

#[test]
fn guard_indentation_and_comment_marker() {
    let min = Version::new(2, 0, 0);
    let v = Some(Version::new(2, 32, 0));
    for indent in 0..5usize {
        for commented in [false, true] {
            let guard = version_condition_string("GLib", min, v, commented, indent).unwrap();
            let leading = guard.chars().take_while(|c| c.is_whitespace()).count();
            assert_eq!(leading, indent);
            assert!(guard.chars().take(indent).all(|c| c == '\t'));
            assert_eq!(guard[indent..].starts_with("//"), commented);
            assert_eq!(guard.contains("//"), commented);
            assert!(guard.ends_with("#[cfg(glib_2_32)]"));
        }
    }
    assert_eq!(
        version_condition_string("GLib", min, v, true, 2),
        Some("\t\t//#[cfg(glib_2_32)]".to_string())
    );
}

#[test]
fn guard_uses_canonical_library_identifier() {
    let min = Version::new(0, 0, 0);
    assert_eq!(
        version_condition_string("GdkPixbuf", min, Some(Version::new(2, 36, 8)), false, 1),
        Some("\t#[cfg(gdk_pixbuf_2_36_8)]".to_string())
    );
    assert_eq!(
        version_condition_string("GObject", min, Some(Version::new(2, 44, 0)), false, 0),
        Some("#[cfg(gobject_2_44)]".to_string())
    );
}

#[test]
fn version_condition_writes_guard_or_nothing() {
    let min = Version::new(3, 4, 0);
    let mut w = Vec::new();
    version_condition(&mut w, "Gtk", min, None, false, 0);
    version_condition(&mut w, "Gtk", min, Some(Version::new(3, 0, 0)), false, 0);
    assert!(w.is_empty());
    version_condition(&mut w, "Gtk", min, Some(Version::new(3, 6, 0)), true, 1);
    assert_eq!(w, vec!["\t//#[cfg(gtk_3_6)]"]);
}

#[test]
fn cfg_condition_guard() {
    assert_eq!(cfg_condition_string(&None, false, 0), None);
    assert_eq!(
        cfg_condition_string(&Some("unix".to_string()), false, 0),
        Some("#[cfg(unix)]".to_string())
    );
    assert_eq!(
        cfg_condition_string(&Some("feature = \"x\"".to_string()), true, 1),
        Some("\t//#[cfg(feature = \"x\")]".to_string())
    );
}

#[test]
fn uses_writes_imports_in_order_with_guards() {
    let mut imports = Imports::new();
    assert!(imports.add("glib::translate::*", None));
    assert!(imports.add("ffi", Some(Version::new(3, 2, 0))));
    assert!(imports.add("gdk", Some(Version::new(3, 8, 0))));
    assert!(imports.add("std::ptr", Some(Version::new(3, 4, 0))));
    let mut w = Vec::new();
    uses(&mut w, &imports, "Gtk", Version::new(3, 4, 0));
    assert_eq!(
        w,
        vec![
            "",
            "use glib::translate::*;",
            "use ffi;",
            "#[cfg(gtk_3_8)]",
            "use gdk;",
            "#[cfg(gtk_3_4)]",
            "use std::ptr;",
        ]
    );
}

#[test]
fn uses_without_imports_writes_blank_line() {
    let mut w = Vec::new();
    uses(&mut w, &Imports::new(), "Gtk", Version::new(3, 4, 0));
    assert_eq!(w, vec![""]);
}

#[test]
fn imports_reject_duplicates_and_keep_order() {
    let mut imports = Imports::new();
    assert!(imports.add("b", None));
    assert!(imports.add("a", Some(Version::new(1, 2, 3))));
    assert!(!imports.add("b", Some(Version::new(9, 9, 9))));
    assert_eq!(imports.len(), 2);
    assert!(imports.contains("a"));
    assert!(imports.contains("b"));
    assert!(!imports.contains("c"));
    assert_eq!(imports.path(0), "b");
    assert_eq!(imports.version(0), None);
    assert_eq!(imports.path(1), "a");
    assert_eq!(imports.version(1), Some(Version::new(1, 2, 3)));
}

#[test]
fn object_type_alias() {
    let mut w = Vec::new();
    define_object_type(&mut w, "Window", "GtkWindow");
    assert_eq!(w, vec!["", "pub type Window = Object<ffi::GtkWindow>;"]);
}

#[test]
fn boxed_type_block() {
    let mut w = Vec::new();
    define_boxed_type(&mut w, "Pixbuf", "GdkPixbuf", "gdk_pixbuf_copy", "gdk_pixbuf_free");
    assert_eq!(
        w,
        vec![
            "",
            "glib_wrapper! {",
            "\tpub struct Pixbuf(Boxed<ffi::GdkPixbuf>);",
            "",
            "\tmatch fn {",
            "\t\tcopy => |ptr| ffi::gdk_pixbuf_copy(ptr as *mut ffi::GdkPixbuf),",
            "\t\tfree => |ptr| ffi::gdk_pixbuf_free(ptr),",
            "\t}",
            "}",
        ]
    );
}

#[test]
fn shared_type_block() {
    let mut w = Vec::new();
    define_shared_type(&mut w, "Bytes", "GBytes", "g_bytes_ref", "g_bytes_unref");
    assert_eq!(
        w,
        vec![
            "",
            "glib_wrapper! {",
            "\tpub struct Bytes(Shared<ffi::GBytes>);",
            "",
            "\tmatch fn {",
            "\t\tref => |ptr| ffi::g_bytes_ref(ptr),",
            "\t\tunref => |ptr| ffi::g_bytes_unref(ptr),",
            "\t}",
            "}",
        ]
    );
}

#[test]
fn auto_boxed_type_block() {
    let mut w = Vec::new();
    define_auto_boxed_type(&mut w, "Rectangle", "GdkRectangle", "gdk_rectangle_get_type");
    assert_eq!(
        w,
        vec![
            "",
            "glib_wrapper! {",
            "\tpub struct Rectangle(Boxed<ffi::GdkRectangle>);",
            "",
            "\tmatch fn {",
            "\t\tget_type => || ffi::gdk_rectangle_get_type(),",
            "\t}",
            "}",
        ]
    );
}

#[test]
fn static_type_block() {
    let mut w = Vec::new();
    impl_static_type(&mut w, "Pixbuf", "gdk_pixbuf_get_type");
    assert_eq!(
        w,
        vec![
            "",
            "impl types::StaticType for Pixbuf {",
            "\t#[inline]",
            "\tfn static_type() -> types::Type {",
            "\t\tunsafe { from_glib(ffi::gdk_pixbuf_get_type()) }",
            "\t}",
            "}",
        ]
    );
}

#[test]
fn relations_skip_ignored_and_keep_order() {
    let refs = vec![
        reference("A", Status::Generated),
        reference("B", Status::Ignored),
        reference("C", Status::Generated),
    ];
    let mut w = Vec::new();
    impl_interfaces(&mut w, "Foo", &refs);
    assert_eq!(
        w,
        vec!["unsafe impl Upcast<A> for Foo { }", "unsafe impl Upcast<C> for Foo { }"]
    );
    assert!(w.iter().all(|line| !line.contains('B')));
}

#[test]
fn relations_include_manual_references() {
    let refs = vec![
        reference("Widget", Status::Manual),
        reference("Hidden", Status::Ignored),
        reference("Hidden2", Status::Ignored),
        reference("Buildable", Status::Generated),
    ];
    let mut w = Vec::new();
    impl_interfaces(&mut w, "Button", &refs);
    assert_eq!(
        w,
        vec![
            "unsafe impl Upcast<Widget> for Button { }",
            "unsafe impl Upcast<Buildable> for Button { }",
        ]
    );
}

#[test]
fn relations_of_nothing_or_only_ignored_are_empty() {
    let mut w: Vec<String> = Vec::new();
    impl_interfaces(&mut w, "Foo", &[]);
    assert!(w.is_empty());
    impl_interfaces(&mut w, "Foo", &[reference("B", Status::Ignored)]);
    assert!(w.is_empty());
}

#[test]
fn parents_start_with_blank_line() {
    let refs = vec![
        reference("A", Status::Generated),
        reference("B", Status::Ignored),
        reference("C", Status::Generated),
    ];
    let mut w = Vec::new();
    impl_parents(&mut w, "Foo", &refs);
    assert_eq!(
        w,
        vec!["", "unsafe impl Upcast<A> for Foo { }", "unsafe impl Upcast<C> for Foo { }"]
    );
    let mut only_blank = Vec::new();
    impl_parents(&mut only_blank, "Foo", &[]);
    assert_eq!(only_blank, vec![""]);
}

#[test]
fn status_ignored() {
    assert!(Status::Ignored.ignored());
    assert!(!Status::Generated.ignored());
    assert!(!Status::Manual.ignored());
}

#[test]
fn write_vec_appends_lines() {
    let mut w = vec!["first".to_string()];
    write_vec(&mut w, &["second".to_string(), "".to_string(), "third".to_string()]);
    assert_eq!(w, vec!["first", "second", "", "third"]);
    write_vec(&mut w, &[]);
    assert_eq!(w.len(), 4);
}
