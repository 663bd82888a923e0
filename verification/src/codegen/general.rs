//! The emitters: each renders one kind of declaration, as lines appended to
//! the lines that are there. None of them looks at another's output.

use vstd::prelude::*;
use crate::analysis::{ImportView, Imports, TypeReference, TypeReferenceView, references_view};
use crate::env::{GenerationContext, GenerationContextView};
use crate::nameutil::{crate_name, crate_name_text};
use crate::version::Version;
use crate::writer::{indent_unit, tabs, tabs_text};

verus! {

/// A line without text.
pub open spec fn blank_line() -> Seq<char> {
    Seq::empty()
}

/// Appends `line` to the lines in `w`.
pub fn push_line(w: &mut Vec<String>, line: String)
    ensures
        final(w).deep_view() == old(w).deep_view().push(line@),
{
    w.push(line);
    assert(w.deep_view() =~= old(w).deep_view().push(line@));
}

/// Appends a line without text to the lines in `w`.
pub fn push_blank_line(w: &mut Vec<String>)
    ensures
        final(w).deep_view() == old(w).deep_view().push(blank_line()),
{
    push_line(w, String::new());
}

/// Appends the lines of `v` to the lines in `w`, in their order.
pub fn write_vec(w: &mut Vec<String>, v: &[String])
    ensures
        final(w).deep_view() == old(w).deep_view() + v.deep_view(),
{
    let mut i: usize = 0;
    assert(w.deep_view() =~= old(w).deep_view() + v.deep_view().take(0));
    while i < v.len()
        invariant
            i <= v.len(),
            w.deep_view() == old(w).deep_view() + v.deep_view().take(i as int),
        decreases v.len() - i,
    {
        push_line(w, v[i].clone());
        assert(w.deep_view() =~= old(w).deep_view() + v.deep_view().take(i + 1));
        i += 1;
    }
    assert(v.deep_view().take(i as int) =~= v.deep_view());
}

/// The two lines that open every generated file: they name the tool, its
/// version and the metadata repository, written as `???` where it is not
/// known, and tell the reader to leave the file alone.
pub open spec fn start_comment_lines(env: GenerationContextView) -> Seq<Seq<char>> {
    let repo = match env.repo_hash {
        Some(hash) => hash,
        None => "???"@,
    };
    seq![
        "// This file was generated by "@ + env.tool_name + " ("@ + env.tool_version
            + ") from gir-files ("@ + repo + ")"@,
        "// DO NOT EDIT"@,
    ]
}

/// Writes the header of a generated file.
pub fn start_comments(w: &mut Vec<String>, env: &GenerationContext)
    ensures
        final(w).deep_view() == old(w).deep_view() + start_comment_lines(env@),
{
    let mut line = String::from_str("// This file was generated by ");
    line.append(env.tool_name.as_str());
    line.append(" (");
    line.append(env.tool_version.as_str());
    line.append(") from gir-files (");
    match &env.repo_hash {
        Some(hash) => {
            line.append(hash.as_str());
        },
        None => {
            line.append("???");
        },
    }
    line.append(")");
    push_line(w, line);
    push_line(w, String::from_str("// DO NOT EDIT"));
    assert(w.deep_view() =~= old(w).deep_view() + start_comment_lines(env@));
}

/// What stands between the indentation and the attribute of a guard.
pub open spec fn comment_text(commented: bool) -> Seq<char> {
    if commented {
        "//"@
    } else {
        ""@
    }
}

/// The attribute that admits a declaration only where `predicate` holds,
/// indented by `indent` levels, and commented out if `commented`.
pub open spec fn cfg_attribute_text(predicate: Seq<char>, commented: bool, indent: nat) -> Seq<
    char,
> {
    tabs_text(indent) + comment_text(commented) + "#[cfg("@ + predicate + ")]"@
}

fn cfg_attribute(predicate: &str, commented: bool, indent: usize) -> (text: String)
    ensures
        text@ == cfg_attribute_text(predicate@, commented, indent as nat),
{
    let mut text = tabs(indent);
    text.append(if commented {
        "//"
    } else {
        ""
    });
    text.append("#[cfg(");
    text.append(predicate);
    text.append(")]");
    text
}

/// The guard of a declaration that was introduced in `version`, where the
/// bindings support the library `library_name` from `min_cfg_version` on:
/// none where the declaration has no version or one before the oldest
/// supported; else the attribute over the version's predicate, in the
/// namespace of the library's canonical identifier.
pub open spec fn version_condition_text(
    library_name: Seq<char>,
    min_cfg_version: Version,
    version: Option<Version>,
    commented: bool,
    indent: nat,
) -> Option<Seq<char>> {
    match version {
        Some(v) => if v.at_least(min_cfg_version) {
            Some(
                cfg_attribute_text(
                    v.cfg_text(crate_name_text(library_name)),
                    commented,
                    indent,
                ),
            )
        } else {
            None
        },
        None => None,
    }
}

/// A guard opens with its indentation and nothing but it: `indent` times the
/// indentation character, and then the comment marker if the guard is
/// commented out, else the attribute's `#`.
pub proof fn lemma_cfg_attribute_shape(predicate: Seq<char>, commented: bool, indent: nat)
    ensures
        ({
            let text = cfg_attribute_text(predicate, commented, indent);
            &&& text.len() >= indent + 2
            &&& forall|i: int| 0 <= i < indent ==> text[i] == indent_unit()
            &&& commented ==> text[indent as int] == '/' && text[indent as int + 1] == '/'
            &&& !commented ==> text[indent as int] == '#' && text[indent as int + 1] == '['
        }),
{
    reveal_strlit("//");
    reveal_strlit("");
    reveal_strlit("#[cfg(");
    reveal_strlit(")]");
}

/// Renders the guard of a declaration that was introduced in `version`.
pub fn version_condition_string(
    library_name: &str,
    min_cfg_version: Version,
    version: Option<Version>,
    commented: bool,
    indent: usize,
) -> (guard: Option<String>)
    ensures
        guard.deep_view() == version_condition_text(
            library_name@,
            min_cfg_version,
            version,
            commented,
            indent as nat,
        ),
        guard is None <==> version is None || version->0.precedes(min_cfg_version),
        guard matches Some(text) ==> ({
            &&& text@.len() >= indent + 2
            &&& forall|i: int| 0 <= i < indent ==> text@[i] == indent_unit()
            &&& commented <==> text@[indent as int] == '/' && text@[indent + 1] == '/'
            &&& !commented <==> text@[indent as int] == '#'
        }),
{
    match version {
        Some(v) => {
            if !v.is_before(&min_cfg_version) {
                let ident = crate_name(library_name);
                let predicate = v.to_cfg(ident.as_str());
                let text = cfg_attribute(predicate.as_str(), commented, indent);
                proof {
                    lemma_cfg_attribute_shape(predicate@, commented, indent as nat);
                }
                Some(text)
            } else {
                None
            }
        },
        None => None,
    }
}

/// Zero lines for no text, one line for a text.
pub open spec fn optional_line(text: Option<Seq<char>>) -> Seq<Seq<char>> {
    match text {
        Some(line) => seq![line],
        None => Seq::empty(),
    }
}

/// Writes the guard of a declaration that was introduced in `version`, where
/// it has one.
pub fn version_condition(
    w: &mut Vec<String>,
    library_name: &str,
    min_cfg_version: Version,
    version: Option<Version>,
    commented: bool,
    indent: usize,
)
    ensures
        final(w).deep_view() == old(w).deep_view() + optional_line(
            version_condition_text(
                library_name@,
                min_cfg_version,
                version,
                commented,
                indent as nat,
            ),
        ),
{
    let guard = version_condition_string(library_name, min_cfg_version, version, commented, indent);
    match guard {
        Some(text) => {
            push_line(w, text);
            assert(w.deep_view() =~= old(w).deep_view() + seq![text@]);
        },
        None => {
            assert(w.deep_view() =~= old(w).deep_view() + Seq::<Seq<char>>::empty());
        },
    }
}

/// The guard of a declaration that exists only under `cfg_condition`: none
/// where there is no condition, else the attribute over the condition.
pub open spec fn cfg_condition_text(
    cfg_condition: Option<Seq<char>>,
    commented: bool,
    indent: nat,
) -> Option<Seq<char>> {
    match cfg_condition {
        Some(condition) => Some(cfg_attribute_text(condition, commented, indent)),
        None => None,
    }
}

/// Renders the guard of a declaration that exists only under
/// `cfg_condition`.
pub fn cfg_condition_string(cfg_condition: &Option<String>, commented: bool, indent: usize) -> (guard:
    Option<String>)
    ensures
        guard.deep_view() == cfg_condition_text(cfg_condition.deep_view(), commented, indent as nat),
{
    match cfg_condition {
        Some(condition) => Some(cfg_attribute(condition.as_str(), commented, indent)),
        None => None,
    }
}

/// The lines of one import: its guard, where it has one, and the import
/// itself.
pub open spec fn import_lines(
    import: ImportView,
    library_name: Seq<char>,
    min_cfg_version: Version,
) -> Seq<Seq<char>> {
    optional_line(version_condition_text(library_name, min_cfg_version, import.1, false, 0)).push(
        "use "@ + import.0 + ";"@,
    )
}

/// The lines of the imports, in their order.
pub open spec fn imports_lines(
    imports: Seq<ImportView>,
    library_name: Seq<char>,
    min_cfg_version: Version,
) -> Seq<Seq<char>>
    decreases imports.len(),
{
    if imports.len() == 0 {
        Seq::empty()
    } else {
        imports_lines(imports.drop_last(), library_name, min_cfg_version) + import_lines(
            imports.last(),
            library_name,
            min_cfg_version,
        )
    }
}

/// The import block: a blank line, then the imports.
pub open spec fn uses_lines(
    imports: Seq<ImportView>,
    library_name: Seq<char>,
    min_cfg_version: Version,
) -> Seq<Seq<char>> {
    seq![blank_line()] + imports_lines(imports, library_name, min_cfg_version)
}

/// Writes the import block.
pub fn uses(w: &mut Vec<String>, imports: &Imports, library_name: &str, min_cfg_version: Version)
    ensures
        final(w).deep_view() == old(w).deep_view() + uses_lines(
            imports@,
            library_name@,
            min_cfg_version,
        ),
{
    push_blank_line(w);
    let count = imports.len();
    let mut i: usize = 0;
    assert(imports@.take(0) =~= Seq::<ImportView>::empty());
    assert(w.deep_view() =~= old(w).deep_view() + uses_lines(
        imports@.take(0),
        library_name@,
        min_cfg_version,
    ));
    while i < count
        invariant
            i <= count,
            count == imports@.len(),
            w.deep_view() == old(w).deep_view() + uses_lines(
                imports@.take(i as int),
                library_name@,
                min_cfg_version,
            ),
        decreases count - i,
    {
        let ghost before = w.deep_view();
        version_condition(w, library_name, min_cfg_version, imports.version(i), false, 0);
        let mut line = String::from_str("use ");
        line.append(imports.path(i));
        line.append(";");
        push_line(w, line);
        proof {
            let next = imports@.take(i + 1);
            assert(next.drop_last() =~= imports@.take(i as int));
            assert(next.last() == imports@[i as int]);
            assert(w.deep_view() =~= before + import_lines(
                imports@[i as int],
                library_name@,
                min_cfg_version,
            ));
            assert(w.deep_view() =~= old(w).deep_view() + uses_lines(
                next,
                library_name@,
                min_cfg_version,
            ));
        }
        i += 1;
    }
    assert(imports@.take(i as int) =~= imports@);
}

/// The alias that binds `name` to the object wrapper of the native
/// type `glib_name`, after a blank line.
pub open spec fn object_type_lines(name: Seq<char>, glib_name: Seq<char>) -> Seq<Seq<char>> {
    seq![blank_line(), "pub type "@ + name + " = Object<ffi::"@ + glib_name + ">;"@]
}

/// Writes the alias of an object type.
pub fn define_object_type(w: &mut Vec<String>, name: &str, glib_name: &str)
    ensures
        final(w).deep_view() == old(w).deep_view() + object_type_lines(name@, glib_name@),
{
    push_blank_line(w);
    let mut line = String::from_str("pub type ");
    line.append(name);
    line.append(" = Object<ffi::");
    line.append(glib_name);
    line.append(">;");
    push_line(w, line);
    assert(w.deep_view() =~= old(w).deep_view() + object_type_lines(name@, glib_name@));
}

/// The line that opens a wrapper block.
pub open spec fn wrapper_open_line() -> Seq<char> {
    "glib_wrapper! {"@
}

/// The line of a wrapper block that names the wrapper `name`, the kind
/// of wrapper and the native type `glib_name`.
pub open spec fn wrapper_struct_line(kind: Seq<char>, name: Seq<char>, glib_name: Seq<char>)
    -> Seq<char> {
    "\tpub struct "@ + name + "("@ + kind + "<ffi::"@ + glib_name + ">);"@
}

/// The line that opens the function section of a wrapper block.
pub open spec fn wrapper_match_line() -> Seq<char> {
    "\tmatch fn {"@
}

/// The line of a wrapper block that maps `operation` to the native function
/// `function`, which is handed the pointer as it is.
pub open spec fn wrapper_fn_line(operation: Seq<char>, function: Seq<char>) -> Seq<char> {
    "\t\t"@ + operation + " => |ptr| ffi::"@ + function + "(ptr),"@
}

/// The line of a boxed wrapper that maps `copy` to the native function
/// `copy_fn`, which is handed the pointer as one to the native type
/// `glib_name`.
pub open spec fn wrapper_copy_line(copy_fn: Seq<char>, glib_name: Seq<char>) -> Seq<char> {
    "\t\tcopy => |ptr| ffi::"@ + copy_fn + "(ptr as *mut ffi::"@ + glib_name + "),"@
}

/// The line of a wrapper block that takes the runtime type from the native
/// function `get_type_fn`.
pub open spec fn wrapper_get_type_line(get_type_fn: Seq<char>) -> Seq<char> {
    "\t\tget_type => || ffi::"@ + get_type_fn + "(),"@
}

/// The two lines that close a wrapper block.
pub open spec fn wrapper_close_lines() -> Seq<Seq<char>> {
    seq!["\t}"@, "}"@]
}

fn wrapper_head(w: &mut Vec<String>, kind: &str, name: &str, glib_name: &str)
    ensures
        final(w).deep_view() == old(w).deep_view() + seq![
            blank_line(),
            wrapper_open_line(),
            wrapper_struct_line(kind@, name@, glib_name@),
            blank_line(),
            wrapper_match_line(),
        ],
{
    push_blank_line(w);
    push_line(w, String::from_str("glib_wrapper! {"));
    let mut line = String::from_str("\tpub struct ");
    line.append(name);
    line.append("(");
    line.append(kind);
    line.append("<ffi::");
    line.append(glib_name);
    line.append(">);");
    push_line(w, line);
    push_blank_line(w);
    push_line(w, String::from_str("\tmatch fn {"));
    assert(w.deep_view() =~= old(w).deep_view() + seq![
        blank_line(),
        wrapper_open_line(),
        wrapper_struct_line(kind@, name@, glib_name@),
        blank_line(),
        wrapper_match_line(),
    ]);
}

fn wrapper_fn(w: &mut Vec<String>, operation: &str, function: &str)
    ensures
        final(w).deep_view() == old(w).deep_view().push(wrapper_fn_line(operation@, function@)),
{
    let mut line = String::from_str("\t\t");
    line.append(operation);
    line.append(" => |ptr| ffi::");
    line.append(function);
    line.append("(ptr),");
    push_line(w, line);
}

fn wrapper_close(w: &mut Vec<String>)
    ensures
        final(w).deep_view() == old(w).deep_view() + wrapper_close_lines(),
{
    push_line(w, String::from_str("\t}"));
    push_line(w, String::from_str("}"));
    assert(w.deep_view() =~= old(w).deep_view() + wrapper_close_lines());
}

/// The wrapper block of a boxed type: after a blank line, the wrapper
/// `name` over the native type `glib_name`, whose values `copy_fn`
/// duplicates and `free_fn` releases.
pub open spec fn boxed_type_lines(
    name: Seq<char>,
    glib_name: Seq<char>,
    copy_fn: Seq<char>,
    free_fn: Seq<char>,
) -> Seq<Seq<char>> {
    seq![
        blank_line(),
        wrapper_open_line(),
        wrapper_struct_line("Boxed"@, name, glib_name),
        blank_line(),
        wrapper_match_line(),
        wrapper_copy_line(copy_fn, glib_name),
        wrapper_fn_line("free"@, free_fn),
    ] + wrapper_close_lines()
}

/// Writes the wrapper block of a boxed type.
pub fn define_boxed_type(
    w: &mut Vec<String>,
    name: &str,
    glib_name: &str,
    copy_fn: &str,
    free_fn: &str,
)
    ensures
        final(w).deep_view() == old(w).deep_view() + boxed_type_lines(
            name@,
            glib_name@,
            copy_fn@,
            free_fn@,
        ),
{
    wrapper_head(w, "Boxed", name, glib_name);
    let mut line = String::from_str("\t\tcopy => |ptr| ffi::");
    line.append(copy_fn);
    line.append("(ptr as *mut ffi::");
    line.append(glib_name);
    line.append("),");
    push_line(w, line);
    wrapper_fn(w, "free", free_fn);
    wrapper_close(w);
    assert(w.deep_view() =~= old(w).deep_view() + boxed_type_lines(
        name@,
        glib_name@,
        copy_fn@,
        free_fn@,
    ));
}

/// The wrapper block of a shared type: after a blank line, the wrapper
/// `name` over the native type `glib_name`, whose reference count
/// `ref_fn` raises and `unref_fn` lowers.
pub open spec fn shared_type_lines(
    name: Seq<char>,
    glib_name: Seq<char>,
    ref_fn: Seq<char>,
    unref_fn: Seq<char>,
) -> Seq<Seq<char>> {
    seq![
        blank_line(),
        wrapper_open_line(),
        wrapper_struct_line("Shared"@, name, glib_name),
        blank_line(),
        wrapper_match_line(),
        wrapper_fn_line("ref"@, ref_fn),
        wrapper_fn_line("unref"@, unref_fn),
    ] + wrapper_close_lines()
}

/// Writes the wrapper block of a shared type.
pub fn define_shared_type(
    w: &mut Vec<String>,
    name: &str,
    glib_name: &str,
    ref_fn: &str,
    unref_fn: &str,
)
    ensures
        final(w).deep_view() == old(w).deep_view() + shared_type_lines(
            name@,
            glib_name@,
            ref_fn@,
            unref_fn@,
        ),
{
    wrapper_head(w, "Shared", name, glib_name);
    wrapper_fn(w, "ref", ref_fn);
    wrapper_fn(w, "unref", unref_fn);
    wrapper_close(w);
    assert(w.deep_view() =~= old(w).deep_view() + shared_type_lines(
        name@,
        glib_name@,
        ref_fn@,
        unref_fn@,
    ));
}

/// The wrapper block of a boxed type that is managed through its runtime
/// type alone: after a blank line, the wrapper `name` over the native
/// type `glib_name`, with the runtime type that `get_type_fn` returns.
pub open spec fn auto_boxed_type_lines(
    name: Seq<char>,
    glib_name: Seq<char>,
    get_type_fn: Seq<char>,
) -> Seq<Seq<char>> {
    seq![
        blank_line(),
        wrapper_open_line(),
        wrapper_struct_line("Boxed"@, name, glib_name),
        blank_line(),
        wrapper_match_line(),
        wrapper_get_type_line(get_type_fn),
    ] + wrapper_close_lines()
}

/// Writes the wrapper block of a boxed type that is managed through its
/// runtime type alone.
pub fn define_auto_boxed_type(
    w: &mut Vec<String>,
    name: &str,
    glib_name: &str,
    get_type_fn: &str,
)
    ensures
        final(w).deep_view() == old(w).deep_view() + auto_boxed_type_lines(
            name@,
            glib_name@,
            get_type_fn@,
        ),
{
    wrapper_head(w, "Boxed", name, glib_name);
    let mut line = String::from_str("\t\tget_type => || ffi::");
    line.append(get_type_fn);
    line.append("(),");
    push_line(w, line);
    wrapper_close(w);
    assert(w.deep_view() =~= old(w).deep_view() + auto_boxed_type_lines(
        name@,
        glib_name@,
        get_type_fn@,
    ));
}

/// The line that declares that `name` may be treated as `parent_name`.
pub open spec fn relation_line(name: Seq<char>, parent_name: Seq<char>) -> Seq<char> {
    "unsafe impl Upcast<"@ + parent_name + "> for "@ + name + " { }"@
}

/// The relation lines of `name`: one for each reference that is not
/// ignored, in the order of the references.
pub open spec fn relation_lines(name: Seq<char>, references: Seq<TypeReferenceView>) -> Seq<
    Seq<char>,
> {
    references.filter(|r: TypeReferenceView| !r.status.is_ignored()).map_values(
        |r: TypeReferenceView| relation_line(name, r.name),
    )
}

/// A further reference adds its relation line behind the others, or
/// nothing if it is ignored.
pub proof fn lemma_relation_lines_push(
    name: Seq<char>,
    references: Seq<TypeReferenceView>,
    reference: TypeReferenceView,
)
    ensures
        relation_lines(name, references.push(reference)) == if reference.status.is_ignored() {
            relation_lines(name, references)
        } else {
            relation_lines(name, references).push(relation_line(name, reference.name))
        },
{
    reveal(Seq::filter);
    let kept = |r: TypeReferenceView| !r.status.is_ignored();
    let longer = references.push(reference);
    assert(longer.drop_last() =~= references);
    assert(longer.last() == reference);
    if reference.status.is_ignored() {
        assert(longer.filter(kept) == references.filter(kept));
    } else {
        assert(longer.filter(kept) == references.filter(kept).push(reference));
        assert(relation_lines(name, longer) =~= relation_lines(name, references).push(
            relation_line(name, reference.name),
        ));
    }
}

/// No relation line comes from an ignored reference, and the lines of the
/// other references keep their order: the lines of two runs of references
/// are those of the first run followed by those of the second, and an
/// ignored reference between the two changes nothing.
pub proof fn lemma_relation_lines_skip_ignored(
    name: Seq<char>,
    first: Seq<TypeReferenceView>,
    ignored: TypeReferenceView,
    second: Seq<TypeReferenceView>,
)
    requires
        ignored.status.is_ignored(),
    ensures
        relation_lines(name, first + second) == relation_lines(name, first)
            + relation_lines(name, second),
        relation_lines(name, first.push(ignored) + second) == relation_lines(
            name,
            first + second,
        ),
        relation_lines(name, seq![ignored]) == Seq::<Seq<char>>::empty(),
{
    let kept = |r: TypeReferenceView| !r.status.is_ignored();
    Seq::filter_distributes_over_add(first, second, kept);
    Seq::filter_distributes_over_add(first.push(ignored), second, kept);
    lemma_relation_lines_push(name, first, ignored);
    lemma_relation_lines_push(name, Seq::empty(), ignored);
    assert(Seq::<TypeReferenceView>::empty().push(ignored) =~= seq![ignored]);
    assert(Seq::<TypeReferenceView>::empty().filter(kept) =~= Seq::empty()) by {
        reveal(Seq::filter);
    }
    assert(relation_lines(name, Seq::empty()) =~= Seq::<Seq<char>>::empty());
    assert(relation_lines(name, first + second) =~= relation_lines(name, first)
        + relation_lines(name, second));
    assert(relation_lines(name, first.push(ignored) + second) =~= relation_lines(
        name,
        first.push(ignored),
    ) + relation_lines(name, second));
}

/// There are as many relation lines as references that are not ignored, and
/// never more than references.
pub proof fn lemma_relation_lines_count(name: Seq<char>, references: Seq<TypeReferenceView>)
    ensures
        relation_lines(name, references).len() == references.filter(
            |r: TypeReferenceView| !r.status.is_ignored(),
        ).len(),
        relation_lines(name, references).len() <= references.len(),
{
    references.lemma_filter_len(|r: TypeReferenceView| !r.status.is_ignored());
}

/// Declares that `name` may be treated as each of the interfaces in
/// `implements` that is not ignored.
pub fn impl_interfaces(w: &mut Vec<String>, name: &str, implements: &[TypeReference])
    ensures
        final(w).deep_view() == old(w).deep_view() + relation_lines(
            name@,
            references_view(implements@),
        ),
{
    let ghost all = references_view(implements@);
    let mut i: usize = 0;
    proof {
        assert(all.take(0) =~= Seq::<TypeReferenceView>::empty());
        assert(Seq::<TypeReferenceView>::empty().filter(
            |r: TypeReferenceView| !r.status.is_ignored(),
        ) =~= Seq::empty()) by {
            reveal(Seq::filter);
        }
        assert(w.deep_view() =~= old(w).deep_view() + relation_lines(name@, all.take(0)));
    }
    while i < implements.len()
        invariant
            i <= implements.len(),
            all == references_view(implements@),
            w.deep_view() == old(w).deep_view() + relation_lines(name@, all.take(i as int)),
        decreases implements.len() - i,
    {
        let ghost before = w.deep_view();
        let reference = &implements[i];
        if !reference.status.ignored() {
            let mut line = String::from_str("unsafe impl Upcast<");
            line.append(reference.name.as_str());
            line.append("> for ");
            line.append(name);
            line.append(" { }");
            push_line(w, line);
        }
        proof {
            assert(all.take(i + 1) =~= all.take(i as int).push(reference@));
            lemma_relation_lines_push(name@, all.take(i as int), reference@);
            assert(w.deep_view() =~= old(w).deep_view() + relation_lines(
                name@,
                all.take(i + 1),
            ));
        }
        i += 1;
    }
    assert(all.take(i as int) =~= all);
}

/// The relation block of the parents: a blank line, then the relation
/// lines.
pub open spec fn parents_lines(name: Seq<char>, parents: Seq<TypeReferenceView>) -> Seq<
    Seq<char>,
> {
    seq![blank_line()] + relation_lines(name, parents)
}

/// Declares, after a blank line, that `name` may be treated as each of
/// the `parents` that is not ignored.
pub fn impl_parents(w: &mut Vec<String>, name: &str, parents: &[TypeReference])
    ensures
        final(w).deep_view() == old(w).deep_view() + parents_lines(
            name@,
            references_view(parents@),
        ),
{
    push_blank_line(w);
    impl_interfaces(w, name, parents);
    assert(w.deep_view() =~= old(w).deep_view() + parents_lines(
        name@,
        references_view(parents@),
    ));
}

/// The block that registers the static type of `name`, which the
/// native function `glib_func_name` returns, after a blank line.
pub open spec fn static_type_lines(name: Seq<char>, glib_func_name: Seq<char>) -> Seq<
    Seq<char>,
> {
    seq![
        blank_line(),
        "impl types::StaticType for "@ + name + " {"@,
        "\t#[inline]"@,
        "\tfn static_type() -> types::Type {"@,
        "\t\tunsafe { from_glib(ffi::"@ + glib_func_name + "()) }"@,
        "\t}"@,
        "}"@,
    ]
}

/// Writes the block that registers the static type of `name`.
pub fn impl_static_type(w: &mut Vec<String>, name: &str, glib_func_name: &str)
    ensures
        final(w).deep_view() == old(w).deep_view() + static_type_lines(
            name@,
            glib_func_name@,
        ),
{
    push_blank_line(w);
    let mut head = String::from_str("impl types::StaticType for ");
    head.append(name);
    head.append(" {");
    push_line(w, head);
    push_line(w, String::from_str("\t#[inline]"));
    push_line(w, String::from_str("\tfn static_type() -> types::Type {"));
    let mut body = String::from_str("\t\tunsafe { from_glib(ffi::");
    body.append(glib_func_name);
    body.append("()) }");
    push_line(w, body);
    push_line(w, String::from_str("\t}"));
    push_line(w, String::from_str("}"));
    assert(w.deep_view() =~= old(w).deep_view() + static_type_lines(name@, glib_func_name@));
}

} // verus!
