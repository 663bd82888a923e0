//! The generation of a record: how its memory is managed, which
//! declarations it gets and in what order, and how its module is
//! re-exported.

use vstd::prelude::*;
use crate::analysis::{
    FunctionDecl,
    FunctionDeclView,
    RecordDescriptor,
    RecordDescriptorView,
    SpecialFunctionRole,
    ThreadSafety,
    functions_view,
};
use crate::codegen::general::{
    auto_boxed_type_lines,
    blank_line,
    boxed_type_lines,
    cfg_condition_string,
    cfg_condition_text,
    define_auto_boxed_type,
    define_boxed_type,
    define_shared_type,
    impl_static_type,
    push_blank_line,
    push_line,
    shared_type_lines,
    start_comment_lines,
    start_comments,
    static_type_lines,
    uses,
    uses_lines,
    version_condition_string,
    version_condition_text,
    write_vec,
};
use crate::env::{GenerationContext, GenerationContextView};
use crate::writer::lines_text;

verus! {

/// Why no declarations can be generated for a record.
#[derive(Clone, Copy, Debug, PartialEq, Eq, Structural)]
pub enum GenerateError {
    /// Nothing that is known of the record says how its memory is managed.
    MissingMemoryStrategy,
    /// The record is declared to be boxed, but no native function returns
    /// its runtime type.
    AutoBoxedWithoutRuntimeType,
    /// The record asks for exclusive transfer between threads, which is
    /// never granted to a plain record.
    UnsupportedAutomaticExclusiveTransfer,
}

impl GenerateError {
    /// What to tell the user when `record` fails with this error.
    pub open spec fn message_text(self, record: RecordDescriptorView) -> Seq<char> {
        match self {
            GenerateError::MissingMemoryStrategy => "Missing memory management functions for "@
                + record.name + " ("@ + record.native_name + ")"@,
            GenerateError::AutoBoxedWithoutRuntimeType => "Record "@ + record.name
                + " has record_boxed=true but don't have glib:get_type function"@,
            GenerateError::UnsupportedAutomaticExclusiveTransfer => "SendUnique concurrency of "@
                + record.name + " can only be autogenerated for GObject subclasses"@,
        }
    }

    /// Renders what to tell the user when `record` fails with this error.
    pub fn message(&self, record: &RecordDescriptor) -> (text: String)
        ensures
            text@ == self.message_text(record@),
    {
        match self {
            GenerateError::MissingMemoryStrategy => {
                let mut text = String::from_str("Missing memory management functions for ");
                text.append(record.name.as_str());
                text.append(" (");
                text.append(record.native_name.as_str());
                text.append(")");
                text
            },
            GenerateError::AutoBoxedWithoutRuntimeType => {
                let mut text = String::from_str("Record ");
                text.append(record.name.as_str());
                text.append(" has record_boxed=true but don't have glib:get_type function");
                text
            },
            GenerateError::UnsupportedAutomaticExclusiveTransfer => {
                let mut text = String::from_str("SendUnique concurrency of ");
                text.append(record.name.as_str());
                text.append(" can only be autogenerated for GObject subclasses");
                text
            },
        }
    }
}

/// How the memory of a record is managed, with the native functions that do
/// it.
#[derive(Clone, Debug)]
pub enum Strategy {
    /// Through the record's runtime type alone.
    AutoBoxed { get_type_fn: String },
    /// By counting references.
    Shared { ref_fn: String, unref_fn: String, get_type_fn: Option<String> },
    /// By duplicating and releasing values.
    Boxed { copy_fn: String, free_fn: String, get_type_fn: Option<String> },
}

pub enum StrategyView {
    AutoBoxed { get_type_fn: Seq<char> },
    Shared { ref_fn: Seq<char>, unref_fn: Seq<char>, get_type_fn: Option<Seq<char>> },
    Boxed { copy_fn: Seq<char>, free_fn: Seq<char>, get_type_fn: Option<Seq<char>> },
}

impl View for Strategy {
    type V = StrategyView;

    open spec fn view(&self) -> StrategyView {
        match self {
            Strategy::AutoBoxed { get_type_fn } => StrategyView::AutoBoxed {
                get_type_fn: get_type_fn@,
            },
            Strategy::Shared { ref_fn, unref_fn, get_type_fn } => StrategyView::Shared {
                ref_fn: ref_fn@,
                unref_fn: unref_fn@,
                get_type_fn: get_type_fn.deep_view(),
            },
            Strategy::Boxed { copy_fn, free_fn, get_type_fn } => StrategyView::Boxed {
                copy_fn: copy_fn@,
                free_fn: free_fn@,
                get_type_fn: get_type_fn.deep_view(),
            },
        }
    }
}

/// The record has a function for each of the two roles.
pub open spec fn has_pair(
    record: RecordDescriptorView,
    first: SpecialFunctionRole,
    second: SpecialFunctionRole,
) -> bool {
    record.specials.contains_key(first) && record.specials.contains_key(second)
}

/// The strategy of a record. What is declared goes before what is inferred:
/// a record that is declared boxed is managed through its runtime type,
/// which it must have; else a record with functions to raise and lower a
/// reference count is shared; else one with functions to duplicate and
/// release is boxed; else one with a runtime type is managed through it;
/// and for any other record there is no strategy.
pub open spec fn classify_spec(record: RecordDescriptorView) -> Result<StrategyView, GenerateError> {
    if record.boxed {
        match record.runtime_type_fn {
            Some(get_type_fn) => Ok(StrategyView::AutoBoxed { get_type_fn }),
            None => Err(GenerateError::AutoBoxedWithoutRuntimeType),
        }
    } else if has_pair(record, SpecialFunctionRole::Ref, SpecialFunctionRole::Unref) {
        Ok(
            StrategyView::Shared {
                ref_fn: record.specials[SpecialFunctionRole::Ref],
                unref_fn: record.specials[SpecialFunctionRole::Unref],
                get_type_fn: record.runtime_type_fn,
            },
        )
    } else if has_pair(record, SpecialFunctionRole::Copy, SpecialFunctionRole::Free) {
        Ok(
            StrategyView::Boxed {
                copy_fn: record.specials[SpecialFunctionRole::Copy],
                free_fn: record.specials[SpecialFunctionRole::Free],
                get_type_fn: record.runtime_type_fn,
            },
        )
    } else {
        match record.runtime_type_fn {
            Some(get_type_fn) => Ok(StrategyView::AutoBoxed { get_type_fn }),
            None => Err(GenerateError::MissingMemoryStrategy),
        }
    }
}

/// Selects the strategy by which the memory of `record` is managed.
pub fn classify(record: &RecordDescriptor) -> (result: Result<Strategy, GenerateError>)
    ensures
        (match result {
            Ok(strategy) => classify_spec(record@) == Ok::<StrategyView, GenerateError>(strategy@),
            Err(error) => classify_spec(record@) == Err::<StrategyView, GenerateError>(error),
        }),
        record.boxed && record.runtime_type_fn is Some ==> result is Ok && result->Ok_0@ == (
        StrategyView::AutoBoxed { get_type_fn: record.runtime_type_fn->0@ }),
        !record.boxed && !has_pair(record@, SpecialFunctionRole::Ref, SpecialFunctionRole::Unref)
            && !has_pair(record@, SpecialFunctionRole::Copy, SpecialFunctionRole::Free)
            && record.runtime_type_fn is None ==> result == Err::<Strategy, GenerateError>(
            GenerateError::MissingMemoryStrategy,
        ),
        !record.boxed && has_pair(record@, SpecialFunctionRole::Ref, SpecialFunctionRole::Unref)
            ==> result is Ok && result->Ok_0 is Shared,
{
    if record.boxed {
        return match &record.runtime_type_fn {
            Some(get_type_fn) => Ok(Strategy::AutoBoxed { get_type_fn: get_type_fn.clone() }),
            None => Err(GenerateError::AutoBoxedWithoutRuntimeType),
        };
    }
    let ref_fn = record.specials.get(SpecialFunctionRole::Ref);
    let unref_fn = record.specials.get(SpecialFunctionRole::Unref);
    if let (Some(ref_fn), Some(unref_fn)) = (ref_fn, unref_fn) {
        return Ok(
            Strategy::Shared {
                ref_fn: ref_fn.clone(),
                unref_fn: unref_fn.clone(),
                get_type_fn: clone_name(&record.runtime_type_fn),
            },
        );
    }
    let copy_fn = record.specials.get(SpecialFunctionRole::Copy);
    let free_fn = record.specials.get(SpecialFunctionRole::Free);
    if let (Some(copy_fn), Some(free_fn)) = (copy_fn, free_fn) {
        return Ok(
            Strategy::Boxed {
                copy_fn: copy_fn.clone(),
                free_fn: free_fn.clone(),
                get_type_fn: clone_name(&record.runtime_type_fn),
            },
        );
    }
    match &record.runtime_type_fn {
        Some(get_type_fn) => Ok(Strategy::AutoBoxed { get_type_fn: get_type_fn.clone() }),
        None => Err(GenerateError::MissingMemoryStrategy),
    }
}

fn clone_name(name: &Option<String>) -> (copy: Option<String>)
    ensures
        copy.deep_view() == name.deep_view(),
{
    match name {
        Some(text) => Some(text.clone()),
        None => None,
    }
}

/// The static-type block of a wrapper whose runtime type need not be
/// known: nothing where it is not.
pub open spec fn optional_static_type_lines(name: Seq<char>, get_type_fn: Option<Seq<char>>) -> Seq<
    Seq<char>,
> {
    match get_type_fn {
        Some(function) => static_type_lines(name, function),
        None => Seq::empty(),
    }
}

/// The wrapper declaration of the record `name` over the native type
/// `glib_name`, by strategy. A shared or boxed wrapper whose runtime type
/// is known is followed by the block that registers it.
pub open spec fn record_type_lines(name: Seq<char>, glib_name: Seq<char>, strategy: StrategyView)
    -> Seq<Seq<char>> {
    match strategy {
        StrategyView::AutoBoxed { get_type_fn } => auto_boxed_type_lines(
            name,
            glib_name,
            get_type_fn,
        ),
        StrategyView::Shared { ref_fn, unref_fn, get_type_fn } => shared_type_lines(
            name,
            glib_name,
            ref_fn,
            unref_fn,
        ) + optional_static_type_lines(name, get_type_fn),
        StrategyView::Boxed { copy_fn, free_fn, get_type_fn } => boxed_type_lines(
            name,
            glib_name,
            copy_fn,
            free_fn,
        ) + optional_static_type_lines(name, get_type_fn),
    }
}

fn impl_optional_static_type(w: &mut Vec<String>, name: &str, get_type_fn: &Option<String>)
    ensures
        final(w).deep_view() == old(w).deep_view() + optional_static_type_lines(
            name@,
            get_type_fn.deep_view(),
        ),
{
    match get_type_fn {
        Some(function) => {
            impl_static_type(w, name, function.as_str());
        },
        None => {
            assert(w.deep_view() =~= old(w).deep_view() + Seq::<Seq<char>>::empty());
        },
    }
}

/// Writes the wrapper declaration of a record, as its strategy asks.
pub fn define_record_type(w: &mut Vec<String>, name: &str, glib_name: &str, strategy: &Strategy)
    ensures
        final(w).deep_view() == old(w).deep_view() + record_type_lines(
            name@,
            glib_name@,
            strategy@,
        ),
{
    match strategy {
        Strategy::AutoBoxed { get_type_fn } => {
            define_auto_boxed_type(w, name, glib_name, get_type_fn.as_str());
        },
        Strategy::Shared { ref_fn, unref_fn, get_type_fn } => {
            define_shared_type(w, name, glib_name, ref_fn.as_str(), unref_fn.as_str());
            impl_optional_static_type(w, name, get_type_fn);
            assert(w.deep_view() =~= old(w).deep_view() + record_type_lines(
                name@,
                glib_name@,
                strategy@,
            ));
        },
        Strategy::Boxed { copy_fn, free_fn, get_type_fn } => {
            define_boxed_type(w, name, glib_name, copy_fn.as_str(), free_fn.as_str());
            impl_optional_static_type(w, name, get_type_fn);
            assert(w.deep_view() =~= old(w).deep_view() + record_type_lines(
                name@,
                glib_name@,
                strategy@,
            ));
        },
    }
}

/// Some function is not hidden.
pub open spec fn has_visible(functions: Seq<FunctionDeclView>) -> bool {
    exists|i: int| 0 <= i < functions.len() && !(#[trigger] functions[i]).hidden
}

/// The lines of all the declarations, in their order.
pub open spec fn declaration_lines(functions: Seq<FunctionDeclView>) -> Seq<Seq<char>>
    decreases functions.len(),
{
    if functions.len() == 0 {
        Seq::empty()
    } else {
        declaration_lines(functions.drop_last()) + functions.last().lines
    }
}

/// The block of the associated functions of the record `name`: nothing
/// where every function is hidden; else a blank line, the opening of the
/// block, the declarations of all the functions, and the closing.
pub open spec fn functions_lines(name: Seq<char>, functions: Seq<FunctionDeclView>) -> Seq<
    Seq<char>,
> {
    if has_visible(functions) {
        seq![blank_line(), "impl "@ + name + " {"@] + declaration_lines(functions) + seq!["}"@]
    } else {
        Seq::empty()
    }
}

fn any_visible(functions: &[FunctionDecl]) -> (found: bool)
    ensures
        found == has_visible(functions_view(functions@)),
{
    let mut i: usize = 0;
    while i < functions.len()
        invariant
            i <= functions.len(),
            forall|k: int| 0 <= k < i ==> (#[trigger] functions_view(functions@)[k]).hidden,
        decreases functions.len() - i,
    {
        if !functions[i].hidden {
            assert(!functions_view(functions@)[i as int].hidden);
            return true;
        }
        i += 1;
    }
    false
}

/// Writes the block of the associated functions of the record `name`.
pub fn impl_functions(w: &mut Vec<String>, name: &str, functions: &[FunctionDecl])
    ensures
        final(w).deep_view() == old(w).deep_view() + functions_lines(
            name@,
            functions_view(functions@),
        ),
{
    let ghost all = functions_view(functions@);
    if !any_visible(functions) {
        assert(w.deep_view() =~= old(w).deep_view() + Seq::<Seq<char>>::empty());
        return ;
    }
    push_blank_line(w);
    let mut head = String::from_str("impl ");
    head.append(name);
    head.append(" {");
    push_line(w, head);
    let ghost opening = seq![blank_line(), "impl "@ + name@ + " {"@];
    let mut i: usize = 0;
    assert(all.take(0) =~= Seq::<FunctionDeclView>::empty());
    assert(w.deep_view() =~= old(w).deep_view() + opening + declaration_lines(all.take(0)));
    while i < functions.len()
        invariant
            i <= functions.len(),
            all == functions_view(functions@),
            w.deep_view() == old(w).deep_view() + opening + declaration_lines(all.take(i as int)),
        decreases functions.len() - i,
    {
        write_vec(w, functions[i].lines.as_slice());
        proof {
            let next = all.take(i + 1);
            assert(next.drop_last() =~= all.take(i as int));
            assert(next.last() == functions[i as int]@);
            assert(w.deep_view() =~= old(w).deep_view() + opening + declaration_lines(next));
        }
        i += 1;
    }
    assert(all.take(i as int) =~= all);
    push_line(w, String::from_str("}"));
    assert(w.deep_view() =~= old(w).deep_view() + functions_lines(name@, all));
}

/// The line that marks `name` as safe to hand to another thread.
pub open spec fn send_line(name: Seq<char>) -> Seq<char> {
    "unsafe impl Send for "@ + name + " {}"@
}

/// The line that marks `name` as safe to share between threads.
pub open spec fn sync_line(name: Seq<char>) -> Seq<char> {
    "unsafe impl Sync for "@ + name + " {}"@
}

/// The thread-safety markers of the record `name`: none without a
/// capability; else a blank line, the transfer marker and, where values
/// may be shared, the share marker. Exclusive transfer is refused.
pub open spec fn thread_safety_lines(name: Seq<char>, capability: ThreadSafety) -> Result<
    Seq<Seq<char>>,
    GenerateError,
> {
    match capability {
        ThreadSafety::Unmarked => Ok(Seq::empty()),
        ThreadSafety::TransferOnly => Ok(seq![blank_line(), send_line(name)]),
        ThreadSafety::TransferAndShare => Ok(seq![blank_line(), send_line(name), sync_line(name)]),
        ThreadSafety::TransferOnlyExclusive => Err(
            GenerateError::UnsupportedAutomaticExclusiveTransfer,
        ),
    }
}

/// Writes the thread-safety markers of the record `name`, or fails, with
/// nothing written, where the capability is exclusive transfer.
pub fn impl_thread_safety(w: &mut Vec<String>, name: &str, capability: ThreadSafety) -> (result:
    Result<(), GenerateError>)
    ensures
        (match thread_safety_lines(name@, capability) {
            Ok(lines) => result is Ok && final(w).deep_view() == old(w).deep_view() + lines,
            Err(error) => result == Err::<(), GenerateError>(error) && final(w).deep_view() == old(
                w,
            ).deep_view(),
        }),
        result is Err <==> capability is TransferOnlyExclusive,
{
    match capability {
        ThreadSafety::Unmarked => {
            assert(w.deep_view() =~= old(w).deep_view() + Seq::<Seq<char>>::empty());
            Ok(())
        },
        ThreadSafety::TransferOnlyExclusive => Err(
            GenerateError::UnsupportedAutomaticExclusiveTransfer,
        ),
        _ => {
            push_blank_line(w);
            let mut send = String::from_str("unsafe impl Send for ");
            send.append(name);
            send.append(" {}");
            push_line(w, send);
            if capability == ThreadSafety::TransferAndShare {
                let mut sync = String::from_str("unsafe impl Sync for ");
                sync.append(name);
                sync.append(" {}");
                push_line(w, sync);
                assert(w.deep_view() =~= old(w).deep_view() + seq![
                    blank_line(),
                    send_line(name@),
                    sync_line(name@),
                ]);
            } else {
                assert(w.deep_view() =~= old(w).deep_view() + seq![blank_line(), send_line(name@)]);
            }
            Ok(())
        },
    }
}

/// All the declarations of a record, in their fixed order: the header, the
/// imports, the wrapper that the record's strategy selects, the associated
/// functions, the default construction, the trait implementations and the
/// thread-safety markers. A record without a strategy, or with a
/// capability that cannot be granted, has none.
pub open spec fn record_lines(env: GenerationContextView, record: RecordDescriptorView) -> Result<
    Seq<Seq<char>>,
    GenerateError,
> {
    match classify_spec(record) {
        Err(error) => Err(error),
        Ok(strategy) => match thread_safety_lines(record.name, record.thread_safety) {
            Err(error) => Err(error),
            Ok(markers) => Ok(
                start_comment_lines(env) + uses_lines(
                    record.imports,
                    env.library_name,
                    env.min_cfg_version,
                ) + record_type_lines(record.name, record.native_name, strategy) + functions_lines(
                    record.name,
                    record.functions,
                ) + record.default_impl + record.trait_impls + markers,
            ),
        },
    }
}

/// Generates the declarations of the record `analysis` behind the lines in
/// `w`. Where the record cannot be generated, `w` stays as it is.
pub fn generate(w: &mut Vec<String>, env: &GenerationContext, analysis: &RecordDescriptor) -> (result:
    Result<(), GenerateError>)
    ensures
        (match record_lines(env@, analysis@) {
            Ok(lines) => result is Ok && final(w).deep_view() == old(w).deep_view() + lines,
            Err(error) => result == Err::<(), GenerateError>(error) && final(w).deep_view() == old(
                w,
            ).deep_view(),
        }),
        result is Err <==> classify_spec(analysis@) is Err
            || analysis.thread_safety is TransferOnlyExclusive,
{
    let strategy = match classify(analysis) {
        Ok(strategy) => strategy,
        Err(error) => {
            return Err(error);
        },
    };
    let name = analysis.name.as_str();
    let mut out: Vec<String> = Vec::new();
    assert(out.deep_view() =~= Seq::<Seq<char>>::empty());
    start_comments(&mut out, env);
    uses(&mut out, &analysis.imports, env.library_name.as_str(), env.min_cfg_version);
    define_record_type(&mut out, name, analysis.native_name.as_str(), &strategy);
    impl_functions(&mut out, name, analysis.functions.as_slice());
    write_vec(&mut out, analysis.default_impl.as_slice());
    write_vec(&mut out, analysis.trait_impls.as_slice());
    match impl_thread_safety(&mut out, name, analysis.thread_safety) {
        Ok(()) => {},
        Err(error) => {
            return Err(error);
        },
    }
    assert(out.deep_view() =~= record_lines(env@, analysis@)->Ok_0);
    let ghost lines = out.deep_view();
    w.append(&mut out);
    assert(w.deep_view() =~= old(w).deep_view() + lines);
    Ok(())
}

/// A guard as it stands before a line that it guards: followed by a line
/// break, or nothing where there is no guard.
pub open spec fn guard_prefix(guard: Option<Seq<char>>) -> Seq<char> {
    match guard {
        Some(text) => text.push('\n'),
        None => Seq::empty(),
    }
}

/// What stands before each re-export line of a record: the guard of its
/// condition, then the guard of its version.
pub open spec fn reexport_prefix(env: GenerationContextView, record: RecordDescriptorView) -> Seq<
    char,
> {
    guard_prefix(cfg_condition_text(record.cfg_condition, false, 0)) + guard_prefix(
        version_condition_text(env.library_name, env.min_cfg_version, record.version, false, 0),
    )
}

/// The re-export of a record through the module `module_name`: a blank
/// line, the declaration of the module, and the re-export of the record's
/// name, the last two each behind the record's guards.
pub open spec fn reexport_lines(
    env: GenerationContextView,
    record: RecordDescriptorView,
    module_name: Seq<char>,
) -> Seq<Seq<char>> {
    let cfg = reexport_prefix(env, record);
    seq![
        blank_line(),
        cfg + "mod "@ + module_name + ";"@,
        cfg + "pub use self::"@ + module_name + "::"@ + record.name + ";"@,
    ]
}

/// Appends to `contents` the lines that re-export the record `analysis`
/// through the module `module_name`.
pub fn generate_reexports(
    env: &GenerationContext,
    analysis: &RecordDescriptor,
    module_name: &str,
    contents: &mut Vec<String>,
)
    ensures
        final(contents).deep_view() == old(contents).deep_view() + reexport_lines(
            env@,
            analysis@,
            module_name@,
        ),
{
    let cfg_condition = cfg_condition_string(&analysis.cfg_condition, false, 0);
    let version_cfg = version_condition_string(
        env.library_name.as_str(),
        env.min_cfg_version,
        analysis.version,
        false,
        0,
    );
    let mut cfg = String::new();
    if let Some(s) = cfg_condition {
        cfg.append(s.as_str());
        cfg.push('\n');
    }
    assert(cfg@ =~= guard_prefix(cfg_condition_text(analysis@.cfg_condition, false, 0)));
    if let Some(s) = version_cfg {
        cfg.append(s.as_str());
        cfg.push('\n');
    }
    assert(cfg@ =~= reexport_prefix(env@, analysis@));
    push_blank_line(contents);
    let mut module = cfg.clone();
    module.append("mod ");
    module.append(module_name);
    module.append(";");
    push_line(contents, module);
    let mut reexport = cfg;
    reexport.append("pub use self::");
    reexport.append(module_name);
    reexport.append("::");
    reexport.append(analysis.name.as_str());
    reexport.append(";");
    push_line(contents, reexport);
    assert(contents.deep_view() =~= old(contents).deep_view() + reexport_lines(
        env@,
        analysis@,
        module_name@,
    ));
}

/// A record that exists under no condition, and that has no version or one
/// before the oldest supported, is re-exported in exactly three lines with
/// nothing before the declarations: a blank line, the module and the name.
pub proof fn lemma_reexports_without_guards(
    env: GenerationContextView,
    record: RecordDescriptorView,
    module_name: Seq<char>,
)
    requires
        record.cfg_condition is None,
        record.version is None || record.version->0.precedes(env.min_cfg_version),
    ensures
        reexport_prefix(env, record) == Seq::<char>::empty(),
        reexport_lines(env, record, module_name) == seq![
            blank_line(),
            "mod "@ + module_name + ";"@,
            "pub use self::"@ + module_name + "::"@ + record.name + ";"@,
        ],
{
    let cfg = reexport_prefix(env, record);
    assert(cfg =~= Seq::<char>::empty());
    assert(cfg + "mod "@ =~= "mod "@);
    assert(cfg + "pub use self::"@ =~= "pub use self::"@);
}

/// Generation has no memory: what is written for a record depends on
/// nothing but what the context and the record hold, so that two runs on
/// contexts and records that hold the same give the same lines, the same
/// text, the same failure and the same re-exports.
pub proof fn lemma_generation_repeatable(
    env: GenerationContext,
    again_env: GenerationContext,
    record: RecordDescriptor,
    again_record: RecordDescriptor,
    module_name: Seq<char>,
)
    requires
        env@ == again_env@,
        record@ == again_record@,
    ensures
        classify_spec(record@) == classify_spec(again_record@),
        record_lines(env@, record@) == record_lines(again_env@, again_record@),
        record_lines(env@, record@) is Ok ==> lines_text(record_lines(env@, record@)->Ok_0)
            == lines_text(record_lines(again_env@, again_record@)->Ok_0),
        reexport_lines(env@, record@, module_name) == reexport_lines(
            again_env@,
            again_record@,
            module_name,
        ),
{
}

} // verus!
