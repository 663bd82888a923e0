//! The resolved description of a record, as the emitters consume it.

use vstd::prelude::*;
use crate::version::Version;

verus! {

/// Whether a type takes part in what is generated.
#[derive(Clone, Copy, Debug, PartialEq, Eq, Structural)]
pub enum Status {
    /// The type is left out; nothing may be declared in relation to it.
    Ignored,
    /// The type is generated.
    Generated,
    /// The type is written by hand.
    Manual,
}

impl Status {
    pub open spec fn is_ignored(self) -> bool {
        self is Ignored
    }

    pub fn ignored(&self) -> (ignored: bool)
        ensures
            ignored == self.is_ignored(),
    {
        match self {
            Status::Ignored => true,
            _ => false,
        }
    }
}

/// A reference to a named type, with its status.
#[derive(Clone, Debug)]
pub struct TypeReference {
    pub name: String,
    pub status: Status,
}

pub struct TypeReferenceView {
    pub name: Seq<char>,
    pub status: Status,
}

impl View for TypeReference {
    type V = TypeReferenceView;

    open spec fn view(&self) -> TypeReferenceView {
        TypeReferenceView { name: self.name@, status: self.status }
    }
}

/// The views of a slice of type references, in order.
pub open spec fn references_view(references: Seq<TypeReference>) -> Seq<TypeReferenceView> {
    Seq::new(references.len(), |i: int| references[i]@)
}

/// What a native function does for a record's memory management.
#[derive(Clone, Copy, Debug, PartialEq, Eq, Structural)]
pub enum SpecialFunctionRole {
    Ref,
    Unref,
    Copy,
    Free,
}

/// The native functions of a record, by role. Each role has at most one
/// function, and the roles are independent of each other.
#[derive(Clone, Debug)]
pub struct SpecialFunctionMap {
    ref_fn: Option<String>,
    unref_fn: Option<String>,
    copy_fn: Option<String>,
    free_fn: Option<String>,
}

impl SpecialFunctionMap {
    spec fn slot(&self, role: SpecialFunctionRole) -> Option<String> {
        match role {
            SpecialFunctionRole::Ref => self.ref_fn,
            SpecialFunctionRole::Unref => self.unref_fn,
            SpecialFunctionRole::Copy => self.copy_fn,
            SpecialFunctionRole::Free => self.free_fn,
        }
    }

    /// A map in which no role is populated.
    pub fn new() -> (map: SpecialFunctionMap)
        ensures
            map@ == Map::<SpecialFunctionRole, Seq<char>>::empty(),
    {
        let map = SpecialFunctionMap { ref_fn: None, unref_fn: None, copy_fn: None, free_fn: None };
        assert(map@ =~= Map::<SpecialFunctionRole, Seq<char>>::empty());
        map
    }

    /// Populates `role` with the function `name`, in place of any function
    /// that had the role before.
    pub fn insert(&mut self, role: SpecialFunctionRole, name: String)
        ensures
            final(self)@ == old(self)@.insert(role, name@),
    {
        match role {
            SpecialFunctionRole::Ref => {
                self.ref_fn = Some(name);
            },
            SpecialFunctionRole::Unref => {
                self.unref_fn = Some(name);
            },
            SpecialFunctionRole::Copy => {
                self.copy_fn = Some(name);
            },
            SpecialFunctionRole::Free => {
                self.free_fn = Some(name);
            },
        }
        assert(self@ =~= old(self)@.insert(role, name@));
    }

    /// The function that has `role`, if any.
    pub fn get(&self, role: SpecialFunctionRole) -> (found: Option<&String>)
        ensures
            found is Some <==> self@.contains_key(role),
            found matches Some(name) ==> name@ == self@[role],
    {
        match role {
            SpecialFunctionRole::Ref => self.ref_fn.as_ref(),
            SpecialFunctionRole::Unref => self.unref_fn.as_ref(),
            SpecialFunctionRole::Copy => self.copy_fn.as_ref(),
            SpecialFunctionRole::Free => self.free_fn.as_ref(),
        }
    }
}

impl View for SpecialFunctionMap {
    type V = Map<SpecialFunctionRole, Seq<char>>;

    closed spec fn view(&self) -> Map<SpecialFunctionRole, Seq<char>> {
        Map::new(
            |role: SpecialFunctionRole| self.slot(role) is Some,
            |role: SpecialFunctionRole| self.slot(role)->0@,
        )
    }
}

/// Which thread-safety markers a type may carry.
#[derive(Clone, Copy, Debug, PartialEq, Eq, Structural)]
pub enum ThreadSafety {
    /// No marker.
    Unmarked,
    /// Values may be handed to another thread.
    TransferOnly,
    /// Values may be handed to another thread and shared between threads.
    TransferAndShare,
    /// Values may be handed to another thread while nothing else refers to
    /// them. Never granted to a plain record.
    TransferOnlyExclusive,
}

/// A function declaration of a record, as rendered for the record's
/// associated-function block.
#[derive(Clone, Debug)]
pub struct FunctionDecl {
    /// Whether the function is hidden from the generated interface.
    pub hidden: bool,
    /// The lines of the declaration.
    pub lines: Vec<String>,
}

pub struct FunctionDeclView {
    pub hidden: bool,
    pub lines: Seq<Seq<char>>,
}

impl View for FunctionDecl {
    type V = FunctionDeclView;

    open spec fn view(&self) -> FunctionDeclView {
        FunctionDeclView { hidden: self.hidden, lines: self.lines.deep_view() }
    }
}

/// The views of a sequence of function declarations, in order.
pub open spec fn functions_view(functions: Seq<FunctionDecl>) -> Seq<FunctionDeclView> {
    Seq::new(functions.len(), |i: int| functions[i]@)
}

/// One import: the path of a module, and the version from which it exists,
/// if it has one.
pub type ImportView = (Seq<char>, Option<Version>);

/// No module path occurs twice.
pub open spec fn distinct_paths(imports: Seq<ImportView>) -> bool {
    forall|i: int, j: int| 0 <= i < j < imports.len() ==> imports[i].0 != imports[j].0
}

/// The imports of a generated file: module paths, each at most once, in the
/// order in which they are to be written.
#[derive(Clone, Debug)]
pub struct Imports {
    entries: Vec<(String, Option<Version>)>,
}

impl View for Imports {
    type V = Seq<ImportView>;

    closed spec fn view(&self) -> Seq<ImportView> {
        Seq::new(self.entries@.len(), |i: int| (self.entries@[i].0@, self.entries@[i].1))
    }
}

impl Imports {
    /// The invariant of the type: no module path occurs twice.
    pub open spec fn wf(&self) -> bool {
        distinct_paths(self@)
    }

    /// No imports.
    pub fn new() -> (imports: Imports)
        ensures
            imports@ == Seq::<ImportView>::empty(),
            imports.wf(),
    {
        let imports = Imports { entries: Vec::new() };
        assert(imports@ =~= Seq::<ImportView>::empty());
        imports
    }

    /// The number of imports.
    pub fn len(&self) -> (len: usize)
        ensures
            len == self@.len(),
    {
        self.entries.len()
    }

    /// Whether `path` is among the imports.
    pub fn contains(&self, path: &str) -> (found: bool)
        ensures
            found == exists|i: int| 0 <= i < self@.len() && #[trigger] self@[i].0 == path@,
    {
        let wanted = String::from_str(path);
        let mut i: usize = 0;
        while i < self.entries.len()
            invariant
                i <= self.entries@.len(),
                wanted@ == path@,
                forall|k: int| 0 <= k < i ==> #[trigger] self@[k].0 != path@,
            decreases self.entries@.len() - i,
        {
            if self.entries[i].0 == wanted {
                assert(self@[i as int].0 == path@);
                return true;
            }
            i += 1;
        }
        false
    }

    /// Adds `path` behind the imports that are there, unless it is among
    /// them already; says whether it was added.
    pub fn add(&mut self, path: &str, version: Option<Version>) -> (added: bool)
        requires
            old(self).wf(),
        ensures
            final(self).wf(),
            added == !exists|i: int| 0 <= i < old(self)@.len() && #[trigger] old(self)@[i].0 == path@,
            added ==> final(self)@ == old(self)@.push((path@, version)),
            !added ==> final(self)@ == old(self)@,
    {
        if self.contains(path) {
            return false;
        }
        let ghost before = self@;
        self.entries.push((String::from_str(path), version));
        proof {
            assert(self@ =~= before.push((path@, version)));
            assert forall|i: int, j: int| 0 <= i < j < self@.len() implies self@[i].0
                != self@[j].0 by {
                if j < before.len() {
                    assert(before[i].0 != before[j].0);
                } else {
                    assert(before[i].0 != path@);
                }
            }
        }
        true
    }

    /// The path of the import at `index`.
    pub fn path(&self, index: usize) -> (path: &str)
        requires
            index < self@.len(),
        ensures
            path@ == self@[index as int].0,
    {
        self.entries[index].0.as_str()
    }

    /// The version from which the import at `index` exists.
    pub fn version(&self, index: usize) -> (version: Option<Version>)
        requires
            index < self@.len(),
        ensures
            version == self@[index as int].1,
    {
        self.entries[index].1
    }
}

/// A record that was selected for generation, with all that the analysis
/// found out about it.
#[derive(Clone, Debug)]
pub struct RecordDescriptor {
    /// The name of the generated type.
    pub name: String,
    /// The name of the native type.
    pub native_name: String,
    /// The native function that returns the record's runtime type.
    pub runtime_type_fn: Option<String>,
    /// Whether the record is declared to be a boxed type.
    pub boxed: bool,
    /// The native functions that manage the record's memory.
    pub specials: SpecialFunctionMap,
    /// The declarations of the record's functions, in the order in which
    /// they are written.
    pub functions: Vec<FunctionDecl>,
    /// The lines of the default-construction declaration; empty where the
    /// record has no constructor without arguments.
    pub default_impl: Vec<String>,
    /// The lines of the trait implementations that follow from the record's
    /// special functions.
    pub trait_impls: Vec<String>,
    pub thread_safety: ThreadSafety,
    /// A condition, other than a version, under which the record exists.
    pub cfg_condition: Option<String>,
    /// The version in which the record was introduced.
    pub version: Option<Version>,
    pub imports: Imports,
}

pub struct RecordDescriptorView {
    pub name: Seq<char>,
    pub native_name: Seq<char>,
    pub runtime_type_fn: Option<Seq<char>>,
    pub boxed: bool,
    pub specials: Map<SpecialFunctionRole, Seq<char>>,
    pub functions: Seq<FunctionDeclView>,
    pub default_impl: Seq<Seq<char>>,
    pub trait_impls: Seq<Seq<char>>,
    pub thread_safety: ThreadSafety,
    pub cfg_condition: Option<Seq<char>>,
    pub version: Option<Version>,
    pub imports: Seq<ImportView>,
}

impl View for RecordDescriptor {
    type V = RecordDescriptorView;

    open spec fn view(&self) -> RecordDescriptorView {
        RecordDescriptorView {
            name: self.name@,
            native_name: self.native_name@,
            runtime_type_fn: self.runtime_type_fn.deep_view(),
            boxed: self.boxed,
            specials: self.specials@,
            functions: functions_view(self.functions@),
            default_impl: self.default_impl.deep_view(),
            trait_impls: self.trait_impls.deep_view(),
            thread_safety: self.thread_safety,
            cfg_condition: self.cfg_condition.deep_view(),
            version: self.version,
            imports: self.imports@,
        }
    }
}

} // verus!
