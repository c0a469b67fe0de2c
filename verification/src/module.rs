//! The module tree builder and the annotation filter.
//!
//! Given the parsed files of a package, the builder constructs the
//! hierarchical `Module` structure: it classifies each declaration of a file,
//! keeps a descriptor for every declaration the annotation filter accepts,
//! recurses into nested modules (resolving the backing file of a file-backed
//! module against the package's file tree), and prunes empty submodules.

use vstd::prelude::*;
use vstd::set_lib::lemma_len_subset;
use vstd::set_lib::lemma_int_range;
use vstd::set_lib::set_int_range;

use crate::ast::Attr;
use crate::ast::AttrArgsV;
use crate::ast::AttrV;
use crate::ast::Decl;
use crate::ast::DeclV;
use crate::ast::DescriptorShape;
use crate::ast::DescriptorShapeV;
use crate::ast::EnumDecl;
use crate::ast::EnumDeclV;
use crate::ast::FnDecl;
use crate::ast::FnDeclV;
use crate::ast::ItemDescriptor;
use crate::ast::ItemDescriptorV;
use crate::ast::ModDecl;
use crate::ast::ModDeclV;
use crate::ast::SourceTree;
use crate::ast::SourceTreeV;
use crate::ast::StructDecl;
use crate::ast::StructDeclV;
use crate::ast::view_attrs;
use crate::ast::view_decls;
use crate::ast::view_decl;
use crate::ast::view_mod_decl;
use crate::error::Error;
use crate::error::ErrorV;
use crate::strutil::clone_attrs;
use crate::strutil::clone_fields;
use crate::strutil::clone_fn_decl;
use crate::strutil::clone_indices;
use crate::strutil::clone_variants;
use crate::strutil::eq_lit;
use crate::strutil::lower_of;
use crate::strutil::to_lowercase;

verus! {

// ---------------------------------------------------------------------------
// The annotation filter
// ---------------------------------------------------------------------------

/// Whether one attribute is a derive list containing the binding marker.
pub open spec fn is_marker_derive(a: AttrV) -> bool {
    &&& a.path == "derive"@
    &&& a.args matches AttrArgsV::List { items } && items.contains("FFIShim"@)
}

/// Whether a declaration's metadata marks it for binding generation: some
/// derive list includes the binding marker name.
pub open spec fn spec_derives_ffishim(attrs: Seq<AttrV>) -> bool {
    exists|i: int| 0 <= i < attrs.len() && is_marker_derive(#[trigger] attrs[i])
}

/// Whether a declaration carries the binding-function marker annotation.
pub open spec fn spec_derives_ffishim_function(attrs: Seq<AttrV>) -> bool {
    exists|i: int| 0 <= i < attrs.len() && (#[trigger] attrs[i]).path == "ffishim_function"@
}

/// Whether the declaration carries a marker-crate attribute whose arguments
/// the descriptor extractor cannot read; extraction fails on such metadata.
pub open spec fn spec_unreadable_marker(attrs: Seq<AttrV>) -> bool {
    exists|i: int| 0 <= i < attrs.len() && (#[trigger] attrs[i]).path == "ffishim"@ && attrs[i].args
        == AttrArgsV::OtherShape
}

/// Whether a list of strings contains the given literal.
pub fn contains_lit(items: &Vec<String>, lit: &str) -> (r: bool)
    ensures
        r == items.deep_view().contains(lit@),
{
    let mut i: usize = 0;
    while i < items.len()
        invariant
            0 <= i <= items.len(),
            forall|j: int| 0 <= j < i ==> items.deep_view()[j] != lit@,
        decreases items.len() - i,
    {
        if eq_lit(&items[i], lit) {
            assert(items.deep_view()[i as int] == lit@);
            return true;
        }
        i = i + 1;
    }
    assert(!items.deep_view().contains(lit@));
    false
}

/// True iff the attached metadata contains a derive list that includes the
/// binding-generation marker name.
pub fn derives_ffishim(attrs: &Vec<Attr>) -> (r: bool)
    ensures
        r == spec_derives_ffishim(view_attrs(attrs@)),
{
    let mut i: usize = 0;
    while i < attrs.len()
        invariant
            0 <= i <= attrs.len(),
            forall|j: int| 0 <= j < i ==> !is_marker_derive(#[trigger] view_attrs(attrs@)[j]),
        decreases attrs.len() - i,
    {
        let hit = match &attrs[i].args {
            crate::ast::AttrArgs::List { items } => eq_lit(&attrs[i].path, "derive")
                && contains_lit(items, "FFIShim"),
            _ => false,
        };
        if hit {
            assert(is_marker_derive(view_attrs(attrs@)[i as int]));
            return true;
        }
        assert(!is_marker_derive(view_attrs(attrs@)[i as int]));
        i = i + 1;
    }
    false
}

/// True iff the declaration carries the binding-function marker annotation.
pub fn derives_ffishim_function(attrs: &Vec<Attr>) -> (r: bool)
    ensures
        r == spec_derives_ffishim_function(view_attrs(attrs@)),
{
    let mut i: usize = 0;
    while i < attrs.len()
        invariant
            0 <= i <= attrs.len(),
            forall|j: int|
                0 <= j < i ==> (#[trigger] view_attrs(attrs@)[j]).path != "ffishim_function"@,
        decreases attrs.len() - i,
    {
        if eq_lit(&attrs[i].path, "ffishim_function") {
            assert(view_attrs(attrs@)[i as int].path == "ffishim_function"@);
            return true;
        }
        i = i + 1;
    }
    false
}

/// True iff some marker-crate attribute's arguments are unreadable.
pub fn has_unreadable_marker(attrs: &Vec<Attr>) -> (r: bool)
    ensures
        r == spec_unreadable_marker(view_attrs(attrs@)),
{
    let mut i: usize = 0;
    while i < attrs.len()
        invariant
            0 <= i <= attrs.len(),
            forall|j: int|
                0 <= j < i ==> !((#[trigger] view_attrs(attrs@)[j]).path == "ffishim"@ && view_attrs(
                    attrs@,
                )[j].args == AttrArgsV::OtherShape),
        decreases attrs.len() - i,
    {
        let bad = match &attrs[i].args {
            crate::ast::AttrArgs::OtherShape => eq_lit(&attrs[i].path, "ffishim"),
            _ => false,
        };
        if bad {
            assert(view_attrs(attrs@)[i as int].path == "ffishim"@ && view_attrs(attrs@)[i as int].args
                == AttrArgsV::OtherShape);
            return true;
        }
        assert(!(view_attrs(attrs@)[i as int].path == "ffishim"@ && view_attrs(attrs@)[i as int].args
            == AttrArgsV::OtherShape));
        i = i + 1;
    }
    false
}

/// What filtering a struct declaration yields: nothing for an unmarked
/// declaration, its descriptor for a marked one, and an extraction error
/// tagged with the declaration's name where the marker metadata is
/// unreadable.
pub open spec fn spec_filter_struct(sd: StructDeclV) -> Result<Option<ItemDescriptorV>, ErrorV> {
    if !spec_derives_ffishim(sd.attrs) {
        Ok(None)
    } else if spec_unreadable_marker(sd.attrs) {
        Err(ErrorV::DescriptorExtraction { decl: sd.name })
    } else {
        Ok(Some(ItemDescriptorV { name: sd.name, shape: DescriptorShapeV::Fields(sd.fields) }))
    }
}

/// What filtering an enum declaration yields.
pub open spec fn spec_filter_enum(ed: EnumDeclV) -> Result<Option<ItemDescriptorV>, ErrorV> {
    if !spec_derives_ffishim(ed.attrs) {
        Ok(None)
    } else if spec_unreadable_marker(ed.attrs) {
        Err(ErrorV::DescriptorExtraction { decl: ed.name })
    } else {
        Ok(Some(ItemDescriptorV { name: ed.name, shape: DescriptorShapeV::Variants(ed.variants) }))
    }
}

/// View of a filtering result.
pub open spec fn filter_res_view(r: Result<Option<ItemDescriptor>, Error>) -> Result<
    Option<ItemDescriptorV>,
    ErrorV,
> {
    match r {
        Ok(Some(d)) => Ok(Some(d@)),
        Ok(None) => Ok(None),
        Err(e) => Err(e@),
    }
}

/// Keeps a struct declaration's descriptor iff its metadata marks it for
/// binding generation; unreadable marker metadata propagates as an
/// extraction error carrying the declaration's name.
pub fn filter_item_struct(decl: &StructDecl) -> (r: Result<Option<ItemDescriptor>, Error>)
    ensures
        filter_res_view(r) == spec_filter_struct(decl@),
{
    if !derives_ffishim(&decl.attrs) {
        Ok(None)
    } else if has_unreadable_marker(&decl.attrs) {
        Err(Error::DescriptorExtraction { decl: decl.name.clone() })
    } else {
        let d = ItemDescriptor {
            name: decl.name.clone(),
            shape: DescriptorShape::Fields(clone_fields(&decl.fields)),
        };
        assert(d@ =~~= (ItemDescriptorV {
            name: decl@.name,
            shape: DescriptorShapeV::Fields(decl@.fields),
        }));
        Ok(Some(d))
    }
}

/// Keeps an enum declaration's descriptor iff its metadata marks it for
/// binding generation.
pub fn filter_item_enum(decl: &EnumDecl) -> (r: Result<Option<ItemDescriptor>, Error>)
    ensures
        filter_res_view(r) == spec_filter_enum(decl@),
{
    if !derives_ffishim(&decl.attrs) {
        Ok(None)
    } else if has_unreadable_marker(&decl.attrs) {
        Err(Error::DescriptorExtraction { decl: decl.name.clone() })
    } else {
        let d = ItemDescriptor {
            name: decl.name.clone(),
            shape: DescriptorShape::Variants(clone_variants(&decl.variants)),
        };
        assert(d@ =~~= (ItemDescriptorV {
            name: decl@.name,
            shape: DescriptorShapeV::Variants(decl@.variants),
        }));
        Ok(Some(d))
    }
}

/// Keeps a free function's descriptor iff it carries the binding-function
/// marker; unmarked functions are dropped silently.
pub fn filter_item_fn(decl: &FnDecl) -> (r: Option<FnDecl>)
    ensures
        match r {
            Some(f) => spec_derives_ffishim_function(decl@.attrs) && f@ == decl@,
            None => !spec_derives_ffishim_function(decl@.attrs),
        },
{
    if derives_ffishim_function(&decl.attrs) {
        Some(clone_fn_decl(decl))
    } else {
        None
    }
}

// ---------------------------------------------------------------------------
// Path lookup and the visited set
// ---------------------------------------------------------------------------

/// The first file with the given path, from position `i` on.
pub open spec fn lookup_from(tree: SourceTreeV, path: Seq<Seq<char>>, i: int) -> Option<int>
    decreases tree.files.len() - i,
{
    if i < 0 || i >= tree.files.len() {
        None
    } else if tree.files[i].path == path {
        Some(i)
    } else {
        lookup_from(tree, path, i + 1)
    }
}

/// The first file with the given path, if any.
pub open spec fn spec_lookup(tree: SourceTreeV, path: Seq<Seq<char>>) -> Option<int> {
    lookup_from(tree, path, 0)
}

/// Compares two paths componentwise.
pub fn path_eq(a: &Vec<String>, b: &Vec<String>) -> (r: bool)
    ensures
        r == (a.deep_view() == b.deep_view()),
{
    if a.len() != b.len() {
        assert(a.deep_view().len() != b.deep_view().len());
        return false;
    }
    let mut i: usize = 0;
    while i < a.len()
        invariant
            0 <= i <= a.len(),
            a.len() == b.len(),
            forall|j: int| 0 <= j < i ==> a.deep_view()[j] == b.deep_view()[j],
        decreases a.len() - i,
    {
        if !(a[i] == b[i]) {
            assert(a.deep_view()[i as int] != b.deep_view()[i as int]);
            return false;
        }
        i = i + 1;
    }
    assert(a.deep_view() =~= b.deep_view());
    true
}

/// Finds the file with the given path in the tree.
pub fn lookup_path(tree: &SourceTree, path: &Vec<String>) -> (r: Option<usize>)
    ensures
        match r {
            Some(i) => spec_lookup(tree@, path.deep_view()) == Some(i as int) && i
                < tree.files.len(),
            None => spec_lookup(tree@, path.deep_view()) == None::<int>,
        },
{
    let mut i: usize = 0;
    while i < tree.files.len()
        invariant
            0 <= i <= tree.files.len(),
            spec_lookup(tree@, path.deep_view()) == lookup_from(tree@, path.deep_view(), i as int),
        decreases tree.files.len() - i,
    {
        if path_eq(&tree.files[i].path, path) {
            assert(tree@.files[i as int].path == path.deep_view());
            return Some(i);
        }
        assert(tree@.files[i as int].path != path.deep_view());
        i = i + 1;
    }
    None
}

/// Whether the visited set holds the file index.
pub open spec fn spec_contains_idx(visited: Seq<usize>, i: usize) -> bool {
    exists|k: int| 0 <= k < visited.len() && (#[trigger] visited[k]) == i
}

/// Whether the visited set holds the file index.
pub fn contains_idx(visited: &Vec<usize>, i: usize) -> (r: bool)
    ensures
        r == spec_contains_idx(visited@, i),
{
    let mut k: usize = 0;
    while k < visited.len()
        invariant
            0 <= k <= visited.len(),
            forall|j: int| 0 <= j < k ==> (#[trigger] visited@[j]) != i,
        decreases visited.len() - k,
    {
        if visited[k] == i {
            return true;
        }
        k = k + 1;
    }
    false
}

/// A well-formed visited set: distinct file indices of the tree.
pub open spec fn visited_wf(visited: Seq<usize>, n: nat) -> bool {
    visited.no_duplicates() && (forall|i: int|
        0 <= i < visited.len() ==> (#[trigger] visited[i]) < n)
}

/// A well-formed visited set cannot outgrow the tree: its distinct indices
/// all lie below the file count.
pub proof fn lemma_visited_bound(visited: Seq<usize>, n: nat)
    requires
        visited_wf(visited, n),
    ensures
        visited.len() <= n,
{
    broadcast use vstd::seq_lib::group_seq_properties;

    let m = visited.map_values(|x: usize| x as int);
    assert(m.no_duplicates()) by {
        assert forall|i: int, j: int|
            0 <= i < m.len() && 0 <= j < m.len() && i != j implies m[i] != m[j] by {
            assert(visited[i] != visited[j]);
        }
    }
    m.unique_seq_to_set();
    assert(m.to_set().subset_of(set_int_range(0, n as int))) by {
        assert forall|x: int| m.to_set().contains(x) implies set_int_range(
            0,
            n as int,
        ).contains(x) by {
            let k = choose|k: int| 0 <= k < m.len() && m[k] == x;
            assert(visited[k] < n);
        }
    }
    lemma_int_range(0, n as int);
    lemma_len_subset(m.to_set(), set_int_range(0, n as int));
}

/// How many files remain unvisited; the builder's recursion across files
/// consumes this measure.
pub open spec fn spec_rem(n: nat, visited: Seq<usize>) -> nat {
    if visited.len() <= n {
        (n - visited.len()) as nat
    } else {
        0
    }
}

/// Visiting one more unvisited file keeps the visited set well formed and
/// strictly shrinks the remaining-files measure.
pub proof fn lemma_visited_push(visited: Seq<usize>, n: nat, idx: usize)
    requires
        visited_wf(visited, n),
        idx < n,
        !spec_contains_idx(visited, idx),
    ensures
        visited_wf(visited.push(idx), n),
        spec_rem(n, visited.push(idx)) < spec_rem(n, visited),
{
    let v2 = visited.push(idx);
    assert(v2.no_duplicates()) by {
        assert forall|i: int, j: int|
            0 <= i < v2.len() && 0 <= j < v2.len() && i != j implies v2[i] != v2[j] by {
            if i < visited.len() && j < visited.len() {
                assert(visited[i] != visited[j]);
            } else if i < visited.len() {
                assert(v2[j] == idx);
                assert(visited[i] != idx);
            } else {
                assert(v2[i] == idx);
                assert(visited[j] != idx);
            }
        }
    }
    assert(visited_wf(v2, n));
    lemma_visited_bound(v2, n);
}

// ---------------------------------------------------------------------------
// The module tree
// ---------------------------------------------------------------------------

/// A node of the package's module tree: its name, the crate identity, the
/// descriptors of its marked declarations in source order, and its non-empty
/// submodules. Built once per source file visited; never mutated afterwards.
#[derive(Debug, PartialEq)]
pub struct Module {
    pub name: String,
    pub crate_name: String,
    pub structs: Vec<ItemDescriptor>,
    pub enums: Vec<ItemDescriptor>,
    pub functions: Vec<FnDecl>,
    pub subs: Vec<Module>,
}

/// Mathematical twin of `Module`.
#[verifier::ext_equal]
pub struct ModuleV {
    pub name: Seq<char>,
    pub crate_name: Seq<char>,
    pub structs: Seq<ItemDescriptorV>,
    pub enums: Seq<ItemDescriptorV>,
    pub functions: Seq<FnDeclV>,
    pub subs: Seq<ModuleV>,
}

pub open spec fn view_descriptors(s: Seq<ItemDescriptor>) -> Seq<ItemDescriptorV> {
    Seq::new(s.len(), |i: int| if 0 <= i < s.len() {
        s[i]@
    } else {
        ItemDescriptorV { name: Seq::empty(), shape: DescriptorShapeV::Fields(Seq::empty()) }
    })
}

pub open spec fn view_fn_decls(s: Seq<FnDecl>) -> Seq<FnDeclV> {
    Seq::new(s.len(), |i: int| if 0 <= i < s.len() {
        s[i]@
    } else {
        FnDeclV { name: Seq::empty(), attrs: Seq::empty(), params: Seq::empty(), ret: None }
    })
}

pub open spec fn view_module(m: Module) -> ModuleV
    decreases m,
{
    ModuleV {
        name: m.name@,
        crate_name: m.crate_name@,
        structs: view_descriptors(m.structs@),
        enums: view_descriptors(m.enums@),
        functions: view_fn_decls(m.functions@),
        subs: Seq::new(
            m.subs.len() as nat,
            |i: int| if 0 <= i < m.subs.len() {
                view_module(m.subs[i])
            } else {
                ModuleV {
                    name: Seq::empty(),
                    crate_name: Seq::empty(),
                    structs: Seq::empty(),
                    enums: Seq::empty(),
                    functions: Seq::empty(),
                    subs: Seq::empty(),
                }
            },
        ),
    }
}

impl View for Module {
    type V = ModuleV;

    open spec fn view(&self) -> ModuleV {
        view_module(*self)
    }
}

pub open spec fn view_modules(s: Seq<Module>) -> Seq<ModuleV> {
    Seq::new(s.len(), |i: int| if 0 <= i < s.len() {
        view_module(s[i])
    } else {
        ModuleV {
            name: Seq::empty(),
            crate_name: Seq::empty(),
            structs: Seq::empty(),
            enums: Seq::empty(),
            functions: Seq::empty(),
            subs: Seq::empty(),
        }
    })
}

/// A module with no descriptors and no (non-empty) submodules is empty and
/// must be pruned from its parent.
pub open spec fn spec_is_empty(m: ModuleV) -> bool {
    m.structs.len() == 0 && m.enums.len() == 0 && m.functions.len() == 0 && m.subs.len() == 0
}

/// View of a module-building result.
pub open spec fn module_res_view(r: Result<Module, Error>) -> Result<ModuleV, ErrorV> {
    match r {
        Ok(m) => Ok(m@),
        Err(e) => Err(e@),
    }
}

/// The accumulated descriptor sequences of one file's declarations.
#[verifier::ext_equal]
pub struct ModuleParts {
    pub structs: Seq<ItemDescriptorV>,
    pub enums: Seq<ItemDescriptorV>,
    pub functions: Seq<FnDeclV>,
    pub subs: Seq<ModuleV>,
}

// ---------------------------------------------------------------------------
// The mirror of the builder: what each constructing function returns
// ---------------------------------------------------------------------------

/// What building a module from the declarations of one file yields.
pub open spec fn build_items(
    tree: SourceTreeV,
    name: Seq<char>,
    crate_name: Seq<char>,
    path: Seq<Seq<char>>,
    items: Seq<DeclV>,
    visited: Seq<usize>,
) -> Result<ModuleV, ErrorV>
    decreases spec_rem(tree.files.len() as nat, visited), items, 1int, 0int,
{
    match build_items_from(tree, crate_name, path, items, 0, visited) {
        Ok(p) => Ok(
            ModuleV {
                name,
                crate_name,
                structs: p.structs,
                enums: p.enums,
                functions: p.functions,
                subs: p.subs,
            },
        ),
        Err(e) => Err(e),
    }
}

/// What classifying the declarations from position `i` on yields: the
/// descriptor sequences in source order, with empty submodules pruned, or
/// the first error.
pub open spec fn build_items_from(
    tree: SourceTreeV,
    crate_name: Seq<char>,
    path: Seq<Seq<char>>,
    items: Seq<DeclV>,
    i: int,
    visited: Seq<usize>,
) -> Result<ModuleParts, ErrorV>
    decreases spec_rem(tree.files.len() as nat, visited), items, 0int, items.len() - i,
{
    if i < 0 || i >= items.len() {
        Ok(
            ModuleParts {
                structs: Seq::empty(),
                enums: Seq::empty(),
                functions: Seq::empty(),
                subs: Seq::empty(),
            },
        )
    } else {
        match items[i] {
            DeclV::Mod(im) => match build_itemmod(tree, crate_name, path, im, visited) {
                Err(e) => Err(e),
                Ok(m) => match build_items_from(tree, crate_name, path, items, i + 1, visited) {
                    Err(e) => Err(e),
                    Ok(p) => Ok(
                        ModuleParts {
                            structs: p.structs,
                            enums: p.enums,
                            functions: p.functions,
                            subs: if spec_is_empty(m) {
                                p.subs
                            } else {
                                seq![m] + p.subs
                            },
                        },
                    ),
                },
            },
            DeclV::Struct(sd) => match spec_filter_struct(sd) {
                Err(e) => Err(e),
                Ok(opt) => match build_items_from(tree, crate_name, path, items, i + 1, visited) {
                    Err(e) => Err(e),
                    Ok(p) => Ok(
                        ModuleParts {
                            structs: match opt {
                                Some(d) => seq![d] + p.structs,
                                None => p.structs,
                            },
                            enums: p.enums,
                            functions: p.functions,
                            subs: p.subs,
                        },
                    ),
                },
            },
            DeclV::Enum(ed) => match spec_filter_enum(ed) {
                Err(e) => Err(e),
                Ok(opt) => match build_items_from(tree, crate_name, path, items, i + 1, visited) {
                    Err(e) => Err(e),
                    Ok(p) => Ok(
                        ModuleParts {
                            structs: p.structs,
                            enums: match opt {
                                Some(d) => seq![d] + p.enums,
                                None => p.enums,
                            },
                            functions: p.functions,
                            subs: p.subs,
                        },
                    ),
                },
            },
            DeclV::Fn(fd) => match build_items_from(tree, crate_name, path, items, i + 1, visited) {
                Err(e) => Err(e),
                Ok(p) => Ok(
                    ModuleParts {
                        structs: p.structs,
                        enums: p.enums,
                        functions: if spec_derives_ffishim_function(fd.attrs) {
                            seq![fd] + p.functions
                        } else {
                            p.functions
                        },
                        subs: p.subs,
                    },
                ),
            },
            DeclV::OtherItem => build_items_from(tree, crate_name, path, items, i + 1, visited),
        }
    }
}

/// What building a nested module declaration yields: an inline module
/// recurses on its own declarations in the current file's context; a
/// file-backed module resolves its backing file, trying the flat convention
/// first and the directory convention second, fails with `InvalidModulePath`
/// where neither resolves (or the current file has no parent, or the file is
/// already on the resolution path), and recurses on the resolved file.
pub open spec fn build_itemmod(
    tree: SourceTreeV,
    crate_name: Seq<char>,
    path: Seq<Seq<char>>,
    im: ModDeclV,
    visited: Seq<usize>,
) -> Result<ModuleV, ErrorV>
    decreases
            spec_rem(tree.files.len() as nat, visited),
            im,
            2int,
            0int,
        when visited_wf(visited, tree.files.len() as nat) via build_itemmod_decreases
{
    match im.content {
        Some(content) => build_items(tree, im.name, crate_name, path, content, visited),
        None => {
            if path.len() == 0 {
                Err(ErrorV::InvalidModulePath { path })
            } else {
                let flat = path.drop_last().push(im.name + ".rs"@);
                let dir = path.drop_last().push(im.name).push("mod.rs"@);
                let target = if spec_lookup(tree, flat) is Some {
                    flat
                } else {
                    dir
                };
                match spec_lookup(tree, target) {
                    None => Err(ErrorV::InvalidModulePath { path: target }),
                    Some(idx) => if spec_contains_idx(visited, idx as usize) {
                        Err(ErrorV::InvalidModulePath { path: target })
                    } else {
                        build_items(
                            tree,
                            im.name,
                            crate_name,
                            target,
                            tree.files[idx].decls,
                            visited.push(idx as usize),
                        )
                    },
                }
            }
        },
    }
}

#[via_fn]
proof fn build_itemmod_decreases(
    tree: SourceTreeV,
    crate_name: Seq<char>,
    path: Seq<Seq<char>>,
    im: ModDeclV,
    visited: Seq<usize>,
) {
    let n = tree.files.len() as nat;
    if im.content is None && path.len() > 0 {
        let flat = path.drop_last().push(im.name + ".rs"@);
        let dir = path.drop_last().push(im.name).push("mod.rs"@);
        let target = if spec_lookup(tree, flat) is Some {
            flat
        } else {
            dir
        };
        match spec_lookup(tree, target) {
            None => {
            },
            Some(idx) => {
                lemma_lookup_in_range(tree, target, 0);
                if !spec_contains_idx(visited, idx as usize) {
                    assert((idx as usize) < n) by {
                        if idx <= usize::MAX as int {
                        } else {
                        }
                    }
                    lemma_visited_push(visited, n, idx as usize);
                }
            },
        }
    }
}

/// A successful lookup returns an index into the tree's files.
pub proof fn lemma_lookup_in_range(tree: SourceTreeV, path: Seq<Seq<char>>, i: int)
    requires
        lookup_from(tree, path, i) is Some,
    ensures
        lookup_from(tree, path, i) matches Some(idx) && 0 <= idx < tree.files.len(),
    decreases tree.files.len() - i,
{
    if i < 0 || i >= tree.files.len() {
    } else if tree.files[i].path == path {
    } else {
        lemma_lookup_in_range(tree, path, i + 1);
    }
}

/// What building a module from one file of the tree yields: the file is
/// resolved in the tree, must not already be on the resolution path, and its
/// declarations are classified.
pub open spec fn build_file(
    tree: SourceTreeV,
    name: Seq<char>,
    crate_name: Seq<char>,
    path: Seq<Seq<char>>,
    visited: Seq<usize>,
) -> Result<ModuleV, ErrorV> {
    match spec_lookup(tree, path) {
        None => Err(ErrorV::InvalidModulePath { path }),
        Some(idx) => if spec_contains_idx(visited, idx as usize) {
            Err(ErrorV::InvalidModulePath { path })
        } else {
            build_items(tree, name, crate_name, path, tree.files[idx].decls, visited.push(idx as usize))
        },
    }
}

/// What building the whole package yields: the lower-cased package name is
/// both the root module's name and the crate identity, and construction
/// starts at the package's primary source file.
pub open spec fn build_crate(tree: SourceTreeV, package: Seq<char>) -> Result<ModuleV, ErrorV> {
    build_file(tree, lower_of(package), lower_of(package), seq!["src"@, "lib.rs"@], Seq::empty())
}

// ---------------------------------------------------------------------------
// The builder
// ---------------------------------------------------------------------------

impl Module {
    /// A module with no descriptors and no submodules: such a module is
    /// pruned from its parent's submodule list.
    pub fn is_empty(&self) -> (r: bool)
        ensures
            r == spec_is_empty(self@),
    {
        self.structs.len() == 0 && self.enums.len() == 0 && self.functions.len() == 0
            && self.subs.len() == 0
    }

    /// Generates the `Module` (and all submodules) for the whole package:
    /// the lower-cased package name becomes the root module's name and the
    /// crate identity, and construction starts at the package's primary
    /// source file.
    pub fn from_crate(tree: &SourceTree, package: &str) -> (r: Result<Module, Error>)
        ensures
            module_res_view(r) == build_crate(tree@, package@),
    {
        let name = to_lowercase(package);
        let crate_name = name.clone();
        let mut path: Vec<String> = Vec::new();
        path.push("src".to_owned());
        path.push("lib.rs".to_owned());
        assert(path.deep_view() =~= seq!["src"@, "lib.rs"@]);
        let visited: Vec<usize> = Vec::new();
        Module::from_file(tree, name, crate_name, path, &visited)
    }

    /// Generates the `Module` (and all submodules) from one file of the
    /// tree: the file must resolve and must not already lie on the current
    /// resolution path.
    pub fn from_file(
        tree: &SourceTree,
        name: String,
        crate_name: String,
        path: Vec<String>,
        visited: &Vec<usize>,
    ) -> (r: Result<Module, Error>)
        requires
            visited_wf(visited@, tree@.files.len() as nat),
        ensures
            module_res_view(r) == build_file(tree@, name@, crate_name@, path.deep_view(), visited@),
    {
        match lookup_path(tree, &path) {
            None => Err(Error::InvalidModulePath { path }),
            Some(idx) => {
                if contains_idx(visited, idx) {
                    Err(Error::InvalidModulePath { path })
                } else {
                    let mut v2 = clone_indices(visited);
                    v2.push(idx);
                    proof {
                        lemma_visited_push(visited@, tree@.files.len() as nat, idx);
                    }
                    Module::from_items(tree, name, crate_name, &path, &tree.files[idx].decls, &v2)
                }
            },
        }
    }

    /// Generates the `Module` from the declarations of one file: keeps the
    /// descriptor of every declaration the annotation filter accepts, in
    /// source order; recurses into nested modules; prunes empty submodules;
    /// and aborts on the first error.
    #[verifier::loop_isolation(false)]
    pub fn from_items(
        tree: &SourceTree,
        name: String,
        crate_name: String,
        path: &Vec<String>,
        items: &Vec<Decl>,
        visited: &Vec<usize>,
    ) -> (r: Result<Module, Error>)
        requires
            visited_wf(visited@, tree@.files.len() as nat),
        ensures
            module_res_view(r) == build_items(
                tree@,
                name@,
                crate_name@,
                path.deep_view(),
                view_decls(items@),
                visited@,
            ),
            r matches Ok(m) ==> forall|j: int|
                0 <= j < m@.subs.len() ==> !spec_is_empty(#[trigger] m@.subs[j]),
        decreases spec_rem(tree@.files.len() as nat, visited@), items, 1int, 0int,
    {
        let ghost treev = tree@;
        let ghost pathv = path.deep_view();
        let ghost itemsv = view_decls(items@);
        let ghost cnv = crate_name@;
        let ghost vis = visited@;
        let mut structs: Vec<ItemDescriptor> = Vec::new();
        let mut enums: Vec<ItemDescriptor> = Vec::new();
        let mut functions: Vec<FnDecl> = Vec::new();
        let mut subs: Vec<Module> = Vec::new();
        let mut i: usize = 0;
        while i < items.len()
            invariant
                0 <= i <= items.len(),
                ({
                    match build_items_from(treev, cnv, pathv, itemsv, i as int, vis) {
                        Ok(p) => build_items_from(treev, cnv, pathv, itemsv, 0, vis) == Ok::<
                            ModuleParts,
                            ErrorV,
                        >(
                            ModuleParts {
                                structs: view_descriptors(structs@) + p.structs,
                                enums: view_descriptors(enums@) + p.enums,
                                functions: view_fn_decls(functions@) + p.functions,
                                subs: view_modules(subs@) + p.subs,
                            },
                        ),
                        Err(e) => build_items_from(treev, cnv, pathv, itemsv, 0, vis) == Err::<
                            ModuleParts,
                            ErrorV,
                        >(e),
                    }
                }),
                forall|j: int|
                    0 <= j < subs@.len() ==> !spec_is_empty(#[trigger] view_modules(subs@)[j]),
            decreases items.len() - i,
        {
            proof {
                assert(itemsv[i as int] == view_decl(items@[i as int]));
            }
            let ghost old_structs = structs@;
            let ghost old_enums = enums@;
            let ghost old_functions = functions@;
            let ghost old_subs = subs@;
            match &items[i] {
                Decl::Mod(im) => {
                    match Module::from_itemmod(tree, crate_name.clone(), path, im, visited) {
                        Err(e) => {
                            return Err(e);
                        },
                        Ok(m) => {
                            let keep = !m.is_empty();
                            let ghost mv = m@;
                            proof {
                                assert(itemsv[i as int] matches DeclV::Mod(imv) && imv == im@);
                                assert(build_itemmod(treev, cnv, pathv, im@, vis) == Ok::<
                                    ModuleV,
                                    ErrorV,
                                >(mv));
                            }
                            if keep {
                                subs.push(m);
                                proof {
                                    assert(view_modules(subs@) =~= view_modules(old_subs)
                                        + seq![mv]);
                                }
                            }
                            proof {
                                let nxt = build_items_from(
                                    treev,
                                    cnv,
                                    pathv,
                                    itemsv,
                                    i as int + 1,
                                    vis,
                                );
                                match nxt {
                                    Ok(p2) => {
                                        let glue: Seq<ModuleV> = if spec_is_empty(mv) {
                                            Seq::empty()
                                        } else {
                                            seq![mv]
                                        };
                                        assert(view_modules(subs@) =~= view_modules(old_subs)
                                            + glue);
                                        assert((view_modules(old_subs) + glue) + p2.subs
                                            =~= view_modules(old_subs) + (glue + p2.subs));
                                        if !spec_is_empty(mv) {
                                            assert(glue + p2.subs =~= seq![mv] + p2.subs);
                                        } else {
                                            assert(glue + p2.subs =~= p2.subs);
                                        }
                                    },
                                    Err(e2) => {
                                    },
                                }
                            }
                        },
                    }
                },
                Decl::Struct(sd) => {
                    proof {
                        assert(itemsv[i as int] matches DeclV::Struct(sdv) && sdv == sd@);
                    }
                    match filter_item_struct(sd) {
                        Err(e) => {
                            return Err(e);
                        },
                        Ok(Some(d)) => {
                            let ghost dv = d@;
                            structs.push(d);
                            proof {
                                assert(view_descriptors(structs@) =~= view_descriptors(old_structs)
                                    + seq![dv]);
                                let nxt = build_items_from(
                                    treev,
                                    cnv,
                                    pathv,
                                    itemsv,
                                    i as int + 1,
                                    vis,
                                );
                                match nxt {
                                    Ok(p2) => {
                                        assert((view_descriptors(old_structs) + seq![dv])
                                            + p2.structs =~= view_descriptors(old_structs) + (
                                        seq![dv] + p2.structs));
                                    },
                                    Err(e2) => {
                                    },
                                }
                            }
                        },
                        Ok(None) => {
                        },
                    }
                },
                Decl::Enum(ed) => {
                    proof {
                        assert(itemsv[i as int] matches DeclV::Enum(edv) && edv == ed@);
                    }
                    match filter_item_enum(ed) {
                        Err(e) => {
                            return Err(e);
                        },
                        Ok(Some(d)) => {
                            let ghost dv = d@;
                            enums.push(d);
                            proof {
                                assert(view_descriptors(enums@) =~= view_descriptors(old_enums)
                                    + seq![dv]);
                                let nxt = build_items_from(
                                    treev,
                                    cnv,
                                    pathv,
                                    itemsv,
                                    i as int + 1,
                                    vis,
                                );
                                match nxt {
                                    Ok(p2) => {
                                        assert((view_descriptors(old_enums) + seq![dv]) + p2.enums
                                            =~= view_descriptors(old_enums) + (seq![dv]
                                            + p2.enums));
                                    },
                                    Err(e2) => {
                                    },
                                }
                            }
                        },
                        Ok(None) => {
                        },
                    }
                },
                Decl::Fn(fd) => {
                    proof {
                        assert(itemsv[i as int] matches DeclV::Fn(fdv) && fdv == fd@);
                    }
                    match filter_item_fn(fd) {
                        Some(f) => {
                            let ghost fv = f@;
                            functions.push(f);
                            proof {
                                assert(view_fn_decls(functions@) =~= view_fn_decls(old_functions)
                                    + seq![fv]);
                                assert(fv == fd@);
                                let nxt = build_items_from(
                                    treev,
                                    cnv,
                                    pathv,
                                    itemsv,
                                    i as int + 1,
                                    vis,
                                );
                                match nxt {
                                    Ok(p2) => {
                                        assert((view_fn_decls(old_functions) + seq![fv])
                                            + p2.functions =~= view_fn_decls(old_functions) + (
                                        seq![fv] + p2.functions));
                                    },
                                    Err(e2) => {
                                    },
                                }
                            }
                        },
                        None => {
                        },
                    }
                },
                Decl::OtherItem => {
                },
            }
            i = i + 1;
        }
        proof {
            let last = build_items_from(treev, cnv, pathv, itemsv, items.len() as int, vis);
            assert(last == Ok::<ModuleParts, ErrorV>(
                ModuleParts {
                    structs: Seq::empty(),
                    enums: Seq::empty(),
                    functions: Seq::empty(),
                    subs: Seq::empty(),
                },
            ));
            assert(view_descriptors(structs@) + Seq::<ItemDescriptorV>::empty() =~= view_descriptors(
                structs@,
            ));
            assert(view_descriptors(enums@) + Seq::<ItemDescriptorV>::empty() =~= view_descriptors(
                enums@,
            ));
            assert(view_fn_decls(functions@) + Seq::<FnDeclV>::empty() =~= view_fn_decls(
                functions@,
            ));
            assert(view_modules(subs@) + Seq::<ModuleV>::empty() =~= view_modules(subs@));
        }
        let m = Module { name, crate_name, structs, enums, functions, subs };
        proof {
            let mv = m@;
            assert(mv.name == m.name@);
            assert(mv.crate_name == m.crate_name@);
            assert(mv.structs =~= view_descriptors(m.structs@));
            assert(mv.enums =~= view_descriptors(m.enums@));
            assert(mv.functions =~= view_fn_decls(m.functions@));
            assert(mv.subs =~= view_modules(m.subs@));
            assert(mv =~= (ModuleV {
                name: m.name@,
                crate_name: m.crate_name@,
                structs: view_descriptors(m.structs@),
                enums: view_descriptors(m.enums@),
                functions: view_fn_decls(m.functions@),
                subs: view_modules(m.subs@),
            }));
        }
        Ok(m)
    }

    /// Generates the `Module` for one nested module declaration. An inline
    /// module recurses on its own declarations in the current file's
    /// context. A file-backed module resolves its backing file: first the
    /// flat convention (a sibling file named after the module), then the
    /// directory convention (a directory named after the module with its
    /// index file); a current file without a parent, a module that resolves
    /// to neither convention, and a backing file already on the resolution
    /// path are `InvalidModulePath` errors.
    #[verifier::loop_isolation(false)]
    pub fn from_itemmod(
        tree: &SourceTree,
        crate_name: String,
        parent: &Vec<String>,
        im: &ModDecl,
        visited: &Vec<usize>,
    ) -> (r: Result<Module, Error>)
        requires
            visited_wf(visited@, tree@.files.len() as nat),
        ensures
            module_res_view(r) == build_itemmod(
                tree@,
                crate_name@,
                parent.deep_view(),
                im@,
                visited@,
            ),
        decreases spec_rem(tree@.files.len() as nat, visited@), im, 2int, 0int,
    {
        let ghost treev = tree@;
        let ghost pathv = parent.deep_view();
        match &im.content {
            Some(content) => {
                proof {
                    assert(im@ matches ModDeclV { content: Some(cv), .. } && cv =~= view_decls(
                        content@,
                    ));
                }
                Module::from_items(tree, im.name.clone(), crate_name, parent, content, visited)
            },
            None => {
                if parent.len() == 0 {
                    let empty_path: Vec<String> = Vec::new();
                    assert(empty_path.deep_view() =~= pathv);
                    return Err(Error::InvalidModulePath { path: empty_path });
                }
                let mut prefix: Vec<String> = Vec::new();
                let mut j: usize = 0;
                while j < parent.len() - 1
                    invariant
                        0 <= j <= parent.len() - 1,
                        prefix.deep_view() =~= pathv.subrange(0, j as int),
                    decreases parent.len() - 1 - j,
                {
                    prefix.push(parent[j].clone());
                    assert(prefix.deep_view() =~= pathv.subrange(0, j + 1 as int));
                    j = j + 1;
                }
                proof {
                    assert(prefix.deep_view() =~= pathv.drop_last());
                }
                let mut flat = crate::strutil::clone_strings(&prefix);
                flat.push(im.name.clone().concat(".rs"));
                proof {
                    assert(flat.deep_view() =~= pathv.drop_last().push(im@.name + ".rs"@));
                }
                let mut dir = prefix;
                dir.push(im.name.clone());
                dir.push("mod.rs".to_owned());
                proof {
                    assert(dir.deep_view() =~= pathv.drop_last().push(im@.name).push("mod.rs"@));
                }
                let use_flat = match lookup_path(tree, &flat) {
                    Some(_) => true,
                    None => false,
                };
                let target = if use_flat {
                    flat
                } else {
                    dir
                };
                match lookup_path(tree, &target) {
                    None => Err(Error::InvalidModulePath { path: target }),
                    Some(idx) => {
                        if contains_idx(visited, idx) {
                            Err(Error::InvalidModulePath { path: target })
                        } else {
                            let mut v2 = clone_indices(visited);
                            v2.push(idx);
                            proof {
                                lemma_visited_push(visited@, treev.files.len() as nat, idx);
                            }
                            Module::from_items(
                                tree,
                                im.name.clone(),
                                crate_name,
                                &target,
                                &tree.files[idx].decls,
                                &v2,
                            )
                        }
                    },
                }
            },
        }
    }
}

/// Law: resolution of a file-backed module prefers the flat convention,
/// falls back to the directory convention, and fails with
/// `InvalidModulePath` carrying the unresolved path where neither layout
/// exists.
pub proof fn lemma_resolution(
    tree: SourceTreeV,
    crate_name: Seq<char>,
    parent: Seq<Seq<char>>,
    im: ModDeclV,
    visited: Seq<usize>,
)
    requires
        im.content is None,
        parent.len() > 0,
        visited_wf(visited, tree.files.len() as nat),
    ensures
        ({
            let flat = parent.drop_last().push(im.name + ".rs"@);
            let dir = parent.drop_last().push(im.name).push("mod.rs"@);
            &&& spec_lookup(tree, flat) is Some ==> build_itemmod(tree, crate_name, parent, im, visited)
                == build_file(tree, im.name, crate_name, flat, visited)
            &&& spec_lookup(tree, flat) is None ==> build_itemmod(tree, crate_name, parent, im, visited)
                == build_file(tree, im.name, crate_name, dir, visited)
            &&& spec_lookup(tree, flat) is None && spec_lookup(tree, dir) is None
                ==> build_itemmod(tree, crate_name, parent, im, visited) == Err::<ModuleV, ErrorV>(
                    ErrorV::InvalidModulePath { path: dir },
                )
        }),
{
}

} // verus!
