//! The data model the generator works on: type expressions, attribute
//! metadata, declarations, and the files of a package laid out as a tree.
//!
//! Each executable type has a mathematical twin (suffix `V`) used in
//! contracts, reached through `View`.

use vstd::prelude::*;

verus! {

// ---------------------------------------------------------------------------
// Type expressions
// ---------------------------------------------------------------------------

/// A type reference as it appears in a declaration: a path type, kept as the
/// trailing segment's name together with its generic arguments, or some other
/// shape the generator does not inspect.
///
/// Behaviors match on the trailing segment's name alone; a fully qualified
/// user type whose last segment equals a recognized name is therefore
/// classified by that name. This mirrors the matching rule the generator
/// documents and deliberately keeps.
#[derive(Debug, PartialEq, Eq)]
pub enum TypeExpr {
    Path { name: String, args: Vec<TypeExpr> },
    Other,
}

/// Mathematical twin of `TypeExpr`.
#[verifier::ext_equal]
pub enum TypeExprV {
    Path { name: Seq<char>, args: Seq<TypeExprV> },
    Other,
}

pub open spec fn view_type_expr(t: TypeExpr) -> TypeExprV
    decreases t,
{
    match t {
        TypeExpr::Path { name, args } => TypeExprV::Path {
            name: name@,
            args: Seq::new(
                args.len() as nat,
                |i: int| if 0 <= i < args.len() {
                    view_type_expr(args[i])
                } else {
                    TypeExprV::Other
                },
            ),
        },
        TypeExpr::Other => TypeExprV::Other,
    }
}

impl View for TypeExpr {
    type V = TypeExprV;

    open spec fn view(&self) -> TypeExprV {
        view_type_expr(*self)
    }
}

// ---------------------------------------------------------------------------
// Attribute metadata
// ---------------------------------------------------------------------------

/// The arguments attached to an attribute: a plain list of names (as in a
/// derive list), no arguments at all, or a shape this model does not
/// represent (which descriptor extraction treats as unreadable).
#[derive(Debug, PartialEq, Eq)]
pub enum AttrArgs {
    NoArgs,
    List { items: Vec<String> },
    OtherShape,
}

#[verifier::ext_equal]
pub enum AttrArgsV {
    NoArgs,
    List { items: Seq<Seq<char>> },
    OtherShape,
}

impl View for AttrArgs {
    type V = AttrArgsV;

    open spec fn view(&self) -> AttrArgsV {
        match self {
            AttrArgs::NoArgs => AttrArgsV::NoArgs,
            AttrArgs::List { items } => AttrArgsV::List { items: items.deep_view() },
            AttrArgs::OtherShape => AttrArgsV::OtherShape,
        }
    }
}

/// One attribute attached to a declaration: its path and its arguments.
#[derive(Debug, PartialEq, Eq)]
pub struct Attr {
    pub path: String,
    pub args: AttrArgs,
}

#[verifier::ext_equal]
pub struct AttrV {
    pub path: Seq<char>,
    pub args: AttrArgsV,
}

impl View for Attr {
    type V = AttrV;

    open spec fn view(&self) -> AttrV {
        AttrV { path: self.path@, args: self.args@ }
    }
}

pub open spec fn view_attrs(attrs: Seq<Attr>) -> Seq<AttrV> {
    Seq::new(attrs.len(), |i: int| if 0 <= i < attrs.len() {
        attrs[i]@
    } else {
        AttrV { path: Seq::empty(), args: AttrArgsV::NoArgs }
    })
}

// ---------------------------------------------------------------------------
// Declarations
// ---------------------------------------------------------------------------

/// A named field with its type; also used for a function parameter.
#[derive(Debug, PartialEq, Eq)]
pub struct FieldDecl {
    pub name: String,
    pub ty: TypeExpr,
}

#[verifier::ext_equal]
pub struct FieldDeclV {
    pub name: Seq<char>,
    pub ty: TypeExprV,
}

impl View for FieldDecl {
    type V = FieldDeclV;

    open spec fn view(&self) -> FieldDeclV {
        FieldDeclV { name: self.name@, ty: self.ty@ }
    }
}

pub open spec fn view_fields(fields: Seq<FieldDecl>) -> Seq<FieldDeclV> {
    Seq::new(fields.len(), |i: int| if 0 <= i < fields.len() {
        fields[i]@
    } else {
        FieldDeclV { name: Seq::empty(), ty: TypeExprV::Other }
    })
}

/// An enum variant: its name and the types of its associated data.
#[derive(Debug, PartialEq, Eq)]
pub struct VariantDecl {
    pub name: String,
    pub tys: Vec<TypeExpr>,
}

#[verifier::ext_equal]
pub struct VariantDeclV {
    pub name: Seq<char>,
    pub tys: Seq<TypeExprV>,
}

impl View for VariantDecl {
    type V = VariantDeclV;

    open spec fn view(&self) -> VariantDeclV {
        VariantDeclV {
            name: self.name@,
            tys: Seq::new(
                self.tys.len() as nat,
                |i: int| if 0 <= i < self.tys.len() {
                    self.tys[i]@
                } else {
                    TypeExprV::Other
                },
            ),
        }
    }
}

pub open spec fn view_variants(vars: Seq<VariantDecl>) -> Seq<VariantDeclV> {
    Seq::new(vars.len(), |i: int| if 0 <= i < vars.len() {
        vars[i]@
    } else {
        VariantDeclV { name: Seq::empty(), tys: Seq::empty() }
    })
}

/// A struct declaration: name, attributes, and named fields.
#[derive(Debug, PartialEq, Eq)]
pub struct StructDecl {
    pub name: String,
    pub attrs: Vec<Attr>,
    pub fields: Vec<FieldDecl>,
}

#[verifier::ext_equal]
pub struct StructDeclV {
    pub name: Seq<char>,
    pub attrs: Seq<AttrV>,
    pub fields: Seq<FieldDeclV>,
}

impl View for StructDecl {
    type V = StructDeclV;

    open spec fn view(&self) -> StructDeclV {
        StructDeclV {
            name: self.name@,
            attrs: view_attrs(self.attrs@),
            fields: view_fields(self.fields@),
        }
    }
}

/// An enum declaration: name, attributes, and variants.
#[derive(Debug, PartialEq, Eq)]
pub struct EnumDecl {
    pub name: String,
    pub attrs: Vec<Attr>,
    pub variants: Vec<VariantDecl>,
}

#[verifier::ext_equal]
pub struct EnumDeclV {
    pub name: Seq<char>,
    pub attrs: Seq<AttrV>,
    pub variants: Seq<VariantDeclV>,
}

impl View for EnumDecl {
    type V = EnumDeclV;

    open spec fn view(&self) -> EnumDeclV {
        EnumDeclV {
            name: self.name@,
            attrs: view_attrs(self.attrs@),
            variants: view_variants(self.variants@),
        }
    }
}

/// A free function declaration: name, attributes, parameters, return type.
#[derive(Debug, PartialEq, Eq)]
pub struct FnDecl {
    pub name: String,
    pub attrs: Vec<Attr>,
    pub params: Vec<FieldDecl>,
    pub ret: Option<TypeExpr>,
}

#[verifier::ext_equal]
pub struct FnDeclV {
    pub name: Seq<char>,
    pub attrs: Seq<AttrV>,
    pub params: Seq<FieldDeclV>,
    pub ret: Option<TypeExprV>,
}

impl View for FnDecl {
    type V = FnDeclV;

    open spec fn view(&self) -> FnDeclV {
        FnDeclV {
            name: self.name@,
            attrs: view_attrs(self.attrs@),
            params: view_fields(self.params@),
            ret: match &self.ret {
                Some(t) => Some(t@),
                None => None,
            },
        }
    }
}

/// A module declaration: inline (its declarations are in the same file) when
/// `content` is present, file-backed otherwise.
#[derive(Debug, PartialEq, Eq)]
pub struct ModDecl {
    pub name: String,
    pub content: Option<Vec<Decl>>,
}

#[verifier::ext_equal]
pub struct ModDeclV {
    pub name: Seq<char>,
    pub content: Option<Seq<DeclV>>,
}

/// One declaration of a source file, classified the way the tree builder
/// reads it; everything else is `OtherItem` and is ignored.
#[derive(Debug, PartialEq, Eq)]
pub enum Decl {
    Struct(StructDecl),
    Enum(EnumDecl),
    Fn(FnDecl),
    Mod(ModDecl),
    OtherItem,
}

#[verifier::ext_equal]
pub enum DeclV {
    Struct(StructDeclV),
    Enum(EnumDeclV),
    Fn(FnDeclV),
    Mod(ModDeclV),
    OtherItem,
}

pub open spec fn view_mod_decl(md: ModDecl) -> ModDeclV
    decreases md,
{
    ModDeclV {
        name: md.name@,
        content: match md.content {
            Some(items) => Some(
                Seq::new(
                    items.len() as nat,
                    |i: int| if 0 <= i < items.len() {
                        view_decl(items[i])
                    } else {
                        DeclV::OtherItem
                    },
                ),
            ),
            None => None,
        },
    }
}

pub open spec fn view_decl(d: Decl) -> DeclV
    decreases d,
{
    match d {
        Decl::Struct(sd) => DeclV::Struct(sd@),
        Decl::Enum(ed) => DeclV::Enum(ed@),
        Decl::Fn(fd) => DeclV::Fn(fd@),
        Decl::Mod(md) => DeclV::Mod(view_mod_decl(md)),
        Decl::OtherItem => DeclV::OtherItem,
    }
}

impl View for ModDecl {
    type V = ModDeclV;

    open spec fn view(&self) -> ModDeclV {
        view_mod_decl(*self)
    }
}

impl View for Decl {
    type V = DeclV;

    open spec fn view(&self) -> DeclV {
        view_decl(*self)
    }
}

pub open spec fn view_decls(items: Seq<Decl>) -> Seq<DeclV> {
    Seq::new(items.len(), |i: int| if 0 <= i < items.len() {
        view_decl(items[i])
    } else {
        DeclV::OtherItem
    })
}

// ---------------------------------------------------------------------------
// Descriptors: what the annotation filter keeps of a marked declaration
// ---------------------------------------------------------------------------

/// What a descriptor describes: the fields of a struct or the variants of an
/// enum.
#[derive(Debug, PartialEq, Eq)]
pub enum DescriptorShape {
    Fields(Vec<FieldDecl>),
    Variants(Vec<VariantDecl>),
}

#[verifier::ext_equal]
pub enum DescriptorShapeV {
    Fields(Seq<FieldDeclV>),
    Variants(Seq<VariantDeclV>),
}

impl View for DescriptorShape {
    type V = DescriptorShapeV;

    open spec fn view(&self) -> DescriptorShapeV {
        match self {
            DescriptorShape::Fields(fields) => DescriptorShapeV::Fields(view_fields(fields@)),
            DescriptorShape::Variants(vars) => DescriptorShapeV::Variants(view_variants(vars@)),
        }
    }
}

/// The descriptor of one marked struct or enum: what the binding renderer
/// consumes.
#[derive(Debug, PartialEq, Eq)]
pub struct ItemDescriptor {
    pub name: String,
    pub shape: DescriptorShape,
}

#[verifier::ext_equal]
pub struct ItemDescriptorV {
    pub name: Seq<char>,
    pub shape: DescriptorShapeV,
}

impl View for ItemDescriptor {
    type V = ItemDescriptorV;

    open spec fn view(&self) -> ItemDescriptorV {
        ItemDescriptorV { name: self.name@, shape: self.shape@ }
    }
}

// ---------------------------------------------------------------------------
// The package's files, as the virtual provider the tree builder walks
// ---------------------------------------------------------------------------

/// One parsed source file: its path relative to the package root, split into
/// components, and its declarations in source order.
#[derive(Debug, PartialEq, Eq)]
pub struct SourceFile {
    pub path: Vec<String>,
    pub decls: Vec<Decl>,
}

#[verifier::ext_equal]
pub struct SourceFileV {
    pub path: Seq<Seq<char>>,
    pub decls: Seq<DeclV>,
}

impl View for SourceFile {
    type V = SourceFileV;

    open spec fn view(&self) -> SourceFileV {
        SourceFileV { path: self.path.deep_view(), decls: view_decls(self.decls@) }
    }
}

/// All parsed source files of one package. The builder resolves module paths
/// against this value instead of a real file system, so the whole
/// construction is a pure function of it.
#[derive(Debug, PartialEq, Eq)]
pub struct SourceTree {
    pub files: Vec<SourceFile>,
}

#[verifier::ext_equal]
pub struct SourceTreeV {
    pub files: Seq<SourceFileV>,
}

impl View for SourceTree {
    type V = SourceTreeV;

    open spec fn view(&self) -> SourceTreeV {
        SourceTreeV {
            files: Seq::new(
                self.files.len() as nat,
                |i: int| if 0 <= i < self.files.len() {
                    self.files[i]@
                } else {
                    SourceFileV { path: Seq::empty(), decls: Seq::empty() }
                },
            ),
        }
    }
}

} // verus!
