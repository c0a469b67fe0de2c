//! Small verified helpers over strings and paths, and the one trusted
//! wrapper this library needs from std.

use vstd::prelude::*;

use crate::ast::Attr;
use crate::ast::AttrArgs;
use crate::ast::FieldDecl;
use crate::ast::FnDecl;
use crate::ast::TypeExpr;
use crate::ast::TypeExprV;
use crate::ast::VariantDecl;
use crate::ast::view_attrs;
use crate::ast::view_fields;
use crate::ast::view_type_expr;
use crate::ast::view_variants;

verus! {

/// What `str::to_lowercase` returns: a function of the characters alone.
pub uninterp spec fn lower_of(s: Seq<char>) -> Seq<char>;

/// Relies on str::to_lowercase: the result depends on the characters alone,
/// and lowercasing an empty string gives an empty string.
#[verifier::external_body]
pub fn to_lowercase(s: &str) -> (r: String)
    ensures
        r@ == lower_of(s@),
        s@.len() == 0 ==> r@.len() == 0,
{
    s.to_lowercase()
}

/// Compares a string against a literal.
pub fn eq_lit(s: &String, lit: &str) -> (r: bool)
    ensures
        r == (s@ == lit@),
{
    let owned: String = lit.to_owned();
    *s == owned
}

/// Copies a vector of strings.
pub fn clone_strings(v: &Vec<String>) -> (r: Vec<String>)
    ensures
        r@ == v@,
{
    let mut out: Vec<String> = Vec::new();
    let mut i: usize = 0;
    while i < v.len()
        invariant
            0 <= i <= v.len(),
            out@ == v@.subrange(0, i as int),
        decreases v.len() - i,
    {
        out.push(v[i].clone());
        assert(out@ =~= v@.subrange(0, i + 1 as int));
        i = i + 1;
    }
    assert(out@ =~= v@);
    out
}

/// Copies a vector of indices.
pub fn clone_indices(v: &Vec<usize>) -> (r: Vec<usize>)
    ensures
        r@ == v@,
{
    let mut out: Vec<usize> = Vec::new();
    let mut i: usize = 0;
    while i < v.len()
        invariant
            0 <= i <= v.len(),
            out@ == v@.subrange(0, i as int),
        decreases v.len() - i,
    {
        out.push(v[i]);
        assert(out@ =~= v@.subrange(0, i + 1 as int));
        i = i + 1;
    }
    assert(out@ =~= v@);
    out
}

/// Copies a type expression.
#[verifier::loop_isolation(false)]
pub fn clone_type_expr(t: &TypeExpr) -> (r: TypeExpr)
    ensures
        r@ == t@,
    decreases t,
{
    match t {
        TypeExpr::Path { name, args } => {
            let mut out_args: Vec<TypeExpr> = Vec::new();
            let mut i: usize = 0;
            while i < args.len()
                invariant
                    0 <= i <= args.len(),
                    out_args@.len() == i,
                    forall|j: int|
                        0 <= j < i ==> view_type_expr(out_args@[j]) == #[trigger] view_type_expr(
                            args@[j],
                        ),
                decreases args.len() - i,
            {
                out_args.push(clone_type_expr(&args[i]));
                i = i + 1;
            }
            let r = TypeExpr::Path { name: name.clone(), args: out_args };
            proof {
                let tv = t@;
                let rv = r@;
                assert(tv matches TypeExprV::Path { name: n1, args: a1 }
                    && rv matches TypeExprV::Path { name: n2, args: a2 } && n1 == n2
                    && a1.len() == a2.len());
                assert forall|j: int| 0 <= j < (tv->args).len() implies (rv->args)[j] == (
                tv->args)[j] by {
                    assert(view_type_expr(out_args@[j]) == view_type_expr(args@[j]));
                }
                assert(rv->args =~= tv->args);
                assert(rv == tv);
            }
            r
        }
        TypeExpr::Other => TypeExpr::Other,
    }
}

/// Copies a vector of type expressions.
pub fn clone_type_exprs(v: &Vec<TypeExpr>) -> (r: Vec<TypeExpr>)
    ensures
        r@.len() == v@.len(),
        forall|j: int|
            0 <= j < v@.len() ==> view_type_expr(r@[j]) == #[trigger] view_type_expr(v@[j]),
{
    let mut out: Vec<TypeExpr> = Vec::new();
    let mut i: usize = 0;
    while i < v.len()
        invariant
            0 <= i <= v.len(),
            out@.len() == i,
            forall|j: int|
                0 <= j < i ==> view_type_expr(out@[j]) == #[trigger] view_type_expr(v@[j]),
        decreases v.len() - i,
    {
        out.push(clone_type_expr(&v[i]));
        i = i + 1;
    }
    out
}

/// Copies a field declaration.
pub fn clone_field(f: &FieldDecl) -> (r: FieldDecl)
    ensures
        r@ == f@,
{
    FieldDecl { name: f.name.clone(), ty: clone_type_expr(&f.ty) }
}

/// Copies a vector of field declarations.
pub fn clone_fields(v: &Vec<FieldDecl>) -> (r: Vec<FieldDecl>)
    ensures
        view_fields(r@) == view_fields(v@),
{
    let mut out: Vec<FieldDecl> = Vec::new();
    let mut i: usize = 0;
    while i < v.len()
        invariant
            0 <= i <= v.len(),
            out@.len() == i,
            forall|j: int| 0 <= j < i ==> (#[trigger] out@[j])@ == v@[j]@,
        decreases v.len() - i,
    {
        out.push(clone_field(&v[i]));
        i = i + 1;
    }
    assert(view_fields(out@) =~= view_fields(v@));
    out
}

/// Copies a variant declaration.
pub fn clone_variant(va: &VariantDecl) -> (r: VariantDecl)
    ensures
        r@ == va@,
{
    let r = VariantDecl { name: va.name.clone(), tys: clone_type_exprs(&va.tys) };
    assert(r@ =~~= va@);
    r
}

/// Copies a vector of variant declarations.
pub fn clone_variants(v: &Vec<VariantDecl>) -> (r: Vec<VariantDecl>)
    ensures
        view_variants(r@) == view_variants(v@),
{
    let mut out: Vec<VariantDecl> = Vec::new();
    let mut i: usize = 0;
    while i < v.len()
        invariant
            0 <= i <= v.len(),
            out@.len() == i,
            forall|j: int| 0 <= j < i ==> (#[trigger] out@[j])@ == v@[j]@,
        decreases v.len() - i,
    {
        out.push(clone_variant(&v[i]));
        i = i + 1;
    }
    assert(view_variants(out@) =~= view_variants(v@));
    out
}

/// Copies an attribute.
pub fn clone_attr(a: &Attr) -> (r: Attr)
    ensures
        r@ == a@,
{
    let args = match &a.args {
        AttrArgs::NoArgs => AttrArgs::NoArgs,
        AttrArgs::List { items } => AttrArgs::List { items: clone_strings(items) },
        AttrArgs::OtherShape => AttrArgs::OtherShape,
    };
    let r = Attr { path: a.path.clone(), args };
    assert(r@ =~~= a@);
    r
}

/// Copies a vector of attributes.
pub fn clone_attrs(v: &Vec<Attr>) -> (r: Vec<Attr>)
    ensures
        view_attrs(r@) == view_attrs(v@),
{
    let mut out: Vec<Attr> = Vec::new();
    let mut i: usize = 0;
    while i < v.len()
        invariant
            0 <= i <= v.len(),
            out@.len() == i,
            forall|j: int| 0 <= j < i ==> (#[trigger] out@[j])@ == v@[j]@,
        decreases v.len() - i,
    {
        out.push(clone_attr(&v[i]));
        i = i + 1;
    }
    assert(view_attrs(out@) =~= view_attrs(v@));
    out
}

/// Copies a function declaration.
pub fn clone_fn_decl(f: &FnDecl) -> (r: FnDecl)
    ensures
        r@ == f@,
{
    let ret = match &f.ret {
        Some(t) => Some(clone_type_expr(t)),
        None => None,
    };
    let r = FnDecl {
        name: f.name.clone(),
        attrs: clone_attrs(&f.attrs),
        params: clone_fields(&f.params),
        ret,
    };
    assert(r@ =~~= f@);
    r
}

} // verus!
