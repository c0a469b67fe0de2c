//! Type behaviors and their dispatcher.
//!
//! A behavior knows how to recognize one shape of type expression, name it,
//! list the imports it requires, and convert values across the FFI/native
//! boundary in both directions. The registry is the fixed, ordered set of
//! behaviors; dispatch scans it in registration order and the first behavior
//! claiming the expression wins, so more specific shapes are registered
//! before the general scalar matcher.

use vstd::prelude::*;
use vstd::string::StringExecFns;

use crate::ast::TypeExpr;
use crate::ast::TypeExprV;
use crate::error::Error;
use crate::error::ErrorV;
use crate::strutil::eq_lit;

verus! {

/// The names claimed by the scalar behavior. `usize` and `isize` are
/// deliberately not in the set: they stay unhandled and must fail dispatch.
pub open spec fn is_scalar_name(s: Seq<char>) -> bool {
    ||| s == "f32"@
    ||| s == "f64"@
    ||| s == "u8"@
    ||| s == "u16"@
    ||| s == "u32"@
    ||| s == "u64"@
    ||| s == "i8"@
    ||| s == "i16"@
    ||| s == "i32"@
    ||| s == "i64"@
}

/// One behavior per supported type shape.
#[derive(Clone, Copy, Debug, PartialEq, Eq, Structural)]
pub enum Behavior {
    /// The time-duration type, exchanged as milliseconds over the boundary.
    Duration,
    /// The result/error type; its conversions are not yet provided.
    ResultShape,
    /// The built-in numeric scalar types.
    Scalar,
}

impl Behavior {
    /// Whether this behavior claims the type expression: a pure, total
    /// structural test on the trailing path segment's name.
    pub open spec fn spec_is(self, t: TypeExprV) -> bool {
        match t {
            TypeExprV::Path { name, args } => match self {
                Behavior::Duration => name == "Duration"@,
                Behavior::ResultShape => name == "Result"@,
                Behavior::Scalar => is_scalar_name(name),
            },
            TypeExprV::Other => false,
        }
    }

    pub fn is(&self, sty: &TypeExpr) -> (r: bool)
        ensures
            r == self.spec_is(sty@),
    {
        match sty {
            TypeExpr::Path { name, args } => match self {
                Behavior::Duration => eq_lit(name, "Duration"),
                Behavior::ResultShape => eq_lit(name, "Result"),
                Behavior::Scalar => is_scalar(name),
            },
            TypeExpr::Other => false,
        }
    }
}

/// Recognizes the scalar names.
pub fn is_scalar(name: &String) -> (r: bool)
    ensures
        r == is_scalar_name(name@),
{
    eq_lit(name, "f32") || eq_lit(name, "f64") || eq_lit(name, "u8") || eq_lit(name, "u16")
        || eq_lit(name, "u32") || eq_lit(name, "u64") || eq_lit(name, "i8") || eq_lit(name, "i16")
        || eq_lit(name, "i32") || eq_lit(name, "i64")
}

/// The registry in registration order: specific shapes before the scalar
/// fallback.
pub open spec fn spec_behaviors() -> Seq<Behavior> {
    seq![Behavior::Duration, Behavior::ResultShape, Behavior::Scalar]
}

/// Builds the fixed, ordered behavior registry.
pub fn behaviors() -> (r: Vec<Behavior>)
    ensures
        r@ == spec_behaviors(),
{
    let r = vec![Behavior::Duration, Behavior::ResultShape, Behavior::Scalar];
    assert(r@ =~= spec_behaviors());
    r
}

/// The behavior dispatch decision: the first behavior in registration order
/// that claims the expression, if any.
pub open spec fn spec_switch(t: TypeExprV) -> Option<Behavior> {
    if Behavior::Duration.spec_is(t) {
        Some(Behavior::Duration)
    } else if Behavior::ResultShape.spec_is(t) {
        Some(Behavior::ResultShape)
    } else if Behavior::Scalar.spec_is(t) {
        Some(Behavior::Scalar)
    } else {
        None
    }
}

/// Returns the behavior for the given type expression, scanning the registry
/// in registration order; zero matches is a hard `UnrecognizedType` error,
/// never a silent default.
pub fn switch(sty: &TypeExpr) -> (r: Result<Behavior, Error>)
    ensures
        match r {
            Ok(b) => spec_switch(sty@) == Some(b),
            Err(e) => spec_switch(sty@) == None::<Behavior> && e@ == ErrorV::UnrecognizedType,
        },
{
    let regs = behaviors();
    let mut i: usize = 0;
    while i < regs.len()
        invariant
            0 <= i <= regs.len(),
            regs@ == spec_behaviors(),
            forall|j: int| 0 <= j < i ==> !(#[trigger] regs@[j]).spec_is(sty@),
        decreases regs.len() - i,
    {
        if regs[i].is(sty) {
            return Ok(regs[i]);
        }
        i = i + 1;
    }
    Err(Error::UnrecognizedType)
}

/// View of a string-valued generation result.
pub open spec fn str_res_view(r: Result<String, Error>) -> Result<Seq<char>, ErrorV> {
    match r {
        Ok(s) => Ok(s@),
        Err(e) => Err(e@),
    }
}

/// View of an import-list generation result.
pub open spec fn strs_res_view(r: Result<Vec<String>, Error>) -> Result<Seq<Seq<char>>, ErrorV> {
    match r {
        Ok(v) => Ok(v.deep_view()),
        Err(e) => Err(e@),
    }
}

/// The native-language type a claimed scalar maps to.
pub open spec fn scalar_native_name(s: Seq<char>) -> Seq<char> {
    if s == "f32"@ {
        "Double"@
    } else if s == "f64"@ {
        "Doubleint"@
    } else {
        "int"@
    }
}

/// The boundary type a claimed scalar maps to.
pub open spec fn scalar_ffi_name(s: Seq<char>) -> Seq<char> {
    if s == "f32"@ {
        "ffi.Float"@
    } else if s == "f64"@ {
        "ffi.Double"@
    } else if s == "u8"@ {
        "ffi.Uint8"@
    } else if s == "u16"@ {
        "ffi.Uint16"@
    } else if s == "u32"@ {
        "ffi.Uint32"@
    } else if s == "u64"@ {
        "ffi.Uint64"@
    } else if s == "i8"@ {
        "ffi.Int8"@
    } else if s == "i16"@ {
        "ffi.Int16"@
    } else if s == "i32"@ {
        "ffi.Int32"@
    } else {
        "ffi.Int64"@
    }
}

/// The canonical lowercase name of a claimed expression, or the error for a
/// composition that has no single name.
pub open spec fn spec_name(b: Behavior, t: TypeExprV) -> Result<Seq<char>, ErrorV> {
    match b {
        Behavior::Duration => Ok("duration"@),
        Behavior::ResultShape => Err(ErrorV::UnsupportedShape),
        Behavior::Scalar => match t {
            TypeExprV::Path { name, args } => Ok(name),
            TypeExprV::Other => Err(ErrorV::UnsupportedShape),
        },
    }
}

/// The boundary-safe representation of a claimed expression.
pub open spec fn spec_ffi(b: Behavior, t: TypeExprV) -> Result<Seq<char>, ErrorV> {
    match b {
        Behavior::Duration => Ok("int"@),
        Behavior::ResultShape => Ok("Pointer<Result>"@),
        Behavior::Scalar => match t {
            TypeExprV::Path { name, args } => Ok(scalar_ffi_name(name)),
            TypeExprV::Other => Err(ErrorV::UnsupportedShape),
        },
    }
}

/// The idiomatic native representation of a claimed expression.
pub open spec fn spec_native(b: Behavior, t: TypeExprV) -> Result<Seq<char>, ErrorV> {
    match b {
        Behavior::Duration => Ok("Duration"@),
        Behavior::ResultShape => Ok("Result"@),
        Behavior::Scalar => match t {
            TypeExprV::Path { name, args } => Ok(scalar_native_name(name)),
            TypeExprV::Other => Err(ErrorV::UnsupportedShape),
        },
    }
}

/// The textual conversion of a native value expression into its boundary
/// form: identity for scalars, an explicit unit conversion for durations,
/// and a reported `UnimplementedConversion` where the logic is not yet
/// provided.
pub open spec fn spec_native_to_ffi(b: Behavior, t: TypeExprV, expr: Seq<char>) -> Result<
    Seq<char>,
    ErrorV,
> {
    match b {
        Behavior::Duration => Ok(expr + ".inMilliseconds"@),
        Behavior::ResultShape => Err(ErrorV::UnimplementedConversion),
        Behavior::Scalar => Ok(expr),
    }
}

/// The textual conversion of a boundary value expression back into its
/// native form.
pub open spec fn spec_ffi_to_native(b: Behavior, t: TypeExprV, expr: Seq<char>) -> Result<
    Seq<char>,
    ErrorV,
> {
    match b {
        Behavior::Duration => Ok("Duration(milliseconds: "@ + expr + ")"@),
        Behavior::ResultShape => Err(ErrorV::UnimplementedConversion),
        Behavior::Scalar => Ok(expr),
    }
}

/// The imports the generated binding file needs for a claimed expression.
/// The result/error shape recurses into its payload type's own behavior and
/// prepends its fixed imports; a missing payload type is an unsupported
/// shape, and an unrecognized payload fails dispatch.
pub open spec fn spec_imports(b: Behavior, t: TypeExprV, pkg: Seq<char>) -> Result<
    Seq<Seq<char>>,
    ErrorV,
>
    decreases t,
{
    match b {
        Behavior::Duration => Ok(Seq::empty()),
        Behavior::Scalar => Ok(Seq::empty()),
        Behavior::ResultShape => match t {
            TypeExprV::Path { name, args } => if args.len() == 0 {
                Err(ErrorV::UnsupportedShape)
            } else {
                match spec_switch(args[0]) {
                    None => Err(ErrorV::UnrecognizedType),
                    Some(sb) => match spec_imports(sb, args[0], pkg) {
                        Ok(si) => Ok(
                            seq!["dart:ffi"@, "package:"@ + pkg + "/dustr/result.dart"@] + si,
                        ),
                        Err(e) => Err(e),
                    },
                }
            },
            TypeExprV::Other => Err(ErrorV::UnsupportedShape),
        },
    }
}

impl Behavior {
    /// The canonical lowercase name used in generated identifiers. Fails
    /// with `UnsupportedShape` for the result/error shape, whose naming
    /// composition is explicitly unsupported.
    pub fn name(&self, sty: &TypeExpr) -> (r: Result<String, Error>)
        requires
            self.spec_is(sty@),
        ensures
            str_res_view(r) == spec_name(*self, sty@),
    {
        match self {
            Behavior::Duration => Ok("duration".to_owned()),
            Behavior::ResultShape => Err(Error::UnsupportedShape),
            Behavior::Scalar => match sty {
                TypeExpr::Path { name, args } => Ok(name.clone()),
                TypeExpr::Other => {
                    proof {
                        assert(false);
                    }
                    Err(Error::UnsupportedShape)
                },
            },
        }
    }

    /// The boundary-safe type of a claimed expression.
    pub fn ffi(&self, sty: &TypeExpr) -> (r: Result<String, Error>)
        requires
            self.spec_is(sty@),
        ensures
            str_res_view(r) == spec_ffi(*self, sty@),
    {
        match self {
            Behavior::Duration => Ok("int".to_owned()),
            Behavior::ResultShape => Ok("Pointer<Result>".to_owned()),
            Behavior::Scalar => match sty {
                TypeExpr::Path { name, args } => Ok(scalar_ffi(name)),
                TypeExpr::Other => {
                    proof {
                        assert(false);
                    }
                    Err(Error::UnsupportedShape)
                },
            },
        }
    }

    /// The idiomatic native type of a claimed expression.
    pub fn native(&self, sty: &TypeExpr) -> (r: Result<String, Error>)
        requires
            self.spec_is(sty@),
        ensures
            str_res_view(r) == spec_native(*self, sty@),
    {
        match self {
            Behavior::Duration => Ok("Duration".to_owned()),
            Behavior::ResultShape => Ok("Result".to_owned()),
            Behavior::Scalar => match sty {
                TypeExpr::Path { name, args } => Ok(scalar_native(name)),
                TypeExpr::Other => {
                    proof {
                        assert(false);
                    }
                    Err(Error::UnsupportedShape)
                },
            },
        }
    }

    /// Produces the expression converting a native value to its boundary
    /// form.
    pub fn native_to_ffi(&self, sty: &TypeExpr, expr: String) -> (r: Result<String, Error>)
        requires
            self.spec_is(sty@),
        ensures
            str_res_view(r) == spec_native_to_ffi(*self, sty@, expr@),
    {
        match self {
            Behavior::Duration => Ok(expr.concat(".inMilliseconds")),
            Behavior::ResultShape => Err(Error::UnimplementedConversion),
            Behavior::Scalar => Ok(expr),
        }
    }

    /// Produces the expression converting a boundary value back to its
    /// native form.
    pub fn ffi_to_native(&self, sty: &TypeExpr, expr: String) -> (r: Result<String, Error>)
        requires
            self.spec_is(sty@),
        ensures
            str_res_view(r) == spec_ffi_to_native(*self, sty@, expr@),
    {
        match self {
            Behavior::Duration => Ok(
                String::from_str("Duration(milliseconds: ").concat(expr.as_str()).concat(")"),
            ),
            Behavior::ResultShape => Err(Error::UnimplementedConversion),
            Behavior::Scalar => Ok(expr),
        }
    }

    /// The list of modules the generated binding file must import to use
    /// this type's representations, in a stable order.
    pub fn imports(&self, sty: &TypeExpr, pkg: &str, crate_name: &str) -> (r: Result<
        Vec<String>,
        Error,
    >)
        requires
            self.spec_is(sty@),
        ensures
            strs_res_view(r) == spec_imports(*self, sty@, pkg@),
        decreases sty,
    {
        match self {
            Behavior::Duration => {
                let r: Vec<String> = Vec::new();
                assert(r.deep_view() =~= Seq::<Seq<char>>::empty());
                Ok(r)
            },
            Behavior::Scalar => {
                let r: Vec<String> = Vec::new();
                assert(r.deep_view() =~= Seq::<Seq<char>>::empty());
                Ok(r)
            },
            Behavior::ResultShape => match sty {
                TypeExpr::Path { name, args } => {
                    if args.len() == 0 {
                        Err(Error::UnsupportedShape)
                    } else {
                        let sub = &args[0];
                        match switch(sub) {
                            Err(e) => Err(e),
                            Ok(sb) => match sb.imports(sub, pkg, crate_name) {
                                Err(e) => Err(e),
                                Ok(si) => {
                                    let ghost pre: Seq<Seq<char>> = seq![
                                        "dart:ffi"@,
                                        "package:"@ + pkg@ + "/dustr/result.dart"@,
                                    ];
                                    let mut out: Vec<String> = Vec::new();
                                    out.push("dart:ffi".to_owned());
                                    out.push(
                                        String::from_str("package:").concat(pkg).concat(
                                            "/dustr/result.dart",
                                        ),
                                    );
                                    let mut k: usize = 0;
                                    while k < si.len()
                                        invariant
                                            0 <= k <= si.len(),
                                            out@.len() == 2 + k,
                                            out@[0]@ == "dart:ffi"@,
                                            out@[1]@ == "package:"@ + pkg@
                                                + "/dustr/result.dart"@,
                                            forall|j: int|
                                                2 <= j < 2 + k ==> (#[trigger] out@[j])@ == si@[j
                                                    - 2]@,
                                        decreases si.len() - k,
                                    {
                                        out.push(si[k].clone());
                                        k = k + 1;
                                    }
                                    assert(out.deep_view() =~= pre + si.deep_view());
                                    Ok(out)
                                },
                            },
                        }
                    }
                },
                TypeExpr::Other => {
                    proof {
                        assert(false);
                    }
                    Err(Error::UnsupportedShape)
                },
            },
        }
    }
}

/// The boundary type for one scalar name.
pub fn scalar_ffi(name: &String) -> (r: String)
    ensures
        r@ == scalar_ffi_name(name@),
{
    if eq_lit(name, "f32") {
        "ffi.Float".to_owned()
    } else if eq_lit(name, "f64") {
        "ffi.Double".to_owned()
    } else if eq_lit(name, "u8") {
        "ffi.Uint8".to_owned()
    } else if eq_lit(name, "u16") {
        "ffi.Uint16".to_owned()
    } else if eq_lit(name, "u32") {
        "ffi.Uint32".to_owned()
    } else if eq_lit(name, "u64") {
        "ffi.Uint64".to_owned()
    } else if eq_lit(name, "i8") {
        "ffi.Int8".to_owned()
    } else if eq_lit(name, "i16") {
        "ffi.Int16".to_owned()
    } else if eq_lit(name, "i32") {
        "ffi.Int32".to_owned()
    } else {
        "ffi.Int64".to_owned()
    }
}

/// The native type for one scalar name.
pub fn scalar_native(name: &String) -> (r: String)
    ensures
        r@ == scalar_native_name(name@),
{
    if eq_lit(name, "f32") {
        "Double".to_owned()
    } else if eq_lit(name, "f64") {
        "Doubleint".to_owned()
    } else {
        "int".to_owned()
    }
}

/// Law: every path type whose trailing name is one of the supported scalar
/// names dispatches to the scalar behavior.
pub proof fn lemma_dispatch_scalar(t: TypeExprV)
    requires
        t matches TypeExprV::Path { name, args } && is_scalar_name(name),
    ensures
        spec_switch(t) == Some(Behavior::Scalar),
{
    reveal_strlit("f32");
    reveal_strlit("f64");
    reveal_strlit("u8");
    reveal_strlit("u16");
    reveal_strlit("u32");
    reveal_strlit("u64");
    reveal_strlit("i8");
    reveal_strlit("i16");
    reveal_strlit("i32");
    reveal_strlit("i64");
    reveal_strlit("Duration");
    reveal_strlit("Result");
    let name = t->name;
    assert("Duration"@.len() == 8);
    assert("Result"@.len() == 6);
    assert(name.len() <= 3);
}

/// Law: a path type whose trailing name is claimed by no behavior — in
/// particular the deliberately unhandled `usize` and `isize` — fails
/// dispatch.
pub proof fn lemma_dispatch_unrecognized(t: TypeExprV)
    requires
        t matches TypeExprV::Path { name, args } && !is_scalar_name(name) && name != "Duration"@
            && name != "Result"@,
    ensures
        spec_switch(t) == None::<Behavior>,
{
}

/// Law: a bare `usize` or `isize` fails dispatch instead of being coerced
/// into another scalar.
pub proof fn lemma_dispatch_size_types(t: TypeExprV)
    requires
        t matches TypeExprV::Path { name, args } && (name == "usize"@ || name == "isize"@),
    ensures
        spec_switch(t) == None::<Behavior>,
{
    reveal_strlit("f32");
    reveal_strlit("f64");
    reveal_strlit("u8");
    reveal_strlit("u16");
    reveal_strlit("u32");
    reveal_strlit("u64");
    reveal_strlit("i8");
    reveal_strlit("i16");
    reveal_strlit("i32");
    reveal_strlit("i64");
    reveal_strlit("Duration");
    reveal_strlit("Result");
    reveal_strlit("usize");
    reveal_strlit("isize");
    let name = t->name;
    assert(name.len() == 5);
    assert("Duration"@.len() == 8);
    assert("Result"@.len() == 6);
    assert(!is_scalar_name(name)) by {
        assert("f32"@.len() == 3 && "f64"@.len() == 3 && "u8"@.len() == 2 && "u16"@.len() == 3
            && "u32"@.len() == 3 && "u64"@.len() == 3 && "i8"@.len() == 2 && "i16"@.len() == 3
            && "i32"@.len() == 3 && "i64"@.len() == 3);
    }
}

/// Law: the behaviors claim disjoint sets of type expressions, so the
/// first-match scan cannot silently resolve to a wrong variant.
pub proof fn lemma_behaviors_disjoint(b1: Behavior, b2: Behavior, t: TypeExprV)
    requires
        b1.spec_is(t),
        b2.spec_is(t),
    ensures
        b1 == b2,
{
    reveal_strlit("f32");
    reveal_strlit("f64");
    reveal_strlit("u8");
    reveal_strlit("u16");
    reveal_strlit("u32");
    reveal_strlit("u64");
    reveal_strlit("i8");
    reveal_strlit("i16");
    reveal_strlit("i32");
    reveal_strlit("i64");
    reveal_strlit("Duration");
    reveal_strlit("Result");
    assert("Duration"@.len() == 8);
    assert("Result"@.len() == 6);
    match t {
        TypeExprV::Path { name, args } => {
            if is_scalar_name(name) {
                assert(name.len() <= 3);
            }
        },
        TypeExprV::Other => {
        },
    }
}

/// Law: recognition is a pure function of the type expression alone — two
/// structurally equal expressions are claimed alike.
pub proof fn lemma_recognizes_pure(b: Behavior, t1: TypeExprV, t2: TypeExprV)
    requires
        t1 == t2,
    ensures
        b.spec_is(t1) == b.spec_is(t2),
{
}

/// Law: for every behavior with provided conversions and every expression it
/// claims, converting a value expression to the boundary form and back
/// composes to the identity for scalars, and to the exact millisecond
/// round-trip form for durations.
pub proof fn lemma_round_trip(b: Behavior, t: TypeExprV, x: Seq<char>)
    requires
        b.spec_is(t),
        b != Behavior::ResultShape,
    ensures
        spec_native_to_ffi(b, t, x) matches Ok(y) && spec_ffi_to_native(b, t, y) matches Ok(z) && (
        b == Behavior::Scalar ==> z == x) && (b == Behavior::Duration ==> z
            == "Duration(milliseconds: "@ + x + ".inMilliseconds"@ + ")"@),
{
    match b {
        Behavior::Scalar => {
        },
        Behavior::Duration => {
            let y = x + ".inMilliseconds"@;
            let z = "Duration(milliseconds: "@ + y + ")"@;
            assert(z =~= "Duration(milliseconds: "@ + x + ".inMilliseconds"@ + ")"@);
        },
        Behavior::ResultShape => {
        },
    }
}

} // verus!
