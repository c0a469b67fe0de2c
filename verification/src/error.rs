use vstd::prelude::*;

verus! {

/// Mathematical form of a generation error, used in contracts.
#[verifier::ext_equal]
pub enum ErrorV {
    /// The package manifest is missing or has no package section.
    ManifestMissing,
    /// A source file could not be read or parsed; carries the file path.
    SourceParse { path: Seq<Seq<char>> },
    /// Neither module layout convention resolved, or the current file has no
    /// parent directory; carries the path that failed to resolve.
    InvalidModulePath { path: Seq<Seq<char>> },
    /// Dispatch found no behavior claiming the type expression.
    UnrecognizedType,
    /// A recognized composition that has no canonical single name.
    UnsupportedShape,
    /// A behavior claims the type but its conversion logic is not provided.
    UnimplementedConversion,
    /// Descriptor extraction failed; carries the declaration's name.
    DescriptorExtraction { decl: Seq<char> },
}

/// A generation error. Every failure mode carries enough context (declaration
/// name, file path) for an actionable diagnostic, and failures abort the whole
/// build: there is no local recovery.
#[derive(Debug)]
pub enum Error {
    ManifestMissing,
    SourceParse { path: Vec<String> },
    InvalidModulePath { path: Vec<String> },
    UnrecognizedType,
    UnsupportedShape,
    UnimplementedConversion,
    DescriptorExtraction { decl: String },
}

impl View for Error {
    type V = ErrorV;

    open spec fn view(&self) -> ErrorV {
        match self {
            Error::ManifestMissing => ErrorV::ManifestMissing,
            Error::SourceParse { path } => ErrorV::SourceParse { path: path.deep_view() },
            Error::InvalidModulePath { path } => ErrorV::InvalidModulePath {
                path: path.deep_view(),
            },
            Error::UnrecognizedType => ErrorV::UnrecognizedType,
            Error::UnsupportedShape => ErrorV::UnsupportedShape,
            Error::UnimplementedConversion => ErrorV::UnimplementedConversion,
            Error::DescriptorExtraction { decl } => ErrorV::DescriptorExtraction { decl: decl@ },
        }
    }
}

} // verus!
