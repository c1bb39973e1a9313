//! Generates foreign-object binding declarations from annotated type
//! declarations and method collections.
//!
//! The library works on a neutral representation of the input declaration
//! ([`Item`]) and produces a declaration tree ([`Output`]) that an emission
//! layer turns into source text. Every step is verified: option resolution
//! against each declaration's schema, accessor and finality rules, name
//! translation, the rewrite rules on types, and the assembly of the
//! generated declarations.

pub mod accessor;
pub mod decl;
pub mod error;
pub mod laws;
pub mod model;
pub mod naming;
pub mod options;
pub mod syntax;
pub mod types;

pub use accessor::{apply_getter_rules, lemma_mode_only_adds, resolve_finality, GetterKind};
pub use decl::{
    ExternFn, ExternType, FieldDecls, ForwardCall, ImplDecls, Marker, MethodBody, MethodDecl,
    ModuleLoc, Output, StructDecls, ThisParam,
};
pub use error::ModelError;
pub use model::{wasm_bindgen_struct, Field, Impl, Method, Model, Struct};
pub use naming::{camel_case, lemma_camel_without_separator, str_eq, IdentExt};
pub use options::{
    resolve_options, take_opts_entries, Attr, FieldAttributes, ImplAttributes, MethodAttributes,
    OptEntry, OptKind, OptValue, OptionSpec, StructAttributes,
};
pub use syntax::{
    copy_lit, copy_ty, FnArg, GenericArgument, ImplItem, Item, ItemField, ItemFn, ItemImpl,
    ItemStruct, Lit, Pat, PathArguments, PathSegment, Receiver, Signature, Ty, TyPath,
};
pub use types::{is_result, is_self_ty, map_value_types};
pub use laws::{
    lemma_catch_iff_result, lemma_fieldless_declaration, lemma_map_value_split,
    lemma_plain_single_field, lemma_redirected_accessors,
};
