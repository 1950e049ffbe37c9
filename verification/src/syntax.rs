//! The parts of a structure definition that the generator reads.
//!
//! Identifiers, paths and literals are held as the text they have in the
//! source.

use vstd::prelude::*;

verus! {

/// A literal, as written.
#[derive(Debug)]
pub enum Lit {
    /// A string literal, like `"PORT"`, with its quotes.
    Str(String),
    /// A literal of another kind, like `8080` or `b"PORT"`.
    Other(String),
}

/// A name/value pair, like `from = "PORT"`.
#[derive(Debug)]
pub struct MetaNameValue {
    /// The name before the `=`.
    pub ident: String,
    /// The literal after the `=`.
    pub lit: Lit,
}

/// A list, like `envconfig(from = "PORT")`.
#[derive(Debug)]
pub struct MetaList {
    /// The name before the parentheses.
    pub ident: String,
    /// The entries between the parentheses, in order.
    pub nested: Vec<NestedMeta>,
}

/// The content of an attribute, where it has one of the three structured forms.
#[derive(Debug)]
pub enum Meta {
    /// A bare name, like `envconfig`.
    Word(String),
    /// A list, like `envconfig(from = "PORT")`.
    List(MetaList),
    /// A name/value pair, like `envconfig = "PORT"`.
    NameValue(MetaNameValue),
}

/// One entry of a list.
#[derive(Debug)]
pub enum NestedMeta {
    /// A structured entry, like the `from = "PORT"` in `envconfig(from = "PORT")`.
    Meta(Meta),
    /// A bare literal, like the `"PORT"` in `envconfig("PORT")`.
    Literal(Lit),
}

/// An attribute, like `#[envconfig(from = "PORT")]`.
#[derive(Debug)]
pub struct Attribute {
    /// The path after `#[`, as written.
    pub path: String,
    /// The attribute's content, or `None` where it has none of the
    /// structured forms.
    pub meta: Option<Meta>,
}

/// A named field of a structure.
#[derive(Debug)]
pub struct Field {
    /// The field's name.
    pub ident: String,
    /// The attributes on the field, in order.
    pub attrs: Vec<Attribute>,
}

/// The fields of a structure.
#[derive(Debug)]
pub enum Fields {
    /// Named fields, like `{ port: u16 }`, in declaration order.
    Named(Vec<Field>),
    /// Unnamed fields, like `(u16)`.
    Unnamed,
    /// No fields at all, as in `struct Marker;`.
    Unit,
}

/// What kind of item a definition is.
#[derive(Debug)]
pub enum Data {
    /// A structure, with its fields.
    Struct(Fields),
    /// An enumeration.
    Enum,
    /// A union.
    Union,
}

/// The definition that initialisation code is asked for.
#[derive(Debug)]
pub struct DeriveInput {
    /// The attributes on the item itself, in order.
    pub attrs: Vec<Attribute>,
    /// The item's name.
    pub ident: String,
    /// The item's kind and content.
    pub data: Data,
}

} // verus!
