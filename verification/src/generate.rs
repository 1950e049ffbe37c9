//! Writing the initialisation code of a structure from its annotated fields.
//!
//! Every field of the structure carries the attribute
//! `#[envconfig(from = "NAME")]`, which names the environment variable the
//! field is loaded from. The generator reads the fields in declaration order
//! and writes an implementation of `Envconfig` that loads them in that order.
//! A field whose annotation is absent or malformed stops the generation: no
//! code is written for a structure with such a field.

use crate::syntax::{Attribute, Data, DeriveInput, Field, Fields, Lit, Meta, NestedMeta};
use crate::text::same_text;
use vstd::prelude::*;
use vstd::string::StringExecFns;

verus! {

/// Why an item cannot be given initialisation code at all.
#[derive(Debug, Clone, Copy, PartialEq, Eq, Structural)]
pub enum ShapeProblem {
    /// The item is an enumeration or a union.
    NotAStruct,
    /// The item is a structure without named fields.
    UnnamedFields,
}

/// What is wrong with the annotation of a field.
#[derive(Debug, Clone, Copy, PartialEq, Eq, Structural)]
pub enum FieldProblem {
    /// The field has no `envconfig` attribute.
    MissingAttribute,
    /// The attribute's content has none of the structured forms.
    UninterpretableMeta,
    /// The attribute is not a parenthesised list.
    NotAList,
    /// An entry of the list is a structured entry other than a name/value pair.
    NotNameValue,
    /// An entry of the list is a bare literal.
    UnprocessableItem,
    /// Beside its `from`, the list has a name/value pair of another name.
    UnrecognizedKey,
    /// The value of a `from` entry is not a string literal.
    NotAString,
    /// None of the entries of the list is a name/value pair of the name `from`.
    MissingFrom,
}

/// Why no code was generated.
#[derive(Debug, PartialEq, Eq)]
pub enum GenError {
    /// The item has the wrong shape.
    Shape(ShapeProblem),
    /// The annotation of the field named `field` is absent or malformed.
    Field { field: String, problem: FieldProblem },
}

/// The first of `attrs`, in order, whose path is `envconfig`.
pub open spec fn annotation(attrs: Seq<Attribute>) -> Option<Attribute>
    decreases attrs.len(),
{
    if attrs.len() == 0 {
        None
    } else if attrs[0].path@ == "envconfig"@ {
        Some(attrs[0])
    } else {
        annotation(attrs.drop_first())
    }
}

/// What is wrong with the form of an entry of the annotation's list: nothing,
/// where the entry is a name/value pair.
pub open spec fn form_problem(entry: NestedMeta) -> Option<FieldProblem> {
    match entry {
        NestedMeta::Literal(_) => Some(FieldProblem::UnprocessableItem),
        NestedMeta::Meta(Meta::NameValue(_)) => None,
        NestedMeta::Meta(_) => Some(FieldProblem::NotNameValue),
    }
}

/// Whether an entry is a name/value pair of the name `from`.
pub open spec fn is_from(entry: NestedMeta) -> bool {
    entry matches NestedMeta::Meta(Meta::NameValue(pair)) && pair.ident@ == "from"@
}

/// What is wrong with a name/value pair: nothing, where its name is `from`
/// and its value a string literal. An entry of another form has no problem
/// of this kind.
pub open spec fn pair_problem(entry: NestedMeta) -> Option<FieldProblem> {
    match entry {
        NestedMeta::Meta(Meta::NameValue(pair)) => if pair.ident@ != "from"@ {
            Some(FieldProblem::UnrecognizedKey)
        } else if pair.lit is Str {
            None
        } else {
            Some(FieldProblem::NotAString)
        },
        _ => None,
    }
}

/// The problem of form of the first entry, in order, that has one.
pub open spec fn first_form_problem(nested: Seq<NestedMeta>) -> Option<FieldProblem>
    decreases nested.len(),
{
    if nested.len() == 0 {
        None
    } else {
        match form_problem(nested[0]) {
            Some(problem) => Some(problem),
            None => first_form_problem(nested.drop_first()),
        }
    }
}

/// The problem of the first name/value pair, in order, that has one.
pub open spec fn first_pair_problem(nested: Seq<NestedMeta>) -> Option<FieldProblem>
    decreases nested.len(),
{
    if nested.len() == 0 {
        None
    } else {
        match pair_problem(nested[0]) {
            Some(problem) => Some(problem),
            None => first_pair_problem(nested.drop_first()),
        }
    }
}

/// Whether one of the entries is a name/value pair of the name `from`.
pub open spec fn has_from(nested: Seq<NestedMeta>) -> bool {
    exists|i: int| 0 <= i < nested.len() && is_from(#[trigger] nested[i])
}

/// The string literal of a name/value entry, as written.
pub open spec fn entry_literal(entry: NestedMeta) -> Seq<char> {
    match entry {
        NestedMeta::Meta(Meta::NameValue(pair)) => match pair.lit {
            Lit::Str(text) => text@,
            Lit::Other(_) => Seq::empty(),
        },
        _ => Seq::empty(),
    }
}

/// The literal that the entries of an annotation's list give for `from`, or
/// what is wrong with the list.
///
/// An entry that is no name/value pair comes first, wherever it stands in the
/// list. A list of pairs without a `from` among them lacks its `from`. Where
/// there is one, a pair of another name, or a `from` whose value is no string
/// literal, is a problem wherever it stands. In a list without any problem
/// every entry is a `from` pair, and the first one counts.
pub open spec fn from_literal(nested: Seq<NestedMeta>) -> Result<Seq<char>, FieldProblem> {
    match first_form_problem(nested) {
        Some(problem) => Err(problem),
        None => if !has_from(nested) {
            Err(FieldProblem::MissingFrom)
        } else {
            match first_pair_problem(nested) {
                Some(problem) => Err(problem),
                None => Ok(entry_literal(nested[0])),
            }
        },
    }
}

/// The literal that names the variable of `field`, as written in the field's
/// annotation, or what is wrong with the annotation.
pub open spec fn source_of(field: Field) -> Result<Seq<char>, FieldProblem> {
    match annotation(field.attrs@) {
        None => Err(FieldProblem::MissingAttribute),
        Some(attr) => match attr.meta {
            None => Err(FieldProblem::UninterpretableMeta),
            Some(Meta::List(list)) => from_literal(list.nested@),
            Some(_) => Err(FieldProblem::NotAList),
        },
    }
}

/// Whether `e` reports what is wrong with the annotation of `field`.
pub open spec fn rejects(field: Field, e: GenError) -> bool {
    &&& e matches GenError::Field { field: name, problem }
    &&& name@ == field.ident@
    &&& source_of(field) == Err::<Seq<char>, FieldProblem>(problem)
}

/// The line that loads the field `ident` from the variable that `lit` names.
pub open spec fn initializer(ident: Seq<char>, lit: Seq<char>) -> Seq<char> {
    "            "@ + ident + ": ::envconfig::load_var("@ + lit + ", env)?,\n"@
}

/// The lines that load `fields`, in declaration order.
pub open spec fn initializers(fields: Seq<Field>) -> Seq<char>
    decreases fields.len(),
{
    if fields.len() == 0 {
        Seq::empty()
    } else {
        initializers(fields.drop_last()) + initializer(
            fields.last().ident@,
            source_of(fields.last())->Ok_0,
        )
    }
}

/// The implementation of `Envconfig` for the structure `name` with `fields`.
pub open spec fn impl_text(name: Seq<char>, fields: Seq<Field>) -> Seq<char> {
    "impl Envconfig for "@ + name + " {\n"@
        + "    fn init(env: &::envconfig::Environment) -> Result<Self, ::envconfig::Error> {\n"@
        + "        let config = Self {\n"@ + initializers(fields) + "        };\n"@
        + "        Ok(config)\n"@ + "    }\n"@ + "}\n"@
}

/// Whether `r` is what generating for the structure `name` with `fields`
/// gives: the code, where every field has a well-formed annotation, and else
/// the report on the first field, in declaration order, that has none.
pub open spec fn generates(name: Seq<char>, fields: Seq<Field>, r: Result<String, GenError>) -> bool {
    match r {
        Ok(text) => {
            &&& forall|i: int| 0 <= i < fields.len() ==> source_of(#[trigger] fields[i]) is Ok
            &&& text@ == impl_text(name, fields)
        },
        Err(e) => exists|i: int|
            {
                &&& 0 <= i < fields.len()
                &&& #[trigger] rejects(fields[i], e)
                &&& forall|j: int| 0 <= j < i ==> source_of(#[trigger] fields[j]) is Ok
            },
    }
}

impl GenError {
    /// What the message says.
    pub open spec fn message_text(self) -> Seq<char> {
        match self {
            GenError::Shape(ShapeProblem::NotAStruct) => "envconfig only supports non-tuple structs"@,
            GenError::Shape(ShapeProblem::UnnamedFields) => "envconfig supports only named fields"@,
            GenError::Field { field, problem } => match problem {
                FieldProblem::MissingAttribute => "Can not find attribute `envconfig` on field `"@
                    + field@ + "`"@,
                FieldProblem::UninterpretableMeta => "Can not interpret meta of `envconfig` attribute on field `"@
                    + field@ + "`"@,
                FieldProblem::NotAList => "`envconfig` attribute on field `"@ + field@
                    + "` must contain a list"@,
                FieldProblem::NotNameValue => "`envconfig` attribute on field `"@ + field@
                    + "` must contain name/value item"@,
                FieldProblem::UnprocessableItem => "Failed to process `envconfig` attribute on field `"@
                    + field@ + "`"@,
                FieldProblem::UnrecognizedKey => "`envconfig` attribute on field `"@ + field@
                    + "` must contain only `from` item"@,
                FieldProblem::NotAString => "`envconfig` attribute on field `"@ + field@
                    + "` must contain string literal in `from` item"@,
                FieldProblem::MissingFrom => "`envconfig` attribute on field `"@ + field@
                    + "` must contain `from` item"@,
            },
        }
    }

    /// The message for the person who wrote the structure: it names the field
    /// and says what is wrong with its annotation.
    pub fn message(&self) -> (text: String)
        ensures
            text@ == self.message_text(),
    {
        match self {
            GenError::Shape(ShapeProblem::NotAStruct) => String::from_str(
                "envconfig only supports non-tuple structs",
            ),
            GenError::Shape(ShapeProblem::UnnamedFields) => String::from_str(
                "envconfig supports only named fields",
            ),
            GenError::Field { field, problem } => {
                let (before, after) = match problem {
                    FieldProblem::MissingAttribute => (
                        "Can not find attribute `envconfig` on field `",
                        "`",
                    ),
                    FieldProblem::UninterpretableMeta => (
                        "Can not interpret meta of `envconfig` attribute on field `",
                        "`",
                    ),
                    FieldProblem::NotAList => (
                        "`envconfig` attribute on field `",
                        "` must contain a list",
                    ),
                    FieldProblem::NotNameValue => (
                        "`envconfig` attribute on field `",
                        "` must contain name/value item",
                    ),
                    FieldProblem::UnprocessableItem => (
                        "Failed to process `envconfig` attribute on field `",
                        "`",
                    ),
                    FieldProblem::UnrecognizedKey => (
                        "`envconfig` attribute on field `",
                        "` must contain only `from` item",
                    ),
                    FieldProblem::NotAString => (
                        "`envconfig` attribute on field `",
                        "` must contain string literal in `from` item",
                    ),
                    FieldProblem::MissingFrom => (
                        "`envconfig` attribute on field `",
                        "` must contain `from` item",
                    ),
                };
                let mut text = String::from_str(before);
                text.append(field.as_str());
                text.append(after);
                text
            },
        }
    }
}

/// Finds the annotation among the attributes of a field.
pub fn find_annotation(attrs: &Vec<Attribute>) -> (found: Option<&Attribute>)
    ensures
        match found {
            Some(attr) => annotation(attrs@) == Some(*attr),
            None => annotation(attrs@) is None,
        },
{
    let mut i: usize = 0;
    assert(attrs@.skip(0) =~= attrs@);
    while i < attrs.len()
        invariant
            i <= attrs.len(),
            annotation(attrs@) == annotation(attrs@.skip(i as int)),
        decreases attrs.len() - i,
    {
        if same_text(attrs[i].path.as_str(), "envconfig") {
            return Some(&attrs[i]);
        }
        assert(attrs@.skip(i as int).drop_first() =~= attrs@.skip(i + 1));
        i += 1;
    }
    None
}

/// Reads the entries of an annotation's list, all of them, and gives the
/// string literal of the first `from` entry.
pub fn read_entries(nested: &Vec<NestedMeta>) -> (r: Result<&String, FieldProblem>)
    ensures
        match r {
            Ok(lit) => from_literal(nested@) == Ok::<Seq<char>, FieldProblem>(lit@),
            Err(problem) => from_literal(nested@) == Err::<Seq<char>, FieldProblem>(problem),
        },
{
    let mut first: Option<&String> = None;
    let mut fault: Option<FieldProblem> = None;
    let mut seen_from = false;
    let mut i: usize = 0;
    assert(nested@.skip(0) =~= nested@);
    while i < nested.len()
        invariant
            i <= nested.len(),
            first_form_problem(nested@) == first_form_problem(nested@.skip(i as int)),
            first_pair_problem(nested@) == match fault {
                Some(problem) => Some(problem),
                None => first_pair_problem(nested@.skip(i as int)),
            },
            seen_from <==> exists|j: int| 0 <= j < i && is_from(#[trigger] nested@[j]),
            i == 0 ==> first is None,
            fault is None && i > 0 ==> first is Some && first->0@ == entry_literal(nested@[0]),
        decreases nested.len() - i,
    {
        match &nested[i] {
            NestedMeta::Literal(_) => {
                return Err(FieldProblem::UnprocessableItem);
            },
            NestedMeta::Meta(Meta::NameValue(pair)) => {
                if !same_text(pair.ident.as_str(), "from") {
                    if fault.is_none() {
                        fault = Some(FieldProblem::UnrecognizedKey);
                    }
                } else {
                    seen_from = true;
                    match &pair.lit {
                        Lit::Other(_) => {
                            if fault.is_none() {
                                fault = Some(FieldProblem::NotAString);
                            }
                        },
                        Lit::Str(lit) => {
                            if first.is_none() {
                                first = Some(lit);
                            }
                        },
                    }
                }
            },
            NestedMeta::Meta(_) => {
                return Err(FieldProblem::NotNameValue);
            },
        }
        assert(nested@.skip(i as int).drop_first() =~= nested@.skip(i + 1));
        i += 1;
    }
    match (seen_from, fault, first) {
        (true, None, Some(lit)) => Ok(lit),
        (true, Some(problem), _) => Err(problem),
        _ => Err(FieldProblem::MissingFrom),
    }
}

/// Reads the annotation of `field`.
pub fn read_source(field: &Field) -> (r: Result<&String, FieldProblem>)
    ensures
        match r {
            Ok(lit) => source_of(*field) == Ok::<Seq<char>, FieldProblem>(lit@),
            Err(problem) => source_of(*field) == Err::<Seq<char>, FieldProblem>(problem),
        },
{
    match find_annotation(&field.attrs) {
        None => Err(FieldProblem::MissingAttribute),
        Some(attr) => match &attr.meta {
            None => Err(FieldProblem::UninterpretableMeta),
            Some(Meta::List(list)) => read_entries(&list.nested),
            Some(_) => Err(FieldProblem::NotAList),
        },
    }
}

/// Writes the implementation of `Envconfig` for the structure `struct_name`
/// with the named fields `fields`. The attributes of the structure itself
/// have no part in it.
pub fn impl_envconfig_for_struct(
    struct_name: &str,
    fields: &Vec<Field>,
    _attrs: &Vec<Attribute>,
) -> (r: Result<String, GenError>)
    ensures
        generates(struct_name@, fields@, r),
{
    let mut body = String::new();
    let mut i: usize = 0;
    while i < fields.len()
        invariant
            i <= fields.len(),
            forall|j: int| 0 <= j < i ==> source_of(#[trigger] fields@[j]) is Ok,
            body@ == initializers(fields@.take(i as int)),
        decreases fields.len() - i,
    {
        let field = &fields[i];
        match read_source(field) {
            Err(problem) => {
                let e = GenError::Field { field: field.ident.clone(), problem };
                assert(rejects(fields@[i as int], e));
                return Err(e);
            },
            Ok(lit) => {
                body.append("            ");
                body.append(field.ident.as_str());
                body.append(": ::envconfig::load_var(");
                body.append(lit.as_str());
                body.append(", env)?,\n");
                assert(fields@.take(i + 1).drop_last() =~= fields@.take(i as int));
            },
        }
        i += 1;
    }
    assert(fields@.take(i as int) =~= fields@);
    let mut text = String::from_str("impl Envconfig for ");
    text.append(struct_name);
    text.append(" {\n");
    text.append("    fn init(env: &::envconfig::Environment) -> Result<Self, ::envconfig::Error> {\n");
    text.append("        let config = Self {\n");
    text.append(body.as_str());
    text.append("        };\n");
    text.append("        Ok(config)\n");
    text.append("    }\n");
    text.append("}\n");
    Ok(text)
}

/// Writes the implementation of `Envconfig` for the item `input`, which has
/// to be a structure with named fields.
pub fn impl_envconfig(input: &DeriveInput) -> (r: Result<String, GenError>)
    ensures
        match input.data {
            Data::Struct(Fields::Named(fields)) => generates(input.ident@, fields@, r),
            Data::Struct(_) => r matches Err(GenError::Shape(ShapeProblem::UnnamedFields)),
            _ => r matches Err(GenError::Shape(ShapeProblem::NotAStruct)),
        },
{
    match &input.data {
        Data::Struct(Fields::Named(fields)) => impl_envconfig_for_struct(
            input.ident.as_str(),
            fields,
            &input.attrs,
        ),
        Data::Struct(_) => Err(GenError::Shape(ShapeProblem::UnnamedFields)),
        _ => Err(GenError::Shape(ShapeProblem::NotAStruct)),
    }
}

} // verus!
