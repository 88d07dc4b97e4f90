use vstd::prelude::*;
use vstd::string::*;
use crate::text::{indent_all, indented_all, join, join_strings, texts_of};

verus! {

/// A stretch of source text, from the byte at `start` up to the byte at `end`.
#[derive(Clone, Copy, Debug, PartialEq, Eq, Structural)]
pub struct Span {
    pub start: u32,
    pub end: u32,
}

/// A single trait bound, such as `TraitX` or `TraitY<U, V>`.
///
/// Names and types are held as their source text.
#[derive(Clone, Debug, PartialEq, Eq)]
pub struct TraitBound {
    pub trait_name: String,
    pub trait_generics: Vec<String>,
}

impl TraitBound {
    /// The bound as source text: the trait's name, followed by its generic
    /// arguments in angle brackets where it has any.
    pub open spec fn spec_text(&self) -> Seq<char> {
        if self.trait_generics@.len() > 0 {
            self.trait_name@ + "<"@ + join(texts_of(self.trait_generics@), ", "@) + ">"@
        } else {
            self.trait_name@
        }
    }

    /// Renders the bound as source text.
    pub fn to_text(&self) -> (out: String)
        ensures
            out@ == self.spec_text(),
    {
        let mut out = self.trait_name.clone();
        if self.trait_generics.len() > 0 {
            let generics = join_strings(&self.trait_generics, ", ");
            out.append("<");
            out.append(generics.as_str());
            out.append(">");
        }
        out
    }
}

/// A simple trait constraint such as `where Foo: TraitY<U, V>`.
///
/// A compound constraint (`Foo: Display + TraitX`) is held as one simple
/// constraint per bound.
#[derive(Clone, Debug, PartialEq, Eq)]
pub struct TraitConstraint {
    pub typ: String,
    pub trait_bound: TraitBound,
}

impl TraitConstraint {
    /// The constraint as source text: the type, a colon, the bound.
    pub open spec fn spec_text(&self) -> Seq<char> {
        self.typ@ + ": "@ + self.trait_bound.spec_text()
    }

    /// Renders the constraint as source text.
    pub fn to_text(&self) -> (out: String)
        ensures
            out@ == self.spec_text(),
    {
        let mut out = self.typ.clone();
        let bound = self.trait_bound.to_text();
        out.append(": ");
        out.append(bound.as_str());
        out
    }
}

/// The source text of each constraint of a `where` clause, in order.
pub open spec fn constraint_texts(constraints: Seq<TraitConstraint>) -> Seq<Seq<char>> {
    Seq::new(constraints.len(), |i: int| constraints[i].spec_text())
}

/// The text `name: type` of each parameter, in order.
pub open spec fn parameter_texts(parameters: Seq<(String, String)>) -> Seq<Seq<char>> {
    Seq::new(parameters.len(), |i: int| parameters[i].0@ + ": "@ + parameters[i].1@)
}

/// Renders each constraint of a `where` clause.
pub fn render_constraints(constraints: &Vec<TraitConstraint>) -> (out: Vec<String>)
    ensures
        texts_of(out@) == constraint_texts(constraints@),
{
    let mut out: Vec<String> = Vec::new();
    let mut i: usize = 0;
    while i < constraints.len()
        invariant
            i <= constraints.len(),
            out@.len() == i,
            forall|j: int| 0 <= j < i ==> out@[j]@ == #[trigger] constraints@[j].spec_text(),
        decreases constraints.len() - i,
    {
        out.push(constraints[i].to_text());
        i = i + 1;
    }
    proof {
        assert(texts_of(out@) =~= constraint_texts(constraints@));
    }
    out
}

/// Renders each parameter as `name: type`.
pub fn render_parameters(parameters: &Vec<(String, String)>) -> (out: Vec<String>)
    ensures
        texts_of(out@) == parameter_texts(parameters@),
{
    let mut out: Vec<String> = Vec::new();
    let mut i: usize = 0;
    while i < parameters.len()
        invariant
            i <= parameters.len(),
            out@.len() == i,
            forall|j: int|
                0 <= j < i ==> out@[j]@ == (#[trigger] parameters@[j]).0@ + ": "@ + parameters@[j].1@,
        decreases parameters.len() - i,
    {
        let mut text = parameters[i].0.clone();
        text.append(": ");
        text.append(parameters[i].1.as_str());
        out.push(text);
        i = i + 1;
    }
    proof {
        assert(texts_of(out@) =~= parameter_texts(parameters@));
    }
    out
}

/// A declaration inside the body of a trait, which an implementation of the
/// trait has to supply.
#[derive(Clone, Debug)]
pub enum TraitItem {
    Function {
        name: String,
        generics: Vec<String>,
        parameters: Vec<(String, String)>,
        return_type: String,
        where_clause: Vec<TraitConstraint>,
        body: Option<String>,
    },
    Constant { name: String, typ: String, default_value: Option<String> },
    Type { name: String },
}

impl TraitItem {
    /// The item as source text.
    ///
    /// A function is its header followed by its body, or by a semicolon where
    /// it has none; a constant is `let name: type` followed by its default
    /// value, where it has one, and a semicolon; a type is `type name;`.
    pub open spec fn spec_text(&self) -> Seq<char> {
        match self {
            TraitItem::Function { name, generics, parameters, return_type, where_clause, body } => {
                let header = "fn "@ + name@ + "<"@ + join(texts_of(generics@), ", "@) + ">("@ + join(
                    parameter_texts(parameters@),
                    ", "@,
                ) + ") -> "@ + return_type@ + " where "@ + join(
                    constraint_texts(where_clause@),
                    ", "@,
                );
                match body {
                    Some(block) => header + block@,
                    None => header + ";"@,
                }
            },
            TraitItem::Constant { name, typ, default_value } => {
                let header = "let "@ + name@ + ": "@ + typ@;
                match default_value {
                    Some(value) => header + value@ + ";"@,
                    None => header + ";"@,
                }
            },
            TraitItem::Type { name } => "type "@ + name@ + ";"@,
        }
    }

    /// Renders the item as source text.
    pub fn to_text(&self) -> (out: String)
        ensures
            out@ == self.spec_text(),
    {
        match self {
            TraitItem::Function { name, generics, parameters, return_type, where_clause, body } => {
                let generics = join_strings(generics, ", ");
                let parameters = join_strings(&render_parameters(parameters), ", ");
                let where_clause = join_strings(&render_constraints(where_clause), ", ");
                let mut out = String::from_str("fn ");
                out.append(name.as_str());
                out.append("<");
                out.append(generics.as_str());
                out.append(">(");
                out.append(parameters.as_str());
                out.append(") -> ");
                out.append(return_type.as_str());
                out.append(" where ");
                out.append(where_clause.as_str());
                match body {
                    Some(block) => out.append(block.as_str()),
                    None => out.append(";"),
                }
                out
            },
            TraitItem::Constant { name, typ, default_value } => {
                let mut out = String::from_str("let ");
                out.append(name.as_str());
                out.append(": ");
                out.append(typ.as_str());
                match default_value {
                    Some(value) => {
                        out.append(value.as_str());
                        out.append(";");
                    },
                    None => out.append(";"),
                }
                out
            },
            TraitItem::Type { name } => {
                let mut out = String::from_str("type ");
                out.append(name.as_str());
                out.append(";");
                out
            },
        }
    }
}

/// An item inside the body of an implementation of a trait.
#[derive(Clone, Debug)]
pub enum TraitImplItem {
    /// A function, held as its source text.
    Function(String),
    /// A constant: its name, its type and its value.
    Constant(String, String, String),
    Type { name: String, alias: String },
}

impl TraitImplItem {
    /// The item as source text: a function as it stands, a type as
    /// `type name = alias;`, a constant as `let name: type = value;`.
    pub open spec fn spec_text(&self) -> Seq<char> {
        match self {
            TraitImplItem::Function(function) => function@,
            TraitImplItem::Type { name, alias } => "type "@ + name@ + " = "@ + alias@ + ";"@,
            TraitImplItem::Constant(name, typ, value) => "let "@ + name@ + ": "@ + typ@ + " = "@
                + value@ + ";"@,
        }
    }

    /// Renders the item as source text.
    pub fn to_text(&self) -> (out: String)
        ensures
            out@ == self.spec_text(),
    {
        match self {
            TraitImplItem::Function(function) => function.clone(),
            TraitImplItem::Type { name, alias } => {
                let mut out = String::from_str("type ");
                out.append(name.as_str());
                out.append(" = ");
                out.append(alias.as_str());
                out.append(";");
                out
            },
            TraitImplItem::Constant(name, typ, value) => {
                let mut out = String::from_str("let ");
                out.append(name.as_str());
                out.append(": ");
                out.append(typ.as_str());
                out.append(" = ");
                out.append(value.as_str());
                out.append(";");
                out
            },
        }
    }
}

/// The source text of each item of a trait, in order.
pub open spec fn item_texts(items: Seq<TraitItem>) -> Seq<Seq<char>> {
    Seq::new(items.len(), |i: int| items[i].spec_text())
}

/// The source text of each item of an implementation, in order.
pub open spec fn impl_item_texts(items: Seq<TraitImplItem>) -> Seq<Seq<char>> {
    Seq::new(items.len(), |i: int| items[i].spec_text())
}

/// Renders each item of a trait.
pub fn render_items(items: &Vec<TraitItem>) -> (out: Vec<String>)
    ensures
        texts_of(out@) == item_texts(items@),
{
    let mut out: Vec<String> = Vec::new();
    let mut i: usize = 0;
    while i < items.len()
        invariant
            i <= items.len(),
            out@.len() == i,
            forall|j: int| 0 <= j < i ==> out@[j]@ == #[trigger] items@[j].spec_text(),
        decreases items.len() - i,
    {
        out.push(items[i].to_text());
        i = i + 1;
    }
    proof {
        assert(texts_of(out@) =~= item_texts(items@));
    }
    out
}

/// Renders each item of an implementation.
pub fn render_impl_items(items: &Vec<TraitImplItem>) -> (out: Vec<String>)
    ensures
        texts_of(out@) == impl_item_texts(items@),
{
    let mut out: Vec<String> = Vec::new();
    let mut i: usize = 0;
    while i < items.len()
        invariant
            i <= items.len(),
            out@.len() == i,
            forall|j: int| 0 <= j < i ==> out@[j]@ == #[trigger] items@[j].spec_text(),
        decreases items.len() - i,
    {
        out.push(items[i].to_text());
        i = i + 1;
    }
    proof {
        assert(texts_of(out@) =~= impl_item_texts(items@));
    }
    out
}

/// A trait definition: `trait name<generics> { ... items ... }`.
#[derive(Clone, Debug)]
pub struct NoirTrait {
    pub name: String,
    pub generics: Vec<String>,
    pub where_clause: Vec<TraitConstraint>,
    pub span: Span,
    pub items: Vec<TraitItem>,
}

impl NoirTrait {
    /// The definition as source text: the header with the generics right
    /// behind the name, each item indented on lines of its own, and the
    /// closing brace.
    pub open spec fn spec_text(&self) -> Seq<char> {
        "trait "@ + self.name@ + join(texts_of(self.generics@), ", "@) + " {\n"@ + indented_all(
            item_texts(self.items@),
        ) + "}"@
    }

    /// Renders the definition as source text.
    pub fn to_text(&self) -> (out: String)
        ensures
            out@ == self.spec_text(),
    {
        let generics = join_strings(&self.generics, ", ");
        let body = indent_all(&render_items(&self.items));
        let mut out = String::from_str("trait ");
        out.append(self.name.as_str());
        out.append(generics.as_str());
        out.append(" {\n");
        out.append(body.as_str());
        out.append("}");
        out
    }
}

/// An implementation for a concrete type:
/// `impl object_type<generics> { ... methods ... }`.
///
/// Each method is held as its source text.
#[derive(Clone, Debug)]
pub struct TypeImpl {
    pub object_type: String,
    pub type_span: Span,
    pub generics: Vec<String>,
    pub methods: Vec<String>,
}

impl TypeImpl {
    /// The implementation as source text: `impl`, the generics, the type,
    /// each method indented on lines of its own, and the closing brace.
    pub open spec fn spec_text(&self) -> Seq<char> {
        "impl"@ + join(texts_of(self.generics@), ", "@) + " "@ + self.object_type@ + " {\n"@
            + indented_all(texts_of(self.methods@)) + "}"@
    }

    /// Renders the implementation as source text.
    pub fn to_text(&self) -> (out: String)
        ensures
            out@ == self.spec_text(),
    {
        let generics = join_strings(&self.generics, ", ");
        let body = indent_all(&self.methods);
        let mut out = String::from_str("impl");
        out.append(generics.as_str());
        out.append(" ");
        out.append(self.object_type.as_str());
        out.append(" {\n");
        out.append(body.as_str());
        out.append("}");
        out
    }
}

/// An implementation of a trait for a type:
/// `impl trait_name<trait_generics> for object_type where where_clauses { ... items ... }`.
#[derive(Clone, Debug)]
pub struct TraitImpl {
    pub impl_generics: Vec<String>,
    pub trait_name: String,
    pub trait_generics: Vec<String>,
    pub object_type: String,
    pub object_type_span: Span,
    pub where_clause: Vec<TraitConstraint>,
    pub items: Vec<TraitImplItem>,
}

impl TraitImpl {
    /// The implementation as source text: the header with the trait's
    /// generic arguments in angle brackets, each item indented on lines of
    /// its own, and the closing brace.
    pub open spec fn spec_text(&self) -> Seq<char> {
        "impl "@ + self.trait_name@ + "<"@ + join(texts_of(self.trait_generics@), ", "@)
            + "> for "@ + self.object_type@ + " {\n"@ + indented_all(
            impl_item_texts(self.items@),
        ) + "}"@
    }

    /// Renders the implementation as source text.
    pub fn to_text(&self) -> (out: String)
        ensures
            out@ == self.spec_text(),
    {
        let generics = join_strings(&self.trait_generics, ", ");
        let body = indent_all(&render_impl_items(&self.items));
        let mut out = String::from_str("impl ");
        out.append(self.trait_name.as_str());
        out.append("<");
        out.append(generics.as_str());
        out.append("> for ");
        out.append(self.object_type.as_str());
        out.append(" {\n");
        out.append(body.as_str());
        out.append("}");
        out
    }
}

} // verus!
