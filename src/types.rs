use vstd::prelude::*;


use crate::value::same_text;

verus! {

/// The three ways generation can fail.
#[derive(Clone, Copy, PartialEq, Eq, Structural, Debug)]
pub enum ErrorKind {
    /// A required structural field is missing or malformed.
    Schema,
    /// A type and format combination, or a type name, is not recognized.
    Type,
    /// A verb outside the fixed set.
    Method,
}

/// A generation failure: its kind and what it concerns.
pub struct GenError {
    pub kind: ErrorKind,
    pub detail: String,
}

/// The mathematical form of an error: its kind and its detail.
pub type ErrorModel = (ErrorKind, Seq<char>);

impl View for GenError {
    type V = ErrorModel;

    open spec fn view(&self) -> ErrorModel {
        (self.kind, self.detail@)
    }
}

impl GenError {
    pub fn new(kind: ErrorKind, detail: &str) -> (r: GenError)
        ensures
            r.kind == kind,
            r.detail@ == detail@,
    {
        GenError { kind, detail: detail.to_owned() }
    }
}

/// The mathematical form of a target type.
pub enum Ty {
    Int32,
    Int64,
    Float32,
    Float64,
    Text,
    Base64,
    Bytes,
    Date,
    DateTime,
    Bool,
    /// A component type, by name.
    Component(Seq<char>),
    /// A sequence of the inner type.
    Sequence(Box<Ty>),
    /// The inner type or nothing.
    Optional(Box<Ty>),
    /// The generated object type at this index of the registry.
    Object(nat),
}

/// A target type.
pub enum TypeRef {
    Int32,
    Int64,
    Float32,
    Float64,
    Text,
    Base64,
    Bytes,
    Date,
    DateTime,
    Bool,
    Component(String),
    Sequence(Box<TypeRef>),
    Optional(Box<TypeRef>),
    Object(usize),
}

pub open spec fn ty_of(t: TypeRef) -> Ty
    decreases t,
{
    match t {
        TypeRef::Int32 => Ty::Int32,
        TypeRef::Int64 => Ty::Int64,
        TypeRef::Float32 => Ty::Float32,
        TypeRef::Float64 => Ty::Float64,
        TypeRef::Text => Ty::Text,
        TypeRef::Base64 => Ty::Base64,
        TypeRef::Bytes => Ty::Bytes,
        TypeRef::Date => Ty::Date,
        TypeRef::DateTime => Ty::DateTime,
        TypeRef::Bool => Ty::Bool,
        TypeRef::Component(n) => Ty::Component(n@),
        TypeRef::Sequence(inner) => Ty::Sequence(Box::new(ty_of(*inner))),
        TypeRef::Optional(inner) => Ty::Optional(Box::new(ty_of(*inner))),
        TypeRef::Object(i) => Ty::Object(i as nat),
    }
}

impl View for TypeRef {
    type V = Ty;

    open spec fn view(&self) -> Ty {
        ty_of(*self)
    }
}

/// Whether two target types are the same.
pub fn same_type(a: &TypeRef, b: &TypeRef) -> (r: bool)
    ensures
        r == (a@ == b@),
    decreases a,
{
    match (a, b) {
        (TypeRef::Int32, TypeRef::Int32) => true,
        (TypeRef::Int64, TypeRef::Int64) => true,
        (TypeRef::Float32, TypeRef::Float32) => true,
        (TypeRef::Float64, TypeRef::Float64) => true,
        (TypeRef::Text, TypeRef::Text) => true,
        (TypeRef::Base64, TypeRef::Base64) => true,
        (TypeRef::Bytes, TypeRef::Bytes) => true,
        (TypeRef::Date, TypeRef::Date) => true,
        (TypeRef::DateTime, TypeRef::DateTime) => true,
        (TypeRef::Bool, TypeRef::Bool) => true,
        (TypeRef::Component(x), TypeRef::Component(y)) => same_text(x.as_str(), y.as_str()),
        (TypeRef::Sequence(x), TypeRef::Sequence(y)) => same_type(x, y),
        (TypeRef::Optional(x), TypeRef::Optional(y)) => same_type(x, y),
        (TypeRef::Object(x), TypeRef::Object(y)) => *x == *y,
        _ => false,
    }
}

/// A field as the shape of an object sees it: wire name, field name, type.
pub type FieldModel = (Seq<char>, Seq<char>, Ty);

/// The ordered fields of an object type.
pub type Shape = Seq<FieldModel>;

/// One field of a generated type.
pub struct Field {
    /// The name as it stands in the document.
    pub wire_name: String,
    /// The idiomatic field name derived from it.
    pub field_name: String,
    pub ty: TypeRef,
}

impl View for Field {
    type V = FieldModel;

    open spec fn view(&self) -> FieldModel {
        (self.wire_name@, self.field_name@, self.ty@)
    }
}

pub open spec fn fields_view(fields: Seq<Field>) -> Shape {
    fields.map_values(|f: Field| f@)
}

/// A generated object type.
pub struct ObjectDef {
    pub fields: Vec<Field>,
}

impl View for ObjectDef {
    type V = Shape;

    open spec fn view(&self) -> Shape {
        fields_view(self.fields@)
    }
}

/// The generated object types of one run, each shape once.
pub struct Registry {
    pub defs: Vec<ObjectDef>,
}

impl View for Registry {
    type V = Seq<Shape>;

    open spec fn view(&self) -> Seq<Shape> {
        self.defs@.map_values(|d: ObjectDef| d@)
    }
}

/// No shape stands twice in the registry.
pub open spec fn registry_wf(reg: Seq<Shape>) -> bool {
    forall|i: int, j: int| 0 <= i < j < reg.len() ==> reg[i] != reg[j]
}

/// The first index at or after `i` that holds `shape`.
pub open spec fn shape_index(reg: Seq<Shape>, shape: Shape, i: int) -> Option<nat>
    decreases reg.len() - i,
{
    if i < 0 || i >= reg.len() {
        None
    } else if reg[i] == shape {
        Some(i as nat)
    } else {
        shape_index(reg, shape, i + 1)
    }
}

/// The type of `shape` in the registry, added at the end when it is new.
pub open spec fn register(reg: Seq<Shape>, shape: Shape) -> (nat, Seq<Shape>) {
    match shape_index(reg, shape, 0) {
        Some(i) => (i, reg),
        None => (reg.len(), reg.push(shape)),
    }
}

/// The inference result: the type and the object types it needs, innermost first.
pub struct TypeRepr {
    pub type_ref: TypeRef,
    pub supplementary: Vec<usize>,
}

pub open spec fn ids_view(ids: Seq<usize>) -> Seq<nat> {
    ids.map_values(|i: usize| i as nat)
}

} // verus!
