use vstd::prelude::*;

use crate::naming::{class_case, class_case_of, snake_case, snake_case_of};
use crate::types::{
    fields_view, ids_view, register, registry_wf, same_type, shape_index, ErrorKind, ErrorModel, Field, GenError,
    ObjectDef, Registry, Shape, Ty, TypeRef, TypeRepr,
};
use crate::value::{find_from, find_key, lookup, lookup_text, same_text, Value};

verus! {

/// The scalar type of a `type` and `format` pair.
pub open spec fn scalar_type(kind: Seq<char>, format: Option<Value>) -> Result<Ty, ErrorModel> {
    if kind == "integer"@ {
        if format_named(format, "int32"@) {
            Ok(Ty::Int32)
        } else if format_named(format, "int64"@) {
            Ok(Ty::Int64)
        } else {
            Err((ErrorKind::Type, "invalid format for `integer` type"@))
        }
    } else if kind == "number"@ {
        if format_named(format, "float"@) {
            Ok(Ty::Float32)
        } else if format_named(format, "double"@) {
            Ok(Ty::Float64)
        } else {
            Err((ErrorKind::Type, "invalid format for `number` type"@))
        }
    } else if kind == "string"@ {
        if format_named(format, "byte"@) {
            Ok(Ty::Base64)
        } else if format_named(format, "binary"@) {
            Ok(Ty::Bytes)
        } else if format_named(format, "date"@) {
            Ok(Ty::Date)
        } else if format_named(format, "date-time"@) {
            Ok(Ty::DateTime)
        } else {
            Ok(Ty::Text)
        }
    } else if kind == "boolean"@ {
        if format is None {
            Ok(Ty::Bool)
        } else {
            Err((ErrorKind::Type, "unexpected format for `boolean` type"@))
        }
    } else {
        Err((ErrorKind::Type, kind))
    }
}

/// Whether a format is given as the text `name`.
pub open spec fn format_named(format: Option<Value>, name: Seq<char>) -> bool {
    format matches Some(Value::Str(f)) && f@ == name
}

/// The value an optional reference points to.
pub open spec fn opt_value(o: Option<&Value>) -> Option<Value> {
    match o {
        Some(v) => Some(*v),
        None => None,
    }
}

fn format_is(format: Option<&Value>, name: &str) -> (r: bool)
    ensures
        r == format_named(opt_value(format), name@),
{
    match format {
        Some(Value::Str(f)) => same_text(f.as_str(), name),
        _ => false,
    }
}

/// Maps a scalar `type` and its optional `format` to a target type; a
/// `format` that is given but is no text matches no named format.
pub fn infer_scalar(kind: &str, format: Option<&Value>) -> (r: Result<TypeRef, GenError>)
    ensures
        match scalar_type(kind@, opt_value(format)) {
            Ok(t) => r matches Ok(x) && x@ == t,
            Err(k) => r matches Err(e) && e@ == k,
        },
{
    if same_text(kind, "integer") {
        if format_is(format, "int32") {
            Ok(TypeRef::Int32)
        } else if format_is(format, "int64") {
            Ok(TypeRef::Int64)
        } else {
            Err(GenError::new(ErrorKind::Type, "invalid format for `integer` type"))
        }
    } else if same_text(kind, "number") {
        if format_is(format, "float") {
            Ok(TypeRef::Float32)
        } else if format_is(format, "double") {
            Ok(TypeRef::Float64)
        } else {
            Err(GenError::new(ErrorKind::Type, "invalid format for `number` type"))
        }
    } else if same_text(kind, "string") {
        if format_is(format, "byte") {
            Ok(TypeRef::Base64)
        } else if format_is(format, "binary") {
            Ok(TypeRef::Bytes)
        } else if format_is(format, "date") {
            Ok(TypeRef::Date)
        } else if format_is(format, "date-time") {
            Ok(TypeRef::DateTime)
        } else {
            Ok(TypeRef::Text)
        }
    } else if same_text(kind, "boolean") {
        if format.is_none() {
            Ok(TypeRef::Bool)
        } else {
            Err(GenError::new(ErrorKind::Type, "unexpected format for `boolean` type"))
        }
    } else {
        Err(GenError::new(ErrorKind::Type, kind))
    }
}

} // verus!

verus! {

/// What follows the last `/` of a reference.
pub open spec fn last_segment(s: Seq<char>) -> Seq<char>
    decreases s.len(),
{
    if s.len() == 0 {
        s
    } else if s.last() == '/' {
        Seq::empty()
    } else {
        last_segment(s.drop_last()).push(s.last())
    }
}

/// The part of a reference after its last `/`.
pub fn ref_name(s: &str) -> (r: &str)
    ensures
        r@ == last_segment(s@),
{
    let n = s.unicode_len();
    let mut start: usize = 0;
    let mut i: usize = 0;
    while i < n
        invariant
            n == s@.len(),
            start <= i <= n,
            last_segment(s@.subrange(0, i as int)) == s@.subrange(start as int, i as int),
        decreases n - i,
    {
        let c = s.get_char(i);
        proof {
            assert(s@.subrange(0, i + 1).drop_last() =~= s@.subrange(0, i as int));
        }
        if c == '/' {
            start = i + 1;
            assert(s@.subrange(start as int, i + 1) =~= Seq::<char>::empty());
        } else {
            assert(s@.subrange(start as int, i + 1) =~= s@.subrange(start as int, i as int).push(c));
        }
        i = i + 1;
    }
    assert(s@.subrange(0, n as int) =~= s@);
    s.substring_char(start, n)
}

/// The names listed under `required`: none when absent or not a list, and no
/// list at all when one of them is not a string.
pub open spec fn required_names(req: Option<Value>) -> Option<Seq<Seq<char>>> {
    match req {
        Some(Value::List(items)) => if forall|i: int| 0 <= i < items@.len() ==> (#[trigger] items@[i]) is Str {
            Some(items@.map_values(|x: Value| x->Str_0@))
        } else {
            None
        },
        _ => Some(Seq::empty()),
    }
}

pub open spec fn texts_view(v: Seq<String>) -> Seq<Seq<char>> {
    v.map_values(|s: String| s@)
}

/// The names under `required`, or a schema error when one is not a string.
pub fn required_list(node: &Value) -> (r: Result<Vec<String>, GenError>)
    ensures
        match required_names(lookup(*node, "required"@)) {
            Some(names) => r matches Ok(v) && texts_view(v@) == names,
            None => r matches Err(e) && e@ == (ErrorKind::Schema, "required field names must be strings"@),
        },
{
    let mut out: Vec<String> = Vec::new();
    let got = node.get("required");
    let listed = match got {
        Some(v) => match v {
            Value::List(items) => Some(items),
            _ => None,
        },
        None => None,
    };
    assert(listed matches Some(items) ==> lookup(*node, "required"@) == Some(Value::List(*items)));
    assert(listed is None ==> !(lookup(*node, "required"@) matches Some(Value::List(_))));
    match listed {
        Some(items) => {
            let mut i: usize = 0;
            while i < items.len()
                invariant
                    lookup(*node, "required"@) == Some(Value::List(*items)),
                    i <= items@.len(),
                    forall|j: int| 0 <= j < i ==> (#[trigger] items@[j]) is Str,
                    texts_view(out@) == items@.subrange(0, i as int).map_values(|x: Value| x->Str_0@),
                decreases items.len() - i,
            {
                match &items[i] {
                    Value::Str(s) => {
                        out.push(s.clone());
                        assert(items@.subrange(0, i + 1).map_values(|x: Value| x->Str_0@)
                            =~= items@.subrange(0, i as int).map_values(|x: Value| x->Str_0@).push(s@));
                        assert(texts_view(out@) =~= texts_view(out@.drop_last()).push(s@));
                    },
                    _ => {
                        assert(!(items@[i as int] is Str));
                        assert(required_names(Some(Value::List(*items))) is None);
                        return Err(GenError::new(ErrorKind::Schema, "required field names must be strings"));
                    },
                }
                i = i + 1;
            }
            assert(items@.subrange(0, i as int) =~= items@);
            Ok(out)
        },
        None => {
            assert(texts_view(out@) =~= Seq::empty());
            Ok(out)
        },
    }
}

/// Whether `name` is among `names`.
pub fn contains_text(names: &Vec<String>, name: &str) -> (r: bool)
    ensures
        r == texts_view(names@).contains(name@),
{
    let mut i: usize = 0;
    while i < names.len()
        invariant
            i <= names@.len(),
            forall|j: int| 0 <= j < i ==> names@[j]@ != name@,
        decreases names.len() - i,
    {
        if same_text(names[i].as_str(), name) {
            assert(texts_view(names@)[i as int] == name@);
            return true;
        }
        i = i + 1;
    }
    assert(!texts_view(names@).contains(name@)) by {
        if texts_view(names@).contains(name@) {
            let k = choose|k: int| 0 <= k < names@.len() && texts_view(names@)[k] == name@;
            assert(names@[k]@ == name@);
        }
    }
    false
}

/// The type of a property: exact when it is required, optional otherwise.
pub open spec fn field_type(t: Ty, required: bool) -> Ty {
    if required {
        t
    } else {
        Ty::Optional(Box::new(t))
    }
}

/// Inference of a schema node: its type, the object types it needs innermost
/// first, and the registry afterwards.
pub open spec fn infer_spec(reg: Seq<Shape>, v: Value) -> Result<(Ty, Seq<nat>, Seq<Shape>), ErrorModel>
    decreases v,
{
    match v {
        Value::Mapping(entries) => match lookup_text(v, "$ref"@) {
            Some(r) => Ok((Ty::Component(class_case_of(last_segment(r))), Seq::empty(), reg)),
            None => match lookup_text(v, "type"@) {
                None => Err((ErrorKind::Schema, "schema type must be declared"@)),
                Some(t) => if t == "array"@ {
                    match find_from(entries@, "items"@, 0) {
                        Some(k) => if 0 <= k < entries@.len() {
                            match infer_spec(reg, entries@[k].1) {
                                Ok((item, supp, reg1)) => Ok((Ty::Sequence(Box::new(item)), supp, reg1)),
                                Err(e) => Err(e),
                            }
                        } else {
                            Err((ErrorKind::Schema, "array schema must declare its items"@))
                        },
                        None => Err((ErrorKind::Schema, "array schema must declare its items"@)),
                    }
                } else if t == "object"@ {
                    match required_names(lookup(v, "required"@)) {
                        None => Err((ErrorKind::Schema, "required field names must be strings"@)),
                        Some(req) => match find_from(entries@, "properties"@, 0) {
                            Some(k) => if 0 <= k < entries@.len() {
                                match entries@[k].1 {
                                    Value::Mapping(props) => match infer_props(reg, props@, req) {
                                        Ok((shape, supp, reg1)) => {
                                            let (id, reg2) = register(reg1, shape);
                                            Ok((Ty::Object(id), supp.push(id), reg2))
                                        },
                                        Err(e) => Err(e),
                                    },
                                    _ => Err((ErrorKind::Schema, "properties must be a map"@)),
                                }
                            } else {
                                Err((ErrorKind::Schema, "properties must be a map"@))
                            },
                            None => Err((ErrorKind::Schema, "properties must be a map"@)),
                        },
                    }
                } else {
                    match scalar_type(t, lookup(v, "format"@)) {
                        Ok(s) => Ok((s, Seq::empty(), reg)),
                        Err(e) => Err(e),
                    }
                },
            },
        },
        _ => Err((ErrorKind::Schema, "schema type must be declared"@)),
    }
}

/// Inference of an object's properties in declared order: the fields, the
/// object types they need, and the registry afterwards.
pub open spec fn infer_props(reg: Seq<Shape>, props: Seq<(Value, Value)>, req: Seq<Seq<char>>) -> Result<(Shape, Seq<nat>, Seq<Shape>), ErrorModel>
    decreases props,
{
    if props.len() == 0 {
        Ok((Seq::empty(), Seq::empty(), reg))
    } else {
        match infer_props(reg, props.subrange(0, props.len() - 1), req) {
            Err(e) => Err(e),
            Ok((shape, supp, reg1)) => match props[props.len() - 1].0 {
                Value::Str(name) => match infer_spec(reg1, props[props.len() - 1].1) {
                    Ok((t, supp2, reg2)) => Ok((
                        shape.push((name@, snake_case_of(name@), field_type(t, req.contains(name@)))),
                        supp + supp2,
                        reg2,
                    )),
                    Err(e) => Err(e),
                },
                _ => Err((ErrorKind::Schema, "property keys must be strings"@)),
            },
        }
    }
}

} // verus!

verus! {

/// Whether two fields are the same.
fn same_field(a: &Field, b: &Field) -> (r: bool)
    ensures
        r == (a@ == b@),
{
    same_text(a.wire_name.as_str(), b.wire_name.as_str()) && same_text(
        a.field_name.as_str(),
        b.field_name.as_str(),
    ) && same_type(&a.ty, &b.ty)
}

/// Whether two object types have the same ordered fields.
pub fn same_shape(a: &ObjectDef, b: &ObjectDef) -> (r: bool)
    ensures
        r == (a@ == b@),
{
    if a.fields.len() != b.fields.len() {
        assert(a@.len() != b@.len());
        return false;
    }
    let mut i: usize = 0;
    while i < a.fields.len()
        invariant
            a.fields@.len() == b.fields@.len(),
            i <= a.fields@.len(),
            forall|j: int| 0 <= j < i ==> a@[j] == b@[j],
        decreases a.fields.len() - i,
    {
        if !same_field(&a.fields[i], &b.fields[i]) {
            assert(a@[i as int] != b@[i as int]);
            return false;
        }
        i = i + 1;
    }
    assert(a@ =~= b@);
    true
}

/// Adds `def` to the registry unless the same shape is there already, and
/// returns the index of that shape.
pub fn register_def(reg: &mut Registry, def: ObjectDef) -> (id: usize)
    ensures
        register(old(reg)@, def@) == (id as nat, final(reg)@),
{
    let mut i: usize = 0;
    while i < reg.defs.len()
        invariant
            reg@ == old(reg)@,
            i <= reg@.len(),
            shape_index(reg@, def@, 0) == shape_index(reg@, def@, i as int),
        decreases reg.defs.len() - i,
    {
        if same_shape(&reg.defs[i], &def) {
            return i;
        }
        i = i + 1;
    }
    let id = reg.defs.len();
    reg.defs.push(def);
    assert(reg@ =~= old(reg)@.push(def@));
    id
}

/// An error met among the first `i` properties is the error of them all.
proof fn lemma_props_error_extends(reg: Seq<Shape>, props: Seq<(Value, Value)>, req: Seq<Seq<char>>, i: int)
    requires
        0 <= i <= props.len(),
        infer_props(reg, props.subrange(0, i), req) is Err,
    ensures
        infer_props(reg, props, req) == infer_props(reg, props.subrange(0, i), req),
    decreases props.len() - i,
{
    if i < props.len() {
        let next = props.subrange(0, i + 1);
        assert(next.subrange(0, next.len() - 1) =~= props.subrange(0, i));
        lemma_props_error_extends(reg, props, req, i + 1);
    } else {
        assert(props.subrange(0, i) =~= props);
    }
}

/// Infers the type of one schema node, registering the object types it needs.
pub fn infer_type(reg: &mut Registry, node: &Value) -> (r: Result<TypeRepr, GenError>)
    ensures
        match infer_spec(old(reg)@, *node) {
            Ok((t, supp, reg1)) => r matches Ok(x) && x.type_ref@ == t && ids_view(x.supplementary@)
                == supp && final(reg)@ == reg1,
            Err(k) => r matches Err(e) && e@ == k,
        },
    decreases node,
{
    let entries = match node {
        Value::Mapping(entries) => entries,
        _ => {
            return Err(GenError::new(ErrorKind::Schema, "schema type must be declared"));
        },
    };
    if let Some(r) = node.get_text("$ref") {
        let name = class_case(ref_name(r.as_str()));
        return Ok(TypeRepr { type_ref: TypeRef::Component(name), supplementary: Vec::new() });
    }
    let t = match node.get_text("type") {
        Some(t) => t,
        None => {
            return Err(GenError::new(ErrorKind::Schema, "schema type must be declared"));
        },
    };
    if same_text(t.as_str(), "array") {
        match find_key(entries, "items") {
            Some(k) => {
                let item = infer_type(reg, &entries[k].1)?;
                Ok(TypeRepr {
                    type_ref: TypeRef::Sequence(Box::new(item.type_ref)),
                    supplementary: item.supplementary,
                })
            },
            None => Err(GenError::new(ErrorKind::Schema, "array schema must declare its items")),
        }
    } else if same_text(t.as_str(), "object") {
        let req = required_list(node)?;
        match find_key(entries, "properties") {
            Some(k) => match &entries[k].1 {
                Value::Mapping(props) => infer_object(reg, props, &req),
                _ => Err(GenError::new(ErrorKind::Schema, "properties must be a map")),
            },
            None => Err(GenError::new(ErrorKind::Schema, "properties must be a map")),
        }
    } else {
        let ty = infer_scalar(t.as_str(), node.get("format"))?;
        Ok(TypeRepr { type_ref: ty, supplementary: Vec::new() })
    }
}

/// Infers the fields of an object type from its properties, in declared
/// order, and registers the object type.
fn infer_object(reg: &mut Registry, props: &Vec<(Value, Value)>, req: &Vec<String>) -> (r: Result<TypeRepr, GenError>)
    ensures
        match infer_props(old(reg)@, props@, texts_view(req@)) {
            Ok((shape, supp, reg1)) => {
                let (id, reg2) = register(reg1, shape);
                r matches Ok(x) && x.type_ref@ == Ty::Object(id) && ids_view(x.supplementary@)
                    == supp.push(id) && final(reg)@ == reg2
            },
            Err(k) => r matches Err(e) && e@ == k,
        },
    decreases props,
{
    let ghost reg0 = reg@;
    let ghost names = texts_view(req@);
    let mut fields: Vec<Field> = Vec::new();
    let mut supp: Vec<usize> = Vec::new();
    let mut i: usize = 0;
    assert(props@.subrange(0, 0) =~= Seq::<(Value, Value)>::empty());
    assert(fields_view(fields@) =~= Seq::empty());
    assert(ids_view(supp@) =~= Seq::empty());
    while i < props.len()
        invariant
            names == texts_view(req@),
            reg0 == old(reg)@,
            i <= props@.len(),
            infer_props(reg0, props@.subrange(0, i as int), names) == Ok::<_, ErrorModel>(
                (fields_view(fields@), ids_view(supp@), reg@),
            ),
        decreases props.len() - i,
    {
        let ghost prefix = props@.subrange(0, i + 1);
        assert(prefix.subrange(0, prefix.len() - 1) =~= props@.subrange(0, i as int));
        assert(prefix[prefix.len() - 1] == props@[i as int]);
        let name = match &props[i].0 {
            Value::Str(name) => name,
            _ => {
                proof {
                    lemma_props_error_extends(reg0, props@, names, i + 1);
                }
                return Err(GenError::new(ErrorKind::Schema, "property keys must be strings"));
            },
        };
        let ghost before = reg@;
        let inferred = infer_type(reg, &props[i].1);
        let item = match inferred {
            Ok(item) => item,
            Err(e) => {
                proof {
                    lemma_props_error_extends(reg0, props@, names, i + 1);
                }
                return Err(e);
            },
        };
        let required = contains_text(req, name.as_str());
        let ty = if required {
            item.type_ref
        } else {
            TypeRef::Optional(Box::new(item.type_ref))
        };
        let field = Field { wire_name: name.clone(), field_name: snake_case(name.as_str()), ty };
        let ghost fields_before = fields@;
        fields.push(field);
        assert(fields@.drop_last() =~= fields_before);
        let mut more = item.supplementary;
        let ghost supp_before = supp@;
        supp.append(&mut more);
        assert(fields_view(fields@) =~= fields_view(fields@.drop_last()).push(field@));
        assert(ids_view(supp@) =~= ids_view(supp_before) + ids_view(item.supplementary@));
        i = i + 1;
    }
    assert(props@.subrange(0, i as int) =~= props@);
    let id = register_def(reg, ObjectDef { fields });
    supp.push(id);
    assert(ids_view(supp@) =~= ids_view(supp@.drop_last()).push(id as nat));
    Ok(TypeRepr { type_ref: TypeRef::Object(id), supplementary: supp })
}

} // verus!

verus! {

proof fn lemma_shape_index(reg: Seq<Shape>, shape: Shape, k: int)
    requires
        0 <= k,
    ensures
        match shape_index(reg, shape, k) {
            Some(i) => k <= i < reg.len() && reg[i as int] == shape,
            None => forall|j: int| k <= j < reg.len() ==> reg[j] != shape,
        },
    decreases reg.len() - k,
{
    if k < reg.len() && reg[k] != shape {
        lemma_shape_index(reg, shape, k + 1);
    }
}

/// Registering a shape keeps every shape once, keeps what was there, and
/// leaves the shape at the index it returns.
pub proof fn lemma_register(reg: Seq<Shape>, shape: Shape)
    requires
        registry_wf(reg),
    ensures
        ({
            let (i, out) = register(reg, shape);
            &&& registry_wf(out)
            &&& i < out.len()
            &&& out[i as int] == shape
            &&& out.subrange(0, reg.len() as int) == reg
        }),
{
    lemma_shape_index(reg, shape, 0);
    let (i, out) = register(reg, shape);
    assert(out.subrange(0, reg.len() as int) =~= reg);
}

/// Structural deduplication: of two object types registered one after the
/// other, both get the same generated type exactly when their ordered
/// (field name, field type) lists are equal.
pub proof fn lemma_structural_dedup(reg: Seq<Shape>, a: Shape, b: Shape)
    requires
        registry_wf(reg),
    ensures
        ({
            let (i, r1) = register(reg, a);
            let (j, r2) = register(r1, b);
            &&& (i == j) == (a == b)
            &&& r2[i as int] == a
            &&& r2[j as int] == b
            &&& registry_wf(r2)
        }),
{
    lemma_register(reg, a);
    let (i, r1) = register(reg, a);
    lemma_register(r1, b);
    let (j, r2) = register(r1, b);
    assert(r2.subrange(0, r1.len() as int)[i as int] == r1[i as int]);
    if a == b {
        lemma_shape_index(r1, b, 0);
    }
}

} // verus!

verus! {

/// Inference keeps every shape of the registry once, keeps what was there,
/// and an object type it returns is in the registry.
pub proof fn lemma_infer_registry(reg: Seq<Shape>, v: Value)
    requires
        registry_wf(reg),
    ensures
        infer_spec(reg, v) matches Ok((t, _, out)) ==> registry_wf(out) && reg.len() <= out.len()
            && out.subrange(0, reg.len() as int) == reg && (t matches Ty::Object(i) ==> i < out.len()),
    decreases v,
{
    if let Value::Mapping(entries) = v {
        if lookup_text(v, "$ref"@) is None {
            if let Some(t) = lookup_text(v, "type"@) {
                if t == "array"@ {
                    if let Some(k) = find_from(entries@, "items"@, 0) {
                        if 0 <= k < entries@.len() {
                            lemma_infer_registry(reg, entries@[k].1);
                        }
                    }
                } else if t == "object"@ {
                    if let Some(req) = required_names(lookup(v, "required"@)) {
                        if let Some(k) = find_from(entries@, "properties"@, 0) {
                            if 0 <= k < entries@.len() {
                                if let Value::Mapping(props) = entries@[k].1 {
                                    lemma_props_registry(reg, props@, req);
                                    if let Ok((shape, supp, reg1)) = infer_props(reg, props@, req) {
                                        lemma_register(reg1, shape);
                                        let out = register(reg1, shape).1;
                                        assert(out.subrange(0, reg.len() as int) =~= out.subrange(
                                            0,
                                            reg1.len() as int,
                                        ).subrange(0, reg.len() as int));
                                    }
                                }
                            }
                        }
                    }
                } else {
                    assert(reg.subrange(0, reg.len() as int) =~= reg);
                }
            }
        } else {
            assert(reg.subrange(0, reg.len() as int) =~= reg);
        }
    }
}

/// Inferring the properties of an object keeps every shape of the registry
/// once and keeps what was there.
pub proof fn lemma_props_registry(reg: Seq<Shape>, props: Seq<(Value, Value)>, req: Seq<Seq<char>>)
    requires
        registry_wf(reg),
    ensures
        infer_props(reg, props, req) matches Ok((_, _, out)) ==> registry_wf(out) && reg.len() <= out.len()
            && out.subrange(0, reg.len() as int) == reg,
    decreases props,
{
    if props.len() == 0 {
        assert(reg.subrange(0, reg.len() as int) =~= reg);
    } else {
        let init = props.subrange(0, props.len() - 1);
        lemma_props_registry(reg, init, req);
        if let Ok((shape, supp, reg1)) = infer_props(reg, init, req) {
            if let Value::Str(name) = props[props.len() - 1].0 {
                lemma_infer_registry(reg1, props[props.len() - 1].1);
                if let Ok((t, supp2, reg2)) = infer_spec(reg1, props[props.len() - 1].1) {
                    assert(reg2.subrange(0, reg.len() as int) =~= reg2.subrange(0, reg1.len() as int).subrange(
                        0,
                        reg.len() as int,
                    ));
                }
            }
        }
    }
}

/// Structural deduplication: of two object schemas inferred one after the
/// other, both get the same generated type exactly when the registry holds
/// the same ordered (field name, field type) list for them; the first keeps
/// the list it was registered with.
pub proof fn lemma_objects_dedup(reg: Seq<Shape>, v1: Value, v2: Value)
    requires
        registry_wf(reg),
        infer_spec(reg, v1) matches Ok((Ty::Object(_), _, _)),
        infer_spec(infer_spec(reg, v1)->Ok_0.2, v2) matches Ok((Ty::Object(_), _, _)),
    ensures
        ({
            let (t1, _, r1) = infer_spec(reg, v1)->Ok_0;
            let (t2, _, r2) = infer_spec(r1, v2)->Ok_0;
            let i = t1->Object_0;
            let j = t2->Object_0;
            &&& (i == j) == (r2[i as int] == r2[j as int])
            &&& r2[i as int] == r1[i as int]
        }),
{
    lemma_infer_registry(reg, v1);
    let (t1, _, r1) = infer_spec(reg, v1)->Ok_0;
    lemma_infer_registry(r1, v2);
    let (t2, _, r2) = infer_spec(r1, v2)->Ok_0;
    let i = t1->Object_0;
    assert(r2.subrange(0, r1.len() as int)[i as int] == r1[i as int]);
}

} // verus!
