use vstd::prelude::*;

use crate::infer::{infer_spec, infer_type, lemma_infer_registry};
use crate::naming::{joined, snake_case, snake_case_of};
use crate::types::{
    fields_view, registry_wf, ErrorKind, ErrorModel, Field, FieldModel, GenError, Registry, Shape,
};
use crate::value::{lookup, lookup_text, same_text, Value};

verus! {

/// Whether a parameter sits in the query string.
pub open spec fn is_query(p: Value) -> bool {
    lookup_text(p, "in"@) == Some("query"@)
}

/// How many of the parameters sit in the query string.
pub open spec fn query_count(ps: Seq<Value>) -> nat
    decreases ps.len(),
{
    if ps.len() == 0 {
        0
    } else {
        query_count(ps.drop_last()) + if is_query(ps.last()) {
            1nat
        } else {
            0nat
        }
    }
}

/// The field of one query parameter: its name verbatim, the idiomatic field
/// name, and the type of its schema.
pub open spec fn param_field(reg: Seq<Shape>, p: Value) -> Result<(FieldModel, Seq<Shape>), ErrorModel> {
    match lookup_text(p, "name"@) {
        None => Err((ErrorKind::Schema, "parameter name must be a string"@)),
        Some(name) => match lookup(p, "schema"@) {
            None => Err((ErrorKind::Schema, "parameter without schema: "@ + name)),
            Some(s) => match infer_spec(reg, s) {
                Ok((t, _supp, reg1)) => Ok(((name, snake_case_of(name), t), reg1)),
                Err(e) => Err(e),
            },
        },
    }
}

/// The fields of the query parameters among `ps`, in declared order.
pub open spec fn param_fields(reg: Seq<Shape>, ps: Seq<Value>) -> Result<(Shape, Seq<Shape>), ErrorModel>
    decreases ps.len(),
{
    if ps.len() == 0 {
        Ok((Seq::empty(), reg))
    } else {
        match param_fields(reg, ps.drop_last()) {
            Err(e) => Err(e),
            Ok((fields, reg1)) => if is_query(ps.last()) {
                match param_field(reg1, ps.last()) {
                    Ok((f, reg2)) => Ok((fields.push(f), reg2)),
                    Err(e) => Err(e),
                }
            } else {
                Ok((fields, reg1))
            },
        }
    }
}

/// The parameter group of an operation: none without query parameters.
pub open spec fn query_group(reg: Seq<Shape>, name: Seq<char>, ps: Seq<Value>) -> Result<(Option<(Seq<char>, Shape)>, Seq<Shape>), ErrorModel> {
    if query_count(ps) == 0 {
        Ok((None, reg))
    } else {
        match param_fields(reg, ps) {
            Ok((fields, reg1)) => Ok((Some((name, fields)), reg1)),
            Err(e) => Err(e),
        }
    }
}

/// The query parameters of one operation as one generated type; each field is
/// mandatory.
pub struct ParameterGroup {
    pub name: String,
    pub fields: Vec<Field>,
}

impl View for ParameterGroup {
    type V = (Seq<char>, Shape);

    open spec fn view(&self) -> (Seq<char>, Shape) {
        (self.name@, fields_view(self.fields@))
    }
}

/// One `(wire name, field)` pair appended to the query string.
pub struct QueryAppend {
    pub wire_name: String,
    pub field_name: String,
}

/// The query transformation: clear the query, then append each pair in order.
pub struct QueryTransform {
    pub appends: Vec<QueryAppend>,
}

impl View for QueryTransform {
    type V = Seq<(Seq<char>, Seq<char>)>;

    open spec fn view(&self) -> Seq<(Seq<char>, Seq<char>)> {
        self.appends@.map_values(|a: QueryAppend| (a.wire_name@, a.field_name@))
    }
}

/// The pairs that the transformation of a group appends.
pub open spec fn transform_of(fields: Shape) -> Seq<(Seq<char>, Seq<char>)> {
    fields.map_values(|f: FieldModel| (f.0, f.1))
}

impl ParameterGroup {
    /// The transformation that fills the query string from this group.
    pub fn transform(&self) -> (r: QueryTransform)
        ensures
            r@ == transform_of(self@.1),
    {
        let mut appends: Vec<QueryAppend> = Vec::new();
        let mut i: usize = 0;
        while i < self.fields.len()
            invariant
                i <= self.fields@.len(),
                appends@.len() == i,
                forall|j: int| 0 <= j < i ==> (#[trigger] appends@[j]).wire_name@ == self.fields@[j].wire_name@
                    && appends@[j].field_name@ == self.fields@[j].field_name@,
            decreases self.fields.len() - i,
        {
            let f = &self.fields[i];
            appends.push(QueryAppend { wire_name: f.wire_name.clone(), field_name: f.field_name.clone() });
            i = i + 1;
        }
        let r = QueryTransform { appends };
        assert(r@ =~= transform_of(self@.1));
        r
    }
}

/// Counts the query parameters among `ps`.
pub fn count_query(ps: &Vec<Value>) -> (r: usize)
    ensures
        r == query_count(ps@),
{
    let mut n: usize = 0;
    let mut i: usize = 0;
    while i < ps.len()
        invariant
            i <= ps@.len(),
            n == query_count(ps@.subrange(0, i as int)),
            n <= i,
        decreases ps.len() - i,
    {
        assert(ps@.subrange(0, i + 1).drop_last() =~= ps@.subrange(0, i as int));
        if is_query_param(&ps[i]) {
            n = n + 1;
        }
        i = i + 1;
    }
    assert(ps@.subrange(0, i as int) =~= ps@);
    n
}

/// Whether a parameter sits in the query string.
pub fn is_query_param(p: &Value) -> (r: bool)
    ensures
        r == is_query(*p),
{
    match p.get_text("in") {
        Some(t) => same_text(t.as_str(), "query"),
        None => false,
    }
}

/// An error met among the first `i` parameters is the error of them all.
proof fn lemma_fields_error_extends(reg: Seq<Shape>, ps: Seq<Value>, i: int)
    requires
        0 <= i <= ps.len(),
        param_fields(reg, ps.subrange(0, i)) is Err,
    ensures
        param_fields(reg, ps) == param_fields(reg, ps.subrange(0, i)),
    decreases ps.len() - i,
{
    if i < ps.len() {
        assert(ps.subrange(0, i + 1).drop_last() =~= ps.subrange(0, i));
        lemma_fields_error_extends(reg, ps, i + 1);
    } else {
        assert(ps.subrange(0, i) =~= ps);
    }
}

/// Builds the group named `name` from the query parameters among `ps`, or
/// none when there is no query parameter.
pub fn infer_query_group(reg: &mut Registry, name: String, ps: &Vec<Value>) -> (r: Result<Option<ParameterGroup>, GenError>)
    ensures
        match query_group(old(reg)@, name@, ps@) {
            Ok((g, reg1)) => r matches Ok(x) && final(reg)@ == reg1 && match g {
                Some(gm) => x matches Some(y) && y@ == gm,
                None => x is None,
            },
            Err(k) => r matches Err(e) && e@ == k,
        },
{
    if count_query(ps) == 0 {
        return Ok(None);
    }
    let ghost reg0 = reg@;
    let mut fields: Vec<Field> = Vec::new();
    let mut i: usize = 0;
    assert(fields_view(fields@) =~= Seq::empty());
    while i < ps.len()
        invariant
            reg0 == old(reg)@,
            query_count(ps@) > 0,
            i <= ps@.len(),
            param_fields(reg0, ps@.subrange(0, i as int)) == Ok::<_, ErrorModel>((fields_view(fields@), reg@)),
        decreases ps.len() - i,
    {
        assert(ps@.subrange(0, i + 1).drop_last() =~= ps@.subrange(0, i as int));
        let p = &ps[i];
        if is_query_param(p) {
            let pname = match p.get_text("name") {
                Some(n) => n,
                None => {
                    proof {
                        lemma_fields_error_extends(reg0, ps@, i + 1);
                    }
                    return Err(GenError::new(ErrorKind::Schema, "parameter name must be a string"));
                },
            };
            let schema = match p.get("schema") {
                Some(s) => s,
                None => {
                    proof {
                        lemma_fields_error_extends(reg0, ps@, i + 1);
                    }
                    let detail = joined("parameter without schema: ", pname.as_str());
                    return Err(GenError { kind: ErrorKind::Schema, detail });
                },
            };
            let inferred = infer_type(reg, schema);
            let t = match inferred {
                Ok(t) => t,
                Err(e) => {
                    proof {
                        lemma_fields_error_extends(reg0, ps@, i + 1);
                    }
                    return Err(e);
                },
            };
            let field = Field {
                wire_name: pname.clone(),
                field_name: snake_case(pname.as_str()),
                ty: t.type_ref,
            };
            let ghost before = fields@;
            fields.push(field);
            assert(fields@.drop_last() =~= before);
            assert(fields_view(fields@) =~= fields_view(before).push(field@));
        }
        i = i + 1;
    }
    assert(ps@.subrange(0, i as int) =~= ps@);
    Ok(Some(ParameterGroup { name, fields }))
}

} // verus!

verus! {

/// No inferred type is optional at its top.
pub proof fn lemma_inferred_not_optional(reg: Seq<Shape>, v: Value)
    ensures
        infer_spec(reg, v) matches Ok((t, _, _)) ==> !(t is Optional),
{
}

/// The fields built from parameters: one per query parameter, none optional.
pub proof fn lemma_param_fields(reg: Seq<Shape>, ps: Seq<Value>)
    ensures
        param_fields(reg, ps) matches Ok((fields, _)) ==> fields.len() == query_count(ps) && forall|i: int|
            0 <= i < fields.len() ==> !((#[trigger] fields[i]).2 is Optional),
    decreases ps.len(),
{
    if ps.len() > 0 {
        lemma_param_fields(reg, ps.drop_last());
        if let Ok((fields, reg1)) = param_fields(reg, ps.drop_last()) {
            match lookup(ps.last(), "schema"@) {
                Some(s) => lemma_inferred_not_optional(reg1, s),
                None => {},
            }
        }
    }
}

} // verus!

verus! {

/// Building the fields of query parameters keeps every shape of the registry once.
pub proof fn lemma_param_fields_registry(reg: Seq<Shape>, ps: Seq<Value>)
    requires
        registry_wf(reg),
    ensures
        param_fields(reg, ps) matches Ok((_, out)) ==> registry_wf(out),
    decreases ps.len(),
{
    if ps.len() > 0 {
        lemma_param_fields_registry(reg, ps.drop_last());
        if let Ok((fields, reg1)) = param_fields(reg, ps.drop_last()) {
            if let Some(s) = lookup(ps.last(), "schema"@) {
                lemma_infer_registry(reg1, s);
            }
        }
    }
}

} // verus!
