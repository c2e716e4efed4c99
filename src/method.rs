use vstd::prelude::*;

use crate::naming::{class_case, class_case_of, joined, upper_of, uppercase};
use crate::parameter::{
    infer_query_group, lemma_param_fields, lemma_param_fields_registry, query_count, query_group, transform_of, ParameterGroup,
    QueryTransform,
};
use crate::types::{registry_wf, ErrorKind, ErrorModel, GenError, Registry, Shape};
use crate::value::{lookup, same_text, Value};

verus! {

/// The HTTP verbs an operation may have.
#[derive(Clone, Copy, PartialEq, Eq, Structural, Debug)]
pub enum Verb {
    Delete,
    Get,
    Head,
    Patch,
    Post,
    Put,
}

/// The upper-case token of a verb.
pub open spec fn verb_token(v: Verb) -> Seq<char> {
    match v {
        Verb::Delete => "DELETE"@,
        Verb::Get => "GET"@,
        Verb::Head => "HEAD"@,
        Verb::Patch => "PATCH"@,
        Verb::Post => "POST"@,
        Verb::Put => "PUT"@,
    }
}

/// The lower-case name of a verb's operation.
pub open spec fn verb_fn_name(v: Verb) -> Seq<char> {
    match v {
        Verb::Delete => "delete"@,
        Verb::Get => "get"@,
        Verb::Head => "head"@,
        Verb::Patch => "patch"@,
        Verb::Post => "post"@,
        Verb::Put => "put"@,
    }
}

/// The verb whose upper-case token is exactly `t`.
pub open spec fn token_verb(t: Seq<char>) -> Option<Verb> {
    if t == "DELETE"@ {
        Some(Verb::Delete)
    } else if t == "GET"@ {
        Some(Verb::Get)
    } else if t == "HEAD"@ {
        Some(Verb::Head)
    } else if t == "PATCH"@ {
        Some(Verb::Patch)
    } else if t == "POST"@ {
        Some(Verb::Post)
    } else if t == "PUT"@ {
        Some(Verb::Put)
    } else {
        None
    }
}

/// The verb a text names, ignoring case: its upper-cased form is one of the
/// six tokens.
pub open spec fn verb_of(s: Seq<char>) -> Option<Verb> {
    token_verb(upper_of(s))
}

impl Verb {
    /// The verb a token names, ignoring case.
    pub fn parse(s: &str) -> (r: Option<Verb>)
        ensures
            r == verb_of(s@),
    {
        let upper = uppercase(s);
        let u = upper.as_str();
        if same_text(u, "DELETE") {
            Some(Verb::Delete)
        } else if same_text(u, "GET") {
            Some(Verb::Get)
        } else if same_text(u, "HEAD") {
            Some(Verb::Head)
        } else if same_text(u, "PATCH") {
            Some(Verb::Patch)
        } else if same_text(u, "POST") {
            Some(Verb::Post)
        } else if same_text(u, "PUT") {
            Some(Verb::Put)
        } else {
            None
        }
    }

    /// The upper-case token of this verb.
    pub fn token(&self) -> (r: &'static str)
        ensures
            r@ == verb_token(*self),
    {
        match self {
            Verb::Delete => "DELETE",
            Verb::Get => "GET",
            Verb::Head => "HEAD",
            Verb::Patch => "PATCH",
            Verb::Post => "POST",
            Verb::Put => "PUT",
        }
    }

    /// The name of this verb's operation.
    pub fn fn_name(&self) -> (r: &'static str)
        ensures
            r@ == verb_fn_name(*self),
    {
        match self {
            Verb::Delete => "delete",
            Verb::Get => "get",
            Verb::Head => "head",
            Verb::Patch => "patch",
            Verb::Post => "post",
            Verb::Put => "put",
        }
    }
}

/// Whether `method` is one of the six verbs, ignoring case.
pub fn valid(method: &str) -> (r: bool)
    ensures
        r == verb_of(method@) is Some,
{
    Verb::parse(method).is_some()
}

/// The name of the parameter group of an operation.
pub open spec fn group_name(method: Seq<char>) -> Seq<char> {
    class_case_of(method) + "QueryParams"@
}

/// The name of the parameter group of an operation: the class-cased verb
/// followed by `QueryParams`.
pub fn query_param_struct_ident(method: &str) -> (r: String)
    ensures
        r@ == group_name(method@),
{
    let c = class_case(method);
    joined(c.as_str(), "QueryParams")
}

/// One verb's generated operation. Its response type is a placeholder.
pub struct Operation {
    pub verb: Verb,
    /// The parameter group, when the operation has query parameters.
    pub query: Option<ParameterGroup>,
    /// The query transformation, present exactly when the group is.
    pub transform: Option<QueryTransform>,
}

/// The mathematical form of an operation: its verb and its parameter group.
pub type OperationModel = (Verb, Option<(Seq<char>, Shape)>);

impl View for Operation {
    type V = OperationModel;

    open spec fn view(&self) -> OperationModel {
        (self.verb, match self.query {
            Some(g) => Some(g@),
            None => None,
        })
    }
}

/// The transformation agrees with the group.
pub open spec fn operation_wf(op: Operation) -> bool {
    match op.query {
        Some(g) => op.transform matches Some(t) && t@ == transform_of(g@.1),
        None => op.transform is None,
    }
}

/// The operation `method` of a path, inferred from its schema `op`.
pub open spec fn method_spec(reg: Seq<Shape>, method: Seq<char>, op: Value) -> Result<(OperationModel, Seq<Shape>), ErrorModel> {
    match verb_of(method) {
        None => Err((ErrorKind::Method, method)),
        Some(verb) => match lookup(op, "parameters"@) {
            Some(Value::List(ps)) => match query_group(reg, group_name(method), ps@) {
                Ok((g, reg1)) => Ok(((verb, g), reg1)),
                Err(e) => Err(e),
            },
            _ => Ok(((verb, None), reg)),
        },
    }
}

/// Builds the operation `method` from its schema `op`.
pub fn infer_method(reg: &mut Registry, method: &str, op: &Value) -> (r: Result<Operation, GenError>)
    ensures
        match method_spec(old(reg)@, method@, *op) {
            Ok((m, reg1)) => r matches Ok(x) && x@ == m && operation_wf(x) && final(reg)@ == reg1,
            Err(k) => r matches Err(e) && e@ == k,
        },
{
    let verb = match Verb::parse(method) {
        Some(v) => v,
        None => {
            return Err(GenError::new(ErrorKind::Method, method));
        },
    };
    let params = op.get("parameters");
    let listed = match params {
        Some(v) => match v {
            Value::List(ps) => Some(ps),
            _ => None,
        },
        None => None,
    };
    match listed {
        Some(ps) => {
            let group = infer_query_group(reg, query_param_struct_ident(method), ps)?;
            let transform = match &group {
                Some(g) => Some(g.transform()),
                None => None,
            };
            Ok(Operation { verb, query: group, transform })
        },
        None => Ok(Operation { verb, query: None, transform: None }),
    }
}

} // verus!

verus! {

/// The parameters an operation declares, none when there is no list.
pub open spec fn operation_params(op: Value) -> Seq<Value> {
    match lookup(op, "parameters"@) {
        Some(Value::List(ps)) => ps@,
        _ => Seq::empty(),
    }
}

/// An operation without query parameters has no parameter group; one with
/// query parameters has exactly one, named after its verb, with one mandatory
/// field per query parameter whatever their `required` flags say.
pub proof fn lemma_query_group_presence(reg: Seq<Shape>, method: Seq<char>, op: Value)
    requires
        method_spec(reg, method, op) is Ok,
    ensures
        ({
            let group = method_spec(reg, method, op)->Ok_0.0.1;
            let n = query_count(operation_params(op));
            &&& group is None <==> n == 0
            &&& group matches Some(g) ==> g.0 == group_name(method) && g.1.len() == n && forall|i: int|
                0 <= i < g.1.len() ==> !((#[trigger] g.1[i]).2 is Optional)
        }),
{
    lemma_param_fields(reg, operation_params(op));
}

} // verus!

verus! {

/// Building an operation keeps every shape of the registry once.
pub proof fn lemma_method_registry(reg: Seq<Shape>, method: Seq<char>, op: Value)
    requires
        registry_wf(reg),
    ensures
        method_spec(reg, method, op) matches Ok((_, out)) ==> registry_wf(out),
{
    lemma_param_fields_registry(reg, operation_params(op));
}

} // verus!
