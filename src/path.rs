use vstd::prelude::*;

use crate::method::{infer_method, lemma_method_registry, method_spec, operation_wf, Operation, OperationModel};
use crate::naming::{class_case, class_case_of, joined, lower_of, lowercase, replace_char, replaced};
use crate::types::{registry_wf, ErrorKind, ErrorModel, GenError, Registry, Shape};
use crate::value::Value;

verus! {

/// The name of a path's namespace type: the API's name followed by the
/// class-cased segments of the path.
pub open spec fn path_struct_name(api: Seq<char>, path: Seq<char>) -> Seq<char> {
    api + class_case_of(replaced(path, '/', " "@))
}

/// The name of the accessor that returns a path's namespace.
pub open spec fn path_fn_name(path: Seq<char>) -> Seq<char> {
    lower_of(replaced(path, '/', ""@))
}

/// The operations of a path, in declared order.
pub open spec fn path_operations(reg: Seq<Shape>, verbs: Seq<(Value, Value)>) -> Result<(Seq<OperationModel>, Seq<Shape>), ErrorModel>
    decreases verbs.len(),
{
    if verbs.len() == 0 {
        Ok((Seq::empty(), reg))
    } else {
        match path_operations(reg, verbs.drop_last()) {
            Err(e) => Err(e),
            Ok((ops, reg1)) => match verbs.last().0 {
                Value::Str(m) => match method_spec(reg1, m@, verbs.last().1) {
                    Ok((op, reg2)) => Ok((ops.push(op), reg2)),
                    Err(e) => Err(e),
                },
                _ => Err((ErrorKind::Schema, "method must be a string"@)),
            },
        }
    }
}

/// The mathematical form of a path: its text, namespace name, accessor name
/// and operations.
pub type PathModel = (Seq<char>, Seq<char>, Seq<char>, Seq<OperationModel>);

/// A path of the API, as inferred from its schema.
pub open spec fn path_spec(reg: Seq<Shape>, api: Seq<char>, path: Seq<char>, schema: Value) -> Result<(PathModel, Seq<Shape>), ErrorModel> {
    match schema {
        Value::Mapping(verbs) => match path_operations(reg, verbs@) {
            Ok((ops, reg1)) => Ok(((path, path_struct_name(api, path), path_fn_name(path), ops), reg1)),
            Err(e) => Err(e),
        },
        _ => Err((ErrorKind::Schema, path)),
    }
}

/// One path's namespace type, its accessor on the API root, and the
/// operations it offers.
pub struct PathDef {
    pub path: String,
    pub struct_name: String,
    pub accessor: String,
    pub operations: Vec<Operation>,
}

pub open spec fn operations_view(ops: Seq<Operation>) -> Seq<OperationModel> {
    ops.map_values(|o: Operation| o@)
}

impl View for PathDef {
    type V = PathModel;

    open spec fn view(&self) -> PathModel {
        (self.path@, self.struct_name@, self.accessor@, operations_view(self.operations@))
    }
}

/// Each operation's transformation agrees with its group.
pub open spec fn path_wf(p: PathDef) -> bool {
    forall|i: int| 0 <= i < p.operations@.len() ==> operation_wf(#[trigger] p.operations@[i])
}

/// The name of a path's namespace type.
pub fn struct_ident(api: &str, path: &str) -> (r: String)
    ensures
        r@ == path_struct_name(api@, path@),
{
    let spaced = replace_char(path, '/', " ");
    let cased = class_case(spaced.as_str());
    joined(api, cased.as_str())
}

/// The name of the accessor of a path's namespace.
pub fn fn_ident(path: &str) -> (r: String)
    ensures
        r@ == path_fn_name(path@),
{
    let bare = replace_char(path, '/', "");
    lowercase(bare.as_str())
}

proof fn lemma_operations_error_extends(reg: Seq<Shape>, verbs: Seq<(Value, Value)>, i: int)
    requires
        0 <= i <= verbs.len(),
        path_operations(reg, verbs.subrange(0, i)) is Err,
    ensures
        path_operations(reg, verbs) == path_operations(reg, verbs.subrange(0, i)),
    decreases verbs.len() - i,
{
    if i < verbs.len() {
        assert(verbs.subrange(0, i + 1).drop_last() =~= verbs.subrange(0, i));
        lemma_operations_error_extends(reg, verbs, i + 1);
    } else {
        assert(verbs.subrange(0, i) =~= verbs);
    }
}

/// Builds the namespace of `path` and all its operations.
pub fn infer_path(reg: &mut Registry, api: &str, path: &str, schema: &Value) -> (r: Result<PathDef, GenError>)
    ensures
        match path_spec(old(reg)@, api@, path@, *schema) {
            Ok((p, reg1)) => r matches Ok(x) && x@ == p && path_wf(x) && final(reg)@ == reg1,
            Err(k) => r matches Err(e) && e@ == k,
        },
{
    let verbs = match schema {
        Value::Mapping(verbs) => verbs,
        _ => {
            return Err(GenError::new(ErrorKind::Schema, path));
        },
    };
    let ghost reg0 = reg@;
    let mut operations: Vec<Operation> = Vec::new();
    let mut i: usize = 0;
    assert(operations_view(operations@) =~= Seq::empty());
    while i < verbs.len()
        invariant
            reg0 == old(reg)@,
            *schema == Value::Mapping(*verbs),
            i <= verbs@.len(),
            path_operations(reg0, verbs@.subrange(0, i as int)) == Ok::<_, ErrorModel>(
                (operations_view(operations@), reg@),
            ),
            forall|j: int| 0 <= j < operations@.len() ==> operation_wf(#[trigger] operations@[j]),
        decreases verbs.len() - i,
    {
        assert(verbs@.subrange(0, i + 1).drop_last() =~= verbs@.subrange(0, i as int));
        let method = match &verbs[i].0 {
            Value::Str(m) => m,
            _ => {
                proof {
                    lemma_operations_error_extends(reg0, verbs@, i + 1);
                }
                return Err(GenError::new(ErrorKind::Schema, "method must be a string"));
            },
        };
        let inferred = infer_method(reg, method.as_str(), &verbs[i].1);
        let op = match inferred {
            Ok(op) => op,
            Err(e) => {
                proof {
                    lemma_operations_error_extends(reg0, verbs@, i + 1);
                }
                return Err(e);
            },
        };
        let ghost before = operations@;
        operations.push(op);
        assert(operations@.drop_last() =~= before);
        assert(operations_view(operations@) =~= operations_view(before).push(op@));
        i = i + 1;
    }
    assert(verbs@.subrange(0, i as int) =~= verbs@);
    Ok(PathDef {
        path: path.to_owned(),
        struct_name: struct_ident(api, path),
        accessor: fn_ident(path),
        operations,
    })
}

} // verus!

verus! {

/// Building the operations of a path keeps every shape of the registry once.
pub proof fn lemma_path_registry(reg: Seq<Shape>, verbs: Seq<(Value, Value)>)
    requires
        registry_wf(reg),
    ensures
        path_operations(reg, verbs) matches Ok((_, out)) ==> registry_wf(out),
    decreases verbs.len(),
{
    if verbs.len() > 0 {
        lemma_path_registry(reg, verbs.drop_last());
        if let Ok((ops, reg1)) = path_operations(reg, verbs.drop_last()) {
            if let Value::Str(m) = verbs.last().0 {
                lemma_method_registry(reg1, m@, verbs.last().1);
            }
        }
    }
}

} // verus!
