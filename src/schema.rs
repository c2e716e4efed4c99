use vstd::prelude::*;

use crate::path::{infer_path, lemma_path_registry, path_spec, path_wf, PathDef, PathModel};
use crate::types::{registry_wf, ErrorKind, ErrorModel, GenError, Registry, Shape};
use crate::value::{lookup, lookup_text, Value};

verus! {

/// The URL of the first server, when there is one.
pub open spec fn base_url(doc: Value) -> Option<Seq<char>> {
    match lookup(doc, "servers"@) {
        Some(Value::List(servers)) => if servers@.len() > 0 {
            lookup_text(servers@[0], "url"@)
        } else {
            None
        },
        _ => None,
    }
}

/// The paths of the API, in declared order.
pub open spec fn api_paths(reg: Seq<Shape>, api: Seq<char>, paths: Seq<(Value, Value)>) -> Result<(Seq<PathModel>, Seq<Shape>), ErrorModel>
    decreases paths.len(),
{
    if paths.len() == 0 {
        Ok((Seq::empty(), reg))
    } else {
        match api_paths(reg, api, paths.drop_last()) {
            Err(e) => Err(e),
            Ok((done, reg1)) => match paths.last().0 {
                Value::Str(p) => match path_spec(reg1, api, p@, paths.last().1) {
                    Ok((pm, reg2)) => Ok((done.push(pm), reg2)),
                    Err(e) => Err(e),
                },
                _ => Err((ErrorKind::Schema, "path must be a string"@)),
            },
        }
    }
}

/// The mathematical form of an API: base URL, paths, and generated object types.
pub type ApiModel = (Seq<char>, Seq<PathModel>, Seq<Shape>);

/// The whole API of a document: the server URL is read before any path.
pub open spec fn api_spec(api: Seq<char>, doc: Value) -> Result<ApiModel, ErrorModel> {
    match base_url(doc) {
        None => Err((ErrorKind::Schema, "must have at least one server URL"@)),
        Some(url) => match lookup(doc, "paths"@) {
            Some(Value::Mapping(paths)) => match api_paths(Seq::empty(), api, paths@) {
                Ok((ps, reg)) => Ok((url, ps, reg)),
                Err(e) => Err(e),
            },
            _ => Err((ErrorKind::Schema, "paths must be a map"@)),
        },
    }
}

/// The generated representation of one API.
pub struct ApiDef {
    pub base_url: String,
    pub paths: Vec<PathDef>,
    /// The generated object types, each shape once, dependencies first.
    pub types: Registry,
}

pub open spec fn paths_view(ps: Seq<PathDef>) -> Seq<PathModel> {
    ps.map_values(|p: PathDef| p@)
}

impl View for ApiDef {
    type V = ApiModel;

    open spec fn view(&self) -> ApiModel {
        (self.base_url@, paths_view(self.paths@), self.types@)
    }
}

/// The URL of the first server, or a schema error.
pub fn server_url(doc: &Value) -> (r: Result<String, GenError>)
    ensures
        match base_url(*doc) {
            Some(u) => r matches Ok(x) && x@ == u,
            None => r matches Err(e) && e@ == (ErrorKind::Schema, "must have at least one server URL"@),
        },
{
    let servers = match doc.get("servers") {
        Some(v) => match v {
            Value::List(s) => s,
            _ => {
                return Err(GenError::new(ErrorKind::Schema, "must have at least one server URL"));
            },
        },
        None => {
            return Err(GenError::new(ErrorKind::Schema, "must have at least one server URL"));
        },
    };
    if servers.len() == 0 {
        return Err(GenError::new(ErrorKind::Schema, "must have at least one server URL"));
    }
    match servers[0].get_text("url") {
        Some(u) => Ok(u.clone()),
        None => Err(GenError::new(ErrorKind::Schema, "must have at least one server URL")),
    }
}

proof fn lemma_paths_error_extends(reg: Seq<Shape>, api: Seq<char>, paths: Seq<(Value, Value)>, i: int)
    requires
        0 <= i <= paths.len(),
        api_paths(reg, api, paths.subrange(0, i)) is Err,
    ensures
        api_paths(reg, api, paths) == api_paths(reg, api, paths.subrange(0, i)),
    decreases paths.len() - i,
{
    if i < paths.len() {
        assert(paths.subrange(0, i + 1).drop_last() =~= paths.subrange(0, i));
        lemma_paths_error_extends(reg, api, paths, i + 1);
    } else {
        assert(paths.subrange(0, i) =~= paths);
    }
}

/// Generates the representation of the API named `api` from its document:
/// the base URL, every path with its operations, and the object types they
/// need. Any failure aborts the whole run.
pub fn infer_v3(api: &str, doc: &Value) -> (r: Result<ApiDef, GenError>)
    ensures
        match api_spec(api@, *doc) {
            Ok(m) => r matches Ok(x) && x@ == m && registry_wf(x.types@) && forall|i: int|
                0 <= i < x.paths@.len() ==> path_wf(#[trigger] x.paths@[i]),
            Err(k) => r matches Err(e) && e@ == k,
        },
        base_url(*doc) is None ==> (r matches Err(e) && e@ == (ErrorKind::Schema, "must have at least one server URL"@)),
{
    let url = server_url(doc)?;
    let paths = match doc.get("paths") {
        Some(v) => match v {
            Value::Mapping(p) => p,
            _ => {
                return Err(GenError::new(ErrorKind::Schema, "paths must be a map"));
            },
        },
        None => {
            return Err(GenError::new(ErrorKind::Schema, "paths must be a map"));
        },
    };
    assert(lookup(*doc, "paths"@) == Some(Value::Mapping(*paths)));
    let mut reg = Registry { defs: Vec::new() };
    assert(reg@ =~= Seq::empty());
    let mut out: Vec<PathDef> = Vec::new();
    let mut i: usize = 0;
    assert(paths_view(out@) =~= Seq::empty());
    while i < paths.len()
        invariant
            base_url(*doc) == Some(url@),
            lookup(*doc, "paths"@) == Some(Value::Mapping(*paths)),
            i <= paths@.len(),
            api_paths(Seq::empty(), api@, paths@.subrange(0, i as int)) == Ok::<_, ErrorModel>(
                (paths_view(out@), reg@),
            ),
            forall|j: int| 0 <= j < out@.len() ==> path_wf(#[trigger] out@[j]),
        decreases paths.len() - i,
    {
        assert(paths@.subrange(0, i + 1).drop_last() =~= paths@.subrange(0, i as int));
        let p = match &paths[i].0 {
            Value::Str(p) => p,
            _ => {
                proof {
                    lemma_paths_error_extends(Seq::empty(), api@, paths@, i + 1);
                }
                return Err(GenError::new(ErrorKind::Schema, "path must be a string"));
            },
        };
        let inferred = infer_path(&mut reg, api, p.as_str(), &paths[i].1);
        let def = match inferred {
            Ok(d) => d,
            Err(e) => {
                proof {
                    lemma_paths_error_extends(Seq::empty(), api@, paths@, i + 1);
                }
                return Err(e);
            },
        };
        let ghost before = out@;
        out.push(def);
        assert(out@.drop_last() =~= before);
        assert(paths_view(out@) =~= paths_view(before).push(def@));
        i = i + 1;
    }
    assert(paths@.subrange(0, i as int) =~= paths@);
    proof {
        lemma_paths_registry(Seq::empty(), api@, paths@);
    }
    Ok(ApiDef { base_url: url, paths: out, types: reg })
}

} // verus!

verus! {

/// A document whose server list is empty fails with a schema error before
/// any of its paths is looked at.
pub proof fn lemma_empty_servers_fail(api: Seq<char>, doc: Value)
    requires
        lookup(doc, "servers"@) matches Some(Value::List(servers)) && servers@.len() == 0,
    ensures
        api_spec(api, doc) == Err::<ApiModel, ErrorModel>((ErrorKind::Schema, "must have at least one server URL"@)),
{
}

} // verus!

verus! {

/// Building the paths of a document keeps every shape of the registry once.
pub proof fn lemma_paths_registry(reg: Seq<Shape>, api: Seq<char>, paths: Seq<(Value, Value)>)
    requires
        registry_wf(reg),
    ensures
        api_paths(reg, api, paths) matches Ok((_, out)) ==> registry_wf(out),
    decreases paths.len(),
{
    if paths.len() > 0 {
        lemma_paths_registry(reg, api, paths.drop_last());
        if let Ok((done, reg1)) = api_paths(reg, api, paths.drop_last()) {
            if let Value::Str(p) = paths.last().0 {
                if let Value::Mapping(verbs) = paths.last().1 {
                    lemma_path_registry(reg1, verbs@);
                }
            }
        }
    }
}

} // verus!
