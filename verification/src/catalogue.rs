//! The catalogue: an immutable tree of resources, operations, parameter
//! declarations and request-body declarations, loaded once and read by
//! the binder. Lookup of an operation by resource and operation name
//! lives here too.

use vstd::prelude::*;

verus! {

/// One declared operation parameter.
#[derive(Debug, Clone)]
pub struct ParamDef {
    /// The wire name used in the path template, query or header.
    pub param_name: String,
    /// The logical name the supplied arguments are keyed by.
    pub name: String,
    /// The user-facing flag, used in error messages.
    pub flag: String,
    /// Where the parameter goes: `path`, `query` or `header`; anything
    /// else is inert.
    pub location: String,
    /// Whether a value must be supplied.
    pub required: bool,
    /// The declared schema type, for display only.
    pub schema_type: String,
    /// Whether the parameter accepts multiple values.
    pub is_array: bool,
}

/// One declared request body.
#[derive(Debug, Clone)]
pub struct RequestBodyDef {
    /// Whether a body argument must be supplied.
    pub required: bool,
    /// The declared content type; it decides how body input is parsed.
    pub content_type: String,
    /// The declared schema type, for display only.
    pub schema_type: String,
}

/// One callable endpoint.
#[derive(Debug, Clone)]
pub struct Operation {
    pub name: String,
    pub method: String,
    /// The path template; may contain `{param}` placeholder tokens.
    pub path: String,
    pub summary: Option<String>,
    pub description: Option<String>,
    pub tags: Vec<String>,
    pub deprecated: bool,
    pub params: Vec<ParamDef>,
    pub request_body: Option<RequestBodyDef>,
}

/// A named group of operations.
#[derive(Debug, Clone)]
pub struct Resource {
    pub name: String,
    pub ops: Vec<Operation>,
}

/// The whole catalogue.
#[derive(Debug, Clone)]
pub struct CommandTree {
    pub version: u32,
    pub base_url: String,
    pub resources: Vec<Resource>,
}

pub ghost struct ParamDefView {
    pub param_name: Seq<char>,
    pub name: Seq<char>,
    pub flag: Seq<char>,
    pub location: Seq<char>,
    pub required: bool,
    pub schema_type: Seq<char>,
    pub is_array: bool,
}

pub ghost struct RequestBodyDefView {
    pub required: bool,
    pub content_type: Seq<char>,
    pub schema_type: Seq<char>,
}

pub ghost struct OperationView {
    pub name: Seq<char>,
    pub method: Seq<char>,
    pub path: Seq<char>,
    pub params: Seq<ParamDefView>,
    pub request_body: Option<RequestBodyDefView>,
}

pub ghost struct ResourceView {
    pub name: Seq<char>,
    pub ops: Seq<OperationView>,
}

pub ghost struct CommandTreeView {
    pub base_url: Seq<char>,
    pub resources: Seq<ResourceView>,
}

impl View for ParamDef {
    type V = ParamDefView;

    open spec fn view(&self) -> ParamDefView {
        ParamDefView {
            param_name: self.param_name@,
            name: self.name@,
            flag: self.flag@,
            location: self.location@,
            required: self.required,
            schema_type: self.schema_type@,
            is_array: self.is_array,
        }
    }
}

impl View for RequestBodyDef {
    type V = RequestBodyDefView;

    open spec fn view(&self) -> RequestBodyDefView {
        RequestBodyDefView {
            required: self.required,
            content_type: self.content_type@,
            schema_type: self.schema_type@,
        }
    }
}

impl View for Operation {
    type V = OperationView;

    open spec fn view(&self) -> OperationView {
        OperationView {
            name: self.name@,
            method: self.method@,
            path: self.path@,
            params: self.params@.map_values(|p: ParamDef| p@),
            request_body: match self.request_body {
                Some(b) => Some(b@),
                None => None,
            },
        }
    }
}

impl View for Resource {
    type V = ResourceView;

    open spec fn view(&self) -> ResourceView {
        ResourceView { name: self.name@, ops: self.ops@.map_values(|o: Operation| o@) }
    }
}

impl View for CommandTree {
    type V = CommandTreeView;

    open spec fn view(&self) -> CommandTreeView {
        CommandTreeView {
            base_url: self.base_url@,
            resources: self.resources@.map_values(|r: Resource| r@),
        }
    }
}

/// The first resource named `name`, if any.
pub open spec fn spec_find_resource(rs: Seq<ResourceView>, name: Seq<char>) -> Option<ResourceView>
    decreases rs.len(),
{
    if rs.len() == 0 {
        None
    } else if rs[0].name == name {
        Some(rs[0])
    } else {
        spec_find_resource(rs.skip(1), name)
    }
}

/// The first operation named `name`, if any.
pub open spec fn spec_find_operation(ops: Seq<OperationView>, name: Seq<char>) -> Option<
    OperationView,
>
    decreases ops.len(),
{
    if ops.len() == 0 {
        None
    } else if ops[0].name == name {
        Some(ops[0])
    } else {
        spec_find_operation(ops.skip(1), name)
    }
}

/// The operation reached by resource name and operation name.
pub open spec fn spec_find_op(tree: CommandTreeView, res: Seq<char>, op: Seq<char>) -> Option<
    OperationView,
> {
    match spec_find_resource(tree.resources, res) {
        Some(r) => spec_find_operation(r.ops, op),
        None => None,
    }
}

/// Looks an operation up by resource name and operation name; the first
/// resource of that name and, within it, the first operation of that
/// name win.
pub fn find_op<'a>(tree: &'a CommandTree, res: &str, op: &str) -> (r: Option<&'a Operation>)
    ensures
        match r {
            Some(o) => spec_find_op(tree@, res@, op@) == Some(o@),
            None => spec_find_op(tree@, res@, op@) is None,
        },
{
    let ghost all = tree@.resources;
    proof {
        assert(all.skip(0) =~= all);
    }
    let mut i: usize = 0;
    while i < tree.resources.len()
        invariant
            i <= tree.resources.len(),
            all == tree@.resources,
            all.len() == tree.resources.len(),
            spec_find_resource(all.skip(i as int), res@) == spec_find_resource(all, res@),
            forall|j: int| 0 <= j < all.len() ==> all[j] == tree.resources[j]@,
        decreases tree.resources.len() - i,
    {
        let resource = &tree.resources[i];
        if crate::text::str_eq(resource.name.as_str(), res) {
            proof {
                assert(all.skip(i as int)[0] == resource@);
                assert(spec_find_resource(all, res@) == Some(resource@));
            }
            return find_operation(resource, op);
        }
        proof {
            assert(all.skip(i as int).skip(1) =~= all.skip(i + 1));
        }
        i += 1;
    }
    proof {
        assert(all.skip(i as int) =~= Seq::<ResourceView>::empty());
    }
    None
}

/// The first operation of `resource` named `op`, if any.
fn find_operation<'a>(resource: &'a Resource, op: &str) -> (r: Option<&'a Operation>)
    ensures
        match r {
            Some(o) => spec_find_operation(resource@.ops, op@) == Some(o@),
            None => spec_find_operation(resource@.ops, op@) is None,
        },
{
    let ghost all = resource@.ops;
    proof {
        assert(all.skip(0) =~= all);
    }
    let mut i: usize = 0;
    while i < resource.ops.len()
        invariant
            i <= resource.ops.len(),
            all == resource@.ops,
            all.len() == resource.ops.len(),
            spec_find_operation(all.skip(i as int), op@) == spec_find_operation(all, op@),
            forall|j: int| 0 <= j < all.len() ==> all[j] == resource.ops[j]@,
        decreases resource.ops.len() - i,
    {
        let operation = &resource.ops[i];
        if crate::text::str_eq(operation.name.as_str(), op) {
            proof {
                assert(all.skip(i as int)[0] == operation@);
                assert(spec_find_operation(all, op@) == Some(operation@));
            }
            return Some(operation);
        }
        proof {
            assert(all.skip(i as int).skip(1) =~= all.skip(i + 1));
        }
        i += 1;
    }
    proof {
        assert(all.skip(i as int) =~= Seq::<OperationView>::empty());
    }
    None
}

} // verus!
