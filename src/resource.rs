use vstd::prelude::*;
use crate::entity::{clone_opt_string, opt_view};

verus! {

/// Address of the usage instructions served as a resource.
pub const INSTRUCTION_URI: &'static str = "str://mcp-rust-docs/instruction";

pub const INSTRUCTION_NAME: &'static str = "Instruction";

pub const INSTRUCTION_DESCRIPTION: &'static str =
    "Mandatory instructions for AI agents to use MCP tools when handling Rust documentation queries";

pub const TEXT_MIME_TYPE: &'static str = "text/plain";

/// The message of a lookup that found nothing starts with this text, followed by the address.
pub const RESOURCE_NOT_FOUND_PREFIX: &'static str = "Resource not found: ";

/// A static text resource.
pub struct Resource {
    pub uri: String,
    pub name: String,
    pub description: Option<String>,
    pub mime_type: Option<String>,
    pub size: Option<u32>,
    pub text: String,
}

pub struct ResourceView {
    pub uri: Seq<char>,
    pub name: Seq<char>,
    pub description: Option<Seq<char>>,
    pub mime_type: Option<Seq<char>>,
    pub size: Option<u32>,
    pub text: Seq<char>,
}

impl View for Resource {
    type V = ResourceView;

    open spec fn view(&self) -> ResourceView {
        ResourceView {
            uri: self.uri@,
            name: self.name@,
            description: opt_view(self.description),
            mime_type: opt_view(self.mime_type),
            size: self.size,
            text: self.text@,
        }
    }
}

impl Resource {
    /// A copy of the resource with the same field values.
    pub fn duplicate(&self) -> (r: Resource)
        ensures
            r@ == self@,
    {
        Resource {
            uri: self.uri.clone(),
            name: self.name.clone(),
            description: clone_opt_string(&self.description),
            mime_type: clone_opt_string(&self.mime_type),
            size: self.size,
            text: self.text.clone(),
        }
    }
}

/// The instruction resource holding the given text.
pub open spec fn instruction_resource(text: Seq<char>) -> ResourceView {
    ResourceView {
        uri: INSTRUCTION_URI@,
        name: INSTRUCTION_NAME@,
        description: Some(INSTRUCTION_DESCRIPTION@),
        mime_type: Some(TEXT_MIME_TYPE@),
        size: None,
        text: text,
    }
}

/// The static resources that the server offers, at most one per address.
pub struct ResourceMap {
    inner: Vec<Resource>,
}

impl View for ResourceMap {
    type V = Seq<ResourceView>;

    closed spec fn view(&self) -> Seq<ResourceView> {
        self.inner@.map_values(|r: Resource| r@)
    }
}

impl ResourceMap {
    /// No two resources share an address.
    pub open spec fn wf(&self) -> bool {
        forall|i: int, j: int| 0 <= i < j < self@.len() ==> #[trigger] self@[i].uri != #[trigger] self@[j].uri
    }

    /// The map that holds the instruction resource with the given text.
    pub fn new(instruction: String) -> (r: ResourceMap)
        ensures
            r.wf(),
            r@ == seq![instruction_resource(instruction@)],
    {
        let resource = Resource {
            uri: INSTRUCTION_URI.to_owned(),
            name: INSTRUCTION_NAME.to_owned(),
            description: Some(INSTRUCTION_DESCRIPTION.to_owned()),
            mime_type: Some(TEXT_MIME_TYPE.to_owned()),
            size: None,
            text: instruction,
        };
        let mut inner: Vec<Resource> = Vec::new();
        inner.push(resource);
        let r = ResourceMap { inner };
        assert(r@ =~= seq![instruction_resource(instruction@)]);
        r
    }

    /// Every resource, in the order held.
    pub fn list_resources(&self) -> (r: Vec<Resource>)
        ensures
            r@.map_values(|x: Resource| x@) == self@,
    {
        let mut out: Vec<Resource> = Vec::new();
        let mut i: usize = 0;
        while i < self.inner.len()
            invariant
                i <= self.inner.len(),
                out@.map_values(|x: Resource| x@) == self@.take(i as int),
            decreases self.inner.len() - i,
        {
            out.push(self.inner[i].duplicate());
            assert(self@.take(i as int + 1) == self@.take(i as int).push(self@[i as int]));
            assert(out@.map_values(|x: Resource| x@) =~= self@.take(i as int + 1));
            i = i + 1;
        }
        assert(self@.take(i as int) =~= self@);
        out
    }

    /// The resource at the address, or a not-found message naming it.
    pub fn read_resource(&self, uri: &str) -> (r: Result<Resource, String>)
        requires
            self.wf(),
        ensures
            match r {
                Ok(found) => exists|k: int| 0 <= k < self@.len() && #[trigger] self@[k] == found@ && found@.uri == uri@,
                Err(msg) => (forall|k: int| 0 <= k < self@.len() ==> #[trigger] self@[k].uri != uri@)
                    && msg@ == RESOURCE_NOT_FOUND_PREFIX@ + uri@,
            },
    {
        let key = uri.to_owned();
        let mut i: usize = 0;
        while i < self.inner.len()
            invariant
                i <= self.inner.len(),
                key@ == uri@,
                forall|k: int| 0 <= k < i ==> #[trigger] self@[k].uri != uri@,
            decreases self.inner.len() - i,
        {
            if self.inner[i].uri == key {
                let found = self.inner[i].duplicate();
                assert(self@[i as int] == found@);
                return Ok(found);
            }
            i = i + 1;
        }
        let mut msg = RESOURCE_NOT_FOUND_PREFIX.to_owned();
        msg.append(uri);
        Err(msg)
    }
}

} // verus!
