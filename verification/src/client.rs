//! What the program sends to the model: where to, with which credentials, and
//! with which tools.

use vstd::prelude::*;
use vstd::string::StringExecFns;
use crate::json::{find_member, lookup, members_view, Json, JsonView, Member};
use crate::text::{trim, trimmed};

verus! {

/// A tool as a tool server describes it: its name, its description, and the
/// schema of its input, a JSON object.
#[derive(Debug, PartialEq, Eq)]
pub struct McpTool {
    pub name: String,
    pub description: String,
    pub input_schema: Vec<Member>,
}

/// The parameters of a function that the model can call.
#[derive(Debug, PartialEq, Eq)]
pub enum FunctionParameters {
    /// An object without properties, for a function that takes nothing.
    Empty,
    /// The schema that the tool gave for its input.
    Schema(Vec<Member>),
}

/// A tool as the model is told of it.
#[derive(Debug, PartialEq, Eq)]
pub struct Tool {
    pub name: String,
    pub description: Option<String>,
    pub parameters: FunctionParameters,
}

/// The sender of chat completions: the address of the service, the value of
/// the authorization header, and the tools on offer.
#[derive(Debug, PartialEq, Eq)]
pub struct Client {
    base_url: String,
    authorization: String,
    tools: Vec<Tool>,
}

/// Whether a tool's input schema says that the tool takes nothing: it is
/// empty, or its title is `EmptyObject`.
pub open spec fn takes_nothing(schema: Seq<crate::json::MemberView>) -> bool {
    schema.len() == 0 || lookup(schema, "title"@) == Some(JsonView::Text("EmptyObject"@))
}

/// The value of the authorization header for a key: the key as a bearer token.
pub fn bearer(key: &str) -> (value: String)
    ensures
        value@ == "Bearer "@ + key@,
{
    String::from_str("Bearer ").concat(key)
}

impl Client {
    /// The address of the service.
    pub closed spec fn base(self) -> Seq<char> {
        self.base_url@
    }

    /// The value of the authorization header.
    pub closed spec fn credentials(self) -> Seq<char> {
        self.authorization@
    }

    /// The tools on offer.
    pub closed spec fn offered(self) -> Seq<Tool> {
        self.tools@
    }

    /// A client for the service at `base_url` that authorizes itself with the
    /// key, taken without the white space around it, as a bearer token. It
    /// offers no tools yet.
    pub fn create(base_url: String, api_key: String) -> (client: Client)
        ensures
            client.base() == base_url@,
            client.credentials() == "Bearer "@ + trimmed(api_key@),
            client.offered().len() == 0,
    {
        let key = trim(api_key.as_str());
        Client { base_url, authorization: bearer(key.as_str()), tools: Vec::new() }
    }

    /// Offers one more tool. An empty description is no description, and a
    /// tool that takes nothing gets the empty parameters; any other tool keeps
    /// its input schema.
    pub fn add_tool(&mut self, tool: McpTool)
        ensures
            final(self).base() == old(self).base(),
            final(self).credentials() == old(self).credentials(),
            final(self).offered().len() == old(self).offered().len() + 1,
            final(self).offered().drop_last() == old(self).offered(),
            final(self).offered().last().name == tool.name,
            match final(self).offered().last().description {
                Some(description) => description == tool.description && tool.description@.len()
                    > 0,
                None => tool.description@.len() == 0,
            },
            match final(self).offered().last().parameters {
                FunctionParameters::Empty => takes_nothing(members_view(tool.input_schema@)),
                FunctionParameters::Schema(schema) => schema == tool.input_schema
                    && !takes_nothing(members_view(tool.input_schema@)),
            },
    {
        let description = if tool.description.as_str().is_empty() {
            None
        } else {
            Some(tool.description)
        };
        let title = String::from_str("title");
        let nothing = tool.input_schema.len() == 0 || match find_member(&tool.input_schema, &title) {
            Some(Json::Text(text)) => *text == String::from_str("EmptyObject"),
            _ => false,
        };
        let parameters = if nothing {
            FunctionParameters::Empty
        } else {
            FunctionParameters::Schema(tool.input_schema)
        };
        let ghost before = self.tools@;
        self.tools.push(Tool { name: tool.name, description, parameters });
        assert(self.tools@.drop_last() == before);
    }

    /// The address that chat completions are posted to.
    pub fn endpoint(&self) -> (url: String)
        ensures
            url@ == self.base() + "/chat/completions"@,
    {
        self.base_url.clone().concat("/chat/completions")
    }

    /// The value of the authorization header.
    pub fn authorization(&self) -> (value: &String)
        ensures
            value@ == self.credentials(),
    {
        &self.authorization
    }

    /// The tools to send with a request: none where there are none on offer.
    pub fn tools(&self) -> (tools: Option<&Vec<Tool>>)
        ensures
            match tools {
                Some(tools) => tools@ == self.offered() && tools@.len() > 0,
                None => self.offered().len() == 0,
            },
    {
        if self.tools.len() == 0 {
            None
        } else {
            Some(&self.tools)
        }
    }
}

} // verus!
