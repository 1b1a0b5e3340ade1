//! The conversation of the interactive loop: what a line of input asks for,
//! what a reply of the model leads to, and what is remembered of both.

use vstd::prelude::*;
use vstd::string::StringExecFns;
use crate::cli::Cli;
use crate::text::{same_ignoring_case, trim, trimmed, upper};
use crate::utility::{copy_optional, copy_tool_call, fix_tool_call, is_fixed, ToolCall};

verus! {

/// Who a message is from.
#[derive(Clone, Copy, Debug, PartialEq, Eq, Structural)]
pub enum MessageRole {
    System,
    User,
    Assistant,
    Tool,
}

/// One message of the conversation.
#[derive(Debug, PartialEq, Eq)]
pub struct ChatMessage {
    pub role: MessageRole,
    pub content: String,
    pub name: Option<String>,
    pub tool_calls: Option<Vec<ToolCall>>,
    pub tool_call_id: Option<String>,
}

/// What the model answered: the message of its first choice.
#[derive(Debug, PartialEq, Eq)]
pub struct AssistantReply {
    pub content: Option<String>,
    pub name: Option<String>,
    pub tool_calls: Option<Vec<ToolCall>>,
}

/// A tool to run for the model: the call's identifier, the function it names,
/// and the arguments it gives.
#[derive(Debug, PartialEq, Eq)]
pub struct ToolRequest {
    pub id: String,
    pub function_name: String,
    pub arguments: Option<String>,
}

/// What a line of input asks for.
#[derive(Debug, PartialEq, Eq)]
pub enum Input {
    /// Leave the loop.
    Exit,
    /// Nothing: read the next line.
    Skip,
    /// Ask the model this.
    Ask(String),
}

/// What to do after a reply of the model.
#[derive(Debug, PartialEq, Eq)]
pub enum Next {
    /// Run these tools, then ask the model again.
    CallTools(Vec<ToolRequest>),
    /// Show this text, then read the next line.
    Say(String),
    /// Read the next line.
    Done,
}

/// The tool that a function name stands for.
#[derive(Clone, Copy, Debug, PartialEq, Eq, Structural)]
pub enum ToolRoute {
    GetDatabaseSchema,
    ExecuteQuery,
    Unknown,
}

/// What came of running a tool.
#[derive(Debug, PartialEq, Eq)]
pub enum ToolOutcome {
    /// The first piece of the result is this text.
    Text(String),
    /// The result has no text first and is marked as an error; this is how
    /// its content prints.
    Error(String),
    /// The result has no text first and is no error.
    Other,
    /// The tool failed, with these words.
    Failed(String),
}

/// What is remembered of a conversation, and what each request to the model
/// is made with.
#[derive(Debug, PartialEq, Eq)]
pub struct ReplSession {
    history: Vec<ChatMessage>,
    model: String,
    max_tokens: i64,
}

/// What a text asks for: to leave where it is `exit` in any letter case;
/// nothing where it is empty; to ask the model the text otherwise.
pub open spec fn input_of(text: Seq<char>) -> Option<Option<Seq<char>>> {
    if upper(text) == upper("exit"@) {
        None
    } else if text.len() == 0 {
        Some(None)
    } else {
        Some(Some(text))
    }
}

/// The tool that a function name stands for.
pub open spec fn route_of(function_name: Seq<char>) -> ToolRoute {
    if function_name == "mysqlGetDatabaseSchema"@ {
        ToolRoute::GetDatabaseSchema
    } else if function_name == "mysqlExecuteQuery"@ {
        ToolRoute::ExecuteQuery
    } else {
        ToolRoute::Unknown
    }
}

/// The tools to run for a reply's calls: one for each call that names a
/// function, in the order of the calls.
pub open spec fn requests_of(calls: Seq<ToolCall>) -> Seq<ToolRequest>
    decreases calls.len(),
{
    if calls.len() == 0 {
        Seq::empty()
    } else {
        match calls.last().function.name {
            Some(function_name) => requests_of(calls.drop_last()).push(
                ToolRequest {
                    id: calls.last().id,
                    function_name,
                    arguments: calls.last().function.arguments,
                },
            ),
            None => requests_of(calls.drop_last()),
        }
    }
}

/// Whether `fixed` holds the calls of `calls`, each mended.
pub open spec fn all_fixed(calls: Seq<ToolCall>, fixed: Seq<ToolCall>) -> bool {
    fixed.len() == calls.len() && forall|i: int|
        0 <= i < calls.len() ==> is_fixed(calls[i], fixed[i])
}

/// Whether `message` is what is remembered of `reply`: a message of the
/// assistant with the reply's content, or none, its name, and its calls, mended.
pub open spec fn remembers(message: ChatMessage, reply: AssistantReply) -> bool {
    &&& message.role == MessageRole::Assistant
    &&& match reply.content {
        Some(content) => message.content == content,
        None => message.content@.len() == 0,
    }
    &&& message.name == reply.name
    &&& match reply.tool_calls {
        Some(calls) => message.tool_calls is Some && all_fixed(calls@, message.tool_calls->0@),
        None => message.tool_calls is None,
    }
    &&& message.tool_call_id is None
}

/// The text that goes back to the model for a tool that was run.
pub open spec fn content_of(function_name: Seq<char>, outcome: ToolOutcome) -> Seq<char> {
    match outcome {
        ToolOutcome::Text(text) => text@,
        ToolOutcome::Error(printed) => "Tool error "@ + function_name + ": "@ + printed@,
        ToolOutcome::Other => "Tool returned non-text or empty content"@,
        ToolOutcome::Failed(words) => "Error executing tool "@ + function_name + ": "@ + words@,
    }
}

/// What a text asks for: to leave where it is `exit` in any letter case;
/// nothing where it is empty; to ask the model the text otherwise.
pub fn input_from(text: String) -> (input: Input)
    ensures
        match input {
            Input::Exit => input_of(text@) is None,
            Input::Skip => input_of(text@) == Some(None::<Seq<char>>),
            Input::Ask(asked) => input_of(text@) == Some(Some(asked@)) && asked == text,
        },
{
    if same_ignoring_case(text.as_str(), "exit") {
        Input::Exit
    } else if text.as_str().is_empty() {
        Input::Skip
    } else {
        Input::Ask(text)
    }
}

/// What a line of input asks for: what its text asks for, once the white
/// space around it is taken off.
pub fn read_input(line: &str) -> (input: Input)
    ensures
        match input {
            Input::Exit => input_of(trimmed(line@)) is None,
            Input::Skip => input_of(trimmed(line@)) == Some(None::<Seq<char>>),
            Input::Ask(asked) => input_of(trimmed(line@)) == Some(Some(asked@)),
        },
{
    input_from(trim(line))
}

/// The tool that a function name stands for.
pub fn route_tool(function_name: &str) -> (route: ToolRoute)
    ensures
        route == route_of(function_name@),
{
    let name = crate::text::chars_of(function_name);
    if crate::text::spells(&name, "mysqlGetDatabaseSchema") {
        ToolRoute::GetDatabaseSchema
    } else if crate::text::spells(&name, "mysqlExecuteQuery") {
        ToolRoute::ExecuteQuery
    } else {
        ToolRoute::Unknown
    }
}

/// The tools to run for a reply's calls: one for each call that names a
/// function, in the order of the calls.
pub fn tool_requests(calls: &Vec<ToolCall>) -> (requests: Vec<ToolRequest>)
    ensures
        requests@ == requests_of(calls@),
{
    let mut requests: Vec<ToolRequest> = Vec::new();
    let mut i: usize = 0;
    while i < calls.len()
        invariant
            i <= calls.len(),
            requests@ == requests_of(calls@.take(i as int)),
        decreases calls.len() - i,
    {
        proof {
            assert(calls@.take(i + 1).drop_last() == calls@.take(i as int));
        }
        match &calls[i].function.name {
            Some(function_name) => {
                requests.push(
                    ToolRequest {
                        id: calls[i].id.clone(),
                        function_name: function_name.clone(),
                        arguments: copy_optional(&calls[i].function.arguments),
                    },
                );
            },
            None => {},
        }
        i += 1;
    }
    assert(calls@.take(calls.len() as int) == calls@);
    requests
}

/// The calls, each mended.
pub fn fix_tool_calls(calls: &Vec<ToolCall>) -> (fixed: Vec<ToolCall>)
    ensures
        all_fixed(calls@, fixed@),
{
    let mut fixed: Vec<ToolCall> = Vec::new();
    let mut i: usize = 0;
    while i < calls.len()
        invariant
            i <= calls.len(),
            fixed.len() == i,
            forall|k: int| 0 <= k < i ==> is_fixed(calls@[k], fixed@[k]),
        decreases calls.len() - i,
    {
        fixed.push(fix_tool_call(copy_tool_call(&calls[i])));
        i += 1;
    }
    fixed
}

/// The text that goes back to the model for a tool that was run: the text of
/// its result, or a sentence on what went wrong.
pub fn tool_content(function_name: &str, outcome: ToolOutcome) -> (content: String)
    ensures
        content@ == content_of(function_name@, outcome),
{
    match outcome {
        ToolOutcome::Text(text) => text,
        ToolOutcome::Error(printed) => {
            let mut content = String::from_str("Tool error ");
            content.append(function_name);
            content.append(": ");
            content.append(printed.as_str());
            content
        },
        ToolOutcome::Other => String::from_str("Tool returned non-text or empty content"),
        ToolOutcome::Failed(words) => {
            let mut content = String::from_str("Error executing tool ");
            content.append(function_name);
            content.append(": ");
            content.append(words.as_str());
            content
        },
    }
}

/// The answer to a call of the tool that executes a query, where the call
/// gives no parameters.
pub fn missing_parameter(function_name: &str) -> (text: String)
    ensures
        text@ == "Missing required parameter for "@ + function_name@,
{
    String::from_str("Missing required parameter for ").concat(function_name)
}

/// The answer to a call of a tool that there is not.
pub fn unknown_tool(function_name: &str) -> (text: String)
    ensures
        text@ == "Unknown tool: "@ + function_name@,
{
    String::from_str("Unknown tool: ").concat(function_name)
}

impl ReplSession {
    /// The messages so far, oldest first.
    pub closed spec fn messages(self) -> Seq<ChatMessage> {
        self.history@
    }

    /// The model that is asked.
    pub closed spec fn asked_model(self) -> String {
        self.model
    }

    /// The most tokens that an answer may have.
    pub closed spec fn token_limit(self) -> i64 {
        self.max_tokens
    }

    /// A conversation that starts with the system prompt, for the model and
    /// the token limit of the arguments.
    pub fn new(system_prompt: &str, args: &Cli) -> (session: ReplSession)
        ensures
            session.messages().len() == 1,
            session.messages()[0].role == MessageRole::System,
            session.messages()[0].content@ == system_prompt@,
            session.messages()[0].name is None,
            session.messages()[0].tool_calls is None,
            session.messages()[0].tool_call_id is None,
            session.asked_model() == args.model,
            session.token_limit() == args.max_tokens,
    {
        let mut history: Vec<ChatMessage> = Vec::new();
        history.push(
            ChatMessage {
                role: MessageRole::System,
                content: String::from_str(system_prompt),
                name: None,
                tool_calls: None,
                tool_call_id: None,
            },
        );
        ReplSession { history, model: args.model.clone(), max_tokens: args.max_tokens }
    }

    /// The messages so far, oldest first.
    pub fn history(&self) -> (history: &Vec<ChatMessage>)
        ensures
            history@ == self.messages(),
    {
        &self.history
    }

    /// The model that is asked.
    pub fn model(&self) -> (model: &String)
        ensures
            *model == self.asked_model(),
    {
        &self.model
    }

    /// The most tokens that an answer may have.
    pub fn max_tokens(&self) -> (limit: i64)
        ensures
            limit == self.token_limit(),
    {
        self.max_tokens
    }

    /// Remembers what the user asks.
    pub fn ask(&mut self, text: String)
        ensures
            final(self).asked_model() == old(self).asked_model(),
            final(self).token_limit() == old(self).token_limit(),
            final(self).messages() == old(self).messages().push(
                (ChatMessage {
                    role: MessageRole::User,
                    content: text,
                    name: None,
                    tool_calls: None,
                    tool_call_id: None,
                }),
            ),
    {
        self.history.push(
            ChatMessage {
                role: MessageRole::User,
                content: text,
                name: None,
                tool_calls: None,
                tool_call_id: None,
            },
        );
    }

    /// Remembers what the model answered, and says what to do next: run the
    /// tools that it calls, where it calls any; show its text, where it has
    /// some; nothing otherwise.
    pub fn reply(&mut self, reply: AssistantReply) -> (next: Next)
        ensures
            final(self).asked_model() == old(self).asked_model(),
            final(self).token_limit() == old(self).token_limit(),
            final(self).messages().len() == old(self).messages().len() + 1,
            final(self).messages().drop_last() == old(self).messages(),
            remembers(final(self).messages().last(), reply),
            match reply.tool_calls {
                Some(calls) => next matches Next::CallTools(requests) && requests@ == requests_of(
                    calls@,
                ),
                None => match reply.content {
                    Some(text) => next == Next::Say(text),
                    None => next is Done,
                },
            },
    {
        let content = match &reply.content {
            Some(content) => content.clone(),
            None => String::new(),
        };
        let tool_calls = match &reply.tool_calls {
            Some(calls) => Some(fix_tool_calls(calls)),
            None => None,
        };
        let ghost before = self.history@;
        self.history.push(
            ChatMessage {
                role: MessageRole::Assistant,
                content,
                name: copy_optional(&reply.name),
                tool_calls,
                tool_call_id: None,
            },
        );
        assert(self.history@.drop_last() == before);
        match reply.tool_calls {
            Some(calls) => Next::CallTools(tool_requests(&calls)),
            None => match reply.content {
                Some(text) => Next::Say(text),
                None => Next::Done,
            },
        }
    }

    /// Remembers what a tool gave back for a request.
    pub fn tool_result(&mut self, request: ToolRequest, content: String)
        ensures
            final(self).asked_model() == old(self).asked_model(),
            final(self).token_limit() == old(self).token_limit(),
            final(self).messages() == old(self).messages().push(
                (ChatMessage {
                    role: MessageRole::Tool,
                    content,
                    name: Some(request.function_name),
                    tool_calls: None,
                    tool_call_id: Some(request.id),
                }),
            ),
    {
        self.history.push(
            ChatMessage {
                role: MessageRole::Tool,
                content,
                name: Some(request.function_name),
                tool_calls: None,
                tool_call_id: Some(request.id),
            },
        );
    }

    /// Forgets the last message, after a request to the model failed.
    pub fn forget_last(&mut self)
        ensures
            final(self).asked_model() == old(self).asked_model(),
            final(self).token_limit() == old(self).token_limit(),
            old(self).messages().len() == 0 ==> final(self).messages() == old(self).messages(),
            old(self).messages().len() > 0 ==> final(self).messages() == old(
                self,
            ).messages().drop_last(),
    {
        self.history.pop();
    }
}

} // verus!
