use airy::cli::{Cli, CliCommand, Database, PromptChoice};
use airy::client::{bearer, Client, FunctionParameters, McpTool, Tool};
use airy::error::{AppError, DecodeError, ErrorKind, McpError, McpErrorKind, Shape};
use airy::json::{Json, Member};
use airy::native_type::Target;
use airy::repl::{
    fix_tool_calls, input_from, missing_parameter, read_input, route_tool, tool_content,
    tool_requests,
    unknown_tool, AssistantReply, ChatMessage, Input, MessageRole, Next, ReplSession, ToolOutcome,
    ToolRequest, ToolRoute,
};
use airy::schema::{describe_column, describe_schema, ColumnInfo, TableInfo};
use airy::tool::ExecuteQueryParams;
use airy::utility::{copy_tool_call, fix_tool_call, ToolCall, ToolCallFunction};

fn cli(mysql: Option<&str>, postgres: Option<&str>, key: Option<&str>) -> Cli {
    Cli {
        openrouter_api_key: key.map(|k| k.to_string()),
        openrouter_base_url: "https://openrouter.ai/api/v1".to_string(),
        model: "mistralai/devstral-small:free".to_string(),
        max_tokens: 1024,
        mysql_url: mysql.map(|u| u.to_string()),
        postgres_url: postgres.map(|u| u.to_string()),
        command: CliCommand::Mcp { sse: false, port: 8080 },
    }
}

fn call(id: &str, name: Option<&str>, arguments: Option<&str>) -> ToolCall {
    ToolCall {
        id: id.to_string(),
        kind: "function".to_string(),
        function: ToolCallFunction {
            name: name.map(|n| n.to_string()),
            arguments: arguments.map(|a| a.to_string()),
        },
    }
}

fn member(key: &str, value: Json) -> Member {
    Member { key: key.to_string(), value }
}

#[test]
fn mysql_takes_precedence() {
    assert_eq!(cli(Some("m"), Some("p"), None).database(), Ok(Database::MySql("m".to_string())));
    assert_eq!(cli(Some("m"), None, None).database(), Ok(Database::MySql("m".to_string())));
    assert_eq!(cli(None, Some("p"), None).database(), Ok(Database::Postgres("p".to_string())));
    assert_eq!(cli(None, None, None).database(), Err(AppError::MissingDatabaseUrl));
}

#[test]
fn a_chat_needs_a_key() {
    assert_eq!(cli(None, None, Some("k")).api_key(), Ok("k".to_string()));
    assert_eq!(cli(None, None, None).api_key(), Err(AppError::MissingApiKey));
}

#[test]
fn system_prompt_is_shown_used_or_built_in() {
    let empty = CliCommand::Chat { system_prompt: Some(String::new()) };
    assert_eq!(empty.system_prompt("built in"), PromptChoice::Show("built in".to_string()));
    let given = CliCommand::Chat { system_prompt: Some("mine".to_string()) };
    assert_eq!(given.system_prompt("built in"), PromptChoice::Use("mine".to_string()));
    let none = CliCommand::Chat { system_prompt: None };
    assert_eq!(none.system_prompt("built in"), PromptChoice::Use("built in".to_string()));
    let server = CliCommand::Mcp { sse: true, port: 1 };
    assert_eq!(server.system_prompt("built in"), PromptChoice::Use("built in".to_string()));
}

#[test]
fn statement_is_the_query_without_white_space_around_it() {
    let params = ExecuteQueryParams::new("  \n SELECT 1 ;\t ".to_string());
    assert_eq!(params.query(), "  \n SELECT 1 ;\t ");
    assert_eq!(params.statement(), "SELECT 1 ;");
    assert_eq!(ExecuteQueryParams::new("   ".to_string()).statement(), "");
}

#[test]
fn white_space_is_what_unicode_says_it_is() {
    let listed = |c: char| {
        let n = c as u32;
        (0x09..=0x0D).contains(&n)
            || n == 0x20
            || n == 0x85
            || n == 0xA0
            || n == 0x1680
            || (0x2000..=0x200A).contains(&n)
            || n == 0x2028
            || n == 0x2029
            || n == 0x202F
            || n == 0x205F
            || n == 0x3000
    };
    let mut text = String::new();
    for n in 0..=0x10FFFFu32 {
        let Some(c) = char::from_u32(n) else { continue };
        text.clear();
        text.push(c);
        text.push('a');
        text.push(c);
        let statement = ExecuteQueryParams::new(text.clone()).statement();
        if listed(c) {
            assert_eq!(statement, "a", "{:x}", n);
        } else {
            assert_eq!(statement, text, "{:x}", n);
        }
    }
    assert_eq!(ExecuteQueryParams::new(" \u{3000}a b\t c\n\u{85}".to_string()).statement(), "a b\t c");
}

#[test]
fn tool_call_without_arguments_gets_the_empty_object() {
    assert_eq!(fix_tool_call(call("1", Some("f"), None)), call("1", Some("f"), Some("{}")));
    assert_eq!(
        fix_tool_call(call("2", None, Some("{\"q\":1}"))),
        call("2", None, Some("{\"q\":1}"))
    );
    assert_eq!(fix_tool_call(call("3", Some("f"), Some(""))), call("3", Some("f"), Some("")));
    assert_eq!(copy_tool_call(&call("4", Some("g"), None)), call("4", Some("g"), None));
}

#[test]
fn app_errors_describe_themselves() {
    assert_eq!(AppError::Internal("x".to_string()).message(), "internal error: x");
    assert_eq!(AppError::Service("x".to_string()).message(), "service error: x");
    assert_eq!(AppError::Request("x".to_string()).message(), "request error: x");
    assert_eq!(AppError::Sql("x".to_string()).message(), "sql error: x");
    assert_eq!(AppError::Io("x".to_string()).message(), "IO error: x");
    assert_eq!(AppError::Json("x".to_string()).message(), "JSON error: x");
    assert_eq!(
        AppError::from_decode(&DecodeError::PayloadParse { words: "w".to_string() }).message(),
        "serde deserialize error: Failed to decode airy::json::MySqlJson value: w"
    );
    assert_eq!(AppError::MissingApiKey.message(), "missing OpenRouter API key");
    assert_eq!(AppError::MissingDatabaseUrl.message(), "missing database URL");
}

#[test]
fn app_errors_become_server_errors() {
    let answer = |kind, message: &str| McpError { kind, message: message.to_string() };
    assert_eq!(
        AppError::Internal("a".to_string()).to_mcp(),
        answer(McpErrorKind::InternalError, "a")
    );
    assert_eq!(
        AppError::Service("b".to_string()).to_mcp(),
        answer(McpErrorKind::InternalError, "b")
    );
    assert_eq!(
        AppError::Request("c".to_string()).to_mcp(),
        answer(McpErrorKind::InvalidRequest, "c")
    );
    assert_eq!(AppError::Sql("d".to_string()).to_mcp(), answer(McpErrorKind::InternalError, "d"));
    assert_eq!(AppError::Io("e".to_string()).to_mcp(), answer(McpErrorKind::InternalError, "e"));
    assert_eq!(AppError::Json("f".to_string()).to_mcp(), answer(McpErrorKind::ParseError, "f"));
    assert_eq!(
        AppError::from_decode(&DecodeError::ShapeMismatch {
            wanted: Shape::Sequence,
            found: Shape::Mapping
        })
        .to_mcp(),
        answer(McpErrorKind::ParseError, "expected a sequence, found a mapping")
    );
    assert_eq!(
        AppError::MissingApiKey.to_mcp(),
        answer(McpErrorKind::InvalidRequest, "Missing OpenRouter API key")
    );
    assert_eq!(
        AppError::MissingDatabaseUrl.to_mcp(),
        answer(McpErrorKind::InvalidRequest, "Missing database URL")
    );
}

#[test]
fn decode_errors_describe_themselves() {
    assert_eq!(
        DecodeError::ValueFailure { target: Target::Uuid, detail: "d".to_string() }.message(),
        "Failed to decode uuid::Uuid value: d"
    );
    assert_eq!(
        DecodeError::PrecisionLoss { mantissa: 1, scale: 2, printed: "0.01".to_string() }
            .message(),
        "Failed to parse Decimal 0.01 as f64"
    );
    assert_eq!(
        DecodeError::RecordPayload { kind: ErrorKind::ValueFailure, reason: "why".to_string() }
            .message(),
        "Failed to decode JSON: why"
    );
    assert_eq!(
        DecodeError::RecordPayload { kind: ErrorKind::ValueFailure, reason: "why".to_string() }
            .kind(),
        ErrorKind::ValueFailure
    );
    assert_eq!(
        DecodeError::FieldSetMismatch {
            expected: vec![],
            present: vec!["only".to_string()],
            missing: "m".to_string()
        }
        .message(),
        "JSON object missing expected keys: expected [], found keys [\"only\"]"
    );
    assert_eq!(
        DecodeError::ShapeMismatch { wanted: Shape::Mapping, found: Shape::Scalar }.message(),
        "expected a mapping, found a scalar"
    );
}

#[test]
fn client_is_made_with_a_bearer_token() {
    let client = Client::create("https://host/v1".to_string(), "  secret\n".to_string());
    assert_eq!(client.authorization(), "Bearer secret");
    assert_eq!(client.endpoint(), "https://host/v1/chat/completions");
    assert_eq!(client.tools(), None);
    assert_eq!(bearer(" k "), "Bearer  k ");
}

#[test]
fn tools_are_added_as_functions() {
    let mut client = Client::create("u".to_string(), "k".to_string());
    client.add_tool(McpTool {
        name: "schema".to_string(),
        description: String::new(),
        input_schema: vec![],
    });
    client.add_tool(McpTool {
        name: "void".to_string(),
        description: "takes nothing".to_string(),
        input_schema: vec![
            member("type", Json::Text("object".to_string())),
            member("title", Json::Text("EmptyObject".to_string())),
        ],
    });
    let schema = || {
        vec![
            member("title", Json::Text("ExecuteQueryParams".to_string())),
            member("type", Json::Text("object".to_string())),
        ]
    };
    client.add_tool(McpTool {
        name: "query".to_string(),
        description: "runs a query".to_string(),
        input_schema: schema(),
    });
    client.add_tool(McpTool {
        name: "odd".to_string(),
        description: "title is no text".to_string(),
        input_schema: vec![member("title", Json::Null)],
    });
    assert_eq!(
        client.tools(),
        Some(&vec![
            Tool { name: "schema".to_string(), description: None, parameters: FunctionParameters::Empty },
            Tool {
                name: "void".to_string(),
                description: Some("takes nothing".to_string()),
                parameters: FunctionParameters::Empty
            },
            Tool {
                name: "query".to_string(),
                description: Some("runs a query".to_string()),
                parameters: FunctionParameters::Schema(schema())
            },
            Tool {
                name: "odd".to_string(),
                description: Some("title is no text".to_string()),
                parameters: FunctionParameters::Schema(vec![member("title", Json::Null)])
            },
        ])
    );
}

#[test]
fn input_is_exit_nothing_or_a_question() {
    assert_eq!(read_input("exit\n"), Input::Exit);
    assert_eq!(read_input("  ExIt  "), Input::Exit);
    assert_eq!(read_input("\n"), Input::Skip);
    assert_eq!(read_input(""), Input::Skip);
    assert_eq!(read_input("  \t "), Input::Skip);
    assert_eq!(read_input(" exit now \n"), Input::Ask("exit now".to_string()));
    assert_eq!(read_input("how many rows?\n"), Input::Ask("how many rows?".to_string()));
    assert_eq!(input_from("EXIT".to_string()), Input::Exit);
    assert_eq!(input_from(" exit".to_string()), Input::Ask(" exit".to_string()));
    assert_eq!(input_from(String::new()), Input::Skip);
}

#[test]
fn tools_are_routed_by_name() {
    assert_eq!(route_tool("mysqlGetDatabaseSchema"), ToolRoute::GetDatabaseSchema);
    assert_eq!(route_tool("mysqlExecuteQuery"), ToolRoute::ExecuteQuery);
    assert_eq!(route_tool("mysqlexecutequery"), ToolRoute::Unknown);
    assert_eq!(route_tool("postgresExecuteQuery"), ToolRoute::Unknown);
    assert_eq!(route_tool(""), ToolRoute::Unknown);
    assert_eq!(unknown_tool("x"), "Unknown tool: x");
    assert_eq!(missing_parameter("mysqlExecuteQuery"), "Missing required parameter for mysqlExecuteQuery");
}

#[test]
fn tool_content_is_the_text_or_what_went_wrong() {
    assert_eq!(tool_content("f", ToolOutcome::Text("[1]".to_string())), "[1]");
    assert_eq!(tool_content("f", ToolOutcome::Error("[]".to_string())), "Tool error f: []");
    assert_eq!(tool_content("f", ToolOutcome::Other), "Tool returned non-text or empty content");
    assert_eq!(
        tool_content("f", ToolOutcome::Failed("sql error: gone".to_string())),
        "Error executing tool f: sql error: gone"
    );
}

#[test]
fn only_calls_that_name_a_function_are_run() {
    let calls = vec![
        call("1", Some("mysqlExecuteQuery"), Some("{}")),
        call("2", None, Some("{}")),
        call("3", Some("other"), None),
    ];
    assert_eq!(
        tool_requests(&calls),
        vec![
            ToolRequest {
                id: "1".to_string(),
                function_name: "mysqlExecuteQuery".to_string(),
                arguments: Some("{}".to_string())
            },
            ToolRequest { id: "3".to_string(), function_name: "other".to_string(), arguments: None },
        ]
    );
    assert_eq!(
        fix_tool_calls(&calls),
        vec![
            call("1", Some("mysqlExecuteQuery"), Some("{}")),
            call("2", None, Some("{}")),
            call("3", Some("other"), Some("{}")),
        ]
    );
}

fn message(role: MessageRole, content: &str) -> ChatMessage {
    ChatMessage {
        role,
        content: content.to_string(),
        name: None,
        tool_calls: None,
        tool_call_id: None,
    }
}

#[test]
fn a_conversation_is_remembered() {
    let args = cli(None, None, None);
    let mut session = ReplSession::new("be kind", &args);
    assert_eq!(session.model(), "mistralai/devstral-small:free");
    assert_eq!(session.max_tokens(), 1024);
    assert_eq!(session.history(), &vec![message(MessageRole::System, "be kind")]);

    session.ask("tables?".to_string());
    let next = session.reply(AssistantReply {
        content: None,
        name: Some("bot".to_string()),
        tool_calls: Some(vec![call("c1", Some("mysqlGetDatabaseSchema"), None)]),
    });
    let request = ToolRequest {
        id: "c1".to_string(),
        function_name: "mysqlGetDatabaseSchema".to_string(),
        arguments: None,
    };
    assert_eq!(
        next,
        Next::CallTools(vec![ToolRequest {
            id: "c1".to_string(),
            function_name: "mysqlGetDatabaseSchema".to_string(),
            arguments: None,
        }])
    );
    session.tool_result(request, "Schema".to_string());
    let said = session.reply(AssistantReply {
        content: Some("one table".to_string()),
        name: None,
        tool_calls: None,
    });
    assert_eq!(said, Next::Say("one table".to_string()));
    assert_eq!(
        session.history(),
        &vec![
            message(MessageRole::System, "be kind"),
            message(MessageRole::User, "tables?"),
            ChatMessage {
                role: MessageRole::Assistant,
                content: String::new(),
                name: Some("bot".to_string()),
                tool_calls: Some(vec![call("c1", Some("mysqlGetDatabaseSchema"), Some("{}"))]),
                tool_call_id: None,
            },
            ChatMessage {
                role: MessageRole::Tool,
                content: "Schema".to_string(),
                name: Some("mysqlGetDatabaseSchema".to_string()),
                tool_calls: None,
                tool_call_id: Some("c1".to_string()),
            },
            message(MessageRole::Assistant, "one table"),
        ]
    );
}

#[test]
fn a_reply_without_anything_leads_nowhere() {
    let args = cli(None, None, None);
    let mut session = ReplSession::new("p", &args);
    assert_eq!(
        session.reply(AssistantReply { content: None, name: None, tool_calls: None }),
        Next::Done
    );
    assert_eq!(
        session.reply(AssistantReply {
            content: Some("text".to_string()),
            name: None,
            tool_calls: Some(vec![])
        }),
        Next::CallTools(vec![])
    );
    assert_eq!(session.history().len(), 3);
}

#[test]
fn a_failed_request_forgets_the_question() {
    let args = cli(None, None, None);
    let mut session = ReplSession::new("p", &args);
    session.ask("q".to_string());
    session.forget_last();
    assert_eq!(session.history(), &vec![message(MessageRole::System, "p")]);
    session.forget_last();
    session.forget_last();
    assert_eq!(session.history(), &vec![]);
}

fn info(name: &str, column_type: &str, nullable: &str, key: &str, default: Option<&str>, extra: Option<&str>) -> ColumnInfo {
    ColumnInfo {
        name: name.to_string(),
        column_type: column_type.to_string(),
        is_nullable: nullable.to_string(),
        key: key.to_string(),
        default: default.map(|d| d.to_string()),
        extra: extra.map(|e| e.to_string()),
    }
}

#[test]
fn a_column_is_described_with_what_there_is() {
    assert_eq!(
        describe_column(&info("id", "int unsigned", "NO", "PRI", None, Some("auto_increment"))),
        "  - id: int unsigned | NOT NULL| KEY: PRI| EXTRA: auto_increment"
    );
    assert_eq!(describe_column(&info("note", "text", "YES", "", None, None)), "  - note: text ");
    assert_eq!(
        describe_column(&info("n", "int", "no", "", Some(""), Some(""))),
        "  - n: int "
    );
    assert_eq!(
        describe_column(&info("n", "int", "YES", "MUL", Some("0"), None)),
        "  - n: int | KEY: MUL| DEFAULT: 0"
    );
}

#[test]
fn a_schema_is_described_table_by_table() {
    assert_eq!(describe_schema("shop", &vec![]), "No tables found in database 'shop'.");
    let tables = vec![
        TableInfo {
            name: Some("users".to_string()),
            columns: vec![
                info("id", "int", "NO", "PRI", None, None),
                info("name", "varchar(20)", "YES", "", Some("anon"), None),
            ],
        },
        TableInfo { name: None, columns: vec![info("x", "int", "NO", "", None, None)] },
        TableInfo { name: Some("empty".to_string()), columns: vec![] },
    ];
    assert_eq!(
        describe_schema("shop", &tables),
        "Schema for database 'shop':\n\n\
         Table: users\n  - id: int | NOT NULL| KEY: PRI\n  - name: varchar(20) | DEFAULT: anon\n\n\n\
         Table: empty\n\n\n"
    );
    assert_eq!(
        describe_schema("shop", &vec![TableInfo { name: None, columns: vec![] }]),
        "Schema for database 'shop':\n\n"
    );
}
