//! A tool endpoint that lives in the host and answers the child in memory.

use crate::json::{
    lemma_lookup2, lemma_lookup3, members_model, no_members, put, Json, JsonModel,
};
use crate::strings::{concat3, same};
use crate::tool::{Tool, ToolError, ToolModel};
use crate::tool_input::ToolInput;
use crate::views::models;
use vstd::hash_map::StringHashMap;
use vstd::prelude::*;

verus! {

/// The code of the error that a method or a tool is not known.
pub const METHOD_NOT_FOUND: i32 = -32601;

/// The code of the error that the parameters of a call are not in order.
pub const INVALID_PARAMS: i32 = -32602;

/// The index of the last of `names` that is `name`.
pub open spec fn last_named(names: Seq<Seq<char>>, name: Seq<char>) -> Option<int>
    decreases names.len(),
{
    if names.len() == 0 {
        None
    } else if names.last() == name {
        Some(names.len() - 1)
    } else {
        last_named(names.drop_last(), name)
    }
}

/// The last index of a name is a place that holds it; there is none exactly
/// where no place holds it.
pub proof fn lemma_last_named(names: Seq<Seq<char>>, name: Seq<char>)
    ensures
        match last_named(names, name) {
            Some(i) => 0 <= i < names.len() && names[i] == name,
            None => forall|k: int| 0 <= k < names.len() ==> names[k] != name,
        },
    decreases names.len(),
{
    if names.len() > 0 && names.last() != name {
        lemma_last_named(names.drop_last(), name);
        match last_named(names.drop_last(), name) {
            Some(i) => {
                assert(names.drop_last()[i] == names[i]);
            },
            None => {
                assert forall|k: int| 0 <= k < names.len() implies names[k] != name by {
                    if k < names.len() - 1 {
                        assert(names.drop_last()[k] == names[k]);
                    }
                }
            },
        }
    }
}

/// Whether `map` takes each of `names` to the last index that holds it, and
/// nothing else to anything.
pub open spec fn indexes(map: Map<Seq<char>, usize>, names: Seq<Seq<char>>) -> bool {
    forall|name: Seq<char>|
        (#[trigger] map.contains_key(name) <==> last_named(names, name) is Some) && (
        map.contains_key(name) ==> map[name] as int == last_named(names, name).unwrap())
}

/// The answer that reports `result` for the request `id`.
pub open spec fn success_reply(id: JsonModel, result: JsonModel) -> JsonModel {
    JsonModel::Object(
        seq![("jsonrpc"@, JsonModel::Text("2.0"@)), ("id"@, id), ("result"@, result)],
    )
}

/// The answer that reports the error `code` with `message` for the request
/// `id`.
pub open spec fn error_reply(id: JsonModel, code: i32, message: Seq<char>) -> JsonModel {
    JsonModel::Object(
        seq![
            ("jsonrpc"@, JsonModel::Text("2.0"@)),
            ("id"@, id),
            (
                "error"@,
                JsonModel::Object(
                    seq![
                        ("code"@, JsonModel::Int(code as i64)),
                        ("message"@, JsonModel::Text(message)),
                    ],
                ),
            ),
        ],
    )
}

/// The answer to the notification that the child is initialized.
pub open spec fn acknowledged() -> JsonModel {
    JsonModel::Object(
        seq![("jsonrpc"@, JsonModel::Text("2.0"@)), ("result"@, JsonModel::empty_object())],
    )
}

/// The result that carries what a handler returned.
pub open spec fn content_result(content: JsonModel) -> JsonModel {
    JsonModel::Object(seq![("content"@, content)])
}

/// The result that carries a handler's failure: the failure in words as
/// text content, marked as a tool error.
pub open spec fn failure_result(message: Seq<char>) -> JsonModel {
    JsonModel::Object(
        seq![
            (
                "content"@,
                JsonModel::Array(
                    seq![
                        JsonModel::Object(
                            seq![
                                ("type"@, JsonModel::Text("text"@)),
                                ("text"@, JsonModel::Text(message)),
                            ],
                        ),
                    ],
                ),
            ),
            ("isError"@, JsonModel::Bool(true)),
        ],
    )
}

/// The answer to a tool call for the request `id`, given what the handler
/// returned: its content, or its failure in words.  Both are answers of
/// success.
pub open spec fn tool_reply(id: JsonModel, outcome: Result<JsonModel, Seq<char>>) -> JsonModel {
    match outcome {
        Ok(content) => success_reply(id, content_result(content)),
        Err(message) => success_reply(id, failure_result(message)),
    }
}

/// The outcome of a handler as the endpoint reads it.
pub open spec fn outcome_model(outcome: Result<Json, ToolError>) -> Result<JsonModel, Seq<char>> {
    match outcome {
        Ok(content) => Ok(content@),
        Err(e) => Err(e@.message()),
    }
}

/// What the endpoint is, as far as its answers depend on it.
pub struct McpServerModel {
    pub name: Seq<char>,
    pub version: Seq<char>,
    pub tools: Seq<ToolModel>,
}

/// What the endpoint does with a message: it answers at once, or it calls
/// the handler of one of its tools first.
pub enum PlanModel {
    Reply(JsonModel),
    Call { index: int, input: JsonModel, id: JsonModel },
}

impl McpServerModel {
    /// The answer to `initialize`.
    pub open spec fn initialize_reply(self, id: JsonModel) -> JsonModel {
        success_reply(
            id,
            JsonModel::Object(
                seq![
                    ("protocolVersion"@, JsonModel::Text("2024-11-05"@)),
                    (
                        "capabilities"@,
                        JsonModel::Object(seq![("tools"@, JsonModel::empty_object())]),
                    ),
                    (
                        "serverInfo"@,
                        JsonModel::Object(
                            seq![
                                ("name"@, JsonModel::Text(self.name)),
                                ("version"@, JsonModel::Text(self.version)),
                            ],
                        ),
                    ),
                ],
            ),
        )
    }

    /// The answer to `tools/list`: an entry for every tool, in order.
    pub open spec fn list_reply(self, id: JsonModel) -> JsonModel {
        success_reply(
            id,
            JsonModel::Object(seq![("tools"@, JsonModel::Array(ToolModel::listings(self.tools)))]),
        )
    }

    /// What `tools/call` with the parameters `params` leads to.
    ///
    /// Without a string `name` among the parameters, and for a name that no
    /// tool has, the endpoint answers with an error at once.  Else it calls
    /// the last tool of that name with the member `arguments`, or with the
    /// empty object where there is none.
    pub open spec fn plan_call(self, id: JsonModel, params: JsonModel) -> PlanModel {
        match params.text_at("name"@) {
            None => PlanModel::Reply(error_reply(id, INVALID_PARAMS, "missing 'name' parameter"@)),
            Some(name) => match last_named(ToolModel::names(self.tools), name) {
                None => PlanModel::Reply(
                    error_reply(id, METHOD_NOT_FOUND, "tool '"@ + name + "' not found"@),
                ),
                Some(index) => PlanModel::Call {
                    index,
                    input: match params.get("arguments"@) {
                        Some(a) => a,
                        None => JsonModel::empty_object(),
                    },
                    id,
                },
            },
        }
    }

    /// The method that `msg` names; the empty name where it names none.
    pub open spec fn method_of(msg: JsonModel) -> Seq<char> {
        match msg.text_at("method"@) {
            Some(m) => m,
            None => Seq::empty(),
        }
    }

    /// The parameters of `msg`; the empty object where it has none.
    pub open spec fn params_of(msg: JsonModel) -> JsonModel {
        match msg.get("params"@) {
            Some(p) => p,
            None => JsonModel::empty_object(),
        }
    }

    /// The identifier of `msg`; `null` where it has none.
    pub open spec fn id_of(msg: JsonModel) -> JsonModel {
        match msg.get("id"@) {
            Some(i) => i,
            None => JsonModel::Null,
        }
    }

    /// What the message `msg` leads to, by the method that it names.
    pub open spec fn plan(self, msg: JsonModel) -> PlanModel {
        let method = Self::method_of(msg);
        let id = Self::id_of(msg);
        if method == "initialize"@ {
            PlanModel::Reply(self.initialize_reply(id))
        } else if method == "tools/list"@ {
            PlanModel::Reply(self.list_reply(id))
        } else if method == "tools/call"@ {
            self.plan_call(id, Self::params_of(msg))
        } else if method == "notifications/initialized"@ {
            PlanModel::Reply(acknowledged())
        } else {
            PlanModel::Reply(error_reply(id, METHOD_NOT_FOUND, "method '"@ + method + "' not found"@))
        }
    }
}

/// What the endpoint does with a message.
pub enum Plan {
    Reply(Json),
    Call { index: usize, input: ToolInput, id: Json },
}

impl View for Plan {
    type V = PlanModel;

    open spec fn view(&self) -> PlanModel {
        match self {
            Plan::Reply(j) => PlanModel::Reply(j@),
            Plan::Call { index, input, id } => PlanModel::Call {
                index: *index as int,
                input: input@,
                id: id@,
            },
        }
    }
}

/// A tool endpoint: a name, a version, and tools in a fixed order, found by
/// name through an index that is built once.
pub struct McpServer {
    name: String,
    version: String,
    tools: Vec<Tool>,
    tool_map: StringHashMap<usize>,
}

impl View for McpServer {
    type V = McpServerModel;

    closed spec fn view(&self) -> McpServerModel {
        McpServerModel { name: self.name@, version: self.version@, tools: models(self.tools@) }
    }
}

impl McpServer {
    #[verifier::type_invariant]
    spec fn indexed(self) -> bool {
        indexes(self.tool_map@, ToolModel::names(models(self.tools@)))
    }

    /// The endpoint `name` in version 1.0.0 with the tools `tools`.
    pub fn new(name: &str, tools: Vec<Tool>) -> (r: McpServer)
        ensures
            r@ == (McpServerModel { name: name@, version: "1.0.0"@, tools: models(tools@) }),
    {
        McpServer::with_version(name, "1.0.0", tools)
    }

    /// The endpoint `name` in version `version` with the tools `tools`.
    pub fn with_version(name: &str, version: &str, tools: Vec<Tool>) -> (r: McpServer)
        ensures
            r@ == (McpServerModel { name: name@, version: version@, tools: models(tools@) }),
    {
        let ghost names = ToolModel::names(models(tools@));
        let mut tool_map: StringHashMap<usize> = StringHashMap::new();
        let mut i: usize = 0;
        proof {
            assert(names.take(0) =~= Seq::empty());
        }
        while i < tools.len()
            invariant
                i <= tools.len(),
                names == ToolModel::names(models(tools@)),
                indexes(tool_map@, names.take(i as int)),
            decreases tools.len() - i,
        {
            let ghost before = tool_map@;
            let key = tools[i].name().to_owned();
            tool_map.insert(key, i);
            proof {
                let next = names.take(i + 1);
                assert(next.drop_last() =~= names.take(i as int));
                assert(next.last() == tools[i as int]@.name);
                assert forall|name: Seq<char>|
                    (#[trigger] tool_map@.contains_key(name) <==> last_named(next, name) is Some)
                        && (tool_map@.contains_key(name) ==> tool_map@[name] as int == last_named(
                        next,
                        name,
                    ).unwrap()) by {
                    if name != key@ {
                        assert(before.contains_key(name) <==> last_named(
                            names.take(i as int),
                            name,
                        ) is Some);
                    }
                }
            }
            i = i + 1;
        }
        proof {
            assert(names.take(tools.len() as int) =~= names);
        }
        McpServer { name: name.to_owned(), version: version.to_owned(), tools, tool_map }
    }

    pub fn name(&self) -> (r: &str)
        ensures
            r@ == self@.name,
    {
        self.name.as_str()
    }

    pub fn version(&self) -> (r: &str)
        ensures
            r@ == self@.version,
    {
        self.version.as_str()
    }

    pub fn tools(&self) -> (r: &Vec<Tool>)
        ensures
            models(r@) == self@.tools,
    {
        &self.tools
    }

    /// The answer that reports `result` for the request `id`.
    pub fn jsonrpc_success(id: &Json, result: Json) -> (r: Json)
        ensures
            r@ == success_reply(id@, result@),
    {
        let mut members = no_members();
        put(&mut members, "jsonrpc", Json::text("2.0"));
        put(&mut members, "id", id.clone());
        put(&mut members, "result", result);
        proof {
            assert(members_model(members@) =~= success_reply(id@, result@)->Object_0);
        }
        Json::object(members)
    }

    /// The answer that reports the error `code` with `message` for the
    /// request `id`.
    pub fn jsonrpc_error(id: &Json, code: i32, message: &str) -> (r: Json)
        ensures
            r@ == error_reply(id@, code, message@),
    {
        let mut detail = no_members();
        put(&mut detail, "code", Json::integer(code as i64));
        put(&mut detail, "message", Json::text(message));
        proof {
            assert(members_model(detail@) =~= seq![
                ("code"@, JsonModel::Int(code as i64)),
                ("message"@, JsonModel::Text(message@)),
            ]);
        }
        let mut members = no_members();
        put(&mut members, "jsonrpc", Json::text("2.0"));
        put(&mut members, "id", id.clone());
        put(&mut members, "error", Json::object(detail));
        proof {
            assert(members_model(members@) =~= error_reply(id@, code, message@)->Object_0);
        }
        Json::object(members)
    }

    /// The answer to `initialize`: the protocol version, the capability to
    /// serve tools, and the endpoint's name and version.
    pub fn handle_initialize(&self, id: &Json) -> (r: Json)
        ensures
            r@ == self@.initialize_reply(id@),
    {
        let mut info = no_members();
        put(&mut info, "name", Json::text(self.name.as_str()));
        put(&mut info, "version", Json::text(self.version.as_str()));
        proof {
            assert(members_model(info@) =~= seq![
                ("name"@, JsonModel::Text(self.name@)),
                ("version"@, JsonModel::Text(self.version@)),
            ]);
        }
        let mut capabilities = no_members();
        put(&mut capabilities, "tools", Json::empty_object());
        proof {
            assert(members_model(capabilities@) =~= seq![("tools"@, JsonModel::empty_object())]);
        }
        let mut result = no_members();
        put(&mut result, "protocolVersion", Json::text("2024-11-05"));
        put(&mut result, "capabilities", Json::object(capabilities));
        put(&mut result, "serverInfo", Json::object(info));
        proof {
            assert(members_model(result@) =~= self@.initialize_reply(id@)->Object_0[2].1->Object_0);
        }
        McpServer::jsonrpc_success(id, Json::object(result))
    }

    /// The answer to `tools/list`.
    pub fn handle_tools_list(&self, id: &Json) -> (r: Json)
        ensures
            r@ == self@.list_reply(id@),
    {
        let mut entries: Vec<Json> = Vec::new();
        let mut i: usize = 0;
        while i < self.tools.len()
            invariant
                i <= self.tools.len(),
                entries.len() == i,
                forall|k: int| 0 <= k < i ==> entries[k]@ == self.tools[k]@.listing(),
            decreases self.tools.len() - i,
        {
            entries.push(self.tools[i].listing());
            i = i + 1;
        }
        proof {
            assert(models(entries@) =~= ToolModel::listings(self@.tools));
        }
        let mut result = no_members();
        put(&mut result, "tools", Json::array(entries));
        proof {
            assert(members_model(result@) =~= seq![
                ("tools"@, JsonModel::Array(ToolModel::listings(self@.tools))),
            ]);
        }
        McpServer::jsonrpc_success(id, Json::object(result))
    }

    /// What `tools/call` with the parameters `params` leads to.
    pub fn plan_tools_call(&self, id: &Json, params: &Json) -> (r: Plan)
        ensures
            r@ == self@.plan_call(id@, params@),
            r matches Plan::Call { index, .. } ==> index < self@.tools.len(),
    {
        let tool_name = match params.str_at("name") {
            Some(name) => name,
            None => {
                return Plan::Reply(
                    McpServer::jsonrpc_error(id, INVALID_PARAMS, "missing 'name' parameter"),
                );
            },
        };
        proof {
            use_type_invariant(self);
            lemma_last_named(ToolModel::names(self@.tools), tool_name@);
        }
        let index = match self.tool_map.get(tool_name) {
            Some(index) => *index,
            None => {
                let message = concat3("tool '", tool_name, "' not found");
                return Plan::Reply(McpServer::jsonrpc_error(id, METHOD_NOT_FOUND, message.as_str()));
            },
        };
        let arguments = match params.get("arguments") {
            Some(a) => a.clone(),
            None => Json::empty_object(),
        };
        Plan::Call { index, input: ToolInput::new(arguments), id: id.clone() }
    }

    /// The answer to a tool call for the request `id`, given what the
    /// handler returned.  A failure of the handler is no failure of the
    /// call: it is reported as a result that is marked as a tool error.
    pub fn tool_reply(id: &Json, outcome: Result<Json, ToolError>) -> (r: Json)
        ensures
            r@ == tool_reply(id@, outcome_model(outcome)),
    {
        match outcome {
            Ok(content) => {
                let mut result = no_members();
                put(&mut result, "content", content);
                proof {
                    assert(members_model(result@) =~= seq![("content"@, content@)]);
                }
                McpServer::jsonrpc_success(id, Json::object(result))
            },
            Err(err) => {
                let message = err.message();
                let content = Tool::text_result(message.as_str());
                let mut result = no_members();
                put(&mut result, "content", content);
                put(&mut result, "isError", Json::boolean(true));
                proof {
                    assert(members_model(result@) =~= failure_result(message@)->Object_0);
                }
                McpServer::jsonrpc_success(id, Json::object(result))
            },
        }
    }

    /// Answers `tools/call`: looks the tool up by name, calls its handler,
    /// and wraps what comes back.
    pub fn handle_tools_call(&self, id: &Json, params: &Json) -> (r: Json)
        ensures
            match self@.plan_call(id@, params@) {
                PlanModel::Reply(answer) => r@ == answer,
                PlanModel::Call { index, input, id } => exists|
                    outcome: Result<JsonModel, Seq<char>>,
                | r@ == tool_reply(id, outcome),
            },
    {
        match self.plan_tools_call(id, params) {
            Plan::Reply(answer) => answer,
            Plan::Call { index, input, id } => {
                let outcome = self.tools[index].call(input);
                let answer = McpServer::tool_reply(&id, outcome);
                proof {
                    assert(answer@ == tool_reply(id@, outcome_model(outcome)));
                }
                answer
            },
        }
    }

    /// What the message `msg` leads to: an answer at once, or the call of a
    /// tool's handler.
    pub fn plan(&self, msg: &Json) -> (r: Plan)
        ensures
            r@ == self@.plan(msg@),
            r matches Plan::Call { index, .. } ==> index < self@.tools.len(),
    {
        let method = match msg.str_at("method") {
            Some(m) => m,
            None => "",
        };
        proof {
            reveal_strlit("");
            assert(""@ =~= Seq::<char>::empty());
        }
        let id = match msg.get("id") {
            Some(i) => i.clone(),
            None => Json::null(),
        };
        if same(method, "initialize") {
            Plan::Reply(self.handle_initialize(&id))
        } else if same(method, "tools/list") {
            Plan::Reply(self.handle_tools_list(&id))
        } else if same(method, "tools/call") {
            let params = match msg.get("params") {
                Some(p) => p.clone(),
                None => Json::empty_object(),
            };
            self.plan_tools_call(&id, &params)
        } else if same(method, "notifications/initialized") {
            let mut members = no_members();
            put(&mut members, "jsonrpc", Json::text("2.0"));
            put(&mut members, "result", Json::empty_object());
            proof {
                assert(members_model(members@) =~= acknowledged()->Object_0);
            }
            Plan::Reply(Json::object(members))
        } else {
            let message = concat3("method '", method, "' not found");
            Plan::Reply(McpServer::jsonrpc_error(&id, METHOD_NOT_FOUND, message.as_str()))
        }
    }

    /// Answers the message `msg`.
    ///
    /// The answer is the one that the message leads to at once, where it
    /// leads to one.  Where it leads to a tool, the tool's handler is called
    /// and the answer wraps whatever it returned.
    pub fn handle_json_message(&self, msg: &Json) -> (r: Json)
        ensures
            match self@.plan(msg@) {
                PlanModel::Reply(answer) => r@ == answer,
                PlanModel::Call { index, input, id } => exists|
                    outcome: Result<JsonModel, Seq<char>>,
                | r@ == tool_reply(id, outcome),
            },
    {
        match self.plan(msg) {
            Plan::Reply(answer) => answer,
            Plan::Call { index, input, id } => {
                let outcome = self.tools[index].call(input);
                let answer = McpServer::tool_reply(&id, outcome);
                proof {
                    assert(answer@ == tool_reply(id@, outcome_model(outcome)));
                }
                answer
            },
        }
    }
}

/// A call of a tool that is not registered is answered at once, with the
/// error that the tool was not found: no handler is called.
pub proof fn lemma_unregistered_tool_is_error(
    server: McpServerModel,
    id: JsonModel,
    params: JsonModel,
    name: Seq<char>,
)
    requires
        params.text_at("name"@) == Some(name),
        forall|i: int| 0 <= i < server.tools.len() ==> server.tools[i].name != name,
    ensures
        server.plan_call(id, params) == PlanModel::Reply(
            error_reply(id, METHOD_NOT_FOUND, "tool '"@ + name + "' not found"@),
        ),
{
    let names = ToolModel::names(server.tools);
    lemma_last_named(names, name);
    if last_named(names, name) is Some {
        let i = last_named(names, name).unwrap();
        assert(names[i] == server.tools[i].name);
    }
}

/// A call without a name is answered at once, with an error.
pub proof fn lemma_nameless_call_is_error(server: McpServerModel, id: JsonModel, params: JsonModel)
    requires
        params.text_at("name"@) is None,
    ensures
        server.plan_call(id, params) == PlanModel::Reply(
            error_reply(id, INVALID_PARAMS, "missing 'name' parameter"@),
        ),
{
}

/// The answer to a call whose handler failed is an answer of success: it has
/// a member `result` and no member `error`, and the result is marked as a
/// tool error.
pub proof fn lemma_failure_is_marked(id: JsonModel, message: Seq<char>)
    ensures
        tool_reply(id, Err(message)).get("error"@) is None,
        tool_reply(id, Err(message)).get("result"@) == Some(failure_result(message)),
        failure_result(message).bool_at("isError"@) == Some(true),
        failure_result(message).get("content"@) == Some(crate::tool::text_content(message)),
{
    reveal_strlit("jsonrpc");
    reveal_strlit("id");
    reveal_strlit("result");
    reveal_strlit("error");
    reveal_strlit("content");
    reveal_strlit("isError");
    let reply = tool_reply(id, Err(message))->Object_0;
    assert(reply.len() == 3);
    assert("jsonrpc"@ != "error"@) by {
        assert("jsonrpc"@.len() != "error"@.len());
    }
    assert("id"@ != "error"@) by {
        assert("id"@.len() != "error"@.len());
    }
    assert("result"@ != "error"@) by {
        assert("result"@.len() != "error"@.len());
    }
    assert("jsonrpc"@ != "result"@) by {
        assert("jsonrpc"@.len() != "result"@.len());
    }
    assert("id"@ != "result"@) by {
        assert("id"@.len() != "result"@.len());
    }
    assert("content"@ != "isError"@) by {
        assert("content"@[0] != "isError"@[0]);
    }
    lemma_lookup3(reply, "error"@);
    lemma_lookup3(reply, "result"@);
    let result = failure_result(message)->Object_0;
    assert(result.len() == 2);
    lemma_lookup2(result, "isError"@);
    lemma_lookup2(result, "content"@);
}

} // verus!
