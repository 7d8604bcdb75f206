//! What goes to the child when it is started, and the lines that cross the
//! pipes: one JSON value on each.

use crate::codec::{parse, parsed, render, rendered, settled};
use crate::error::{Error, ErrorModel};
use crate::json::{members_model, no_members, put, Json, JsonModel};
use crate::proto::control::{
    RequestEnvelope, RequestEnvelopeModel, RequestModel, ResponseEnvelope,
};
use crate::proto::incoming::{Incoming, IncomingModel};
use crate::strings::{concat2, join, joined, no_strings, push_str};
use crate::views::{model_opt, model_str, models, opt_str};
use vstd::prelude::*;

verus! {

/// How the child is to be started.
///
/// The budget is kept as the decimal text that goes on the command line.
#[derive(Debug)]
pub struct TransportOptions {
    pub allowed_tools: Vec<String>,
    pub disallowed_tools: Vec<String>,
    pub model: Option<String>,
    pub fallback_model: Option<String>,
    pub system_prompt: Option<String>,
    pub append_system_prompt: Option<String>,
    pub permission_mode: Option<String>,
    pub max_budget_usd: Option<String>,
    pub debug: bool,
    pub cwd: Option<String>,
    pub env: Vec<(String, String)>,
    pub json_schema: Option<String>,
    pub mcp_server_names: Vec<String>,
}

pub struct TransportOptionsModel {
    pub allowed_tools: Seq<Seq<char>>,
    pub disallowed_tools: Seq<Seq<char>>,
    pub model: Option<Seq<char>>,
    pub fallback_model: Option<Seq<char>>,
    pub system_prompt: Option<Seq<char>>,
    pub append_system_prompt: Option<Seq<char>>,
    pub permission_mode: Option<Seq<char>>,
    pub max_budget_usd: Option<Seq<char>>,
    pub debug: bool,
    pub cwd: Option<Seq<char>>,
    pub env: Seq<(Seq<char>, Seq<char>)>,
    pub json_schema: Option<Seq<char>>,
    pub mcp_server_names: Seq<Seq<char>>,
}

/// The models of pairs of strings.
pub open spec fn pairs_of(pairs: Seq<(String, String)>) -> Seq<(Seq<char>, Seq<char>)> {
    Seq::new(pairs.len(), |i: int| (pairs[i].0@, pairs[i].1@))
}

impl View for TransportOptions {
    type V = TransportOptionsModel;

    open spec fn view(&self) -> TransportOptionsModel {
        TransportOptionsModel {
            allowed_tools: models(self.allowed_tools@),
            disallowed_tools: models(self.disallowed_tools@),
            model: model_opt(self.model),
            fallback_model: model_opt(self.fallback_model),
            system_prompt: model_opt(self.system_prompt),
            append_system_prompt: model_opt(self.append_system_prompt),
            permission_mode: model_opt(self.permission_mode),
            max_budget_usd: model_opt(self.max_budget_usd),
            debug: self.debug,
            cwd: model_opt(self.cwd),
            env: pairs_of(self.env@),
            json_schema: model_opt(self.json_schema),
            mcp_server_names: models(self.mcp_server_names@),
        }
    }
}

/// The flag alone where `on` holds, and nothing where it does not.
pub open spec fn flag_if(on: bool, flag: Seq<char>) -> Seq<Seq<char>> {
    if on {
        seq![flag]
    } else {
        Seq::empty()
    }
}

/// The flag with its value where there is a value, and nothing where there
/// is none.
pub open spec fn flag_opt(flag: Seq<char>, value: Option<Seq<char>>) -> Seq<Seq<char>> {
    match value {
        Some(v) => seq![flag, v],
        None => Seq::empty(),
    }
}

/// The flag with `items` joined by commas, and nothing where there is no
/// item.
pub open spec fn flag_list(flag: Seq<char>, items: Seq<Seq<char>>) -> Seq<Seq<char>> {
    if items.len() == 0 {
        Seq::empty()
    } else {
        seq![flag, joined(items, ","@)]
    }
}

/// How one tool endpoint of the host is declared to the child.
pub open spec fn endpoint_declaration(name: Seq<char>) -> (Seq<char>, JsonModel) {
    (
        name,
        JsonModel::Object(
            seq![("type"@, JsonModel::Text("sdk"@)), ("name"@, JsonModel::Text(name))],
        ),
    )
}

/// The configuration that declares the tool endpoints of the host.
pub open spec fn endpoint_config(names: Seq<Seq<char>>) -> JsonModel {
    JsonModel::Object(
        seq![
            (
                "mcpServers"@,
                JsonModel::Object(Seq::new(names.len(), |i: int| endpoint_declaration(names[i]))),
            ),
        ],
    )
}

/// The flag that declares the tool endpoints of the host, and nothing where
/// there is none.
pub open spec fn flag_endpoints(names: Seq<Seq<char>>) -> Seq<Seq<char>> {
    if names.len() == 0 {
        Seq::empty()
    } else {
        seq!["--mcp-config"@, rendered(settled(endpoint_config(names)))]
    }
}

impl TransportOptionsModel {
    /// The arguments with which the child is started: the fixed flags for
    /// streamed output, the flags that the options call for, and last the
    /// fixed flag for streamed input.
    pub open spec fn command(self) -> Seq<Seq<char>> {
        seq!["--output-format"@, "stream-json"@, "--verbose"@] + flag_if(self.debug, "--debug"@)
            + flag_opt("--system-prompt"@, self.system_prompt) + flag_opt(
            "--append-system-prompt"@,
            self.append_system_prompt,
        ) + flag_list("--allowedTools"@, self.allowed_tools) + flag_list(
            "--disallowedTools"@,
            self.disallowed_tools,
        ) + flag_opt("--model"@, self.model) + flag_opt("--fallback-model"@, self.fallback_model)
            + flag_opt("--permission-mode"@, self.permission_mode) + flag_opt(
            "--max-budget-usd"@,
            self.max_budget_usd,
        ) + flag_opt("--json-schema"@, self.json_schema) + flag_endpoints(self.mcp_server_names)
            + seq!["--input-format"@, "stream-json"@]
    }

    /// The environment that is added for the child: the mark of this
    /// integration, then the variables of the options.
    pub open spec fn environment(self) -> Seq<(Seq<char>, Seq<char>)> {
        seq![("CLAUDE_CODE_ENTRYPOINT"@, "sdk-rust"@)] + self.env
    }
}

/// Appends the flag with its value where there is a value.
fn push_flag_opt(cmd: &mut Vec<String>, flag: &str, value: &Option<String>)
    ensures
        models(final(cmd)@) == models(old(cmd)@) + flag_opt(flag@, model_opt(*value)),
{
    match value {
        Some(v) => {
            push_str(cmd, flag);
            push_str(cmd, v.as_str());
            proof {
                assert(models(cmd@) =~= models(old(cmd)@) + flag_opt(flag@, model_opt(*value)));
            }
        },
        None => {
            proof {
                assert(models(cmd@) =~= models(old(cmd)@) + flag_opt(flag@, model_opt(*value)));
            }
        },
    }
}

/// Appends the flag with `items` joined by commas where there is an item.
fn push_flag_list(cmd: &mut Vec<String>, flag: &str, items: &Vec<String>)
    ensures
        models(final(cmd)@) == models(old(cmd)@) + flag_list(flag@, models(items@)),
{
    if items.len() > 0 {
        let list = join(items, ",");
        push_str(cmd, flag);
        push_str(cmd, list.as_str());
    }
    proof {
        assert(models(cmd@) =~= models(old(cmd)@) + flag_list(flag@, models(items@)));
    }
}

impl TransportOptions {
    /// The options that call for nothing.
    pub fn new() -> (r: TransportOptions)
        ensures
            r@ == TransportOptionsModel::plain(),
    {
        let r = TransportOptions {
            allowed_tools: Vec::new(),
            disallowed_tools: Vec::new(),
            model: None,
            fallback_model: None,
            system_prompt: None,
            append_system_prompt: None,
            permission_mode: None,
            max_budget_usd: None,
            debug: false,
            cwd: None,
            env: Vec::new(),
            json_schema: None,
            mcp_server_names: Vec::new(),
        };
        proof {
            assert(r@.allowed_tools =~= Seq::empty());
            assert(r@.disallowed_tools =~= Seq::empty());
            assert(r@.env =~= Seq::empty());
            assert(r@.mcp_server_names =~= Seq::empty());
        }
        r
    }

    pub fn allowed_tools(&self) -> (r: &Vec<String>)
        ensures
            models(r@) == self@.allowed_tools,
    {
        &self.allowed_tools
    }

    pub fn disallowed_tools(&self) -> (r: &Vec<String>)
        ensures
            models(r@) == self@.disallowed_tools,
    {
        &self.disallowed_tools
    }

    pub fn model(&self) -> (r: Option<&str>)
        ensures
            model_str(r) == self@.model,
    {
        opt_str(&self.model)
    }

    pub fn fallback_model(&self) -> (r: Option<&str>)
        ensures
            model_str(r) == self@.fallback_model,
    {
        opt_str(&self.fallback_model)
    }

    pub fn system_prompt(&self) -> (r: Option<&str>)
        ensures
            model_str(r) == self@.system_prompt,
    {
        opt_str(&self.system_prompt)
    }

    pub fn append_system_prompt(&self) -> (r: Option<&str>)
        ensures
            model_str(r) == self@.append_system_prompt,
    {
        opt_str(&self.append_system_prompt)
    }

    pub fn permission_mode(&self) -> (r: Option<&str>)
        ensures
            model_str(r) == self@.permission_mode,
    {
        opt_str(&self.permission_mode)
    }

    /// The budget, as decimal text.
    pub fn max_budget_usd(&self) -> (r: Option<&str>)
        ensures
            model_str(r) == self@.max_budget_usd,
    {
        opt_str(&self.max_budget_usd)
    }

    pub fn debug(&self) -> (r: bool)
        ensures
            r == self@.debug,
    {
        self.debug
    }

    pub fn cwd(&self) -> (r: Option<&str>)
        ensures
            model_str(r) == self@.cwd,
    {
        opt_str(&self.cwd)
    }

    pub fn env(&self) -> (r: &Vec<(String, String)>)
        ensures
            pairs_of(r@) == self@.env,
    {
        &self.env
    }

    pub fn json_schema(&self) -> (r: Option<&str>)
        ensures
            model_str(r) == self@.json_schema,
    {
        opt_str(&self.json_schema)
    }

    pub fn mcp_server_names(&self) -> (r: &Vec<String>)
        ensures
            models(r@) == self@.mcp_server_names,
    {
        &self.mcp_server_names
    }
}

impl TransportOptionsModel {
    /// The options that call for nothing.
    pub open spec fn plain() -> TransportOptionsModel {
        TransportOptionsModel {
            allowed_tools: Seq::empty(),
            disallowed_tools: Seq::empty(),
            model: None,
            fallback_model: None,
            system_prompt: None,
            append_system_prompt: None,
            permission_mode: None,
            max_budget_usd: None,
            debug: false,
            cwd: None,
            env: Seq::empty(),
            json_schema: None,
            mcp_server_names: Seq::empty(),
        }
    }
}

/// The configuration that declares the tool endpoints `names` to the child.
pub fn endpoint_config_json(names: &Vec<String>) -> (r: Json)
    ensures
        r@ == endpoint_config(models(names@)),
{
    let mut declared = no_members();
    let mut i: usize = 0;
    while i < names.len()
        invariant
            i <= names.len(),
            members_model(declared@) == Seq::new(
                i as nat,
                |k: int| endpoint_declaration(models(names@)[k]),
            ),
        decreases names.len() - i,
    {
        let ghost before = members_model(declared@);
        let mut entry = no_members();
        put(&mut entry, "type", Json::text("sdk"));
        put(&mut entry, "name", Json::text(names[i].as_str()));
        proof {
            assert(members_model(entry@) =~= endpoint_declaration(names[i as int]@).1->Object_0);
        }
        put(&mut declared, names[i].as_str(), Json::object(entry));
        proof {
            assert(members_model(declared@) =~= Seq::new(
                (i + 1) as nat,
                |k: int| endpoint_declaration(models(names@)[k]),
            ));
        }
        i = i + 1;
    }
    let mut config = no_members();
    put(&mut config, "mcpServers", Json::object(declared));
    proof {
        assert(members_model(config@) =~= endpoint_config(models(names@))->Object_0);
    }
    Json::object(config)
}

/// The arguments with which the child is started.
pub fn build_command(options: &TransportOptions) -> (r: Vec<String>)
    ensures
        models(r@) == options@.command(),
{
    let mut cmd = no_strings();
    push_str(&mut cmd, "--output-format");
    push_str(&mut cmd, "stream-json");
    push_str(&mut cmd, "--verbose");
    proof {
        assert(models(cmd@) =~= seq!["--output-format"@, "stream-json"@, "--verbose"@]);
    }
    let ghost head = models(cmd@);
    if options.debug {
        push_str(&mut cmd, "--debug");
    }
    proof {
        assert(models(cmd@) =~= head + flag_if(options.debug, "--debug"@));
    }
    push_flag_opt(&mut cmd, "--system-prompt", &options.system_prompt);
    push_flag_opt(&mut cmd, "--append-system-prompt", &options.append_system_prompt);
    push_flag_list(&mut cmd, "--allowedTools", &options.allowed_tools);
    push_flag_list(&mut cmd, "--disallowedTools", &options.disallowed_tools);
    push_flag_opt(&mut cmd, "--model", &options.model);
    push_flag_opt(&mut cmd, "--fallback-model", &options.fallback_model);
    push_flag_opt(&mut cmd, "--permission-mode", &options.permission_mode);
    push_flag_opt(&mut cmd, "--max-budget-usd", &options.max_budget_usd);
    push_flag_opt(&mut cmd, "--json-schema", &options.json_schema);
    let ghost body = models(cmd@);
    if options.mcp_server_names.len() > 0 {
        let config = endpoint_config_json(&options.mcp_server_names);
        let text = render(&config).unwrap();
        push_str(&mut cmd, "--mcp-config");
        push_str(&mut cmd, text.as_str());
    }
    proof {
        assert(models(cmd@) =~= body + flag_endpoints(options@.mcp_server_names));
    }
    let ghost tail = models(cmd@);
    push_str(&mut cmd, "--input-format");
    push_str(&mut cmd, "stream-json");
    proof {
        assert(models(cmd@) =~= tail + seq!["--input-format"@, "stream-json"@]);
    }
    cmd
}

/// The environment that is added for the child.
pub fn build_env(options: &TransportOptions) -> (r: Vec<(String, String)>)
    ensures
        pairs_of(r@) == options@.environment(),
{
    let mut env: Vec<(String, String)> = Vec::new();
    env.push(("CLAUDE_CODE_ENTRYPOINT".to_owned(), "sdk-rust".to_owned()));
    let mut i: usize = 0;
    while i < options.env.len()
        invariant
            i <= options.env.len(),
            env.len() == i + 1,
            env[0].0@ == "CLAUDE_CODE_ENTRYPOINT"@,
            env[0].1@ == "sdk-rust"@,
            forall|k: int|
                0 <= k < i ==> env[k + 1].0@ == options.env[k].0@ && env[k + 1].1@
                    == options.env[k].1@,
        decreases options.env.len() - i,
    {
        env.push((options.env[i].0.clone(), options.env[i].1.clone()));
        i = i + 1;
    }
    proof {
        assert(pairs_of(env@) =~= options@.environment());
    }
    env
}

/// Whether `e` says that a line could not be read as a value of the
/// protocol.
pub open spec fn is_parse_failure(e: ErrorModel) -> bool {
    e matches ErrorModel::ProtocolError(m) && exists|detail: Seq<char>|
        m == "failed to parse: "@ + detail
}

/// The line that carries `value`: its JSON text and a newline.  Every value
/// has its line, so the result is `Ok`.
pub fn encode_line(value: &Json) -> (r: Result<String, Error>)
    ensures
        r matches Ok(line) && line@ == rendered(settled(value@)) + "\n"@,
{
    match render(value) {
        Ok(text) => Ok(concat2(text.as_str(), "\n")),
        Err(description) => Err(Error::Json(description)),
    }
}

/// The line that carries the control request `envelope`.
pub fn encode_request(envelope: &RequestEnvelope) -> (r: Result<String, Error>)
    ensures
        r matches Ok(line) && line@ == rendered(settled(envelope@.wire())) + "\n"@,
{
    encode_line(&envelope.to_json())
}

/// The line that carries the control response `envelope`.
pub fn encode_response(envelope: &ResponseEnvelope) -> (r: Result<String, Error>)
    ensures
        r matches Ok(line) && line@ == rendered(settled(envelope@.wire())) + "\n"@,
{
    encode_line(&envelope.to_json())
}

/// What the line `line` carries, or `None` where it is no JSON text or has
/// none of the known shapes.
pub open spec fn decoded(line: Seq<char>) -> Option<IncomingModel> {
    match parsed(line) {
        Some(j) => IncomingModel::read(j),
        None => None,
    }
}

/// Reads the value that the line `line` carries.  A line that is no JSON
/// text, and one that has none of the known shapes, is a protocol error.
pub fn decode_line(line: &str) -> (r: Result<Incoming, Error>)
    ensures
        match r {
            Ok(incoming) => decoded(line@) == Some(incoming@),
            Err(e) => decoded(line@) is None && is_parse_failure(e@),
        },
{
    match parse(line) {
        Ok(j) => match Incoming::from_json(&j) {
            Some(incoming) => Ok(incoming),
            None => {
                let m = concat2("failed to parse: ", "the value has none of the known shapes");
                proof {
                    assert(m@ == "failed to parse: "@ + "the value has none of the known shapes"@);
                }
                Err(Error::ProtocolError(m))
            },
        },
        Err(description) => {
            let m = concat2("failed to parse: ", description.as_str());
            proof {
                assert(m@ == "failed to parse: "@ + description@);
            }
            Err(Error::ProtocolError(m))
        },
    }
}

/// The request that asks the child to abort its turn: an interrupt under
/// the empty identifier, to which no answer is awaited.
pub fn interrupt_request() -> (r: RequestEnvelope)
    ensures
        r@ == RequestEnvelopeModel::of(Seq::empty(), RequestModel::Interrupt),
{
    proof {
        reveal_strlit("");
        assert(""@ =~= Seq::<char>::empty());
    }
    RequestEnvelope::interrupt("")
}

} // verus!
