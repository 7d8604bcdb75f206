//! What the host asks of a session before it starts.

use crate::agent::{Agent, AgentModel};
use crate::hooks::table::{Hooks, HooksModel};
use crate::mcp_server::{McpServer, McpServerModel};
use crate::model::{Model, ModelModel};
use crate::proto::control::PermissionMode;
use crate::named::{distinct, entries_model, keys_of, with_entry, Named};
use crate::strings::{clone_strings, concat2, concat3, no_strings, push_str};
use crate::tool::ToolModel;
use crate::transport::{pairs_of, TransportOptions, TransportOptionsModel};
use crate::views::{clone_opt_string, model_opt, model_str, models, opt_str};
use vstd::prelude::*;

verus! {

/// The configuration of a session.
///
/// The tool endpoints and the agents are kept under their names, each name
/// once, in the order in which the names were first used.  The budget is
/// kept as decimal text.
pub struct Options {
    pub allowed_tools: Vec<String>,
    pub disallowed_tools: Vec<String>,
    pub max_thinking_tokens: i32,
    pub system_prompt: Option<String>,
    pub append_system_prompt: Option<String>,
    pub permission_mode: Option<PermissionMode>,
    pub model: Option<Model>,
    pub fallback_model: Option<Model>,
    pub debug: bool,
    pub cwd: Option<String>,
    pub env: Vec<(String, String)>,
    pub max_budget_usd: Option<String>,
    pub json_schema: Option<String>,
    pub mcp_servers: Named<McpServer>,
    pub agents: Named<Agent>,
    pub hooks: Option<Hooks>,
}

pub struct OptionsModel {
    pub allowed_tools: Seq<Seq<char>>,
    pub disallowed_tools: Seq<Seq<char>>,
    pub max_thinking_tokens: i32,
    pub system_prompt: Option<Seq<char>>,
    pub append_system_prompt: Option<Seq<char>>,
    pub permission_mode: Option<PermissionMode>,
    pub model: Option<ModelModel>,
    pub fallback_model: Option<ModelModel>,
    pub debug: bool,
    pub cwd: Option<Seq<char>>,
    pub env: Seq<(Seq<char>, Seq<char>)>,
    pub max_budget_usd: Option<Seq<char>>,
    pub json_schema: Option<Seq<char>>,
    pub mcp_servers: Seq<(Seq<char>, McpServerModel)>,
    pub agents: Seq<(Seq<char>, AgentModel)>,
    pub hooks: Option<HooksModel>,
}

impl View for Options {
    type V = OptionsModel;

    open spec fn view(&self) -> OptionsModel {
        OptionsModel {
            allowed_tools: models(self.allowed_tools@),
            disallowed_tools: models(self.disallowed_tools@),
            max_thinking_tokens: self.max_thinking_tokens,
            system_prompt: model_opt(self.system_prompt),
            append_system_prompt: model_opt(self.append_system_prompt),
            permission_mode: self.permission_mode,
            model: model_opt(self.model),
            fallback_model: model_opt(self.fallback_model),
            debug: self.debug,
            cwd: model_opt(self.cwd),
            env: pairs_of(self.env@),
            max_budget_usd: model_opt(self.max_budget_usd),
            json_schema: model_opt(self.json_schema),
            mcp_servers: self.mcp_servers@,
            agents: self.agents@,
            hooks: model_opt(self.hooks),
        }
    }
}

/// The names under which the child knows the tools `tools` of the endpoint
/// `server`.
pub open spec fn tool_entries(server: Seq<char>, tools: Seq<ToolModel>) -> Seq<Seq<char>> {
    Seq::new(tools.len(), |i: int| "mcp__"@ + server + "__"@ + tools[i].name)
}

/// The names under which the child knows the tools of all of `servers`,
/// endpoint after endpoint.
pub open spec fn endpoint_tools(servers: Seq<(Seq<char>, McpServerModel)>) -> Seq<Seq<char>>
    decreases servers.len(),
{
    if servers.len() == 0 {
        Seq::empty()
    } else {
        endpoint_tools(servers.drop_last()) + tool_entries(
            servers.last().0,
            servers.last().1.tools,
        )
    }
}

/// `entries` with each of `more` put under its name, one after another.
pub open spec fn with_entries<V>(entries: Seq<(Seq<char>, V)>, more: Seq<(Seq<char>, V)>) -> Seq<
    (Seq<char>, V),
>
    decreases more.len(),
{
    if more.len() == 0 {
        entries
    } else {
        with_entry(with_entries(entries, more.drop_last()), more.last().0, more.last().1)
    }
}

/// The name of an optional model.
pub open spec fn model_name(m: Option<ModelModel>) -> Option<Seq<char>> {
    match m {
        Some(m) => Some(m.name()),
        None => None,
    }
}

/// The name of an optional permission mode.
pub open spec fn mode_name(m: Option<PermissionMode>) -> Option<Seq<char>> {
    match m {
        Some(m) => Some(m.name()),
        None => None,
    }
}

impl OptionsModel {
    /// The configuration with which `Options::new` starts.
    pub open spec fn initial() -> OptionsModel {
        OptionsModel {
            allowed_tools: Seq::empty(),
            disallowed_tools: Seq::empty(),
            max_thinking_tokens: 8000,
            system_prompt: None,
            append_system_prompt: None,
            permission_mode: None,
            model: None,
            fallback_model: None,
            debug: false,
            cwd: None,
            env: Seq::empty(),
            max_budget_usd: None,
            json_schema: None,
            mcp_servers: Seq::empty(),
            agents: Seq::empty(),
            hooks: None,
        }
    }

    /// How the child is started for this configuration.  The tools of the
    /// host's endpoints are allowed in addition to the tools that the
    /// configuration allows, and the endpoints are declared by name.
    pub open spec fn transport_options(self) -> TransportOptionsModel {
        TransportOptionsModel {
            allowed_tools: self.allowed_tools + endpoint_tools(self.mcp_servers),
            disallowed_tools: self.disallowed_tools,
            model: model_name(self.model),
            fallback_model: model_name(self.fallback_model),
            system_prompt: self.system_prompt,
            append_system_prompt: self.append_system_prompt,
            permission_mode: mode_name(self.permission_mode),
            max_budget_usd: self.max_budget_usd,
            debug: false,
            cwd: self.cwd,
            env: self.env,
            json_schema: self.json_schema,
            mcp_server_names: keys_of(self.mcp_servers),
        }
    }
}

/// A copy of each pair of `pairs`.
pub fn clone_pairs(pairs: &Vec<(String, String)>) -> (r: Vec<(String, String)>)
    ensures
        pairs_of(r@) == pairs_of(pairs@),
{
    let mut out: Vec<(String, String)> = Vec::new();
    let mut i: usize = 0;
    while i < pairs.len()
        invariant
            i <= pairs.len(),
            out.len() == i,
            forall|k: int| 0 <= k < i ==> out[k].0@ == pairs[k].0@ && out[k].1@ == pairs[k].1@,
        decreases pairs.len() - i,
    {
        out.push((pairs[i].0.clone(), pairs[i].1.clone()));
        i = i + 1;
    }
    proof {
        assert(pairs_of(out@) =~= pairs_of(pairs@));
    }
    out
}

impl Options {
    /// The configuration that asks for nothing: 8000 thinking tokens, and
    /// everything else empty or off.
    pub fn new() -> (r: Options)
        ensures
            r@ == OptionsModel::initial(),
    {
        let r = Options {
            allowed_tools: Vec::new(),
            disallowed_tools: Vec::new(),
            max_thinking_tokens: 8000,
            system_prompt: None,
            append_system_prompt: None,
            permission_mode: None,
            model: None,
            fallback_model: None,
            debug: false,
            cwd: None,
            env: Vec::new(),
            max_budget_usd: None,
            json_schema: None,
            mcp_servers: Named::new(),
            agents: Named::new(),
            hooks: None,
        };
        proof {
            assert(r@.allowed_tools =~= Seq::empty());
            assert(r@.disallowed_tools =~= Seq::empty());
            assert(r@.env =~= Seq::empty());
        }
        r
    }

    /// Allows one more tool.
    pub fn allowed_tool(self, tool: &str) -> (r: Options)
        ensures
            r@ == (OptionsModel { allowed_tools: self@.allowed_tools.push(tool@), ..self@ }),
    {
        let mut o = self;
        push_str(&mut o.allowed_tools, tool);
        o
    }

    /// Allows the tools `tools`, and no others.
    pub fn allowed_tools(self, tools: Vec<String>) -> (r: Options)
        ensures
            r@ == (OptionsModel { allowed_tools: models(tools@), ..self@ }),
    {
        let mut o = self;
        o.allowed_tools = tools;
        o
    }

    /// Allows the tools `tools`, and no others.
    pub fn with_allowed_tools(self, tools: Vec<String>) -> (r: Options)
        ensures
            r@ == (OptionsModel { allowed_tools: models(tools@), ..self@ }),
    {
        let mut o = self;
        o.allowed_tools = tools;
        o
    }

    /// Disallows one more tool.
    pub fn disallowed_tool(self, tool: &str) -> (r: Options)
        ensures
            r@ == (OptionsModel { disallowed_tools: self@.disallowed_tools.push(tool@), ..self@ }),
    {
        let mut o = self;
        push_str(&mut o.disallowed_tools, tool);
        o
    }

    /// Disallows the tools `tools`, and no others.
    pub fn disallowed_tools(self, tools: Vec<String>) -> (r: Options)
        ensures
            r@ == (OptionsModel { disallowed_tools: models(tools@), ..self@ }),
    {
        let mut o = self;
        o.disallowed_tools = tools;
        o
    }

    /// Disallows the tools `tools`, and no others.
    pub fn with_disallowed_tools(self, tools: Vec<String>) -> (r: Options)
        ensures
            r@ == (OptionsModel { disallowed_tools: models(tools@), ..self@ }),
    {
        let mut o = self;
        o.disallowed_tools = tools;
        o
    }

    /// Sets the number of thinking tokens: `tokens`, but at least one.
    pub fn max_thinking_tokens(self, tokens: i32) -> (r: Options)
        ensures
            r@ == (OptionsModel {
                max_thinking_tokens: if tokens < 1 {
                    1i32
                } else {
                    tokens
                },
                ..self@
            }),
    {
        let mut o = self;
        o.max_thinking_tokens = if tokens < 1 {
            1
        } else {
            tokens
        };
        o
    }

    pub fn system_prompt(self, prompt: &str) -> (r: Options)
        ensures
            r@ == (OptionsModel { system_prompt: Some(prompt@), ..self@ }),
    {
        let mut o = self;
        o.system_prompt = Some(prompt.to_owned());
        o
    }

    pub fn append_system_prompt(self, prompt: &str) -> (r: Options)
        ensures
            r@ == (OptionsModel { append_system_prompt: Some(prompt@), ..self@ }),
    {
        let mut o = self;
        o.append_system_prompt = Some(prompt.to_owned());
        o
    }

    pub fn permission_mode(self, mode: PermissionMode) -> (r: Options)
        ensures
            r@ == (OptionsModel { permission_mode: Some(mode), ..self@ }),
    {
        let mut o = self;
        o.permission_mode = Some(mode);
        o
    }

    pub fn model(self, model: Model) -> (r: Options)
        ensures
            r@ == (OptionsModel { model: Some(model@), ..self@ }),
    {
        let mut o = self;
        o.model = Some(model);
        o
    }

    pub fn fallback_model(self, model: Model) -> (r: Options)
        ensures
            r@ == (OptionsModel { fallback_model: Some(model@), ..self@ }),
    {
        let mut o = self;
        o.fallback_model = Some(model);
        o
    }

    /// Sets the directory in which the child works.
    pub fn cwd(self, path: &str) -> (r: Options)
        ensures
            r@ == (OptionsModel { cwd: Some(path@), ..self@ }),
    {
        let mut o = self;
        o.cwd = Some(path.to_owned());
        o
    }

    /// Sets the variables that are added to the child's environment.
    pub fn env(self, vars: Vec<(String, String)>) -> (r: Options)
        ensures
            r@ == (OptionsModel { env: pairs_of(vars@), ..self@ }),
    {
        let mut o = self;
        o.env = vars;
        o
    }

    /// Sets the budget, given as the decimal text of a positive amount.
    pub fn max_budget_usd(self, budget: &str) -> (r: Options)
        ensures
            r@ == (OptionsModel { max_budget_usd: Some(budget@), ..self@ }),
    {
        let mut o = self;
        o.max_budget_usd = Some(budget.to_owned());
        o
    }

    /// The schema for structured output, as JSON text.
    pub fn json_schema(&self) -> (r: Option<&str>)
        ensures
            model_str(r) == self@.json_schema,
    {
        opt_str(&self.json_schema)
    }

    /// Sets the schema for structured output, given as JSON text.
    pub fn with_json_schema(self, schema: &str) -> (r: Options)
        ensures
            r@ == (OptionsModel { json_schema: Some(schema@), ..self@ }),
    {
        let mut o = self;
        o.json_schema = Some(schema.to_owned());
        o
    }

    /// Registers the tool endpoint `server` under `name`, in place of an
    /// endpoint that had the name.
    pub fn with_mcp_server(self, name: &str, server: McpServer) -> (r: Options)
        ensures
            r@ == (OptionsModel {
                mcp_servers: with_entry(self@.mcp_servers, name@, server@),
                ..self@
            }),
    {
        let mut o = self;
        o.mcp_servers = o.mcp_servers.with(name, server);
        o
    }

    /// Registers the agent `agent` under `name`, in place of an agent that
    /// had the name.
    pub fn with_agent(self, name: &str, agent: Agent) -> (r: Options)
        ensures
            r@ == (OptionsModel { agents: with_entry(self@.agents, name@, agent@), ..self@ }),
    {
        let mut o = self;
        o.agents = o.agents.with(name, agent);
        o
    }

    /// Registers a copy of each of `agents` under its name, one after
    /// another.
    pub fn with_agents(self, agents: &Vec<(String, Agent)>) -> (r: Options)
        ensures
            r@ == (OptionsModel {
                agents: with_entries(self@.agents, entries_model(agents@)),
                ..self@
            }),
    {
        let mut o = self;
        let ghost all = entries_model(agents@);
        let mut i: usize = 0;
        proof {
            assert(all.take(0) =~= Seq::empty());
        }
        while i < agents.len()
            invariant
                i <= agents.len(),
                all == entries_model(agents@),
                o@ == (OptionsModel { agents: with_entries(self@.agents, all.take(i as int)), ..self@ }),
            decreases agents.len() - i,
        {
            proof {
                let next = all.take(i + 1);
                assert(next.drop_last() =~= all.take(i as int));
                assert(next.last() == (agents[i as int].0@, agents[i as int].1@));
            }
            o.agents = o.agents.with(agents[i].0.as_str(), agents[i].1.clone());
            i = i + 1;
        }
        proof {
            assert(all.take(agents.len() as int) =~= all);
        }
        o
    }

    pub fn debug(self, enabled: bool) -> (r: Options)
        ensures
            r@ == (OptionsModel { debug: enabled, ..self@ }),
    {
        let mut o = self;
        o.debug = enabled;
        o
    }

    pub fn hooks(self, hooks: Hooks) -> (r: Options)
        ensures
            r@ == (OptionsModel { hooks: Some(hooks@), ..self@ }),
    {
        let mut o = self;
        o.hooks = Some(hooks);
        o
    }

    /// The tool endpoints under their names, each name once.
    pub fn mcp_servers(&self) -> (r: &Named<McpServer>)
        ensures
            r@ == self@.mcp_servers,
            distinct(keys_of(self@.mcp_servers)),
    {
        let _ = self.mcp_servers.entries();
        &self.mcp_servers
    }

    /// Takes the hooks out of the configuration.
    pub fn take_hooks(&mut self) -> (r: Option<Hooks>)
        ensures
            model_opt(r) == old(self)@.hooks,
            final(self)@ == (OptionsModel { hooks: None, ..old(self)@ }),
    {
        self.hooks.take()
    }

    /// How the child is started for this configuration.
    pub fn to_transport_options(&self) -> (r: TransportOptions)
        ensures
            r@ == self@.transport_options(),
            distinct(r@.mcp_server_names),
    {
        let mut allowed = clone_strings(&self.allowed_tools);
        let mut names = no_strings();
        let ghost servers = self@.mcp_servers;
        let list = self.mcp_servers.entries();
        let mut i: usize = 0;
        proof {
            assert(servers.take(0) =~= Seq::empty());
            assert(models(allowed@) =~= self@.allowed_tools + endpoint_tools(servers.take(0)));
            assert(models(names@) =~= keys_of(servers.take(0)));
        }
        while i < list.len()
            invariant
                i <= list.len(),
                servers == entries_model(list@),
                models(allowed@) == self@.allowed_tools + endpoint_tools(servers.take(i as int)),
                models(names@) == keys_of(servers.take(i as int)),
            decreases list.len() - i,
        {
            let server_name = list[i].0.as_str();
            let tools = list[i].1.tools();
            let ghost before = models(allowed@);
            let ghost entries = tool_entries(server_name@, models(tools@));
            let mut k: usize = 0;
            proof {
                assert(before + entries.take(0) =~= before);
            }
            while k < tools.len()
                invariant
                    k <= tools.len(),
                    entries == tool_entries(server_name@, models(tools@)),
                    models(allowed@) == before + entries.take(k as int),
                decreases tools.len() - k,
            {
                let head = concat3("mcp__", server_name, "__");
                let entry = concat2(head.as_str(), tools[k].name());
                let ghost so_far = models(allowed@);
                push_str(&mut allowed, entry.as_str());
                proof {
                    assert(entry@ == entries[k as int]);
                    assert(so_far.push(entry@) =~= before + entries.take(k + 1));
                }
                k = k + 1;
            }
            let ghost seen = models(names@);
            push_str(&mut names, server_name);
            proof {
                assert(entries.take(tools.len() as int) =~= entries);
                let next = servers.take(i + 1);
                assert(next.drop_last() =~= servers.take(i as int));
                assert(next.last() == servers[i as int]);
                assert(before + entries =~= self@.allowed_tools + endpoint_tools(next));
                assert(seen.push(server_name@) =~= keys_of(next));
            }
            i = i + 1;
        }
        proof {
            assert(servers.take(list.len() as int) =~= servers);
        }
        TransportOptions {
            allowed_tools: allowed,
            disallowed_tools: clone_strings(&self.disallowed_tools),
            model: match &self.model {
                Some(m) => Some(m.name()),
                None => None,
            },
            fallback_model: match &self.fallback_model {
                Some(m) => Some(m.name()),
                None => None,
            },
            system_prompt: clone_opt_string(&self.system_prompt),
            append_system_prompt: clone_opt_string(&self.append_system_prompt),
            permission_mode: match self.permission_mode {
                Some(m) => Some(m.as_str().to_owned()),
                None => None,
            },
            max_budget_usd: clone_opt_string(&self.max_budget_usd),
            debug: false,
            cwd: clone_opt_string(&self.cwd),
            env: clone_pairs(&self.env),
            json_schema: clone_opt_string(&self.json_schema),
            mcp_server_names: names,
        }
    }
}

impl Default for Options {
    /// The configuration in which everything is empty, off or zero.
    fn default() -> (r: Options)
        ensures
            r@ == (OptionsModel { max_thinking_tokens: 0, ..OptionsModel::initial() }),
    {
        let mut o = Options::new();
        o.max_thinking_tokens = 0;
        o
    }
}

} // verus!
