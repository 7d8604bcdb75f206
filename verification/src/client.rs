//! The session: its identity, its registries, and the one loop that both the
//! data channel and the control channel go through.
//!
//! The session owns no pipe.  It says what is to be written, and it is
//! handed what was read, one value at a time.

use crate::error::{Error, ErrorModel};
use crate::hooks::post_tool_use::{PostToolUseInput, PostToolUseOutputModel};
use crate::hooks::pre_tool_use::{PreToolUseInput, PreToolUseOutputModel};
use crate::hooks::stop::{StopInput, StopOutputModel};
use crate::hooks::table::{Hooks, HooksModel};
use crate::hooks::user_prompt_submit::{UserPromptSubmitInput, UserPromptSubmitOutputModel};
use crate::json::{members_model, no_members, put, put_opt, Json, JsonModel};
use crate::mcp_server::{
    error_reply, tool_reply, McpServer, McpServerModel, PlanModel, METHOD_NOT_FOUND,
};
use crate::options::{Options, OptionsModel};
use crate::proto::content_block::{ContentBlock, ContentBlockModel, ToolResult, ToolResultModel};
use crate::proto::control::{
    HookCallbackRequest, HookCallbackRequestModel, InitializeRequest, InitializeRequestModel,
    PermissionMode, Request, RequestEnvelope, RequestEnvelopeModel, RequestModel,
    ResponseEnvelope, ResponseEnvelopeModel, ResponseModel as ControlResponseModel, ServerInfo,
    ServerInfoModel, SetModelRequest, SetModelRequestModel, SetPermissionModeRequest,
    SetPermissionModeRequestModel,
};
use crate::proto::incoming::{Incoming, IncomingModel};
use crate::proto::message::{
    OutgoingUserMessage, OutgoingUserMessageModel, SystemMessageModel, UserContent,
    UserContentModel,
};
use crate::response::{Response, ResponseModel};
use crate::named::{value_at, Named};
use crate::strings::{concat2, concat3, decimal, index_numeral, lemma_decimal_injective};
use crate::transport::{decode_line, decoded, is_parse_failure};
use crate::views::{clone_opt_string, model_opt, models};
use vstd::hash_map::StringHashMap;
use vstd::hash_set::StringHashSet;
use vstd::prelude::*;

verus! {

/// The hook that an identifier stands for: its kind, and its place in the
/// list of that kind.
#[derive(Debug, Clone, Copy, PartialEq, Eq)]
pub enum HookCallbackEntry {
    PreToolUse(usize),
    PostToolUse(usize),
    UserPromptSubmit(usize),
    Stop(usize),
}

/// The identifier of the hook with the number `n`.
pub open spec fn hook_id(n: nat) -> Seq<char> {
    "hook_"@ + decimal(n)
}

/// Hooks with distinct numbers have distinct identifiers.
pub proof fn lemma_hook_id_injective(a: nat, b: nat)
    requires
        hook_id(a) == hook_id(b),
    ensures
        a == b,
{
    let p = "hook_"@;
    assert(decimal(a) =~= hook_id(a).subrange(p.len() as int, hook_id(a).len() as int));
    assert(decimal(b) =~= hook_id(b).subrange(p.len() as int, hook_id(b).len() as int));
    lemma_decimal_injective(a, b);
}

impl HooksModel {
    /// The hook with the number `n`, where the hooks are numbered from zero
    /// through the four lists: first those for `PreToolUse`, then those for
    /// `PostToolUse`, for `UserPromptSubmit` and for `Stop`.
    pub open spec fn entry_at(self, n: nat) -> Option<HookCallbackEntry> {
        let p = self.pre_tool_use.len();
        let q = self.post_tool_use.len();
        let r = self.user_prompt_submit;
        let s = self.stop;
        if n < p {
            Some(HookCallbackEntry::PreToolUse(n as usize))
        } else if n < p + q {
            Some(HookCallbackEntry::PostToolUse((n - p) as usize))
        } else if n < p + q + r {
            Some(HookCallbackEntry::UserPromptSubmit((n - p - q) as usize))
        } else if n < p + q + r + s {
            Some(HookCallbackEntry::Stop((n - p - q - r) as usize))
        } else {
            None
        }
    }

    /// Whether `id` is the identifier of one of the hooks.
    pub open spec fn knows(self, id: Seq<char>) -> bool {
        exists|n: nat| n < self.total() && hook_id(n) == id
    }

    /// The number of the hook with the identifier `id`.
    pub open spec fn number_of(self, id: Seq<char>) -> nat {
        choose|n: nat| n < self.total() && hook_id(n) == id
    }
}

/// The hook that `id` stands for, if it stands for one.
pub open spec fn resolve(hooks: Option<HooksModel>, id: Seq<char>) -> Option<HookCallbackEntry> {
    match hooks {
        Some(h) => if h.knows(id) {
            h.entry_at(h.number_of(id))
        } else {
            None
        },
        None => None,
    }
}

/// The identifier of the hook with the number `n` stands for that hook.
pub proof fn lemma_resolve_hook_id(hooks: HooksModel, n: nat)
    requires
        n < hooks.total(),
    ensures
        resolve(Some(hooks), hook_id(n)) == hooks.entry_at(n),
        hooks.entry_at(n) is Some,
{
    assert(hooks.knows(hook_id(n)));
    lemma_hook_id_injective(hooks.number_of(hook_id(n)), n);
}

/// The identifiers resolve by the counts of the four lists alone: with `p`
/// hooks for `PreToolUse`, `q` for `PostToolUse`, `r` for `UserPromptSubmit`
/// and `s` for `Stop`, the identifier with the number `index` is the hook
/// for `PreToolUse` at `index`, the one with `p + index` the hook for
/// `PostToolUse` at `index`, the one with `p + q + index` the hook for
/// `UserPromptSubmit` at `index`, and the one with `p + q + r + index` the
/// hook for `Stop` at `index`.
pub proof fn lemma_hook_ids_by_offset(hooks: HooksModel, index: nat)
    requires
        hooks.total() <= usize::MAX,
    ensures
        index < hooks.pre_tool_use.len() ==> resolve(Some(hooks), hook_id(index)) == Some(
            HookCallbackEntry::PreToolUse(index as usize),
        ),
        index < hooks.post_tool_use.len() ==> resolve(
            Some(hooks),
            hook_id(hooks.pre_tool_use.len() + index),
        ) == Some(HookCallbackEntry::PostToolUse(index as usize)),
        index < hooks.user_prompt_submit ==> resolve(
            Some(hooks),
            hook_id(hooks.pre_tool_use.len() + hooks.post_tool_use.len() + index),
        ) == Some(HookCallbackEntry::UserPromptSubmit(index as usize)),
        index < hooks.stop ==> resolve(
            Some(hooks),
            hook_id(
                hooks.pre_tool_use.len() + hooks.post_tool_use.len() + hooks.user_prompt_submit
                    + index,
            ),
        ) == Some(HookCallbackEntry::Stop(index as usize)),
{
    let p = hooks.pre_tool_use.len();
    let q = hooks.post_tool_use.len();
    let r = hooks.user_prompt_submit;
    if index < p {
        lemma_resolve_hook_id(hooks, index);
    }
    if index < q {
        lemma_resolve_hook_id(hooks, p + index);
    }
    if index < r {
        lemma_resolve_hook_id(hooks, p + q + index);
    }
    if index < hooks.stop {
        lemma_resolve_hook_id(hooks, p + q + r + index);
    }
}

/// An identifier that no hook has stands for nothing.
pub proof fn lemma_unknown_hook_id(hooks: Option<HooksModel>, id: Seq<char>)
    requires
        hooks matches Some(h) ==> forall|n: nat| n < h.total() ==> hook_id(n) != id,
    ensures
        resolve(hooks, id) is None,
{
}

/// Whether `map` takes each identifier to the hook that it stands for, and
/// nothing else to anything.
pub open spec fn routes(map: Map<Seq<char>, HookCallbackEntry>, hooks: Option<HooksModel>) -> bool {
    forall|id: Seq<char>|
        (#[trigger] map.contains_key(id) <==> resolve(hooks, id) is Some) && (map.contains_key(id)
            ==> Some(map[id]) == resolve(hooks, id))
}

/// The hook with the number `n`.
fn entry_for(hooks: &Hooks, n: usize) -> (r: HookCallbackEntry)
    requires
        n < hooks@.total(),
    ensures
        Some(r) == hooks@.entry_at(n as nat),
{
    let p = hooks.pre_tool_use.len();
    let q = hooks.post_tool_use.len();
    let u = hooks.user_prompt_submit.len();
    if n < p {
        HookCallbackEntry::PreToolUse(n)
    } else if n - p < q {
        HookCallbackEntry::PostToolUse(n - p)
    } else if n - p - q < u {
        HookCallbackEntry::UserPromptSubmit(n - p - q)
    } else {
        HookCallbackEntry::Stop(n - p - q - u)
    }
}

/// The identifier of the hook with the number `n`.
pub fn hook_id_of(n: usize) -> (r: String)
    ensures
        r@ == hook_id(n as nat),
{
    let numeral = index_numeral(n);
    concat2("hook_", numeral.as_str())
}

/// The mapping from identifiers to hooks, built once for the hooks `hooks`.
pub fn build_hook_callbacks(hooks: &Option<Hooks>) -> (r: StringHashMap<HookCallbackEntry>)
    requires
        hooks matches Some(h) ==> h@.total() <= usize::MAX,
    ensures
        routes(r@, model_opt(*hooks)),
{
    let mut callbacks: StringHashMap<HookCallbackEntry> = StringHashMap::new();
    let hooks = match hooks {
        Some(h) => h,
        None => {
            return callbacks;
        },
    };
    let total = match hooks.total() {
        Some(t) => t,
        None => {
            return callbacks;
        },
    };
    let ghost model = hooks@;
    let mut n: usize = 0;
    while n < total
        invariant
            n <= total,
            total == model.total(),
            model == hooks@,
            forall|id: Seq<char>|
                #[trigger] callbacks@.contains_key(id) <==> exists|k: nat| k < n && hook_id(k) == id,
            forall|k: nat| k < n ==> Some(#[trigger] callbacks@[hook_id(k)]) == model.entry_at(k),
        decreases total - n,
    {
        let ghost before = callbacks@;
        let key = hook_id_of(n);
        let entry = entry_for(hooks, n);
        callbacks.insert(key, entry);
        proof {
            assert forall|id: Seq<char>| #[trigger]
                callbacks@.contains_key(id) <==> exists|k: nat| k < n + 1 && hook_id(k) == id by {
                if id == hook_id(n as nat) {
                    assert((n as nat) < n + 1 && hook_id(n as nat) == id);
                } else if before.contains_key(id) {
                    let k = choose|k: nat| k < n && hook_id(k) == id;
                    assert(k < n + 1 && hook_id(k) == id);
                } else if exists|k: nat| k < n + 1 && hook_id(k) == id {
                    let k = choose|k: nat| k < n + 1 && hook_id(k) == id;
                    assert(k < n && hook_id(k) == id);
                }
            }
            assert forall|k: nat| k < n + 1 implies Some(#[trigger] callbacks@[hook_id(k)])
                == model.entry_at(k) by {
                if k < n {
                    if hook_id(k) == hook_id(n as nat) {
                        lemma_hook_id_injective(k, n as nat);
                    }
                }
            }
        }
        n = n + 1;
    }
    proof {
        assert forall|id: Seq<char>|
            (#[trigger] callbacks@.contains_key(id) <==> resolve(Some(model), id) is Some) && (
            callbacks@.contains_key(id) ==> Some(callbacks@[id]) == resolve(Some(model), id)) by {
            if callbacks@.contains_key(id) {
                let k = choose|k: nat| k < n && hook_id(k) == id;
                lemma_resolve_hook_id(model, k);
            }
            if model.knows(id) {
                let k = model.number_of(id);
                assert(k < n && hook_id(k) == id);
            }
        }
    }
    callbacks
}

/// What a session is, as far as what it does depends on it.
pub struct ClientModel {
    pub session_id: Option<Seq<char>>,
    pub responded: Set<Seq<char>>,
    pub mcp_servers: Seq<(Seq<char>, McpServerModel)>,
    pub hooks: Option<HooksModel>,
}

/// The hooks of a session with the mapping from identifiers to hooks, which
/// is built once and stays as it is.
pub struct HookRouter {
    hooks: Option<Hooks>,
    callbacks: StringHashMap<HookCallbackEntry>,
}

impl View for HookRouter {
    type V = Option<HooksModel>;

    closed spec fn view(&self) -> Option<HooksModel> {
        model_opt(self.hooks)
    }
}

/// A session with the child.
pub struct Client {
    session_id: Option<String>,
    responded_tool_ids: StringHashSet,
    mcp_servers: Named<McpServer>,
    router: HookRouter,
}

impl View for Client {
    type V = ClientModel;

    closed spec fn view(&self) -> ClientModel {
        ClientModel {
            session_id: model_opt(self.session_id),
            responded: self.responded_tool_ids@,
            mcp_servers: self.mcp_servers@,
            hooks: self.router@,
        }
    }
}

impl ClientModel {
    /// The session as it starts for the configuration `options`.
    pub open spec fn start(options: OptionsModel) -> ClientModel {
        ClientModel {
            session_id: None,
            responded: Set::empty(),
            mcp_servers: options.mcp_servers,
            hooks: options.hooks,
        }
    }
}

impl HookRouter {
    #[verifier::type_invariant]
    spec fn routed(self) -> bool {
        routes(self.callbacks@, model_opt(self.hooks)) && (self.hooks matches Some(h)
            ==> h@.total() <= usize::MAX)
    }

    /// The router for the hooks `hooks`.
    pub fn new(hooks: Option<Hooks>) -> (r: HookRouter)
        requires
            hooks matches Some(h) ==> h@.total() <= usize::MAX,
        ensures
            r@ == model_opt(hooks),
    {
        let callbacks = build_hook_callbacks(&hooks);
        HookRouter { hooks, callbacks }
    }

    /// The hooks.
    pub fn hooks(&self) -> (r: Option<&Hooks>)
        ensures
            crate::views::model_ref(r) == self@,
    {
        self.hooks.as_ref()
    }

    /// The hook that `callback_id` stands for, if it stands for one.
    pub fn resolve(&self, callback_id: &str) -> (r: Option<HookCallbackEntry>)
        ensures
            r == resolve(self@, callback_id@),
    {
        proof {
            use_type_invariant(self);
        }
        match self.callbacks.get(callback_id) {
            Some(entry) => Some(*entry),
            None => None,
        }
    }
}

impl Client {
    /// The session for the configuration `options`: no identity yet, no
    /// tool answered, and the endpoints and hooks of the configuration.
    pub fn new(options: Options) -> (r: Client)
        requires
            options@.hooks matches Some(h) ==> h.total() <= usize::MAX,
        ensures
            r@ == ClientModel::start(options@),
    {
        Client {
            session_id: None,
            responded_tool_ids: StringHashSet::new(),
            mcp_servers: options.mcp_servers,
            router: HookRouter::new(options.hooks),
        }
    }

    /// The identity of the session, once the child has told it.
    pub fn session_id(&self) -> (r: Option<String>)
        ensures
            model_opt(r) == self@.session_id,
    {
        clone_opt_string(&self.session_id)
    }
}

/// The member `key: value` where `on` holds, and nothing where it does not.
pub open spec fn when(on: bool, key: Seq<char>, value: JsonModel) -> Seq<(Seq<char>, JsonModel)> {
    if on {
        seq![(key, value)]
    } else {
        Seq::empty()
    }
}

/// The pattern of a hook as the child is told it: the pattern, or `null`.
pub open spec fn pattern_value(pattern: Option<Seq<char>>) -> JsonModel {
    match pattern {
        Some(p) => JsonModel::Text(p),
        None => JsonModel::Null,
    }
}

/// What the child is told of a hook for a tool event: its pattern, and the
/// identifier under which to call it.
pub open spec fn matcher(pattern: Option<Seq<char>>, n: nat) -> JsonModel {
    JsonModel::Object(
        seq![
            ("matcher"@, pattern_value(pattern)),
            ("callbackIds"@, JsonModel::Array(seq![JsonModel::Text(hook_id(n))])),
        ],
    )
}

/// What the child is told of the hooks with the patterns `patterns`, which
/// are numbered from `base`.
pub open spec fn matchers(patterns: Seq<Option<Seq<char>>>, base: nat) -> Seq<JsonModel> {
    Seq::new(patterns.len(), |i: int| matcher(patterns[i], (base + i) as nat))
}

/// The identifiers of `count` hooks that are numbered from `base`.
pub open spec fn id_items(base: nat, count: nat) -> Seq<JsonModel> {
    Seq::new(count, |i: int| JsonModel::Text(hook_id((base + i) as nat)))
}

impl HooksModel {
    /// What the child is told of the hooks: for each kind that has hooks,
    /// the identifiers of its hooks, each numbered through the four lists.
    pub open spec fn callback_ids(self) -> JsonModel {
        let p = self.pre_tool_use.len();
        let q = self.post_tool_use.len();
        let r = self.user_prompt_submit;
        JsonModel::Object(
            when(p > 0, "PreToolUse"@, JsonModel::Array(matchers(self.pre_tool_use, 0))) + when(
                q > 0,
                "PostToolUse"@,
                JsonModel::Array(matchers(self.post_tool_use, p)),
            ) + when(r > 0, "UserPromptSubmit"@, JsonModel::Array(id_items(p + q, r))) + when(
                self.stop > 0,
                "Stop"@,
                JsonModel::Array(id_items(p + q + r, self.stop)),
            ),
        )
    }
}

/// What the child is told of the hooks; `null` where the session has none.
pub open spec fn hook_callback_ids(hooks: Option<HooksModel>) -> JsonModel {
    match hooks {
        Some(h) => h.callback_ids(),
        None => JsonModel::Null,
    }
}

/// The request that opens the control channel.  It carries the identifiers
/// of the hooks where the session has hooks.
pub open spec fn initialize(hooks: Option<HooksModel>) -> RequestModel {
    RequestModel::Initialize(
        InitializeRequestModel {
            hooks: match hooks {
                Some(h) => Some(seq![("hookCallbackIds"@, h.callback_ids())]),
                None => None,
            },
            ..InitializeRequestModel::of()
        },
    )
}

/// The message that answers the tool use `id` with `content`.
pub open spec fn tool_result_message(id: Seq<char>, content: JsonModel, is_error: bool) -> OutgoingUserMessageModel {
    OutgoingUserMessageModel::user(
        UserContentModel::Blocks(
            seq![
                ContentBlockModel::ToolResult(
                    ToolResultModel {
                        content: Some(content),
                        is_error: Some(is_error),
                        ..ToolResultModel::of(id)
                    },
                ),
            ],
        ),
    )
}

/// The identifiers, in order, for which a message is written when the tool
/// uses `ids` are answered one after another, each write succeeds, and the
/// tool uses `seen` have been answered before.
pub open spec fn writes(seen: Set<Seq<char>>, ids: Seq<Seq<char>>) -> Seq<Seq<char>>
    decreases ids.len(),
{
    if ids.len() == 0 {
        Seq::empty()
    } else if seen.contains(ids[0]) {
        writes(seen, ids.skip(1))
    } else {
        seq![ids[0]] + writes(seen.insert(ids[0]), ids.skip(1))
    }
}

/// However often one tool use is answered, a message is written for the
/// first answer alone; and for none, where it was answered before.
pub proof fn lemma_one_write_per_tool_use(seen: Set<Seq<char>>, ids: Seq<Seq<char>>, id: Seq<char>)
    requires
        forall|i: int| 0 <= i < ids.len() ==> ids[i] == id,
    ensures
        writes(seen, ids) == (if seen.contains(id) || ids.len() == 0 {
            Seq::<Seq<char>>::empty()
        } else {
            seq![id]
        }),
    decreases ids.len(),
{
    if ids.len() > 0 {
        assert(ids[0] == id);
        assert forall|i: int| 0 <= i < ids.skip(1).len() implies ids.skip(1)[i] == id by {
            assert(ids.skip(1)[i] == ids[i + 1]);
        }
        if seen.contains(id) {
            lemma_one_write_per_tool_use(seen, ids.skip(1), id);
        } else {
            lemma_one_write_per_tool_use(seen.insert(id), ids.skip(1), id);
            assert(seq![id] + Seq::<Seq<char>>::empty() =~= seq![id]);
        }
    }
}

/// After the tracking is cleared, answering a tool use again, however
/// often, writes exactly one new message.
pub proof fn lemma_one_write_after_clearing(ids: Seq<Seq<char>>, id: Seq<char>)
    requires
        ids.len() > 0,
        forall|i: int| 0 <= i < ids.len() ==> ids[i] == id,
    ensures
        writes(Set::empty(), ids) == seq![id],
{
    lemma_one_write_per_tool_use(Set::empty(), ids, id);
}

/// No message is ever written twice for one tool use, and none for a tool
/// use that was answered before.
pub proof fn lemma_writes_are_new_and_distinct(seen: Set<Seq<char>>, ids: Seq<Seq<char>>)
    ensures
        forall|i: int|
            0 <= i < writes(seen, ids).len() ==> !seen.contains(#[trigger] writes(seen, ids)[i]),
        forall|i: int, j: int|
            0 <= i < j < writes(seen, ids).len() ==> writes(seen, ids)[i] != writes(seen, ids)[j],
    decreases ids.len(),
{
    let all = writes(seen, ids);
    if ids.len() > 0 {
        if seen.contains(ids[0]) {
            lemma_writes_are_new_and_distinct(seen, ids.skip(1));
            assert(all == writes(seen, ids.skip(1)));
        } else {
            let more = seen.insert(ids[0]);
            let rest = writes(more, ids.skip(1));
            lemma_writes_are_new_and_distinct(more, ids.skip(1));
            assert(all == seq![ids[0]] + rest);
            assert(all.len() == rest.len() + 1);
            assert(all[0] == ids[0]);
            assert forall|i: int| 0 <= i < all.len() implies !seen.contains(#[trigger] all[i]) by {
                if i > 0 {
                    assert(all[i] == rest[i - 1]);
                    assert(!more.contains(rest[i - 1]));
                }
            }
            assert forall|i: int, j: int| 0 <= i < j < all.len() implies all[i] != all[j] by {
                assert(all[j] == rest[j - 1]);
                assert(!more.contains(rest[j - 1]));
                if i > 0 {
                    assert(all[i] == rest[i - 1]);
                }
            }
        }
    } else {
        assert(all.len() == 0);
    }
}

/// The payload that carries the answer of a tool endpoint.
pub open spec fn mcp_payload(answer: JsonModel) -> JsonModel {
    JsonModel::Object(seq![("mcp_response"@, answer)])
}

/// The answer for a message to an endpoint that the session does not have.
pub open spec fn server_not_found(name: Seq<char>) -> JsonModel {
    error_reply(JsonModel::Null, METHOD_NOT_FOUND, "MCP server '"@ + name + "' not found"@)
}

/// A call of a hook: the hook by its kind and index, and the input for it.
pub enum HookCall {
    NoHook,
    PreToolUse(usize, PreToolUseInput),
    PostToolUse(usize, PostToolUseInput),
    UserPromptSubmit(usize, UserPromptSubmitInput),
    Stop(usize, StopInput),
}

pub enum HookCallModel {
    NoHook,
    PreToolUse(usize, crate::hooks::pre_tool_use::PreToolUseInputModel),
    PostToolUse(usize, crate::hooks::post_tool_use::PostToolUseInputModel),
    UserPromptSubmit(usize, crate::hooks::user_prompt_submit::UserPromptSubmitInputModel),
    Stop(usize, crate::hooks::stop::StopInputModel),
}

impl View for HookCall {
    type V = HookCallModel;

    open spec fn view(&self) -> HookCallModel {
        match self {
            HookCall::NoHook => HookCallModel::NoHook,
            HookCall::PreToolUse(i, input) => HookCallModel::PreToolUse(*i, input@),
            HookCall::PostToolUse(i, input) => HookCallModel::PostToolUse(*i, input@),
            HookCall::UserPromptSubmit(i, input) => HookCallModel::UserPromptSubmit(*i, input@),
            HookCall::Stop(i, input) => HookCallModel::Stop(*i, input@),
        }
    }
}

impl HookCallModel {
    /// The hook that the call reaches among `hooks`: the one of its kind at
    /// its index, if the list of that kind is that long.
    pub open spec fn entry_in(self, hooks: Option<HooksModel>) -> Option<HookCallbackEntry> {
        match hooks {
            None => None,
            Some(h) => match self {
                HookCallModel::NoHook => None,
                HookCallModel::PreToolUse(i, _) => if i < h.pre_tool_use.len() {
                    Some(HookCallbackEntry::PreToolUse(i))
                } else {
                    None
                },
                HookCallModel::PostToolUse(i, _) => if i < h.post_tool_use.len() {
                    Some(HookCallbackEntry::PostToolUse(i))
                } else {
                    None
                },
                HookCallModel::UserPromptSubmit(i, _) => if i < h.user_prompt_submit {
                    Some(HookCallbackEntry::UserPromptSubmit(i))
                } else {
                    None
                },
                HookCallModel::Stop(i, _) => if i < h.stop {
                    Some(HookCallbackEntry::Stop(i))
                } else {
                    None
                },
            },
        }
    }
}

/// The call that a request for a hook asks for: the hook that the
/// identifier of the request stands for, with the input that the payload of
/// the request carries for a hook of its kind; and no call where the
/// identifier stands for no hook.
pub open spec fn hook_call(hooks: Option<HooksModel>, req: HookCallbackRequestModel) -> HookCallModel {
    match resolve(hooks, req.callback_id) {
        None => HookCallModel::NoHook,
        Some(HookCallbackEntry::PreToolUse(i)) => HookCallModel::PreToolUse(
            i,
            crate::hooks::pre_tool_use::PreToolUseInputModel::of(req.input),
        ),
        Some(HookCallbackEntry::PostToolUse(i)) => HookCallModel::PostToolUse(
            i,
            crate::hooks::post_tool_use::PostToolUseInputModel::of(req.input),
        ),
        Some(HookCallbackEntry::UserPromptSubmit(i)) => HookCallModel::UserPromptSubmit(
            i,
            crate::hooks::user_prompt_submit::UserPromptSubmitInputModel::of(req.input),
        ),
        Some(HookCallbackEntry::Stop(i)) => HookCallModel::Stop(
            i,
            crate::hooks::stop::StopInputModel::of(req.input),
        ),
    }
}

/// The hook that an identifier stands for is one that the table holds: its
/// index is within the list of its kind.
pub proof fn lemma_entry_in_range(hooks: HooksModel, id: Seq<char>)
    requires
        hooks.total() <= usize::MAX,
    ensures
        match resolve(Some(hooks), id) {
            None => true,
            Some(HookCallbackEntry::PreToolUse(i)) => i < hooks.pre_tool_use.len(),
            Some(HookCallbackEntry::PostToolUse(i)) => i < hooks.post_tool_use.len(),
            Some(HookCallbackEntry::UserPromptSubmit(i)) => i < hooks.user_prompt_submit,
            Some(HookCallbackEntry::Stop(i)) => i < hooks.stop,
        },
{
}

/// Whether `payload` can be what a hook of the kind of `entry` answers; for
/// no hook at all, it is the empty object.
pub open spec fn hook_payload(entry: Option<HookCallbackEntry>, payload: JsonModel) -> bool {
    match entry {
        None => payload == JsonModel::empty_object(),
        Some(HookCallbackEntry::PreToolUse(_)) => exists|o: PreToolUseOutputModel|
            payload == o.hook_response(),
        Some(HookCallbackEntry::PostToolUse(_)) => exists|o: PostToolUseOutputModel|
            payload == o.hook_response(),
        Some(HookCallbackEntry::UserPromptSubmit(_)) => exists|o: UserPromptSubmitOutputModel|
            payload == o.hook_response(),
        Some(HookCallbackEntry::Stop(_)) => exists|o: StopOutputModel| payload == o.hook_response(),
    }
}

/// Whether `envelope` answers the call of the hook `callback_id` under the
/// request `request_id`: it reports success in every case, with the hook's
/// answer, or with the empty object where the identifier stands for no hook.
pub open spec fn answers_hook(
    hooks: Option<HooksModel>,
    request_id: Seq<char>,
    callback_id: Seq<char>,
    envelope: ResponseEnvelopeModel,
) -> bool {
    exists|payload: JsonModel|
        envelope == ResponseEnvelopeModel::success(request_id, Some(payload)) && hook_payload(
            resolve(hooks, callback_id),
            payload,
        )
}

impl ClientModel {
    /// Whether `envelope` answers the message `message` for the endpoint
    /// `server_name` under the request `request_id`.
    ///
    /// The envelope reports success in every case.  For an endpoint that
    /// the session does not have, it carries the error that the endpoint
    /// was not found.  Else it carries the endpoint's answer: the one that
    /// the message leads to at once, or one that wraps what a handler
    /// returned.
    pub open spec fn answers_mcp(
        self,
        request_id: Seq<char>,
        server_name: Seq<char>,
        message: JsonModel,
        envelope: ResponseEnvelopeModel,
    ) -> bool {
        match value_at(self.mcp_servers, server_name) {
            None => envelope == ResponseEnvelopeModel::success(
                request_id,
                Some(mcp_payload(server_not_found(server_name))),
            ),
            Some(server) => match server.plan(message) {
                PlanModel::Reply(answer) => envelope == ResponseEnvelopeModel::success(
                    request_id,
                    Some(mcp_payload(answer)),
                ),
                PlanModel::Call { index, input, id } => exists|
                    outcome: Result<JsonModel, Seq<char>>,
                |
                    envelope == ResponseEnvelopeModel::success(
                        request_id,
                        Some(mcp_payload(tool_reply(id, outcome))),
                    ),
            },
        }
    }

    /// Whether `envelope` answers the call of the hook `callback_id` under
    /// the request `request_id`.
    pub open spec fn answers_hook(
        self,
        request_id: Seq<char>,
        callback_id: Seq<char>,
        envelope: ResponseEnvelopeModel,
    ) -> bool {
        answers_hook(self.hooks, request_id, callback_id, envelope)
    }

    /// The identity of the session after `incoming`: the one that an init
    /// message tells, where it tells one, and else the one it had.
    pub open spec fn next_session(self, incoming: IncomingModel) -> Option<Seq<char>> {
        next_session_id(self.session_id, incoming)
    }

    /// Whether `envelope` answers the control request `asked`, which is for
    /// an endpoint or for a hook.
    pub open spec fn answers(
        self,
        asked: crate::proto::incoming::ControlRequestEnvelopeModel,
        envelope: ResponseEnvelopeModel,
    ) -> bool {
        match asked.request {
            RequestModel::McpMessage(m) => self.answers_mcp(
                asked.request_id,
                m.server_name,
                m.message,
                envelope,
            ),
            RequestModel::HookCallback(h) => self.answers_hook(
                asked.request_id,
                h.callback_id,
                envelope,
            ),
            _ => false,
        }
    }

    /// Whether `received` is what the session makes of `incoming`.
    ///
    /// A control request for an endpoint or for a hook is answered.  Any
    /// other control request, and any control response, is passed over.  A
    /// message of the data channel is decomposed into its events, and a
    /// result message completes the run.
    pub open spec fn makes(self, incoming: IncomingModel, received: ReceivedModel) -> bool {
        match incoming {
            IncomingModel::ControlRequest(q) => match q.request {
                RequestModel::McpMessage(m) => received matches ReceivedModel::Reply(envelope)
                    && self.answers_mcp(q.request_id, m.server_name, m.message, envelope),
                RequestModel::HookCallback(h) => received matches ReceivedModel::Reply(envelope)
                    && self.answers_hook(q.request_id, h.callback_id, envelope),
                _ => received is Ignored,
            },
            IncomingModel::ControlResponse(_) => received is Ignored,
            message => received == (ReceivedModel::Responses {
                responses: ResponseModel::of_message(message.message().unwrap()),
                complete: message is Result,
            }),
        }
    }
}

/// The identity of a session after `incoming`, where it was `current`
/// before.
pub open spec fn next_session_id(current: Option<Seq<char>>, incoming: IncomingModel) -> Option<
    Seq<char>,
> {
    match incoming {
        IncomingModel::System(SystemMessageModel::Init(init)) => match init.session_id {
            Some(sid) => Some(sid),
            None => current,
        },
        _ => current,
    }
}

/// Whether the loop ends with the line `line`: it cannot be read as a value
/// of the protocol, or it carries a result message.
pub open spec fn stops(line: Seq<char>) -> bool {
    match decoded(line) {
        None => true,
        Some(IncomingModel::Result(_)) => true,
        _ => false,
    }
}

/// The events that the line `line` gives: those of its message, and none
/// for a line that carries no message of the data channel.
pub open spec fn line_events(line: Seq<char>) -> Seq<ResponseModel> {
    match decoded(line) {
        Some(incoming) => match incoming.message() {
            Some(message) => ResponseModel::of_message(message),
            None => Seq::empty(),
        },
        None => Seq::empty(),
    }
}

/// The events that the first `n` of `lines` give, line after line.
pub open spec fn events_through(lines: Seq<Seq<char>>, n: int) -> Seq<ResponseModel>
    decreases n,
{
    if n <= 0 {
        Seq::empty()
    } else {
        events_through(lines, n - 1) + line_events(lines[n - 1])
    }
}

/// The control request that the line `line` carries for an endpoint or for
/// a hook: the two kinds that are answered.
pub open spec fn asked(line: Seq<char>) -> Option<
    crate::proto::incoming::ControlRequestEnvelopeModel,
> {
    match decoded(line) {
        Some(IncomingModel::ControlRequest(q)) => match q.request {
            RequestModel::McpMessage(_) => Some(q),
            RequestModel::HookCallback(_) => Some(q),
            _ => None,
        },
        _ => None,
    }
}

/// The control requests that the first `n` of `lines` carry for endpoints
/// and hooks, in order.
pub open spec fn asked_through(lines: Seq<Seq<char>>, n: int) -> Seq<
    crate::proto::incoming::ControlRequestEnvelopeModel,
>
    decreases n,
{
    if n <= 0 {
        Seq::empty()
    } else {
        match asked(lines[n - 1]) {
            Some(q) => asked_through(lines, n - 1).push(q),
            None => asked_through(lines, n - 1),
        }
    }
}

/// The identity of a session after the first `n` of `lines`, where it was
/// `start` before.
pub open spec fn session_through(start: Option<Seq<char>>, lines: Seq<Seq<char>>, n: int) -> Option<
    Seq<char>,
>
    decreases n,
{
    if n <= 0 {
        start
    } else {
        let before = session_through(start, lines, n - 1);
        match decoded(lines[n - 1]) {
            Some(incoming) => next_session_id(before, incoming),
            None => before,
        }
    }
}

/// What a run of the loop over lines gives: the events, the control
/// responses to be written, how many lines were read, and the error that
/// ended the run, if one did.
pub struct Run {
    pub responses: Vec<Response>,
    pub replies: Vec<ResponseEnvelope>,
    pub read: usize,
    pub error: Option<Error>,
}

/// What the session makes of one value from the child.
pub enum Received {
    /// A control response, to be written to the child before the next read.
    Reply(ResponseEnvelope),
    /// The events of a message, in order; `complete` where the last of them
    /// is terminal, after which nothing more is to be read for the run.
    Responses { responses: Vec<Response>, complete: bool },
    /// Nothing: the value is passed over.
    Ignored,
}

pub enum ReceivedModel {
    Reply(ResponseEnvelopeModel),
    Responses { responses: Seq<ResponseModel>, complete: bool },
    Ignored,
}

impl View for Received {
    type V = ReceivedModel;

    open spec fn view(&self) -> ReceivedModel {
        match self {
            Received::Reply(envelope) => ReceivedModel::Reply(envelope@),
            Received::Responses { responses, complete } => ReceivedModel::Responses {
                responses: models(responses@),
                complete: *complete,
            },
            Received::Ignored => ReceivedModel::Ignored,
        }
    }
}

/// What one value from the child means for the wait for the server
/// information: the end of the wait with its outcome, or `None` where the
/// wait goes on.
pub open spec fn server_info_outcome(incoming: Option<IncomingModel>) -> Option<
    Result<ServerInfoModel, ErrorModel>,
> {
    match incoming {
        None => Some(Err(ErrorModel::ConnectionError("stream ended"@))),
        Some(IncomingModel::ControlResponse(envelope)) => match envelope.response {
            ControlResponseModel::Success(success) => match success.response {
                Some(data) => match ServerInfoModel::read(data) {
                    Some(info) => Some(Ok(info)),
                    None => Some(
                        Err(
                            ErrorModel::ProtocolError(
                                "the server information lacks its members"@,
                            ),
                        ),
                    ),
                },
                None => Some(Err(ErrorModel::ProtocolError("empty response"@))),
            },
            ControlResponseModel::Error(err) => Some(
                Err(
                    ErrorModel::ControlError {
                        request_id: err.request_id,
                        message: err.error.message,
                    },
                ),
            ),
        },
        Some(_) => None,
    }
}

/// The model of the outcome of a wait.
pub open spec fn outcome_view(o: Option<Result<ServerInfo, Error>>) -> Option<
    Result<ServerInfoModel, ErrorModel>,
> {
    match o {
        Some(Ok(info)) => Some(Ok(info@)),
        Some(Err(e)) => Some(Err(e@)),
        None => None,
    }
}

/// The pattern of a hook as a JSON value.
fn pattern_json(pattern: &Option<String>) -> (r: Json)
    ensures
        r@ == pattern_value(model_opt(*pattern)),
{
    match pattern {
        Some(p) => Json::text(p.as_str()),
        None => Json::null(),
    }
}

/// What the child is told of one hook for a tool event.
fn matcher_json(pattern: &Option<String>, n: usize) -> (r: Json)
    ensures
        r@ == matcher(model_opt(*pattern), n as nat),
{
    let id = hook_id_of(n);
    let mut ids: Vec<Json> = Vec::new();
    ids.push(Json::text(id.as_str()));
    proof {
        assert(models(ids@) =~= seq![JsonModel::Text(hook_id(n as nat))]);
    }
    let mut members = no_members();
    put(&mut members, "matcher", pattern_json(pattern));
    put(&mut members, "callbackIds", Json::array(ids));
    proof {
        assert(members_model(members@) =~= matcher(model_opt(*pattern), n as nat)->Object_0);
    }
    Json::object(members)
}

/// The identifiers of `count` hooks that are numbered from `base`.
fn id_items_json(base: usize, count: usize) -> (r: Json)
    requires
        base + count <= usize::MAX,
    ensures
        r@ == JsonModel::Array(id_items(base as nat, count as nat)),
{
    let mut items: Vec<Json> = Vec::new();
    let mut i: usize = 0;
    while i < count
        invariant
            i <= count,
            base + count <= usize::MAX,
            items.len() == i,
            forall|k: int| 0 <= k < i ==> items[k]@ == JsonModel::Text(hook_id((base + k) as nat)),
        decreases count - i,
    {
        let id = hook_id_of(base + i);
        items.push(Json::text(id.as_str()));
        i = i + 1;
    }
    proof {
        assert(models(items@) =~= id_items(base as nat, count as nat));
    }
    Json::array(items)
}

impl HookRouter {
    /// What the child is told of the hooks of the session.
    pub fn callback_ids(&self) -> (r: Json)
        ensures
            r@ == hook_callback_ids(self@),
    {
        proof {
            use_type_invariant(self);
        }
        let hooks = match &self.hooks {
            Some(h) => h,
            None => {
                return Json::null();
            },
        };
        let ghost model = hooks@;
        let p = hooks.pre_tool_use.len();
        let q = hooks.post_tool_use.len();
        let u = hooks.user_prompt_submit.len();
        let s = hooks.stop.len();
        let mut result = no_members();
        let pre = if hooks.has_pre_tool_use_hooks() {
            let mut items: Vec<Json> = Vec::new();
            let mut i: usize = 0;
            while i < p
                invariant
                    i <= p,
                    p == hooks.pre_tool_use.len(),
                    model == hooks@,
                    items.len() == i,
                    forall|k: int|
                        0 <= k < i ==> items[k]@ == matcher(model.pre_tool_use[k], k as nat),
                decreases p - i,
            {
                items.push(matcher_json(&hooks.pre_tool_use[i].0, i));
                i = i + 1;
            }
            proof {
                assert(models(items@) =~= matchers(model.pre_tool_use, 0));
            }
            Some(Json::array(items))
        } else {
            None
        };
        put_opt(&mut result, "PreToolUse", pre);
        let post = if hooks.has_post_tool_use_hooks() {
            let mut items: Vec<Json> = Vec::new();
            let mut i: usize = 0;
            while i < q
                invariant
                    i <= q,
                    p == hooks.pre_tool_use.len(),
                    q == hooks.post_tool_use.len(),
                    model == hooks@,
                    model.total() <= usize::MAX,
                    items.len() == i,
                    forall|k: int|
                        0 <= k < i ==> items[k]@ == matcher(
                            model.post_tool_use[k],
                            (p + k) as nat,
                        ),
                decreases q - i,
            {
                items.push(matcher_json(&hooks.post_tool_use[i].0, p + i));
                i = i + 1;
            }
            proof {
                assert(models(items@) =~= matchers(model.post_tool_use, p as nat));
            }
            Some(Json::array(items))
        } else {
            None
        };
        put_opt(&mut result, "PostToolUse", post);
        let prompts = if hooks.has_user_prompt_submit_hooks() {
            Some(id_items_json(p + q, u))
        } else {
            None
        };
        put_opt(&mut result, "UserPromptSubmit", prompts);
        let stops = if hooks.has_stop_hooks() {
            Some(id_items_json(p + q + u, s))
        } else {
            None
        };
        put_opt(&mut result, "Stop", stops);
        proof {
            assert(members_model(result@) =~= model.callback_ids()->Object_0);
        }
        Json::object(result)
    }

    /// The call that the request `hook_req` asks for: the hook that its
    /// identifier stands for, and the input for the hook as the payload of
    /// the request carries it.
    pub fn route(&self, hook_req: &HookCallbackRequest) -> (r: HookCall)
        ensures
            r@ == hook_call(self@, hook_req@),
    {
        let input = hook_req.input();
        match self.resolve(hook_req.callback_id()) {
            None => HookCall::NoHook,
            Some(HookCallbackEntry::PreToolUse(idx)) => HookCall::PreToolUse(
                idx,
                PreToolUseInput::from_json(input),
            ),
            Some(HookCallbackEntry::PostToolUse(idx)) => HookCall::PostToolUse(
                idx,
                PostToolUseInput::from_json(input),
            ),
            Some(HookCallbackEntry::UserPromptSubmit(idx)) => HookCall::UserPromptSubmit(
                idx,
                UserPromptSubmitInput::from_json(input),
            ),
            Some(HookCallbackEntry::Stop(idx)) => HookCall::Stop(idx, StopInput::from_json(input)),
        }
    }

    /// Makes the call `call`: hands the input to the hook at the index of
    /// its kind, and gives the hook's answer as the child expects it.  For
    /// no hook, and for an index past the end of its list, the answer is
    /// the empty object.
    pub fn invoke(&self, call: HookCall) -> (r: Json)
        ensures
            hook_payload(call@.entry_in(self@), r@),
    {
        let hooks = match &self.hooks {
            Some(h) => h,
            None => {
                return Json::empty_object();
            },
        };
        match call {
            HookCall::NoHook => Json::empty_object(),
            HookCall::PreToolUse(idx, hook_input) => match hooks.get_pre_tool_use_hook(idx) {
                Some(hook) => {
                    let output = hook.1.call(hook_input);
                    let payload = output.to_hook_response();
                    proof {
                        assert(payload@ == output@.hook_response());
                    }
                    payload
                },
                None => Json::empty_object(),
            },
            HookCall::PostToolUse(idx, hook_input) => match hooks.get_post_tool_use_hook(idx) {
                Some(hook) => {
                    let output = hook.1.call(hook_input);
                    let payload = output.to_hook_response();
                    proof {
                        assert(payload@ == output@.hook_response());
                    }
                    payload
                },
                None => Json::empty_object(),
            },
            HookCall::UserPromptSubmit(idx, hook_input) => match hooks.get_user_prompt_submit_hook(
                idx,
            ) {
                Some(hook) => {
                    let output = hook.call(hook_input);
                    let payload = output.to_hook_response();
                    proof {
                        assert(payload@ == output@.hook_response());
                    }
                    payload
                },
                None => Json::empty_object(),
            },
            HookCall::Stop(idx, hook_input) => match hooks.get_stop_hook(idx) {
                Some(hook) => {
                    let output = hook.call(hook_input);
                    let payload = output.to_hook_response();
                    proof {
                        assert(payload@ == output@.hook_response());
                    }
                    payload
                },
                None => Json::empty_object(),
            },
        }
    }

    /// Answers the call of a hook: finds the hook that the identifier
    /// stands for, hands it what the child says, and wraps its answer.
    pub fn handle(&self, request_id: &str, hook_req: &HookCallbackRequest) -> (r:
        ResponseEnvelope)
        ensures
            answers_hook(self@, request_id@, hook_req@.callback_id, r@),
    {
        proof {
            use_type_invariant(self);
            if self@ is Some {
                lemma_entry_in_range(self@.unwrap(), hook_req@.callback_id);
            }
        }
        let call = self.route(hook_req);
        let payload = self.invoke(call);
        ResponseEnvelope::success(request_id, Some(payload))
    }
}

impl Client {
    /// What the child is told of the hooks of the session.
    pub fn build_hook_callback_ids(&self) -> (r: Json)
        ensures
            r@ == hook_callback_ids(self@.hooks),
    {
        self.router.callback_ids()
    }

    /// The request that opens the control channel, under a fresh
    /// identifier.  It is the first that goes to the child.
    pub fn initialize(&self) -> (r: RequestEnvelope)
        ensures
            r@ == RequestEnvelopeModel::of(r@.request_id, initialize(self@.hooks)),
            r@.request_id.len() == 36,
    {
        let ids = self.build_hook_callback_ids();
        let request = if ids.is_null() {
            proof {
                if self@.hooks is Some {
                    assert(self@.hooks.unwrap().callback_ids() is Object);
                }
            }
            InitializeRequest::new()
        } else {
            let mut members = no_members();
            put(&mut members, "hookCallbackIds", ids);
            proof {
                assert(members_model(members@) =~= seq![("hookCallbackIds"@, ids@)]);
            }
            InitializeRequest::new().with_hooks(members)
        };
        RequestEnvelope::new(Request::Initialize(request))
    }

    /// The message that carries the prompt `prompt`, to be written to the
    /// child.  No answer is awaited.
    pub fn query(&self, prompt: &str) -> (r: OutgoingUserMessage)
        ensures
            r@ == OutgoingUserMessageModel::user(UserContentModel::Text(prompt@)),
    {
        OutgoingUserMessage::text(prompt)
    }

    /// The message that carries `content`, to be written to the child.
    pub fn send_message(&self, content: UserContent) -> (r: OutgoingUserMessage)
        ensures
            r@ == OutgoingUserMessageModel::user(content@),
    {
        OutgoingUserMessage::new(content)
    }

    /// The message that answers the tool use `tool_use_id`, to be written
    /// to the child; `None` where the tool use has been answered before.
    /// Once the message is written, the session is to be told with
    /// `tool_response_sent`.
    pub fn respond_to_tool(&self, tool_use_id: &str, content: Json, is_error: bool) -> (r: Option<
        OutgoingUserMessage,
    >)
        ensures
            match r {
                Some(message) => !self@.responded.contains(tool_use_id@) && message@
                    == tool_result_message(tool_use_id@, content@, is_error),
                None => self@.responded.contains(tool_use_id@),
            },
    {
        if self.responded_tool_ids.contains(tool_use_id) {
            return None;
        }
        let tool_result = ContentBlock::ToolResult(
            ToolResult::new(tool_use_id).with_content(content).with_error(is_error),
        );
        let mut blocks: Vec<ContentBlock> = Vec::new();
        blocks.push(tool_result);
        proof {
            assert(models(blocks@) =~= seq![tool_result@]);
        }
        Some(OutgoingUserMessage::new(UserContent::Blocks(blocks)))
    }

    /// Records that the answer to the tool use `tool_use_id` was written.
    pub fn tool_response_sent(&mut self, tool_use_id: &str)
        ensures
            final(self)@ == (ClientModel {
                responded: old(self)@.responded.insert(tool_use_id@),
                ..old(self)@
            }),
    {
        self.responded_tool_ids.insert(tool_use_id.to_owned());
    }

    /// Forgets which tool uses have been answered.
    pub fn clear_tool_response_tracking(&mut self)
        ensures
            final(self)@ == (ClientModel { responded: Set::empty(), ..old(self)@ }),
    {
        self.responded_tool_ids.clear();
    }

    /// The envelope that carries the answer `answer` of a tool endpoint
    /// for the request `request_id`.
    pub fn mcp_reply(request_id: &str, answer: Json) -> (r: ResponseEnvelope)
        ensures
            r@ == ResponseEnvelopeModel::success(request_id@, Some(mcp_payload(answer@))),
    {
        let mut members = no_members();
        put(&mut members, "mcp_response", answer);
        proof {
            assert(members_model(members@) =~= seq![("mcp_response"@, answer@)]);
        }
        ResponseEnvelope::success(request_id, Some(Json::object(members)))
    }

    /// Answers a message of the child for the tool endpoint `server_name`.
    pub fn handle_mcp_message(&self, request_id: &str, server_name: &str, message: &Json) -> (r:
        ResponseEnvelope)
        ensures
            self@.answers_mcp(request_id@, server_name@, message@, r@),
    {
        match self.mcp_servers.get(server_name) {
            Some(server) => {
                let answer = server.handle_json_message(message);
                Client::mcp_reply(request_id, answer)
            },
            None => {
                let text = concat3("MCP server '", server_name, "' not found");
                let answer = McpServer::jsonrpc_error(&Json::null(), METHOD_NOT_FOUND, text.as_str());
                Client::mcp_reply(request_id, answer)
            },
        }
    }

    /// Answers the call of a hook: finds the hook that the identifier
    /// stands for, hands it what the child says, and wraps its answer.
    pub fn handle_hook_callback(&self, request_id: &str, hook_req: &HookCallbackRequest) -> (r:
        ResponseEnvelope)
        ensures
            self@.answers_hook(request_id@, hook_req@.callback_id, r@),
    {
        self.router.handle(request_id, hook_req)
    }

    /// Takes one value that was read from the child through the loop.
    ///
    /// The tool uses that were answered, the endpoints and the hooks stay
    /// as they are.  The identity of the session is the one that an init
    /// message tells, where it tells one.
    pub fn receive(&mut self, incoming: &Incoming) -> (r: Received)
        ensures
            old(self)@.makes(incoming@, r@),
            final(self)@ == (ClientModel {
                session_id: old(self)@.next_session(incoming@),
                ..old(self)@
            }),
    {
        match incoming {
            Incoming::ControlRequest(ctrl) => {
                match ctrl.request() {
                    Request::McpMessage(mcp_req) => Received::Reply(
                        self.handle_mcp_message(
                            ctrl.request_id(),
                            mcp_req.server_name(),
                            mcp_req.message(),
                        ),
                    ),
                    Request::HookCallback(hook_req) => Received::Reply(
                        self.handle_hook_callback(ctrl.request_id(), hook_req),
                    ),
                    _ => Received::Ignored,
                }
            },
            Incoming::ControlResponse(_) => Received::Ignored,
            _ => {
                match incoming {
                    Incoming::System(crate::proto::message::SystemMessage::Init(init)) => {
                        match init.session_id() {
                            Some(sid) => {
                                self.session_id = Some(sid.to_owned());
                            },
                            None => {},
                        }
                    },
                    _ => {},
                }
                match incoming.to_message() {
                    Some(msg) => {
                        let responses = Response::from_message(&msg);
                        let complete = match &msg {
                            crate::proto::message::Message::Result(_) => true,
                            _ => false,
                        };
                        Received::Responses { responses, complete }
                    },
                    None => Received::Ignored,
                }
            },
        }
    }

    /// Takes one line that was read from the child through the loop.  A
    /// line that cannot be read as a value of the protocol is a protocol
    /// error, and leaves the session as it is.
    pub fn receive_line(&mut self, line: &str) -> (r: Result<Received, Error>)
        ensures
            match r {
                Ok(received) => decoded(line@) matches Some(incoming) && old(self)@.makes(
                    incoming,
                    received@,
                ) && final(self)@ == (ClientModel {
                    session_id: old(self)@.next_session(incoming),
                    ..old(self)@
                }),
                Err(e) => decoded(line@) is None && is_parse_failure(e@) && final(self)@ == old(
                    self,
                )@,
            },
    {
        match decode_line(line) {
            Ok(incoming) => Ok(self.receive(&incoming)),
            Err(e) => Err(e),
        }
    }

    /// Runs the loop over `lines`, the lines of the child in the order in
    /// which they came, as far as the loop reads.
    ///
    /// The loop reads line after line and ends with the first line that
    /// cannot be read as a value of the protocol, which is an error, or that
    /// carries a result message; what follows that line is not read.  Where
    /// no line ends it, it reads them all.  The events are those of the
    /// lines read, in order, so a terminal event is the last.  Every control
    /// request for an endpoint or a hook among the lines read is answered,
    /// in order.
    pub fn receive_all(&mut self, lines: &Vec<String>) -> (r: Run)
        ensures
            r.read <= lines.len(),
            forall|k: int| 0 <= k < r.read - 1 ==> !stops(#[trigger] lines[k]@),
            r.read < lines.len() ==> r.read > 0 && stops(lines[r.read - 1]@),
            match r.error {
                Some(e) => r.read > 0 && decoded(lines[r.read - 1]@) is None && is_parse_failure(e@),
                None => r.read > 0 ==> decoded(lines[r.read - 1]@) is Some,
            },
            models(r.responses@) == events_through(models(lines@), r.read as int),
            r.replies.len() == asked_through(models(lines@), r.read as int).len(),
            forall|k: int|
                0 <= k < r.replies.len() ==> old(self)@.answers(
                    asked_through(models(lines@), r.read as int)[k],
                    (#[trigger] r.replies[k])@,
                ),
            final(self)@ == (ClientModel {
                session_id: session_through(
                    old(self)@.session_id,
                    models(lines@),
                    r.read as int,
                ),
                ..old(self)@
            }),
    {
        let ghost start = self@;
        let ghost all = models(lines@);
        let mut responses: Vec<Response> = Vec::new();
        let mut replies: Vec<ResponseEnvelope> = Vec::new();
        let mut i: usize = 0;
        proof {
            assert(models(responses@) =~= events_through(all, 0));
        }
        while i < lines.len()
            invariant
                i <= lines.len(),
                all == models(lines@),
                start == old(self)@,
                forall|k: int| 0 <= k < i ==> !stops(#[trigger] lines[k]@),
                models(responses@) == events_through(all, i as int),
                replies.len() == asked_through(all, i as int).len(),
                forall|k: int|
                    0 <= k < replies.len() ==> start.answers(
                        asked_through(all, i as int)[k],
                        (#[trigger] replies[k])@,
                    ),
                self@ == (ClientModel {
                    session_id: session_through(start.session_id, all, i as int),
                    ..start
                }),
            decreases lines.len() - i,
        {
            let ghost before = self@;
            let ghost seen = models(responses@);
            let ghost answered = replies@;
            proof {
                assert(all[i as int] == lines[i as int]@);
            }
            match self.receive_line(lines[i].as_str()) {
                Ok(Received::Reply(envelope)) => {
                    proof {
                        let incoming = decoded(lines[i as int]@).unwrap();
                        assert(asked(all[i as int]) == Some(incoming->ControlRequest_0));
                        assert(before.mcp_servers == start.mcp_servers && before.hooks
                            == start.hooks);
                        assert(start.answers(incoming->ControlRequest_0, envelope@));
                        assert(seen + line_events(all[i as int]) =~= seen);
                    }
                    replies.push(envelope);
                },
                Ok(Received::Responses { responses: events, complete }) => {
                    let mut events = events;
                    proof {
                        assert(asked(all[i as int]) is None);
                        assert(models(events@) == line_events(all[i as int]));
                    }
                    let ghost more = models(events@);
                    let ghost old_events = events@;
                    let ghost old_responses = responses@;
                    responses.append(&mut events);
                    proof {
                        assert(models(old_responses + old_events) =~= seen + more);
                    }
                    if complete {
                        proof {
                            assert(asked_through(all, i + 1) == asked_through(all, i as int));
                            assert(self@.session_id == session_through(
                                start.session_id,
                                all,
                                i + 1,
                            ));
                        }
                        return Run { responses, replies, read: i + 1, error: None };
                    }
                },
                Ok(Received::Ignored) => {
                    proof {
                        assert(asked(all[i as int]) is None);
                        assert(seen + line_events(all[i as int]) =~= seen);
                    }
                },
                Err(e) => {
                    proof {
                        assert(seen + line_events(all[i as int]) =~= seen);
                        assert(asked_through(all, i + 1) == asked_through(all, i as int));
                        assert(self@.session_id == session_through(
                            start.session_id,
                            all,
                            i + 1,
                        ));
                    }
                    return Run { responses, replies, read: i + 1, error: Some(e) };
                },
            }
            i = i + 1;
        }
        Run { responses, replies, read: i, error: None }
    }

    /// The request that asks the child to abort its turn.
    pub fn interrupt(&self) -> (r: RequestEnvelope)
        ensures
            r@ == RequestEnvelopeModel::of(Seq::empty(), RequestModel::Interrupt),
    {
        crate::transport::interrupt_request()
    }

    /// The request that sets how far the child may act without asking,
    /// under a fresh identifier.
    pub fn set_permission_mode(&self, mode: PermissionMode) -> (r: RequestEnvelope)
        ensures
            r@ == RequestEnvelopeModel::of(
                r@.request_id,
                RequestModel::SetPermissionMode(SetPermissionModeRequestModel::of(mode)),
            ),
            r@.request_id.len() == 36,
    {
        RequestEnvelope::new(Request::SetPermissionMode(SetPermissionModeRequest::new(mode)))
    }

    /// The request that selects the model for what follows, under a fresh
    /// identifier.
    pub fn set_model(&self, model: &str) -> (r: RequestEnvelope)
        ensures
            r@ == RequestEnvelopeModel::of(
                r@.request_id,
                RequestModel::SetModel(SetModelRequestModel::of(model@)),
            ),
            r@.request_id.len() == 36,
    {
        RequestEnvelope::new(Request::SetModel(SetModelRequest::new(model)))
    }

    /// The request for the server information, under a fresh identifier.
    /// After it is written, what is read is to be handed to
    /// `server_info_response` until that ends the wait.
    pub fn get_server_info(&self) -> (r: RequestEnvelope)
        ensures
            r@ == RequestEnvelopeModel::of(r@.request_id, RequestModel::GetServerInfo),
            r@.request_id.len() == 36,
    {
        RequestEnvelope::new(Request::GetServerInfo)
    }

    /// Takes what was read while the server information is awaited: one
    /// value, or `None` at the end of the stream.  Anything but a control
    /// response is passed over, and the wait goes on.
    pub fn server_info_response(incoming: Option<&Incoming>) -> (r: Option<
        Result<ServerInfo, Error>,
    >)
        ensures
            outcome_view(r) == server_info_outcome(crate::views::model_ref(incoming)),
    {
        match incoming {
            None => Some(Err(Error::ConnectionError("stream ended".to_owned()))),
            Some(Incoming::ControlResponse(resp)) => match resp.response() {
                crate::proto::control::Response::Success(success) => match success.response() {
                    Some(data) => match ServerInfo::from_json(data) {
                        Some(info) => Some(Ok(info)),
                        None => Some(
                            Err(
                                Error::ProtocolError(
                                    "the server information lacks its members".to_owned(),
                                ),
                            ),
                        ),
                    },
                    None => Some(Err(Error::ProtocolError("empty response".to_owned()))),
                },
                crate::proto::control::Response::Error(err) => Some(
                    Err(
                        Error::ControlError {
                            request_id: err.request_id().to_owned(),
                            message: err.error().message().to_owned(),
                        },
                    ),
                ),
            },
            Some(_) => None,
        }
    }
}

/// The lines before the one that ends a run give no terminal event.
pub proof fn lemma_no_terminal_event_before_the_end(lines: Seq<Seq<char>>, n: int, i: int)
    requires
        0 <= n <= lines.len(),
        forall|k: int| 0 <= k < n ==> !stops(#[trigger] lines[k]),
        0 <= i < events_through(lines, n).len(),
    ensures
        !(events_through(lines, n)[i] is Complete),
    decreases n,
{
    if n > 0 {
        let front = events_through(lines, n - 1);
        assert(!stops(lines[n - 1]));
        if i < front.len() {
            lemma_no_terminal_event_before_the_end(lines, n - 1, i);
        } else {
            let message = decoded(lines[n - 1]).unwrap().message();
            if message is Some {
                if line_events(lines[n - 1])[i - front.len()] is Complete {
                    crate::response::lemma_terminal_event_is_last(message.unwrap(), i - front.len());
                }
            }
        }
    }
}

/// In a run of the loop, a terminal event is the last event, and it comes
/// from the last line that was read, which carries a result message.
pub proof fn lemma_terminal_event_ends_the_run(lines: Seq<Seq<char>>, n: int, i: int)
    requires
        0 <= n <= lines.len(),
        forall|k: int| 0 <= k < n - 1 ==> !stops(#[trigger] lines[k]),
        0 <= i < events_through(lines, n).len(),
        events_through(lines, n)[i] is Complete,
    ensures
        i == events_through(lines, n).len() - 1,
        n > 0,
        decoded(lines[n - 1]) matches Some(IncomingModel::Result(_)),
{
    if n > 0 {
        let front = events_through(lines, n - 1);
        if i < front.len() {
            lemma_no_terminal_event_before_the_end(lines, n - 1, i);
        } else {
            let message = decoded(lines[n - 1]).unwrap().message();
            crate::response::lemma_terminal_event_is_last(message.unwrap(), i - front.len());
        }
    }
}

/// A message for an endpoint that the session does not have is answered with
/// an envelope of success that carries the error that the endpoint was not
/// found.
pub proof fn lemma_missing_endpoint(
    client: ClientModel,
    request_id: Seq<char>,
    server_name: Seq<char>,
    message: JsonModel,
    envelope: ResponseEnvelopeModel,
)
    requires
        forall|i: int| 0 <= i < client.mcp_servers.len() ==> client.mcp_servers[i].0 != server_name,
        client.answers_mcp(request_id, server_name, message, envelope),
    ensures
        envelope.response is Success,
        envelope == ResponseEnvelopeModel::success(
            request_id,
            Some(mcp_payload(server_not_found(server_name))),
        ),
{
    let keys = crate::named::keys_of(client.mcp_servers);
    crate::strings::lemma_position(keys, server_name);
    if crate::strings::position(keys, server_name) is Some {
        let i = crate::strings::position(keys, server_name).unwrap();
        assert(keys[i] == client.mcp_servers[i].0);
    }
}

} // verus!
