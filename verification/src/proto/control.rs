//! The control channel: requests, responses and their envelopes.

use crate::json::{
    clone_members, clone_opt_json, lemma_read_seq_prefix, lemma_read_seq_step, members_model,
    names, no_members, opt_text, opt_text_json, optional, put, put_all, put_opt, read_seq, Json,
    JsonModel,
};
use crate::strings::{no_strings, same};
use crate::views::{model_opt, model_ref, model_str, models, opt_str, own};
use vstd::prelude::*;

verus! {

/// How far the child may act without asking.
#[derive(Debug, Clone, Copy, PartialEq, Eq)]
pub enum PermissionMode {
    Default,
    AcceptEdits,
    Plan,
    BypassPermissions,
}

impl PermissionMode {
    /// The name of the mode on the wire.
    pub open spec fn name(self) -> Seq<char> {
        match self {
            PermissionMode::Default => "default"@,
            PermissionMode::AcceptEdits => "acceptEdits"@,
            PermissionMode::Plan => "plan"@,
            PermissionMode::BypassPermissions => "bypassPermissions"@,
        }
    }

    /// The mode that `tag` names on the wire.
    pub open spec fn named(tag: Seq<char>) -> Option<PermissionMode> {
        if tag == "default"@ {
            Some(PermissionMode::Default)
        } else if tag == "acceptEdits"@ {
            Some(PermissionMode::AcceptEdits)
        } else if tag == "plan"@ {
            Some(PermissionMode::Plan)
        } else if tag == "bypassPermissions"@ {
            Some(PermissionMode::BypassPermissions)
        } else {
            None
        }
    }

    /// The mode in the member `mode` of `j`.
    pub open spec fn read(j: JsonModel) -> Option<PermissionMode> {
        match j.text_at("mode"@) {
            Some(tag) => Self::named(tag),
            None => None,
        }
    }

    /// The name of the mode on the wire.
    pub fn as_str(&self) -> (r: &'static str)
        ensures
            r@ == self.name(),
    {
        match self {
            PermissionMode::Default => "default",
            PermissionMode::AcceptEdits => "acceptEdits",
            PermissionMode::Plan => "plan",
            PermissionMode::BypassPermissions => "bypassPermissions",
        }
    }

    /// The mode that `tag` names on the wire.
    pub fn from_name(tag: &str) -> (r: Option<PermissionMode>)
        ensures
            r == Self::named(tag@),
    {
        if same(tag, "default") {
            Some(PermissionMode::Default)
        } else if same(tag, "acceptEdits") {
            Some(PermissionMode::AcceptEdits)
        } else if same(tag, "plan") {
            Some(PermissionMode::Plan)
        } else if same(tag, "bypassPermissions") {
            Some(PermissionMode::BypassPermissions)
        } else {
            None
        }
    }
}

/// A permission rule that the child suggests.
#[derive(Debug)]
pub struct PermissionUpdate {
    pub tool_name: String,
    pub rule: Option<String>,
    pub extra: Vec<(String, Json)>,
}

pub struct PermissionUpdateModel {
    pub tool_name: Seq<char>,
    pub rule: Option<Seq<char>>,
    pub extra: Seq<(Seq<char>, JsonModel)>,
}

impl View for PermissionUpdate {
    type V = PermissionUpdateModel;

    open spec fn view(&self) -> PermissionUpdateModel {
        PermissionUpdateModel {
            tool_name: self.tool_name@,
            rule: model_opt(self.rule),
            extra: members_model(self.extra@),
        }
    }
}

impl PermissionUpdateModel {
    /// The rule with these members and no others.
    pub open spec fn of(tool_name: Seq<char>) -> PermissionUpdateModel {
        PermissionUpdateModel {
            tool_name,
            rule: None,
            extra: Seq::empty(),
        }
    }

    /// The names of the members that the rule knows.
    pub open spec fn known() -> Seq<Seq<char>> {
        seq![
            "tool_name"@,
            "rule"@,
        ]
    }

    /// The rule on the wire: its own members, then the others.
    pub open spec fn wire(self) -> JsonModel {
        JsonModel::Object(seq![
            ("tool_name"@, JsonModel::Text(self.tool_name)),
        ] + optional("rule"@, opt_text(self.rule)) + self.extra)
    }

    /// The rule that `j` carries, if it has the members of one.
    pub open spec fn read(j: JsonModel) -> Option<PermissionUpdateModel> {
        if j.text_at("tool_name"@) is Some && j.opt_text_at("rule"@) is Some {
            Some(
                PermissionUpdateModel {
                    tool_name: j.text_at("tool_name"@).unwrap(),
                    rule: j.opt_text_at("rule"@).unwrap(),
                    extra: j.unknown(Self::known()),
                },
            )
        } else {
            None
        }
    }

    /// The rules of `updates` on the wire.
    pub open spec fn wire_all(updates: Seq<PermissionUpdateModel>) -> Seq<JsonModel> {
        Seq::new(updates.len(), |i: int| updates[i].wire())
    }

    /// The optional rules in the member `permission_suggestions` of `j`.
    pub open spec fn read_opt(j: JsonModel) -> Option<Option<Seq<PermissionUpdateModel>>> {
        match j.present("permission_suggestions"@) {
            None => Some(None),
            Some(JsonModel::Array(items)) => match read_seq(
                items,
                |u: JsonModel| PermissionUpdateModel::read(u),
            ) {
                Some(updates) => Some(Some(updates)),
                None => None,
            },
            _ => None,
        }
    }
}

impl PermissionUpdate {
    pub fn new(tool_name: &str) -> (r: PermissionUpdate)
        ensures
            r@ == PermissionUpdateModel::of(tool_name@),
    {
        PermissionUpdate {
            tool_name: tool_name.to_owned(),
            rule: None,
            extra: no_members(),
        }
    }

    pub fn tool_name(&self) -> (r: &str)
        ensures
            r@ == self@.tool_name,
    {
        self.tool_name.as_str()
    }

    pub fn rule(&self) -> (r: Option<&str>)
        ensures
            model_str(r) == self@.rule,
    {
        opt_str(&self.rule)
    }

    pub fn extra(&self) -> (r: &Vec<(String, Json)>)
        ensures
            members_model(r@) == self@.extra,
    {
        &self.extra
    }

    pub fn set_tool_name(&mut self, tool_name: &str)
        ensures
            final(self)@ == (PermissionUpdateModel { tool_name: tool_name@, ..old(self)@ }),
    {
        self.tool_name = tool_name.to_owned();
    }

    pub fn set_rule(&mut self, rule: Option<String>)
        ensures
            final(self)@ == (PermissionUpdateModel { rule: model_opt(rule), ..old(self)@ }),
    {
        self.rule = rule;
    }

    pub fn set_extra(&mut self, extra: Vec<(String, Json)>)
        ensures
            final(self)@ == (PermissionUpdateModel { extra: members_model(extra@), ..old(self)@ }),
    {
        self.extra = extra;
    }

    pub fn with_tool_name(self, tool_name: &str) -> (r: PermissionUpdate)
        ensures
            r@ == (PermissionUpdateModel { tool_name: tool_name@, ..self@ }),
    {
        let mut u = self;
        u.tool_name = tool_name.to_owned();
        u
    }

    pub fn with_rule(self, rule: &str) -> (r: PermissionUpdate)
        ensures
            r@ == (PermissionUpdateModel { rule: Some(rule@), ..self@ }),
    {
        let mut u = self;
        u.rule = Some(rule.to_owned());
        u
    }

    pub fn with_extra(self, extra: Vec<(String, Json)>) -> (r: PermissionUpdate)
        ensures
            r@ == (PermissionUpdateModel { extra: members_model(extra@), ..self@ }),
    {
        let mut u = self;
        u.extra = extra;
        u
    }

    /// The rule as a JSON value.
    pub fn to_json(&self) -> (r: Json)
        ensures
            r@ == self@.wire(),
    {
        let mut members = no_members();
        put(&mut members, "tool_name", Json::text(self.tool_name.as_str()));
        put_opt(&mut members, "rule", opt_text_json(&self.rule));
        put_all(&mut members, &self.extra);
        proof {
            assert(members_model(members@) =~= self@.wire()->Object_0);
        }
        Json::object(members)
    }

    /// Reads the rule from `j`.
    pub fn from_json(j: &Json) -> (r: Option<PermissionUpdate>)
        ensures
            model_opt(r) == PermissionUpdateModel::read(j@),
    {
        let tool_name = match j.str_at("tool_name") {
            Some(v) => v.to_owned(),
            None => {
                return None;
            },
        };
        let rule = match j.opt_str_at("rule") {
            Some(v) => own(v),
            None => {
                return None;
            },
        };
        let known = vec![
            "tool_name",
            "rule",
        ];
        proof {
            assert(names(known@) =~= PermissionUpdateModel::known());
        }
        Some(PermissionUpdate { tool_name, rule, extra: j.unknown(&known) })
    }

    /// Reads a rule from each element of `items`.
    pub fn all_from_json(items: &Vec<Json>) -> (r: Option<Vec<PermissionUpdate>>)
        ensures
            match r {
                Some(v) => read_seq(models(items@), |u: JsonModel| PermissionUpdateModel::read(u))
                    == Some(models(v@)),
                None => read_seq(models(items@), |u: JsonModel| PermissionUpdateModel::read(u))
                    is None,
            },
    {
        let ghost read = |u: JsonModel| PermissionUpdateModel::read(u);
        let mut out: Vec<PermissionUpdate> = Vec::new();
        let mut i: usize = 0;
        proof {
            assert(models(items@).take(0) =~= Seq::empty());
            assert(models(out@) =~= Seq::empty());
        }
        while i < items.len()
            invariant
                i <= items.len(),
                read == (|u: JsonModel| PermissionUpdateModel::read(u)),
                read_seq(models(items@).take(i as int), read) == Some(models(out@)),
            decreases items.len() - i,
        {
            proof {
                lemma_read_seq_step(models(items@), read, i as int);
            }
            match PermissionUpdate::from_json(&items[i]) {
                Some(u) => {
                    proof {
                        crate::views::lemma_models_push(out@, u);
                    }
                    out.push(u);
                },
                None => {
                    proof {
                        lemma_read_seq_prefix(models(items@), read, i + 1);
                    }
                    return None;
                },
            }
            i = i + 1;
        }
        proof {
            assert(models(items@).take(items.len() as int) =~= models(items@));
        }
        Some(out)
    }

    /// The rules of `updates` as JSON values.
    pub fn all_to_json(updates: &Vec<PermissionUpdate>) -> (r: Vec<Json>)
        ensures
            models(r@) == PermissionUpdateModel::wire_all(models(updates@)),
    {
        let mut out: Vec<Json> = Vec::new();
        let mut i: usize = 0;
        while i < updates.len()
            invariant
                i <= updates.len(),
                out.len() == i,
                forall|k: int| 0 <= k < i ==> out[k]@ == updates[k]@.wire(),
            decreases updates.len() - i,
        {
            out.push(updates[i].to_json());
            i = i + 1;
        }
        proof {
            assert(models(out@) =~= PermissionUpdateModel::wire_all(models(updates@)));
        }
        out
    }
}

/// The child asks whether it may use a tool.
#[derive(Debug)]
pub struct PermissionRequest {
    pub tool_name: String,
    pub input: Json,
    pub permission_suggestions: Option<Vec<PermissionUpdate>>,
    pub blocked_path: Option<String>,
    pub extra: Vec<(String, Json)>,
}

pub struct PermissionRequestModel {
    pub tool_name: Seq<char>,
    pub input: JsonModel,
    pub permission_suggestions: Option<Seq<PermissionUpdateModel>>,
    pub blocked_path: Option<Seq<char>>,
    pub extra: Seq<(Seq<char>, JsonModel)>,
}

impl View for PermissionRequest {
    type V = PermissionRequestModel;

    open spec fn view(&self) -> PermissionRequestModel {
        PermissionRequestModel {
            tool_name: self.tool_name@,
            input: self.input@,
            permission_suggestions: match self.permission_suggestions {
                Some(v) => Some(models(v@)),
                None => None,
            },
            blocked_path: model_opt(self.blocked_path),
            extra: members_model(self.extra@),
        }
    }
}

impl PermissionRequestModel {
    /// The request with these members and no others.
    pub open spec fn of(tool_name: Seq<char>, input: JsonModel) -> PermissionRequestModel {
        PermissionRequestModel {
            tool_name,
            input,
            permission_suggestions: None,
            blocked_path: None,
            extra: Seq::empty(),
        }
    }

    /// The names of the members that the request knows.
    pub open spec fn known() -> Seq<Seq<char>> {
        seq![
            "subtype"@,
            "tool_name"@,
            "input"@,
            "permission_suggestions"@,
            "blocked_path"@,
        ]
    }

    /// The members of the request on the wire: its own, then the others.
    pub open spec fn members(self) -> Seq<(Seq<char>, JsonModel)> {
        seq![
            ("tool_name"@, JsonModel::Text(self.tool_name)),
            ("input"@, self.input),
        ] + optional(
            "permission_suggestions"@,
            match self.permission_suggestions {
                Some(v) => Some(JsonModel::Array(PermissionUpdateModel::wire_all(v))),
                None => None,
            },
        ) + optional("blocked_path"@, opt_text(self.blocked_path)) + self.extra
    }

    /// The request that `j` carries, if it has the members of one.
    pub open spec fn read(j: JsonModel) -> Option<PermissionRequestModel> {
        if j.text_at("tool_name"@) is Some && j.get("input"@) is Some && PermissionUpdateModel::read_opt(j) is Some && j.opt_text_at("blocked_path"@) is Some {
            Some(
                PermissionRequestModel {
                    tool_name: j.text_at("tool_name"@).unwrap(),
                    input: j.get("input"@).unwrap(),
                    permission_suggestions: PermissionUpdateModel::read_opt(j).unwrap(),
                    blocked_path: j.opt_text_at("blocked_path"@).unwrap(),
                    extra: j.unknown(Self::known()),
                },
            )
        } else {
            None
        }
    }
}

impl PermissionRequest {
    pub fn new(tool_name: &str, input: Json) -> (r: PermissionRequest)
        ensures
            r@ == PermissionRequestModel::of(tool_name@, input@),
    {
        PermissionRequest {
            tool_name: tool_name.to_owned(),
            input,
            permission_suggestions: None,
            blocked_path: None,
            extra: no_members(),
        }
    }

    pub fn tool_name(&self) -> (r: &str)
        ensures
            r@ == self@.tool_name,
    {
        self.tool_name.as_str()
    }

    pub fn input(&self) -> (r: &Json)
        ensures
            r@ == self@.input,
    {
        &self.input
    }

    pub fn permission_suggestions(&self) -> (r: Option<&Vec<PermissionUpdate>>)
        ensures
            match r {
                Some(v) => self@.permission_suggestions == Some(models(v@)),
                None => self@.permission_suggestions is None,
            },
    {
        self.permission_suggestions.as_ref()
    }

    pub fn blocked_path(&self) -> (r: Option<&str>)
        ensures
            model_str(r) == self@.blocked_path,
    {
        opt_str(&self.blocked_path)
    }

    pub fn extra(&self) -> (r: &Vec<(String, Json)>)
        ensures
            members_model(r@) == self@.extra,
    {
        &self.extra
    }

    pub fn set_tool_name(&mut self, tool_name: &str)
        ensures
            final(self)@ == (PermissionRequestModel { tool_name: tool_name@, ..old(self)@ }),
    {
        self.tool_name = tool_name.to_owned();
    }

    pub fn set_input(&mut self, input: Json)
        ensures
            final(self)@ == (PermissionRequestModel { input: input@, ..old(self)@ }),
    {
        self.input = input;
    }

    pub fn set_permission_suggestions(&mut self, permission_suggestions: Option<Vec<PermissionUpdate>>)
        ensures
            final(self)@ == (PermissionRequestModel { permission_suggestions: match permission_suggestions {
                    Some(v) => Some(models(v@)),
                    None => None,
                }, ..old(self)@ }),
    {
        self.permission_suggestions = permission_suggestions;
    }

    pub fn set_blocked_path(&mut self, blocked_path: Option<String>)
        ensures
            final(self)@ == (PermissionRequestModel { blocked_path: model_opt(blocked_path), ..old(self)@ }),
    {
        self.blocked_path = blocked_path;
    }

    pub fn set_extra(&mut self, extra: Vec<(String, Json)>)
        ensures
            final(self)@ == (PermissionRequestModel { extra: members_model(extra@), ..old(self)@ }),
    {
        self.extra = extra;
    }

    pub fn with_tool_name(self, tool_name: &str) -> (r: PermissionRequest)
        ensures
            r@ == (PermissionRequestModel { tool_name: tool_name@, ..self@ }),
    {
        let mut q = self;
        q.tool_name = tool_name.to_owned();
        q
    }

    pub fn with_input(self, input: Json) -> (r: PermissionRequest)
        ensures
            r@ == (PermissionRequestModel { input: input@, ..self@ }),
    {
        let mut q = self;
        q.input = input;
        q
    }

    pub fn with_permission_suggestions(self, permission_suggestions: Vec<PermissionUpdate>) -> (r: PermissionRequest)
        ensures
            r@ == (PermissionRequestModel { permission_suggestions: Some(models(permission_suggestions@)), ..self@ }),
    {
        let mut q = self;
        q.permission_suggestions = Some(permission_suggestions);
        q
    }

    pub fn with_blocked_path(self, blocked_path: &str) -> (r: PermissionRequest)
        ensures
            r@ == (PermissionRequestModel { blocked_path: Some(blocked_path@), ..self@ }),
    {
        let mut q = self;
        q.blocked_path = Some(blocked_path.to_owned());
        q
    }

    pub fn with_extra(self, extra: Vec<(String, Json)>) -> (r: PermissionRequest)
        ensures
            r@ == (PermissionRequestModel { extra: members_model(extra@), ..self@ }),
    {
        let mut q = self;
        q.extra = extra;
        q
    }

    /// Appends the members of the request to `members`.
    pub fn put_members(&self, members: &mut Vec<(String, Json)>)
        ensures
            members_model(final(members)@) == members_model(old(members)@) + self@.members(),
    {
        put(members, "tool_name", Json::text(self.tool_name.as_str()));
        put(members, "input", self.input.clone());
        put_opt(
            members,
            "permission_suggestions",
            match &self.permission_suggestions {
                Some(v) => Some(Json::array(PermissionUpdate::all_to_json(v))),
                None => None,
            },
        );
        put_opt(members, "blocked_path", opt_text_json(&self.blocked_path));
        put_all(members, &self.extra);
        proof {
            assert(members_model(members@) =~= members_model(old(members)@) + self@.members());
        }
    }

    /// Reads the request from `j`.
    pub fn from_json(j: &Json) -> (r: Option<PermissionRequest>)
        ensures
            model_opt(r) == PermissionRequestModel::read(j@),
    {
        let tool_name = match j.str_at("tool_name") {
            Some(v) => v.to_owned(),
            None => {
                return None;
            },
        };
        let input = match j.get("input") {
            Some(v) => v.clone(),
            None => {
                return None;
            },
        };
        let permission_suggestions = match j.present("permission_suggestions") {
            None => None,
            Some(Json::Array(items)) => {
                proof {
                    crate::json::lemma_array_view(*items);
                }
                match PermissionUpdate::all_from_json(items) {
                    Some(v) => Some(v),
                    None => {
                        return None;
                    },
                }
            },
            Some(_) => {
                return None;
            },
        };
        let blocked_path = match j.opt_str_at("blocked_path") {
            Some(v) => own(v),
            None => {
                return None;
            },
        };
        let known = vec![
            "subtype",
            "tool_name",
            "input",
            "permission_suggestions",
            "blocked_path",
        ];
        proof {
            assert(names(known@) =~= PermissionRequestModel::known());
        }
        Some(PermissionRequest { tool_name, input, permission_suggestions, blocked_path, extra: j.unknown(&known) })
    }
}

/// The first request of a session.
#[derive(Debug)]
pub struct InitializeRequest {
    pub hooks: Option<Vec<(String, Json)>>,
    pub extra: Vec<(String, Json)>,
}

pub struct InitializeRequestModel {
    pub hooks: Option<Seq<(Seq<char>, JsonModel)>>,
    pub extra: Seq<(Seq<char>, JsonModel)>,
}

impl View for InitializeRequest {
    type V = InitializeRequestModel;

    open spec fn view(&self) -> InitializeRequestModel {
        InitializeRequestModel {
            hooks: match self.hooks {
                Some(m) => Some(members_model(m@)),
                None => None,
            },
            extra: members_model(self.extra@),
        }
    }
}

impl InitializeRequestModel {
    /// The request with these members and no others.
    pub open spec fn of() -> InitializeRequestModel {
        InitializeRequestModel {
            hooks: None,
            extra: Seq::empty(),
        }
    }

    /// The names of the members that the request knows.
    pub open spec fn known() -> Seq<Seq<char>> {
        seq![
            "subtype"@,
            "hooks"@,
        ]
    }

    /// The members of the request on the wire: its own, then the others.
    pub open spec fn members(self) -> Seq<(Seq<char>, JsonModel)> {
        optional(
            "hooks"@,
            match self.hooks {
                Some(m) => Some(JsonModel::Object(m)),
                None => None,
            },
        ) + self.extra
    }

    /// The request that `j` carries, if it has the members of one.
    pub open spec fn read(j: JsonModel) -> Option<InitializeRequestModel> {
        if j.opt_members_at("hooks"@) is Some {
            Some(
                InitializeRequestModel {
                    hooks: j.opt_members_at("hooks"@).unwrap(),
                    extra: j.unknown(Self::known()),
                },
            )
        } else {
            None
        }
    }
}

impl InitializeRequest {
    pub fn new() -> (r: InitializeRequest)
        ensures
            r@ == InitializeRequestModel::of(),
    {
        InitializeRequest {
            hooks: None,
            extra: no_members(),
        }
    }

    pub fn hooks(&self) -> (r: Option<&Vec<(String, Json)>>)
        ensures
            match r {
                Some(m) => self@.hooks == Some(members_model(m@)),
                None => self@.hooks is None,
            },
    {
        self.hooks.as_ref()
    }

    pub fn extra(&self) -> (r: &Vec<(String, Json)>)
        ensures
            members_model(r@) == self@.extra,
    {
        &self.extra
    }

    pub fn set_hooks(&mut self, hooks: Option<Vec<(String, Json)>>)
        ensures
            final(self)@ == (InitializeRequestModel { hooks: match hooks {
                    Some(m) => Some(members_model(m@)),
                    None => None,
                }, ..old(self)@ }),
    {
        self.hooks = hooks;
    }

    pub fn set_extra(&mut self, extra: Vec<(String, Json)>)
        ensures
            final(self)@ == (InitializeRequestModel { extra: members_model(extra@), ..old(self)@ }),
    {
        self.extra = extra;
    }

    pub fn with_hooks(self, hooks: Vec<(String, Json)>) -> (r: InitializeRequest)
        ensures
            r@ == (InitializeRequestModel { hooks: Some(members_model(hooks@)), ..self@ }),
    {
        let mut q = self;
        q.hooks = Some(hooks);
        q
    }

    pub fn with_extra(self, extra: Vec<(String, Json)>) -> (r: InitializeRequest)
        ensures
            r@ == (InitializeRequestModel { extra: members_model(extra@), ..self@ }),
    {
        let mut q = self;
        q.extra = extra;
        q
    }

    /// Appends the members of the request to `members`.
    pub fn put_members(&self, members: &mut Vec<(String, Json)>)
        ensures
            members_model(final(members)@) == members_model(old(members)@) + self@.members(),
    {
        put_opt(
            members,
            "hooks",
            match &self.hooks {
                Some(m) => Some(Json::object(clone_members(m))),
                None => None,
            },
        );
        put_all(members, &self.extra);
        proof {
            assert(members_model(members@) =~= members_model(old(members)@) + self@.members());
        }
    }

    /// Reads the request from `j`.
    pub fn from_json(j: &Json) -> (r: Option<InitializeRequest>)
        ensures
            model_opt(r) == InitializeRequestModel::read(j@),
    {
        let hooks = match j.opt_members_at("hooks") {
            Some(h) => h,
            None => {
                return None;
            },
        };
        let known = vec![
            "subtype",
            "hooks",
        ];
        proof {
            assert(names(known@) =~= InitializeRequestModel::known());
        }
        Some(InitializeRequest { hooks, extra: j.unknown(&known) })
    }
}

impl Default for InitializeRequest {
    fn default() -> (r: InitializeRequest)
        ensures
            r@ == InitializeRequestModel::of(),
    {
        InitializeRequest::new()
    }
}

/// The host sets how far the child may act without asking.
#[derive(Debug)]
pub struct SetPermissionModeRequest {
    pub mode: PermissionMode,
    pub extra: Vec<(String, Json)>,
}

pub struct SetPermissionModeRequestModel {
    pub mode: PermissionMode,
    pub extra: Seq<(Seq<char>, JsonModel)>,
}

impl View for SetPermissionModeRequest {
    type V = SetPermissionModeRequestModel;

    open spec fn view(&self) -> SetPermissionModeRequestModel {
        SetPermissionModeRequestModel {
            mode: self.mode,
            extra: members_model(self.extra@),
        }
    }
}

impl SetPermissionModeRequestModel {
    /// The request with these members and no others.
    pub open spec fn of(mode: PermissionMode) -> SetPermissionModeRequestModel {
        SetPermissionModeRequestModel {
            mode,
            extra: Seq::empty(),
        }
    }

    /// The names of the members that the request knows.
    pub open spec fn known() -> Seq<Seq<char>> {
        seq![
            "subtype"@,
            "mode"@,
        ]
    }

    /// The members of the request on the wire: its own, then the others.
    pub open spec fn members(self) -> Seq<(Seq<char>, JsonModel)> {
        seq![
            ("mode"@, JsonModel::Text(self.mode.name())),
        ] + self.extra
    }

    /// The request that `j` carries, if it has the members of one.
    pub open spec fn read(j: JsonModel) -> Option<SetPermissionModeRequestModel> {
        if PermissionMode::read(j) is Some {
            Some(
                SetPermissionModeRequestModel {
                    mode: PermissionMode::read(j).unwrap(),
                    extra: j.unknown(Self::known()),
                },
            )
        } else {
            None
        }
    }
}

impl SetPermissionModeRequest {
    pub fn new(mode: PermissionMode) -> (r: SetPermissionModeRequest)
        ensures
            r@ == SetPermissionModeRequestModel::of(mode),
    {
        SetPermissionModeRequest {
            mode,
            extra: no_members(),
        }
    }

    pub fn mode(&self) -> (r: PermissionMode)
        ensures
            r == self@.mode,
    {
        self.mode
    }

    pub fn extra(&self) -> (r: &Vec<(String, Json)>)
        ensures
            members_model(r@) == self@.extra,
    {
        &self.extra
    }

    pub fn set_mode(&mut self, mode: PermissionMode)
        ensures
            final(self)@ == (SetPermissionModeRequestModel { mode: mode, ..old(self)@ }),
    {
        self.mode = mode;
    }

    pub fn set_extra(&mut self, extra: Vec<(String, Json)>)
        ensures
            final(self)@ == (SetPermissionModeRequestModel { extra: members_model(extra@), ..old(self)@ }),
    {
        self.extra = extra;
    }

    pub fn with_mode(self, mode: PermissionMode) -> (r: SetPermissionModeRequest)
        ensures
            r@ == (SetPermissionModeRequestModel { mode: mode, ..self@ }),
    {
        let mut q = self;
        q.mode = mode;
        q
    }

    pub fn with_extra(self, extra: Vec<(String, Json)>) -> (r: SetPermissionModeRequest)
        ensures
            r@ == (SetPermissionModeRequestModel { extra: members_model(extra@), ..self@ }),
    {
        let mut q = self;
        q.extra = extra;
        q
    }

    /// Appends the members of the request to `members`.
    pub fn put_members(&self, members: &mut Vec<(String, Json)>)
        ensures
            members_model(final(members)@) == members_model(old(members)@) + self@.members(),
    {
        put(members, "mode", Json::text(self.mode.as_str()));
        put_all(members, &self.extra);
        proof {
            assert(members_model(members@) =~= members_model(old(members)@) + self@.members());
        }
    }

    /// Reads the request from `j`.
    pub fn from_json(j: &Json) -> (r: Option<SetPermissionModeRequest>)
        ensures
            model_opt(r) == SetPermissionModeRequestModel::read(j@),
    {
        let mode = match j.str_at("mode") {
            Some(tag) => match PermissionMode::from_name(tag) {
                Some(m) => m,
                None => {
                    return None;
                },
            },
            None => {
                return None;
            },
        };
        let known = vec![
            "subtype",
            "mode",
        ];
        proof {
            assert(names(known@) =~= SetPermissionModeRequestModel::known());
        }
        Some(SetPermissionModeRequest { mode, extra: j.unknown(&known) })
    }
}

/// The child invokes a hook that the host registered.
#[derive(Debug)]
pub struct HookCallbackRequest {
    pub callback_id: String,
    pub input: Json,
    pub tool_use_id: Option<String>,
    pub extra: Vec<(String, Json)>,
}

pub struct HookCallbackRequestModel {
    pub callback_id: Seq<char>,
    pub input: JsonModel,
    pub tool_use_id: Option<Seq<char>>,
    pub extra: Seq<(Seq<char>, JsonModel)>,
}

impl View for HookCallbackRequest {
    type V = HookCallbackRequestModel;

    open spec fn view(&self) -> HookCallbackRequestModel {
        HookCallbackRequestModel {
            callback_id: self.callback_id@,
            input: self.input@,
            tool_use_id: model_opt(self.tool_use_id),
            extra: members_model(self.extra@),
        }
    }
}

impl HookCallbackRequestModel {
    /// The request with these members and no others.
    pub open spec fn of(callback_id: Seq<char>, input: JsonModel) -> HookCallbackRequestModel {
        HookCallbackRequestModel {
            callback_id,
            input,
            tool_use_id: None,
            extra: Seq::empty(),
        }
    }

    /// The names of the members that the request knows.
    pub open spec fn known() -> Seq<Seq<char>> {
        seq![
            "subtype"@,
            "callback_id"@,
            "input"@,
            "tool_use_id"@,
        ]
    }

    /// The members of the request on the wire: its own, then the others.
    pub open spec fn members(self) -> Seq<(Seq<char>, JsonModel)> {
        seq![
            ("callback_id"@, JsonModel::Text(self.callback_id)),
            ("input"@, self.input),
        ] + optional("tool_use_id"@, opt_text(self.tool_use_id)) + self.extra
    }

    /// The request that `j` carries, if it has the members of one.
    pub open spec fn read(j: JsonModel) -> Option<HookCallbackRequestModel> {
        if j.text_at("callback_id"@) is Some && j.get("input"@) is Some && j.opt_text_at("tool_use_id"@) is Some {
            Some(
                HookCallbackRequestModel {
                    callback_id: j.text_at("callback_id"@).unwrap(),
                    input: j.get("input"@).unwrap(),
                    tool_use_id: j.opt_text_at("tool_use_id"@).unwrap(),
                    extra: j.unknown(Self::known()),
                },
            )
        } else {
            None
        }
    }
}

impl HookCallbackRequest {
    pub fn new(callback_id: &str, input: Json) -> (r: HookCallbackRequest)
        ensures
            r@ == HookCallbackRequestModel::of(callback_id@, input@),
    {
        HookCallbackRequest {
            callback_id: callback_id.to_owned(),
            input,
            tool_use_id: None,
            extra: no_members(),
        }
    }

    pub fn callback_id(&self) -> (r: &str)
        ensures
            r@ == self@.callback_id,
    {
        self.callback_id.as_str()
    }

    pub fn input(&self) -> (r: &Json)
        ensures
            r@ == self@.input,
    {
        &self.input
    }

    pub fn tool_use_id(&self) -> (r: Option<&str>)
        ensures
            model_str(r) == self@.tool_use_id,
    {
        opt_str(&self.tool_use_id)
    }

    pub fn extra(&self) -> (r: &Vec<(String, Json)>)
        ensures
            members_model(r@) == self@.extra,
    {
        &self.extra
    }

    pub fn set_callback_id(&mut self, callback_id: &str)
        ensures
            final(self)@ == (HookCallbackRequestModel { callback_id: callback_id@, ..old(self)@ }),
    {
        self.callback_id = callback_id.to_owned();
    }

    pub fn set_input(&mut self, input: Json)
        ensures
            final(self)@ == (HookCallbackRequestModel { input: input@, ..old(self)@ }),
    {
        self.input = input;
    }

    pub fn set_tool_use_id(&mut self, tool_use_id: Option<String>)
        ensures
            final(self)@ == (HookCallbackRequestModel { tool_use_id: model_opt(tool_use_id), ..old(self)@ }),
    {
        self.tool_use_id = tool_use_id;
    }

    pub fn set_extra(&mut self, extra: Vec<(String, Json)>)
        ensures
            final(self)@ == (HookCallbackRequestModel { extra: members_model(extra@), ..old(self)@ }),
    {
        self.extra = extra;
    }

    pub fn with_callback_id(self, callback_id: &str) -> (r: HookCallbackRequest)
        ensures
            r@ == (HookCallbackRequestModel { callback_id: callback_id@, ..self@ }),
    {
        let mut q = self;
        q.callback_id = callback_id.to_owned();
        q
    }

    pub fn with_input(self, input: Json) -> (r: HookCallbackRequest)
        ensures
            r@ == (HookCallbackRequestModel { input: input@, ..self@ }),
    {
        let mut q = self;
        q.input = input;
        q
    }

    pub fn with_tool_use_id(self, tool_use_id: &str) -> (r: HookCallbackRequest)
        ensures
            r@ == (HookCallbackRequestModel { tool_use_id: Some(tool_use_id@), ..self@ }),
    {
        let mut q = self;
        q.tool_use_id = Some(tool_use_id.to_owned());
        q
    }

    pub fn with_extra(self, extra: Vec<(String, Json)>) -> (r: HookCallbackRequest)
        ensures
            r@ == (HookCallbackRequestModel { extra: members_model(extra@), ..self@ }),
    {
        let mut q = self;
        q.extra = extra;
        q
    }

    /// Appends the members of the request to `members`.
    pub fn put_members(&self, members: &mut Vec<(String, Json)>)
        ensures
            members_model(final(members)@) == members_model(old(members)@) + self@.members(),
    {
        put(members, "callback_id", Json::text(self.callback_id.as_str()));
        put(members, "input", self.input.clone());
        put_opt(members, "tool_use_id", opt_text_json(&self.tool_use_id));
        put_all(members, &self.extra);
        proof {
            assert(members_model(members@) =~= members_model(old(members)@) + self@.members());
        }
    }

    /// Reads the request from `j`.
    pub fn from_json(j: &Json) -> (r: Option<HookCallbackRequest>)
        ensures
            model_opt(r) == HookCallbackRequestModel::read(j@),
    {
        let callback_id = match j.str_at("callback_id") {
            Some(v) => v.to_owned(),
            None => {
                return None;
            },
        };
        let input = match j.get("input") {
            Some(v) => v.clone(),
            None => {
                return None;
            },
        };
        let tool_use_id = match j.opt_str_at("tool_use_id") {
            Some(v) => own(v),
            None => {
                return None;
            },
        };
        let known = vec![
            "subtype",
            "callback_id",
            "input",
            "tool_use_id",
        ];
        proof {
            assert(names(known@) =~= HookCallbackRequestModel::known());
        }
        Some(HookCallbackRequest { callback_id, input, tool_use_id, extra: j.unknown(&known) })
    }
}

/// The child sends a message to a tool endpoint of the host.
#[derive(Debug)]
pub struct McpMessageRequest {
    pub server_name: String,
    pub message: Json,
    pub extra: Vec<(String, Json)>,
}

pub struct McpMessageRequestModel {
    pub server_name: Seq<char>,
    pub message: JsonModel,
    pub extra: Seq<(Seq<char>, JsonModel)>,
}

impl View for McpMessageRequest {
    type V = McpMessageRequestModel;

    open spec fn view(&self) -> McpMessageRequestModel {
        McpMessageRequestModel {
            server_name: self.server_name@,
            message: self.message@,
            extra: members_model(self.extra@),
        }
    }
}

impl McpMessageRequestModel {
    /// The request with these members and no others.
    pub open spec fn of(server_name: Seq<char>, message: JsonModel) -> McpMessageRequestModel {
        McpMessageRequestModel {
            server_name,
            message,
            extra: Seq::empty(),
        }
    }

    /// The names of the members that the request knows.
    pub open spec fn known() -> Seq<Seq<char>> {
        seq![
            "subtype"@,
            "server_name"@,
            "message"@,
        ]
    }

    /// The members of the request on the wire: its own, then the others.
    pub open spec fn members(self) -> Seq<(Seq<char>, JsonModel)> {
        seq![
            ("server_name"@, JsonModel::Text(self.server_name)),
            ("message"@, self.message),
        ] + self.extra
    }

    /// The request that `j` carries, if it has the members of one.
    pub open spec fn read(j: JsonModel) -> Option<McpMessageRequestModel> {
        if j.text_at("server_name"@) is Some && j.get("message"@) is Some {
            Some(
                McpMessageRequestModel {
                    server_name: j.text_at("server_name"@).unwrap(),
                    message: j.get("message"@).unwrap(),
                    extra: j.unknown(Self::known()),
                },
            )
        } else {
            None
        }
    }
}

impl McpMessageRequest {
    pub fn new(server_name: &str, message: Json) -> (r: McpMessageRequest)
        ensures
            r@ == McpMessageRequestModel::of(server_name@, message@),
    {
        McpMessageRequest {
            server_name: server_name.to_owned(),
            message,
            extra: no_members(),
        }
    }

    pub fn server_name(&self) -> (r: &str)
        ensures
            r@ == self@.server_name,
    {
        self.server_name.as_str()
    }

    pub fn message(&self) -> (r: &Json)
        ensures
            r@ == self@.message,
    {
        &self.message
    }

    pub fn extra(&self) -> (r: &Vec<(String, Json)>)
        ensures
            members_model(r@) == self@.extra,
    {
        &self.extra
    }

    pub fn set_server_name(&mut self, server_name: &str)
        ensures
            final(self)@ == (McpMessageRequestModel { server_name: server_name@, ..old(self)@ }),
    {
        self.server_name = server_name.to_owned();
    }

    pub fn set_message(&mut self, message: Json)
        ensures
            final(self)@ == (McpMessageRequestModel { message: message@, ..old(self)@ }),
    {
        self.message = message;
    }

    pub fn set_extra(&mut self, extra: Vec<(String, Json)>)
        ensures
            final(self)@ == (McpMessageRequestModel { extra: members_model(extra@), ..old(self)@ }),
    {
        self.extra = extra;
    }

    pub fn with_server_name(self, server_name: &str) -> (r: McpMessageRequest)
        ensures
            r@ == (McpMessageRequestModel { server_name: server_name@, ..self@ }),
    {
        let mut q = self;
        q.server_name = server_name.to_owned();
        q
    }

    pub fn with_message(self, message: Json) -> (r: McpMessageRequest)
        ensures
            r@ == (McpMessageRequestModel { message: message@, ..self@ }),
    {
        let mut q = self;
        q.message = message;
        q
    }

    pub fn with_extra(self, extra: Vec<(String, Json)>) -> (r: McpMessageRequest)
        ensures
            r@ == (McpMessageRequestModel { extra: members_model(extra@), ..self@ }),
    {
        let mut q = self;
        q.extra = extra;
        q
    }

    /// Appends the members of the request to `members`.
    pub fn put_members(&self, members: &mut Vec<(String, Json)>)
        ensures
            members_model(final(members)@) == members_model(old(members)@) + self@.members(),
    {
        put(members, "server_name", Json::text(self.server_name.as_str()));
        put(members, "message", self.message.clone());
        put_all(members, &self.extra);
        proof {
            assert(members_model(members@) =~= members_model(old(members)@) + self@.members());
        }
    }

    /// Reads the request from `j`.
    pub fn from_json(j: &Json) -> (r: Option<McpMessageRequest>)
        ensures
            model_opt(r) == McpMessageRequestModel::read(j@),
    {
        let server_name = match j.str_at("server_name") {
            Some(v) => v.to_owned(),
            None => {
                return None;
            },
        };
        let message = match j.get("message") {
            Some(v) => v.clone(),
            None => {
                return None;
            },
        };
        let known = vec![
            "subtype",
            "server_name",
            "message",
        ];
        proof {
            assert(names(known@) =~= McpMessageRequestModel::known());
        }
        Some(McpMessageRequest { server_name, message, extra: j.unknown(&known) })
    }
}

/// The host selects the model for what follows.
#[derive(Debug)]
pub struct SetModelRequest {
    pub model: String,
    pub extra: Vec<(String, Json)>,
}

pub struct SetModelRequestModel {
    pub model: Seq<char>,
    pub extra: Seq<(Seq<char>, JsonModel)>,
}

impl View for SetModelRequest {
    type V = SetModelRequestModel;

    open spec fn view(&self) -> SetModelRequestModel {
        SetModelRequestModel {
            model: self.model@,
            extra: members_model(self.extra@),
        }
    }
}

impl SetModelRequestModel {
    /// The request with these members and no others.
    pub open spec fn of(model: Seq<char>) -> SetModelRequestModel {
        SetModelRequestModel {
            model,
            extra: Seq::empty(),
        }
    }

    /// The names of the members that the request knows.
    pub open spec fn known() -> Seq<Seq<char>> {
        seq![
            "subtype"@,
            "model"@,
        ]
    }

    /// The members of the request on the wire: its own, then the others.
    pub open spec fn members(self) -> Seq<(Seq<char>, JsonModel)> {
        seq![
            ("model"@, JsonModel::Text(self.model)),
        ] + self.extra
    }

    /// The request that `j` carries, if it has the members of one.
    pub open spec fn read(j: JsonModel) -> Option<SetModelRequestModel> {
        if j.text_at("model"@) is Some {
            Some(
                SetModelRequestModel {
                    model: j.text_at("model"@).unwrap(),
                    extra: j.unknown(Self::known()),
                },
            )
        } else {
            None
        }
    }
}

impl SetModelRequest {
    pub fn new(model: &str) -> (r: SetModelRequest)
        ensures
            r@ == SetModelRequestModel::of(model@),
    {
        SetModelRequest {
            model: model.to_owned(),
            extra: no_members(),
        }
    }

    pub fn model(&self) -> (r: &str)
        ensures
            r@ == self@.model,
    {
        self.model.as_str()
    }

    pub fn extra(&self) -> (r: &Vec<(String, Json)>)
        ensures
            members_model(r@) == self@.extra,
    {
        &self.extra
    }

    pub fn set_model(&mut self, model: &str)
        ensures
            final(self)@ == (SetModelRequestModel { model: model@, ..old(self)@ }),
    {
        self.model = model.to_owned();
    }

    pub fn set_extra(&mut self, extra: Vec<(String, Json)>)
        ensures
            final(self)@ == (SetModelRequestModel { extra: members_model(extra@), ..old(self)@ }),
    {
        self.extra = extra;
    }

    pub fn with_model(self, model: &str) -> (r: SetModelRequest)
        ensures
            r@ == (SetModelRequestModel { model: model@, ..self@ }),
    {
        let mut q = self;
        q.model = model.to_owned();
        q
    }

    pub fn with_extra(self, extra: Vec<(String, Json)>) -> (r: SetModelRequest)
        ensures
            r@ == (SetModelRequestModel { extra: members_model(extra@), ..self@ }),
    {
        let mut q = self;
        q.extra = extra;
        q
    }

    /// Appends the members of the request to `members`.
    pub fn put_members(&self, members: &mut Vec<(String, Json)>)
        ensures
            members_model(final(members)@) == members_model(old(members)@) + self@.members(),
    {
        put(members, "model", Json::text(self.model.as_str()));
        put_all(members, &self.extra);
        proof {
            assert(members_model(members@) =~= members_model(old(members)@) + self@.members());
        }
    }

    /// Reads the request from `j`.
    pub fn from_json(j: &Json) -> (r: Option<SetModelRequest>)
        ensures
            model_opt(r) == SetModelRequestModel::read(j@),
    {
        let model = match j.str_at("model") {
            Some(v) => v.to_owned(),
            None => {
                return None;
            },
        };
        let known = vec![
            "subtype",
            "model",
        ];
        proof {
            assert(names(known@) =~= SetModelRequestModel::known());
        }
        Some(SetModelRequest { model, extra: j.unknown(&known) })
    }
}

/// A control request.
#[derive(Debug)]
pub enum Request {
    Interrupt,
    CanUseTool(PermissionRequest),
    Initialize(InitializeRequest),
    SetPermissionMode(SetPermissionModeRequest),
    HookCallback(HookCallbackRequest),
    McpMessage(McpMessageRequest),
    SetModel(SetModelRequest),
    GetServerInfo,
}

pub enum RequestModel {
    Interrupt,
    CanUseTool(PermissionRequestModel),
    Initialize(InitializeRequestModel),
    SetPermissionMode(SetPermissionModeRequestModel),
    HookCallback(HookCallbackRequestModel),
    McpMessage(McpMessageRequestModel),
    SetModel(SetModelRequestModel),
    GetServerInfo,
}

impl View for Request {
    type V = RequestModel;

    open spec fn view(&self) -> RequestModel {
        match self {
            Request::Interrupt => RequestModel::Interrupt,
            Request::CanUseTool(r) => RequestModel::CanUseTool(r@),
            Request::Initialize(r) => RequestModel::Initialize(r@),
            Request::SetPermissionMode(r) => RequestModel::SetPermissionMode(r@),
            Request::HookCallback(r) => RequestModel::HookCallback(r@),
            Request::McpMessage(r) => RequestModel::McpMessage(r@),
            Request::SetModel(r) => RequestModel::SetModel(r@),
            Request::GetServerInfo => RequestModel::GetServerInfo,
        }
    }
}

impl RequestModel {
    /// The name of the kind of request, the member `subtype` on the wire.
    pub open spec fn subtype(self) -> Seq<char> {
        match self {
            RequestModel::Interrupt => "interrupt"@,
            RequestModel::CanUseTool(_) => "can_use_tool"@,
            RequestModel::Initialize(_) => "initialize"@,
            RequestModel::SetPermissionMode(_) => "set_permission_mode"@,
            RequestModel::HookCallback(_) => "hook_callback"@,
            RequestModel::McpMessage(_) => "mcp_message"@,
            RequestModel::SetModel(_) => "set_model"@,
            RequestModel::GetServerInfo => "get_server_info"@,
        }
    }

    /// The members that the kind of request adds on the wire.
    pub open spec fn members(self) -> Seq<(Seq<char>, JsonModel)> {
        match self {
            RequestModel::Interrupt => Seq::empty(),
            RequestModel::CanUseTool(r) => r.members(),
            RequestModel::Initialize(r) => r.members(),
            RequestModel::SetPermissionMode(r) => r.members(),
            RequestModel::HookCallback(r) => r.members(),
            RequestModel::McpMessage(r) => r.members(),
            RequestModel::SetModel(r) => r.members(),
            RequestModel::GetServerInfo => Seq::empty(),
        }
    }

    /// The request on the wire: the member `subtype`, then the members of
    /// the kind.
    pub open spec fn wire(self) -> JsonModel {
        JsonModel::Object(seq![("subtype"@, JsonModel::Text(self.subtype()))] + self.members())
    }

    /// The request that `j` carries: its member `subtype` selects the kind.
    pub open spec fn read(j: JsonModel) -> Option<RequestModel> {
        match j.text_at("subtype"@) {
            None => None,
            Some(tag) => if tag == "interrupt"@ {
                Some(RequestModel::Interrupt)
            } else if tag == "can_use_tool"@ {
                match PermissionRequestModel::read(j) {
                    Some(r) => Some(RequestModel::CanUseTool(r)),
                    None => None,
                }
            } else if tag == "initialize"@ {
                match InitializeRequestModel::read(j) {
                    Some(r) => Some(RequestModel::Initialize(r)),
                    None => None,
                }
            } else if tag == "set_permission_mode"@ {
                match SetPermissionModeRequestModel::read(j) {
                    Some(r) => Some(RequestModel::SetPermissionMode(r)),
                    None => None,
                }
            } else if tag == "hook_callback"@ {
                match HookCallbackRequestModel::read(j) {
                    Some(r) => Some(RequestModel::HookCallback(r)),
                    None => None,
                }
            } else if tag == "mcp_message"@ {
                match McpMessageRequestModel::read(j) {
                    Some(r) => Some(RequestModel::McpMessage(r)),
                    None => None,
                }
            } else if tag == "set_model"@ {
                match SetModelRequestModel::read(j) {
                    Some(r) => Some(RequestModel::SetModel(r)),
                    None => None,
                }
            } else if tag == "get_server_info"@ {
                Some(RequestModel::GetServerInfo)
            } else {
                None
            },
        }
    }
}

impl Request {
    /// The name of the kind of request.
    pub fn subtype(&self) -> (r: &'static str)
        ensures
            r@ == self@.subtype(),
    {
        match self {
            Request::Interrupt => "interrupt",
            Request::CanUseTool(_) => "can_use_tool",
            Request::Initialize(_) => "initialize",
            Request::SetPermissionMode(_) => "set_permission_mode",
            Request::HookCallback(_) => "hook_callback",
            Request::McpMessage(_) => "mcp_message",
            Request::SetModel(_) => "set_model",
            Request::GetServerInfo => "get_server_info",
        }
    }

    /// The request as a JSON value.
    pub fn to_json(&self) -> (r: Json)
        ensures
            r@ == self@.wire(),
    {
        let mut members = no_members();
        put(&mut members, "subtype", Json::text(self.subtype()));
        let ghost head = members_model(members@);
        match self {
            Request::Interrupt => {},
            Request::CanUseTool(r) => r.put_members(&mut members),
            Request::Initialize(r) => r.put_members(&mut members),
            Request::SetPermissionMode(r) => r.put_members(&mut members),
            Request::HookCallback(r) => r.put_members(&mut members),
            Request::McpMessage(r) => r.put_members(&mut members),
            Request::SetModel(r) => r.put_members(&mut members),
            Request::GetServerInfo => {},
        }
        proof {
            assert(head =~= seq![("subtype"@, JsonModel::Text(self@.subtype()))]);
            assert(members_model(members@) =~= head + self@.members());
        }
        Json::object(members)
    }

    /// Reads a request from `j`, by its member `subtype`.
    pub fn from_json(j: &Json) -> (r: Option<Request>)
        ensures
            model_opt(r) == RequestModel::read(j@),
    {
        match j.str_at("subtype") {
            None => None,
            Some(tag) => if same(tag, "interrupt") {
                Some(Request::Interrupt)
            } else if same(tag, "can_use_tool") {
                match PermissionRequest::from_json(j) {
                    Some(r) => Some(Request::CanUseTool(r)),
                    None => None,
                }
            } else if same(tag, "initialize") {
                match InitializeRequest::from_json(j) {
                    Some(r) => Some(Request::Initialize(r)),
                    None => None,
                }
            } else if same(tag, "set_permission_mode") {
                match SetPermissionModeRequest::from_json(j) {
                    Some(r) => Some(Request::SetPermissionMode(r)),
                    None => None,
                }
            } else if same(tag, "hook_callback") {
                match HookCallbackRequest::from_json(j) {
                    Some(r) => Some(Request::HookCallback(r)),
                    None => None,
                }
            } else if same(tag, "mcp_message") {
                match McpMessageRequest::from_json(j) {
                    Some(r) => Some(Request::McpMessage(r)),
                    None => None,
                }
            } else if same(tag, "set_model") {
                match SetModelRequest::from_json(j) {
                    Some(r) => Some(Request::SetModel(r)),
                    None => None,
                }
            } else if same(tag, "get_server_info") {
                Some(Request::GetServerInfo)
            } else {
                None
            },
        }
    }
}

/// The code of a protocol error.
#[derive(Debug, Clone, Copy, PartialEq, Eq)]
pub enum ErrorCode {
    ParseError,
    InvalidRequest,
    MethodNotFound,
    InvalidParams,
    InternalError,
    Custom(i32),
}

impl ErrorCode {
    /// The number of the code.
    pub open spec fn number(self) -> i32 {
        match self {
            ErrorCode::ParseError => -32700i32,
            ErrorCode::InvalidRequest => -32600i32,
            ErrorCode::MethodNotFound => -32601i32,
            ErrorCode::InvalidParams => -32602i32,
            ErrorCode::InternalError => -32603i32,
            ErrorCode::Custom(n) => n,
        }
    }

    /// The code of a number: one of the five named codes where the number
    /// is theirs, else a custom code.
    pub open spec fn of(code: i32) -> ErrorCode {
        if code == -32700 {
            ErrorCode::ParseError
        } else if code == -32600 {
            ErrorCode::InvalidRequest
        } else if code == -32601 {
            ErrorCode::MethodNotFound
        } else if code == -32602 {
            ErrorCode::InvalidParams
        } else if code == -32603 {
            ErrorCode::InternalError
        } else {
            ErrorCode::Custom(code)
        }
    }

    pub fn to_i32(self) -> (r: i32)
        ensures
            r == self.number(),
    {
        match self {
            ErrorCode::ParseError => -32700,
            ErrorCode::InvalidRequest => -32600,
            ErrorCode::MethodNotFound => -32601,
            ErrorCode::InvalidParams => -32602,
            ErrorCode::InternalError => -32603,
            ErrorCode::Custom(n) => n,
        }
    }

    pub fn from_i32(code: i32) -> (r: ErrorCode)
        ensures
            r == ErrorCode::of(code),
    {
        if code == -32700 {
            ErrorCode::ParseError
        } else if code == -32600 {
            ErrorCode::InvalidRequest
        } else if code == -32601 {
            ErrorCode::MethodNotFound
        } else if code == -32602 {
            ErrorCode::InvalidParams
        } else if code == -32603 {
            ErrorCode::InternalError
        } else {
            ErrorCode::Custom(code)
        }
    }
}

/// Every number is the number of its own code.
pub proof fn lemma_code_of_number(code: i32)
    ensures
        ErrorCode::of(code).number() == code,
{
}

/// What went wrong with a request.
#[derive(Debug)]
pub struct ErrorDetail {
    pub code: i32,
    pub message: String,
    pub data: Option<Json>,
}

pub struct ErrorDetailModel {
    pub code: i32,
    pub message: Seq<char>,
    pub data: Option<JsonModel>,
}

impl View for ErrorDetail {
    type V = ErrorDetailModel;

    open spec fn view(&self) -> ErrorDetailModel {
        ErrorDetailModel { code: self.code, message: self.message@, data: model_opt(self.data) }
    }
}

impl ErrorDetailModel {
    /// The detail on the wire.
    pub open spec fn wire(self) -> JsonModel {
        JsonModel::Object(
            seq![
                ("code"@, JsonModel::Int(self.code as i64)),
                ("message"@, JsonModel::Text(self.message)),
            ] + optional("data"@, self.data),
        )
    }

    /// The code in the member `code` of `j`, which must fit 32 bits.
    pub open spec fn read_code(j: JsonModel) -> Option<i32> {
        match j.int_at("code"@) {
            Some(n) => if i32::MIN <= n <= i32::MAX {
                Some(n as i32)
            } else {
                None
            },
            None => None,
        }
    }

    /// The detail in the member `error` of `j`.
    pub open spec fn read_at(j: JsonModel) -> Option<ErrorDetailModel> {
        match j.get("error"@) {
            Some(e) => Self::read(e),
            None => None,
        }
    }

    /// The detail that `j` carries.
    pub open spec fn read(j: JsonModel) -> Option<ErrorDetailModel> {
        match (Self::read_code(j), j.text_at("message"@)) {
            (Some(code), Some(message)) => Some(
                ErrorDetailModel { code, message, data: j.present("data"@) },
            ),
            _ => None,
        }
    }
}

impl ErrorDetail {
    pub fn new(code: i32, message: &str) -> (r: ErrorDetail)
        ensures
            r@ == (ErrorDetailModel { code, message: message@, data: None }),
    {
        ErrorDetail { code, message: message.to_owned(), data: None }
    }

    pub fn code(&self) -> (r: i32)
        ensures
            r == self@.code,
    {
        self.code
    }

    pub fn message(&self) -> (r: &str)
        ensures
            r@ == self@.message,
    {
        self.message.as_str()
    }

    pub fn data(&self) -> (r: Option<&Json>)
        ensures
            model_ref(r) == self@.data,
    {
        self.data.as_ref()
    }

    pub fn set_code(&mut self, code: i32)
        ensures
            final(self)@ == (ErrorDetailModel { code, ..old(self)@ }),
    {
        self.code = code;
    }

    pub fn set_message(&mut self, message: &str)
        ensures
            final(self)@ == (ErrorDetailModel { message: message@, ..old(self)@ }),
    {
        self.message = message.to_owned();
    }

    pub fn set_data(&mut self, data: Option<Json>)
        ensures
            final(self)@ == (ErrorDetailModel { data: model_opt(data), ..old(self)@ }),
    {
        self.data = data;
    }

    pub fn with_code(self, code: i32) -> (r: ErrorDetail)
        ensures
            r@ == (ErrorDetailModel { code, ..self@ }),
    {
        ErrorDetail { code, message: self.message, data: self.data }
    }

    pub fn with_message(self, message: &str) -> (r: ErrorDetail)
        ensures
            r@ == (ErrorDetailModel { message: message@, ..self@ }),
    {
        ErrorDetail { code: self.code, message: message.to_owned(), data: self.data }
    }

    pub fn with_data(self, data: Json) -> (r: ErrorDetail)
        ensures
            r@ == (ErrorDetailModel { data: Some(data@), ..self@ }),
    {
        ErrorDetail { code: self.code, message: self.message, data: Some(data) }
    }

    /// The detail as a JSON value.
    pub fn to_json(&self) -> (r: Json)
        ensures
            r@ == self@.wire(),
    {
        let mut members = no_members();
        put(&mut members, "code", Json::integer(self.code as i64));
        put(&mut members, "message", Json::text(self.message.as_str()));
        put_opt(&mut members, "data", clone_opt_json(&self.data));
        proof {
            assert(members_model(members@) =~= self@.wire()->Object_0);
        }
        Json::object(members)
    }

    /// Reads a detail from `j`.
    pub fn from_json(j: &Json) -> (r: Option<ErrorDetail>)
        ensures
            model_opt(r) == ErrorDetailModel::read(j@),
    {
        let code: i32 = match j.i64_at("code") {
            Some(n) => if -2147483648 <= n && n <= 2147483647 {
                n as i32
            } else {
                return None;
            },
            None => {
                return None;
            },
        };
        let message = match j.str_at("message") {
            Some(m) => m,
            None => {
                return None;
            },
        };
        let data = match j.present("data") {
            Some(d) => Some(d.clone()),
            None => None,
        };
        Some(ErrorDetail { code, message: message.to_owned(), data })
    }
}

/// The answer to a request that succeeded.
#[derive(Debug)]
pub struct SuccessResponse {
    pub request_id: String,
    pub response: Option<Json>,
    pub extra: Vec<(String, Json)>,
}

pub struct SuccessResponseModel {
    pub request_id: Seq<char>,
    pub response: Option<JsonModel>,
    pub extra: Seq<(Seq<char>, JsonModel)>,
}

impl View for SuccessResponse {
    type V = SuccessResponseModel;

    open spec fn view(&self) -> SuccessResponseModel {
        SuccessResponseModel {
            request_id: self.request_id@,
            response: model_opt(self.response),
            extra: members_model(self.extra@),
        }
    }
}

impl SuccessResponseModel {
    /// The answer with these members and no others.
    pub open spec fn of(request_id: Seq<char>) -> SuccessResponseModel {
        SuccessResponseModel {
            request_id,
            response: None,
            extra: Seq::empty(),
        }
    }

    /// The names of the members that the answer knows.
    pub open spec fn known() -> Seq<Seq<char>> {
        seq![
            "subtype"@,
            "request_id"@,
            "response"@,
        ]
    }

    /// The members of the answer on the wire: its own, then the others.
    pub open spec fn members(self) -> Seq<(Seq<char>, JsonModel)> {
        seq![
            ("request_id"@, JsonModel::Text(self.request_id)),
        ] + optional("response"@, self.response) + self.extra
    }

    /// The answer that `j` carries, if it has the members of one.
    pub open spec fn read(j: JsonModel) -> Option<SuccessResponseModel> {
        if j.text_at("request_id"@) is Some {
            Some(
                SuccessResponseModel {
                    request_id: j.text_at("request_id"@).unwrap(),
                    response: j.present("response"@),
                    extra: j.unknown(Self::known()),
                },
            )
        } else {
            None
        }
    }
}

impl SuccessResponse {
    pub fn new(request_id: &str) -> (r: SuccessResponse)
        ensures
            r@ == SuccessResponseModel::of(request_id@),
    {
        SuccessResponse {
            request_id: request_id.to_owned(),
            response: None,
            extra: no_members(),
        }
    }

    pub fn request_id(&self) -> (r: &str)
        ensures
            r@ == self@.request_id,
    {
        self.request_id.as_str()
    }

    pub fn response(&self) -> (r: Option<&Json>)
        ensures
            model_ref(r) == self@.response,
    {
        self.response.as_ref()
    }

    pub fn extra(&self) -> (r: &Vec<(String, Json)>)
        ensures
            members_model(r@) == self@.extra,
    {
        &self.extra
    }

    pub fn set_request_id(&mut self, request_id: &str)
        ensures
            final(self)@ == (SuccessResponseModel { request_id: request_id@, ..old(self)@ }),
    {
        self.request_id = request_id.to_owned();
    }

    pub fn set_response(&mut self, response: Option<Json>)
        ensures
            final(self)@ == (SuccessResponseModel { response: model_opt(response), ..old(self)@ }),
    {
        self.response = response;
    }

    pub fn set_extra(&mut self, extra: Vec<(String, Json)>)
        ensures
            final(self)@ == (SuccessResponseModel { extra: members_model(extra@), ..old(self)@ }),
    {
        self.extra = extra;
    }

    pub fn with_request_id(self, request_id: &str) -> (r: SuccessResponse)
        ensures
            r@ == (SuccessResponseModel { request_id: request_id@, ..self@ }),
    {
        let mut a = self;
        a.request_id = request_id.to_owned();
        a
    }

    pub fn with_response(self, response: Json) -> (r: SuccessResponse)
        ensures
            r@ == (SuccessResponseModel { response: Some(response@), ..self@ }),
    {
        let mut a = self;
        a.response = Some(response);
        a
    }

    pub fn with_extra(self, extra: Vec<(String, Json)>) -> (r: SuccessResponse)
        ensures
            r@ == (SuccessResponseModel { extra: members_model(extra@), ..self@ }),
    {
        let mut a = self;
        a.extra = extra;
        a
    }

    /// Appends the members of the answer to `members`.
    pub fn put_members(&self, members: &mut Vec<(String, Json)>)
        ensures
            members_model(final(members)@) == members_model(old(members)@) + self@.members(),
    {
        put(members, "request_id", Json::text(self.request_id.as_str()));
        put_opt(members, "response", clone_opt_json(&self.response));
        put_all(members, &self.extra);
        proof {
            assert(members_model(members@) =~= members_model(old(members)@) + self@.members());
        }
    }

    /// Reads the answer from `j`.
    pub fn from_json(j: &Json) -> (r: Option<SuccessResponse>)
        ensures
            model_opt(r) == SuccessResponseModel::read(j@),
    {
        let request_id = match j.str_at("request_id") {
            Some(v) => v.to_owned(),
            None => {
                return None;
            },
        };
        let response = match j.present("response") {
            Some(v) => Some(v.clone()),
            None => None,
        };
        let known = vec![
            "subtype",
            "request_id",
            "response",
        ];
        proof {
            assert(names(known@) =~= SuccessResponseModel::known());
        }
        Some(SuccessResponse { request_id, response, extra: j.unknown(&known) })
    }

    pub fn with_response_opt(self, response: Option<Json>) -> (r: SuccessResponse)
        ensures
            r@ == (SuccessResponseModel { response: model_opt(response), ..self@ }),
    {
        let mut a = self;
        a.response = response;
        a
    }
}

/// The answer to a request that failed.
#[derive(Debug)]
pub struct ErrorResponse {
    pub request_id: String,
    pub error: ErrorDetail,
    pub extra: Vec<(String, Json)>,
}

pub struct ErrorResponseModel {
    pub request_id: Seq<char>,
    pub error: ErrorDetailModel,
    pub extra: Seq<(Seq<char>, JsonModel)>,
}

impl View for ErrorResponse {
    type V = ErrorResponseModel;

    open spec fn view(&self) -> ErrorResponseModel {
        ErrorResponseModel {
            request_id: self.request_id@,
            error: self.error@,
            extra: members_model(self.extra@),
        }
    }
}

impl ErrorResponseModel {
    /// The answer with these members and no others.
    pub open spec fn of(request_id: Seq<char>, error: ErrorDetailModel) -> ErrorResponseModel {
        ErrorResponseModel {
            request_id,
            error,
            extra: Seq::empty(),
        }
    }

    /// The names of the members that the answer knows.
    pub open spec fn known() -> Seq<Seq<char>> {
        seq![
            "subtype"@,
            "request_id"@,
            "error"@,
        ]
    }

    /// The members of the answer on the wire: its own, then the others.
    pub open spec fn members(self) -> Seq<(Seq<char>, JsonModel)> {
        seq![
            ("request_id"@, JsonModel::Text(self.request_id)),
            ("error"@, self.error.wire()),
        ] + self.extra
    }

    /// The answer that `j` carries, if it has the members of one.
    pub open spec fn read(j: JsonModel) -> Option<ErrorResponseModel> {
        if j.text_at("request_id"@) is Some && ErrorDetailModel::read_at(j) is Some {
            Some(
                ErrorResponseModel {
                    request_id: j.text_at("request_id"@).unwrap(),
                    error: ErrorDetailModel::read_at(j).unwrap(),
                    extra: j.unknown(Self::known()),
                },
            )
        } else {
            None
        }
    }
}

impl ErrorResponse {
    pub fn new(request_id: &str, error: ErrorDetail) -> (r: ErrorResponse)
        ensures
            r@ == ErrorResponseModel::of(request_id@, error@),
    {
        ErrorResponse {
            request_id: request_id.to_owned(),
            error,
            extra: no_members(),
        }
    }

    pub fn request_id(&self) -> (r: &str)
        ensures
            r@ == self@.request_id,
    {
        self.request_id.as_str()
    }

    pub fn error(&self) -> (r: &ErrorDetail)
        ensures
            r@ == self@.error,
    {
        &self.error
    }

    pub fn extra(&self) -> (r: &Vec<(String, Json)>)
        ensures
            members_model(r@) == self@.extra,
    {
        &self.extra
    }

    pub fn set_request_id(&mut self, request_id: &str)
        ensures
            final(self)@ == (ErrorResponseModel { request_id: request_id@, ..old(self)@ }),
    {
        self.request_id = request_id.to_owned();
    }

    pub fn set_error(&mut self, error: ErrorDetail)
        ensures
            final(self)@ == (ErrorResponseModel { error: error@, ..old(self)@ }),
    {
        self.error = error;
    }

    pub fn set_extra(&mut self, extra: Vec<(String, Json)>)
        ensures
            final(self)@ == (ErrorResponseModel { extra: members_model(extra@), ..old(self)@ }),
    {
        self.extra = extra;
    }

    pub fn with_request_id(self, request_id: &str) -> (r: ErrorResponse)
        ensures
            r@ == (ErrorResponseModel { request_id: request_id@, ..self@ }),
    {
        let mut a = self;
        a.request_id = request_id.to_owned();
        a
    }

    pub fn with_error(self, error: ErrorDetail) -> (r: ErrorResponse)
        ensures
            r@ == (ErrorResponseModel { error: error@, ..self@ }),
    {
        let mut a = self;
        a.error = error;
        a
    }

    pub fn with_extra(self, extra: Vec<(String, Json)>) -> (r: ErrorResponse)
        ensures
            r@ == (ErrorResponseModel { extra: members_model(extra@), ..self@ }),
    {
        let mut a = self;
        a.extra = extra;
        a
    }

    /// Appends the members of the answer to `members`.
    pub fn put_members(&self, members: &mut Vec<(String, Json)>)
        ensures
            members_model(final(members)@) == members_model(old(members)@) + self@.members(),
    {
        put(members, "request_id", Json::text(self.request_id.as_str()));
        put(members, "error", self.error.to_json());
        put_all(members, &self.extra);
        proof {
            assert(members_model(members@) =~= members_model(old(members)@) + self@.members());
        }
    }

    /// Reads the answer from `j`.
    pub fn from_json(j: &Json) -> (r: Option<ErrorResponse>)
        ensures
            model_opt(r) == ErrorResponseModel::read(j@),
    {
        let request_id = match j.str_at("request_id") {
            Some(v) => v.to_owned(),
            None => {
                return None;
            },
        };
        let error = match j.get("error") {
            Some(e) => match ErrorDetail::from_json(e) {
                Some(d) => d,
                None => {
                    return None;
                },
            },
            None => {
                return None;
            },
        };
        let known = vec![
            "subtype",
            "request_id",
            "error",
        ];
        proof {
            assert(names(known@) =~= ErrorResponseModel::known());
        }
        Some(ErrorResponse { request_id, error, extra: j.unknown(&known) })
    }
}

/// A control response.
#[derive(Debug)]
pub enum Response {
    Success(SuccessResponse),
    Error(ErrorResponse),
}

pub enum ResponseModel {
    Success(SuccessResponseModel),
    Error(ErrorResponseModel),
}

impl View for Response {
    type V = ResponseModel;

    open spec fn view(&self) -> ResponseModel {
        match self {
            Response::Success(r) => ResponseModel::Success(r@),
            Response::Error(r) => ResponseModel::Error(r@),
        }
    }
}

impl ResponseModel {
    /// The outcome, the member `subtype` on the wire.
    pub open spec fn subtype(self) -> Seq<char> {
        match self {
            ResponseModel::Success(_) => "success"@,
            ResponseModel::Error(_) => "error"@,
        }
    }

    /// The members that the outcome adds on the wire.
    pub open spec fn members(self) -> Seq<(Seq<char>, JsonModel)> {
        match self {
            ResponseModel::Success(r) => r.members(),
            ResponseModel::Error(r) => r.members(),
        }
    }

    /// The response on the wire.
    pub open spec fn wire(self) -> JsonModel {
        JsonModel::Object(seq![("subtype"@, JsonModel::Text(self.subtype()))] + self.members())
    }

    /// The response that `j` carries: its member `subtype` selects the
    /// outcome.
    pub open spec fn read(j: JsonModel) -> Option<ResponseModel> {
        match j.text_at("subtype"@) {
            None => None,
            Some(tag) => if tag == "success"@ {
                match SuccessResponseModel::read(j) {
                    Some(r) => Some(ResponseModel::Success(r)),
                    None => None,
                }
            } else if tag == "error"@ {
                match ErrorResponseModel::read(j) {
                    Some(r) => Some(ResponseModel::Error(r)),
                    None => None,
                }
            } else {
                None
            },
        }
    }
}

impl Response {
    /// The outcome: `success` or `error`.
    pub fn subtype(&self) -> (r: &'static str)
        ensures
            r@ == self@.subtype(),
    {
        match self {
            Response::Success(_) => "success",
            Response::Error(_) => "error",
        }
    }

    /// The response as a JSON value.
    pub fn to_json(&self) -> (r: Json)
        ensures
            r@ == self@.wire(),
    {
        let mut members = no_members();
        put(&mut members, "subtype", Json::text(self.subtype()));
        let ghost head = members_model(members@);
        match self {
            Response::Success(r) => r.put_members(&mut members),
            Response::Error(r) => r.put_members(&mut members),
        }
        proof {
            assert(head =~= seq![("subtype"@, JsonModel::Text(self@.subtype()))]);
            assert(members_model(members@) =~= head + self@.members());
        }
        Json::object(members)
    }

    /// Reads a response from `j`, by its member `subtype`.
    pub fn from_json(j: &Json) -> (r: Option<Response>)
        ensures
            model_opt(r) == ResponseModel::read(j@),
    {
        match j.str_at("subtype") {
            None => None,
            Some(tag) => if same(tag, "success") {
                match SuccessResponse::from_json(j) {
                    Some(r) => Some(Response::Success(r)),
                    None => None,
                }
            } else if same(tag, "error") {
                match ErrorResponse::from_json(j) {
                    Some(r) => Some(Response::Error(r)),
                    None => None,
                }
            } else {
                None
            },
        }
    }
}

/// Formats a fresh version-7 identifier from `uuid::Uuid::now_v7` with the
/// identifier's `to_string`, which writes the 36 characters of the
/// hyphenated form.  The identifier depends on the clock and on chance.  The
/// call takes nothing, so nothing that is handed to it can keep it from the
/// two things that stop it: a system clock that reads a time before 1970,
/// and an operating system that gives no random bytes.
#[verifier::external_body]
fn fresh_request_id() -> (r: String)
    ensures
        r@.len() == 36,
{
    uuid::Uuid::now_v7().to_string()
}

/// A control request on its way to the child.
#[derive(Debug)]
pub struct RequestEnvelope {
    pub msg_type: String,
    pub request_id: String,
    pub request: Request,
}

pub struct RequestEnvelopeModel {
    pub msg_type: Seq<char>,
    pub request_id: Seq<char>,
    pub request: RequestModel,
}

impl View for RequestEnvelope {
    type V = RequestEnvelopeModel;

    open spec fn view(&self) -> RequestEnvelopeModel {
        RequestEnvelopeModel {
            msg_type: self.msg_type@,
            request_id: self.request_id@,
            request: self.request@,
        }
    }
}

impl RequestEnvelopeModel {
    /// The envelope on the wire.
    pub open spec fn wire(self) -> JsonModel {
        JsonModel::Object(
            seq![
                ("type"@, JsonModel::Text(self.msg_type)),
                ("request_id"@, JsonModel::Text(self.request_id)),
                ("request"@, self.request.wire()),
            ],
        )
    }

    /// The envelope of `request` under the identifier `request_id`.
    pub open spec fn of(request_id: Seq<char>, request: RequestModel) -> RequestEnvelopeModel {
        RequestEnvelopeModel { msg_type: "control_request"@, request_id, request }
    }
}

impl RequestEnvelope {
    /// The envelope of `request` under a fresh identifier.
    pub fn new(request: Request) -> (r: RequestEnvelope)
        ensures
            r@ == RequestEnvelopeModel::of(r@.request_id, request@),
            r@.request_id.len() == 36,
    {
        let id = fresh_request_id();
        RequestEnvelope::new_with(id.as_str(), request)
    }

    /// The envelope of `request` under the identifier `request_id`.
    pub fn new_with(request_id: &str, request: Request) -> (r: RequestEnvelope)
        ensures
            r@ == RequestEnvelopeModel::of(request_id@, request@),
    {
        RequestEnvelope {
            msg_type: "control_request".to_owned(),
            request_id: request_id.to_owned(),
            request,
        }
    }

    /// The envelope of an interrupt request.
    pub fn interrupt(request_id: &str) -> (r: RequestEnvelope)
        ensures
            r@ == RequestEnvelopeModel::of(request_id@, RequestModel::Interrupt),
    {
        RequestEnvelope::new_with(request_id, Request::Interrupt)
    }

    pub fn msg_type(&self) -> (r: &str)
        ensures
            r@ == self@.msg_type,
    {
        self.msg_type.as_str()
    }

    pub fn request_id(&self) -> (r: &str)
        ensures
            r@ == self@.request_id,
    {
        self.request_id.as_str()
    }

    pub fn request(&self) -> (r: &Request)
        ensures
            r@ == self@.request,
    {
        &self.request
    }

    pub fn set_msg_type(&mut self, msg_type: &str)
        ensures
            final(self)@ == (RequestEnvelopeModel { msg_type: msg_type@, ..old(self)@ }),
    {
        self.msg_type = msg_type.to_owned();
    }

    pub fn set_request_id(&mut self, request_id: &str)
        ensures
            final(self)@ == (RequestEnvelopeModel { request_id: request_id@, ..old(self)@ }),
    {
        self.request_id = request_id.to_owned();
    }

    pub fn set_request(&mut self, request: Request)
        ensures
            final(self)@ == (RequestEnvelopeModel { request: request@, ..old(self)@ }),
    {
        self.request = request;
    }

    pub fn with_msg_type(self, msg_type: &str) -> (r: RequestEnvelope)
        ensures
            r@ == (RequestEnvelopeModel { msg_type: msg_type@, ..self@ }),
    {
        RequestEnvelope {
            msg_type: msg_type.to_owned(),
            request_id: self.request_id,
            request: self.request,
        }
    }

    pub fn with_request_id(self, request_id: &str) -> (r: RequestEnvelope)
        ensures
            r@ == (RequestEnvelopeModel { request_id: request_id@, ..self@ }),
    {
        RequestEnvelope {
            msg_type: self.msg_type,
            request_id: request_id.to_owned(),
            request: self.request,
        }
    }

    pub fn with_request(self, request: Request) -> (r: RequestEnvelope)
        ensures
            r@ == (RequestEnvelopeModel { request: request@, ..self@ }),
    {
        RequestEnvelope { msg_type: self.msg_type, request_id: self.request_id, request }
    }

    /// The envelope as a JSON value.
    pub fn to_json(&self) -> (r: Json)
        ensures
            r@ == self@.wire(),
    {
        let mut members = no_members();
        put(&mut members, "type", Json::text(self.msg_type.as_str()));
        put(&mut members, "request_id", Json::text(self.request_id.as_str()));
        put(&mut members, "request", self.request.to_json());
        proof {
            assert(members_model(members@) =~= self@.wire()->Object_0);
        }
        Json::object(members)
    }
}

/// A control response on its way to the child.
#[derive(Debug)]
pub struct ResponseEnvelope {
    pub msg_type: String,
    pub response: Response,
}

pub struct ResponseEnvelopeModel {
    pub msg_type: Seq<char>,
    pub response: ResponseModel,
}

impl View for ResponseEnvelope {
    type V = ResponseEnvelopeModel;

    open spec fn view(&self) -> ResponseEnvelopeModel {
        ResponseEnvelopeModel { msg_type: self.msg_type@, response: self.response@ }
    }
}

impl ResponseEnvelopeModel {
    /// The envelope on the wire.
    pub open spec fn wire(self) -> JsonModel {
        JsonModel::Object(
            seq![("type"@, JsonModel::Text(self.msg_type)), ("response"@, self.response.wire())],
        )
    }

    /// The envelope that reports success for `request_id`, with `response`
    /// as its payload.
    pub open spec fn success(request_id: Seq<char>, response: Option<JsonModel>) -> ResponseEnvelopeModel {
        ResponseEnvelopeModel {
            msg_type: "control_response"@,
            response: ResponseModel::Success(
                SuccessResponseModel { response, ..SuccessResponseModel::of(request_id) },
            ),
        }
    }

    /// The envelope that reports the error `code` with `message` for
    /// `request_id`.
    pub open spec fn error(request_id: Seq<char>, code: i32, message: Seq<char>) -> ResponseEnvelopeModel {
        ResponseEnvelopeModel {
            msg_type: "control_response"@,
            response: ResponseModel::Error(
                ErrorResponseModel::of(request_id, ErrorDetailModel { code, message, data: None }),
            ),
        }
    }
}

impl ResponseEnvelope {
    /// The envelope that reports success for `request_id`.
    pub fn success(request_id: &str, response: Option<Json>) -> (r: ResponseEnvelope)
        ensures
            r@ == ResponseEnvelopeModel::success(request_id@, model_opt(response)),
    {
        ResponseEnvelope {
            msg_type: "control_response".to_owned(),
            response: Response::Success(
                SuccessResponse::new(request_id).with_response_opt(response),
            ),
        }
    }

    /// The envelope that reports an error for `request_id`.
    pub fn error(request_id: &str, code: ErrorCode, message: &str) -> (r: ResponseEnvelope)
        ensures
            r@ == ResponseEnvelopeModel::error(request_id@, code.number(), message@),
    {
        ResponseEnvelope {
            msg_type: "control_response".to_owned(),
            response: Response::Error(
                ErrorResponse::new(request_id, ErrorDetail::new(code.to_i32(), message)),
            ),
        }
    }

    pub fn msg_type(&self) -> (r: &str)
        ensures
            r@ == self@.msg_type,
    {
        self.msg_type.as_str()
    }

    pub fn response(&self) -> (r: &Response)
        ensures
            r@ == self@.response,
    {
        &self.response
    }

    pub fn set_msg_type(&mut self, msg_type: &str)
        ensures
            final(self)@ == (ResponseEnvelopeModel { msg_type: msg_type@, ..old(self)@ }),
    {
        self.msg_type = msg_type.to_owned();
    }

    pub fn set_response(&mut self, response: Response)
        ensures
            final(self)@ == (ResponseEnvelopeModel { response: response@, ..old(self)@ }),
    {
        self.response = response;
    }

    pub fn with_msg_type(self, msg_type: &str) -> (r: ResponseEnvelope)
        ensures
            r@ == (ResponseEnvelopeModel { msg_type: msg_type@, ..self@ }),
    {
        ResponseEnvelope { msg_type: msg_type.to_owned(), response: self.response }
    }

    pub fn with_response(self, response: Response) -> (r: ResponseEnvelope)
        ensures
            r@ == (ResponseEnvelopeModel { response: response@, ..self@ }),
    {
        ResponseEnvelope { msg_type: self.msg_type, response }
    }

    /// The envelope as a JSON value.
    pub fn to_json(&self) -> (r: Json)
        ensures
            r@ == self@.wire(),
    {
        let mut members = no_members();
        put(&mut members, "type", Json::text(self.msg_type.as_str()));
        put(&mut members, "response", self.response.to_json());
        proof {
            assert(members_model(members@) =~= self@.wire()->Object_0);
        }
        Json::object(members)
    }
}

/// What the child says of itself.
#[derive(Debug)]
pub struct ServerInfo {
    pub version: String,
    pub capabilities: Vec<String>,
    pub commands: Vec<String>,
    pub output_styles: Vec<String>,
    pub extra: Vec<(String, Json)>,
}

pub struct ServerInfoModel {
    pub version: Seq<char>,
    pub capabilities: Seq<Seq<char>>,
    pub commands: Seq<Seq<char>>,
    pub output_styles: Seq<Seq<char>>,
    pub extra: Seq<(Seq<char>, JsonModel)>,
}

impl View for ServerInfo {
    type V = ServerInfoModel;

    open spec fn view(&self) -> ServerInfoModel {
        ServerInfoModel {
            version: self.version@,
            capabilities: models(self.capabilities@),
            commands: models(self.commands@),
            output_styles: models(self.output_styles@),
            extra: members_model(self.extra@),
        }
    }
}

impl ServerInfoModel {
    /// The information with these members and no others.
    pub open spec fn of(version: Seq<char>) -> ServerInfoModel {
        ServerInfoModel {
            version,
            capabilities: Seq::empty(),
            commands: Seq::empty(),
            output_styles: Seq::empty(),
            extra: Seq::empty(),
        }
    }

    /// The names of the members that the information knows.
    pub open spec fn known() -> Seq<Seq<char>> {
        seq![
            "version"@,
            "capabilities"@,
            "commands"@,
            "outputStyles"@,
        ]
    }

    /// The information that `j` carries, if it has the members of one.
    pub open spec fn read(j: JsonModel) -> Option<ServerInfoModel> {
        if j.text_at("version"@) is Some && j.texts_at("capabilities"@) is Some && j.texts_at("commands"@) is Some && j.texts_at("outputStyles"@) is Some {
            Some(
                ServerInfoModel {
                    version: j.text_at("version"@).unwrap(),
                    capabilities: j.texts_at("capabilities"@).unwrap(),
                    commands: j.texts_at("commands"@).unwrap(),
                    output_styles: j.texts_at("outputStyles"@).unwrap(),
                    extra: j.unknown(Self::known()),
                },
            )
        } else {
            None
        }
    }
}

impl ServerInfo {
    pub fn new(version: &str) -> (r: ServerInfo)
        ensures
            r@ == ServerInfoModel::of(version@),
    {
        ServerInfo {
            version: version.to_owned(),
            capabilities: no_strings(),
            commands: no_strings(),
            output_styles: no_strings(),
            extra: no_members(),
        }
    }

    pub fn version(&self) -> (r: &str)
        ensures
            r@ == self@.version,
    {
        self.version.as_str()
    }

    pub fn capabilities(&self) -> (r: &Vec<String>)
        ensures
            models(r@) == self@.capabilities,
    {
        &self.capabilities
    }

    pub fn commands(&self) -> (r: &Vec<String>)
        ensures
            models(r@) == self@.commands,
    {
        &self.commands
    }

    pub fn output_styles(&self) -> (r: &Vec<String>)
        ensures
            models(r@) == self@.output_styles,
    {
        &self.output_styles
    }

    pub fn extra(&self) -> (r: &Vec<(String, Json)>)
        ensures
            members_model(r@) == self@.extra,
    {
        &self.extra
    }

    pub fn set_version(&mut self, version: &str)
        ensures
            final(self)@ == (ServerInfoModel { version: version@, ..old(self)@ }),
    {
        self.version = version.to_owned();
    }

    pub fn set_capabilities(&mut self, capabilities: Vec<String>)
        ensures
            final(self)@ == (ServerInfoModel { capabilities: models(capabilities@), ..old(self)@ }),
    {
        self.capabilities = capabilities;
    }

    pub fn set_commands(&mut self, commands: Vec<String>)
        ensures
            final(self)@ == (ServerInfoModel { commands: models(commands@), ..old(self)@ }),
    {
        self.commands = commands;
    }

    pub fn set_output_styles(&mut self, output_styles: Vec<String>)
        ensures
            final(self)@ == (ServerInfoModel { output_styles: models(output_styles@), ..old(self)@ }),
    {
        self.output_styles = output_styles;
    }

    pub fn set_extra(&mut self, extra: Vec<(String, Json)>)
        ensures
            final(self)@ == (ServerInfoModel { extra: members_model(extra@), ..old(self)@ }),
    {
        self.extra = extra;
    }

    pub fn with_version(self, version: &str) -> (r: ServerInfo)
        ensures
            r@ == (ServerInfoModel { version: version@, ..self@ }),
    {
        let mut s = self;
        s.version = version.to_owned();
        s
    }

    pub fn with_capabilities(self, capabilities: Vec<String>) -> (r: ServerInfo)
        ensures
            r@ == (ServerInfoModel { capabilities: models(capabilities@), ..self@ }),
    {
        let mut s = self;
        s.capabilities = capabilities;
        s
    }

    pub fn with_commands(self, commands: Vec<String>) -> (r: ServerInfo)
        ensures
            r@ == (ServerInfoModel { commands: models(commands@), ..self@ }),
    {
        let mut s = self;
        s.commands = commands;
        s
    }

    pub fn with_output_styles(self, output_styles: Vec<String>) -> (r: ServerInfo)
        ensures
            r@ == (ServerInfoModel { output_styles: models(output_styles@), ..self@ }),
    {
        let mut s = self;
        s.output_styles = output_styles;
        s
    }

    pub fn with_extra(self, extra: Vec<(String, Json)>) -> (r: ServerInfo)
        ensures
            r@ == (ServerInfoModel { extra: members_model(extra@), ..self@ }),
    {
        let mut s = self;
        s.extra = extra;
        s
    }

    /// Reads the information from `j`.
    pub fn from_json(j: &Json) -> (r: Option<ServerInfo>)
        ensures
            model_opt(r) == ServerInfoModel::read(j@),
    {
        let version = match j.str_at("version") {
            Some(v) => v.to_owned(),
            None => {
                return None;
            },
        };
        let capabilities = match j.strings_at("capabilities") {
            Some(v) => v,
            None => {
                return None;
            },
        };
        let commands = match j.strings_at("commands") {
            Some(v) => v,
            None => {
                return None;
            },
        };
        let output_styles = match j.strings_at("outputStyles") {
            Some(v) => v,
            None => {
                return None;
            },
        };
        let known = vec![
            "version",
            "capabilities",
            "commands",
            "outputStyles",
        ];
        proof {
            assert(names(known@) =~= ServerInfoModel::known());
        }
        Some(ServerInfo { version, capabilities, commands, output_styles, extra: j.unknown(&known) })
    }
}

} // verus!
