//! The table of the hooks that the host registered.

use crate::hooks::post_tool_use::PostToolUseCallback;
use crate::hooks::pre_tool_use::PreToolUseCallback;
use crate::hooks::stop::StopCallback;
use crate::hooks::user_prompt_submit::UserPromptSubmitCallback;
use crate::views::{model_opt, model_str, own};
use vstd::prelude::*;

verus! {

/// Four lists of hooks, each in the order of registration.  A hook for a
/// tool event may carry a pattern for the names of the tools it is for.
pub struct Hooks {
    pub pre_tool_use: Vec<(Option<String>, PreToolUseCallback)>,
    pub post_tool_use: Vec<(Option<String>, PostToolUseCallback)>,
    pub user_prompt_submit: Vec<UserPromptSubmitCallback>,
    pub stop: Vec<StopCallback>,
}

/// What the table holds, but for the callbacks themselves: the patterns of
/// the hooks for tool events, and how many hooks of the two other kinds
/// there are.
pub struct HooksModel {
    pub pre_tool_use: Seq<Option<Seq<char>>>,
    pub post_tool_use: Seq<Option<Seq<char>>>,
    pub user_prompt_submit: nat,
    pub stop: nat,
}

impl HooksModel {
    /// The table without hooks.
    pub open spec fn empty() -> HooksModel {
        HooksModel {
            pre_tool_use: Seq::empty(),
            post_tool_use: Seq::empty(),
            user_prompt_submit: 0,
            stop: 0,
        }
    }

    /// The number of hooks of all kinds.
    pub open spec fn total(self) -> nat {
        self.pre_tool_use.len() + self.post_tool_use.len() + self.user_prompt_submit + self.stop
    }
}

impl View for Hooks {
    type V = HooksModel;

    open spec fn view(&self) -> HooksModel {
        HooksModel {
            pre_tool_use: Seq::new(
                self.pre_tool_use@.len(),
                |i: int| model_opt(self.pre_tool_use@[i].0),
            ),
            post_tool_use: Seq::new(
                self.post_tool_use@.len(),
                |i: int| model_opt(self.post_tool_use@[i].0),
            ),
            user_prompt_submit: self.user_prompt_submit@.len(),
            stop: self.stop@.len(),
        }
    }
}

impl Hooks {
    /// The table without hooks.
    pub fn new() -> (r: Hooks)
        ensures
            r@ == HooksModel::empty(),
    {
        let r = Hooks {
            pre_tool_use: Vec::new(),
            post_tool_use: Vec::new(),
            user_prompt_submit: Vec::new(),
            stop: Vec::new(),
        };
        proof {
            assert(r@.pre_tool_use =~= Seq::empty());
            assert(r@.post_tool_use =~= Seq::empty());
        }
        r
    }

    /// The table with `callback` for every `PreToolUse` as its one hook.
    pub fn from_pre_tool_use(callback: PreToolUseCallback) -> (r: Hooks)
        ensures
            r@ == (HooksModel { pre_tool_use: seq![None], ..HooksModel::empty() }),
    {
        let r = Hooks::new().on_pre_tool_use(None, callback);
        proof {
            assert(r@.pre_tool_use =~= seq![None]);
        }
        r
    }

    /// The table with `callback` for every `PostToolUse` as its one hook.
    pub fn from_post_tool_use(callback: PostToolUseCallback) -> (r: Hooks)
        ensures
            r@ == (HooksModel { post_tool_use: seq![None], ..HooksModel::empty() }),
    {
        let r = Hooks::new().on_post_tool_use(None, callback);
        proof {
            assert(r@.post_tool_use =~= seq![None]);
        }
        r
    }

    /// The table with `callback` for `UserPromptSubmit` as its one hook.
    pub fn from_user_prompt_submit(callback: UserPromptSubmitCallback) -> (r: Hooks)
        ensures
            r@ == (HooksModel { user_prompt_submit: 1, ..HooksModel::empty() }),
    {
        Hooks::new().on_user_prompt_submit(callback)
    }

    /// The table with `callback` for `Stop` as its one hook.
    pub fn from_stop(callback: StopCallback) -> (r: Hooks)
        ensures
            r@ == (HooksModel { stop: 1, ..HooksModel::empty() }),
    {
        Hooks::new().on_stop(callback)
    }

    /// The table with one more hook for `PreToolUse`, for the tools that
    /// `pattern` names.
    pub fn on_pre_tool_use(self, pattern: Option<&str>, callback: PreToolUseCallback) -> (r:
        Hooks)
        ensures
            r@ == (HooksModel {
                pre_tool_use: self@.pre_tool_use.push(model_str(pattern)),
                ..self@
            }),
    {
        let mut hooks = self;
        hooks.add_pre_tool_use(pattern, callback);
        hooks
    }

    /// The table with one more hook for `PostToolUse`, for the tools that
    /// `pattern` names.
    pub fn on_post_tool_use(
        self,
        pattern: Option<&str>,
        callback: PostToolUseCallback,
    ) -> (r: Hooks)
        ensures
            r@ == (HooksModel {
                post_tool_use: self@.post_tool_use.push(model_str(pattern)),
                ..self@
            }),
    {
        let mut hooks = self;
        hooks.add_post_tool_use(pattern, callback);
        hooks
    }

    /// The table with one more hook for `UserPromptSubmit`.
    pub fn on_user_prompt_submit(self, callback: UserPromptSubmitCallback) -> (r: Hooks)
        ensures
            r@ == (HooksModel { user_prompt_submit: self@.user_prompt_submit + 1, ..self@ }),
    {
        let mut hooks = self;
        hooks.add_user_prompt_submit(callback);
        hooks
    }

    /// The table with one more hook for `Stop`.
    pub fn on_stop(self, callback: StopCallback) -> (r: Hooks)
        ensures
            r@ == (HooksModel { stop: self@.stop + 1, ..self@ }),
    {
        let mut hooks = self;
        hooks.add_stop(callback);
        hooks
    }

    /// Appends a hook for `PreToolUse`.
    pub fn add_pre_tool_use(&mut self, pattern: Option<&str>, callback: PreToolUseCallback)
        ensures
            final(self)@ == (HooksModel {
                pre_tool_use: old(self)@.pre_tool_use.push(model_str(pattern)),
                ..old(self)@
            }),
    {
        self.pre_tool_use.push((own(pattern), callback));
        proof {
            assert(self@.pre_tool_use =~= old(self)@.pre_tool_use.push(
                model_str(pattern),
            ));
            assert(self@.post_tool_use =~= old(self)@.post_tool_use);
        }
    }

    /// Appends a hook for `PostToolUse`.
    pub fn add_post_tool_use(
        &mut self,
        pattern: Option<&str>,
        callback: PostToolUseCallback,
    )
        ensures
            final(self)@ == (HooksModel {
                post_tool_use: old(self)@.post_tool_use.push(model_str(pattern)),
                ..old(self)@
            }),
    {
        self.post_tool_use.push((own(pattern), callback));
        proof {
            assert(self@.post_tool_use =~= old(self)@.post_tool_use.push(
                model_str(pattern),
            ));
            assert(self@.pre_tool_use =~= old(self)@.pre_tool_use);
        }
    }

    /// Appends a hook for `UserPromptSubmit`.
    pub fn add_user_prompt_submit(&mut self, callback: UserPromptSubmitCallback)
        ensures
            final(self)@ == (HooksModel {
                user_prompt_submit: old(self)@.user_prompt_submit + 1,
                ..old(self)@
            }),
    {
        self.user_prompt_submit.push(callback);
        proof {
            assert(self@.pre_tool_use =~= old(self)@.pre_tool_use);
            assert(self@.post_tool_use =~= old(self)@.post_tool_use);
        }
    }

    /// Appends a hook for `Stop`.
    pub fn add_stop(&mut self, callback: StopCallback)
        ensures
            final(self)@ == (HooksModel { stop: old(self)@.stop + 1, ..old(self)@ }),
    {
        self.stop.push(callback);
        proof {
            assert(self@.pre_tool_use =~= old(self)@.pre_tool_use);
            assert(self@.post_tool_use =~= old(self)@.post_tool_use);
        }
    }

    /// The hooks for `UserPromptSubmit`, in order.
    pub fn user_prompt_submit_hooks(&self) -> (r: &Vec<UserPromptSubmitCallback>)
        ensures
            *r == self.user_prompt_submit,
            r@.len() == self@.user_prompt_submit,
    {
        &self.user_prompt_submit
    }

    /// The hook for `UserPromptSubmit` at `index`.
    pub fn get_user_prompt_submit_hook(&self, index: usize) -> (r: Option<
        &UserPromptSubmitCallback,
    >)
        ensures
            r is Some <==> index < self@.user_prompt_submit,
            r matches Some(hook) ==> *hook == self.user_prompt_submit[index as int],
    {
        if index < self.user_prompt_submit.len() {
            Some(&self.user_prompt_submit[index])
        } else {
            None
        }
    }

    /// The hooks for `PostToolUse` with their patterns, in order.
    pub fn post_tool_use_hooks(&self) -> (r: &Vec<(Option<String>, PostToolUseCallback)>)
        ensures
            *r == self.post_tool_use,
            r@.len() == self@.post_tool_use.len(),
            forall|i: int| 0 <= i < r@.len() ==> model_opt(r@[i].0) == self@.post_tool_use[i],
    {
        &self.post_tool_use
    }

    /// The hook for `PostToolUse` at `index`, with its pattern.
    pub fn get_post_tool_use_hook(&self, index: usize) -> (r: Option<
        &(Option<String>, PostToolUseCallback),
    >)
        ensures
            r is Some <==> index < self@.post_tool_use.len(),
            r matches Some(hook) ==> *hook == self.post_tool_use[index as int] && model_opt(hook.0)
                == self@.post_tool_use[index as int],
    {
        if index < self.post_tool_use.len() {
            Some(&self.post_tool_use[index])
        } else {
            None
        }
    }

    /// The hooks for `PreToolUse` with their patterns, in order.
    pub fn pre_tool_use_hooks(&self) -> (r: &Vec<(Option<String>, PreToolUseCallback)>)
        ensures
            *r == self.pre_tool_use,
            r@.len() == self@.pre_tool_use.len(),
            forall|i: int| 0 <= i < r@.len() ==> model_opt(r@[i].0) == self@.pre_tool_use[i],
    {
        &self.pre_tool_use
    }

    /// The hook for `PreToolUse` at `index`, with its pattern.
    pub fn get_pre_tool_use_hook(&self, index: usize) -> (r: Option<
        &(Option<String>, PreToolUseCallback),
    >)
        ensures
            r is Some <==> index < self@.pre_tool_use.len(),
            r matches Some(hook) ==> *hook == self.pre_tool_use[index as int] && model_opt(hook.0)
                == self@.pre_tool_use[index as int],
    {
        if index < self.pre_tool_use.len() {
            Some(&self.pre_tool_use[index])
        } else {
            None
        }
    }

    /// The hooks for `Stop`, in order.
    pub fn stop_hooks(&self) -> (r: &Vec<StopCallback>)
        ensures
            *r == self.stop,
            r@.len() == self@.stop,
    {
        &self.stop
    }

    /// The hook for `Stop` at `index`.
    pub fn get_stop_hook(&self, index: usize) -> (r: Option<&StopCallback>)
        ensures
            r is Some <==> index < self@.stop,
            r matches Some(hook) ==> *hook == self.stop[index as int],
    {
        if index < self.stop.len() {
            Some(&self.stop[index])
        } else {
            None
        }
    }

    pub fn has_pre_tool_use_hooks(&self) -> (r: bool)
        ensures
            r == (self@.pre_tool_use.len() > 0),
    {
        self.pre_tool_use.len() > 0
    }

    pub fn has_post_tool_use_hooks(&self) -> (r: bool)
        ensures
            r == (self@.post_tool_use.len() > 0),
    {
        self.post_tool_use.len() > 0
    }

    pub fn has_user_prompt_submit_hooks(&self) -> (r: bool)
        ensures
            r == (self@.user_prompt_submit > 0),
    {
        self.user_prompt_submit.len() > 0
    }

    pub fn has_stop_hooks(&self) -> (r: bool)
        ensures
            r == (self@.stop > 0),
    {
        self.stop.len() > 0
    }

    /// The number of hooks of all kinds, where it fits `usize`.
    pub fn total(&self) -> (r: Option<usize>)
        ensures
            match r {
                Some(n) => n == self@.total(),
                None => self@.total() > usize::MAX,
            },
    {
        let a = self.pre_tool_use.len();
        let b = self.post_tool_use.len();
        let c = self.user_prompt_submit.len();
        let d = self.stop.len();
        match a.checked_add(b) {
            Some(ab) => match ab.checked_add(c) {
                Some(abc) => abc.checked_add(d),
                None => None,
            },
            None => None,
        }
    }
}

impl Default for Hooks {
    fn default() -> (r: Hooks)
        ensures
            r@ == HooksModel::empty(),
    {
        Hooks::new()
    }
}

} // verus!
