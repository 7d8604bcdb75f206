use clauders::codec::{parse, render};
use clauders::hooks::{
    Hooks, OnPostToolUse, OnPreToolUse, OnStop, OnUserPromptSubmit, PostToolUseCallback,
    PostToolUseDecision, PostToolUseInput, PostToolUseOutput, PreToolUseCallback,
    PreToolUseDecision, PreToolUseInput, PreToolUseOutput, StopCallback, StopDecision, StopInput,
    StopOutput, UserPromptSubmitCallback, UserPromptSubmitDecision, UserPromptSubmitInput,
    UserPromptSubmitOutput,
};
use clauders::json::Json;
use clauders::tool::ToolInput;

struct Pass;

impl OnPreToolUse for Pass {
    fn call(&self, _input: PreToolUseInput) -> PreToolUseOutput {
        PreToolUseOutput::pass()
    }
}

impl OnPostToolUse for Pass {
    fn call(&self, _input: PostToolUseInput) -> PostToolUseOutput {
        PostToolUseOutput::pass()
    }
}

impl OnUserPromptSubmit for Pass {
    fn call(&self, _input: UserPromptSubmitInput) -> UserPromptSubmitOutput {
        UserPromptSubmitOutput::pass()
    }
}

impl OnStop for Pass {
    fn call(&self, _input: StopInput) -> StopOutput {
        StopOutput::pass()
    }
}

fn wire(j: &Json) -> String {
    render(j).unwrap()
}

#[test]
fn a_table_keeps_its_hooks_in_order() {
    let mut hooks = Hooks::new();
    assert!(!hooks.has_pre_tool_use_hooks() && !hooks.has_post_tool_use_hooks());
    assert!(!hooks.has_user_prompt_submit_hooks() && !hooks.has_stop_hooks());
    assert_eq!(hooks.total(), Some(0));
    hooks.add_pre_tool_use(Some("Bash"), PreToolUseCallback::new(Box::new(Pass)));
    hooks.add_pre_tool_use(None, PreToolUseCallback::new(Box::new(Pass)));
    hooks.add_post_tool_use(Some("Write|Edit"), PostToolUseCallback::new(Box::new(Pass)));
    hooks.add_user_prompt_submit(UserPromptSubmitCallback::new(Box::new(Pass)));
    hooks.add_stop(StopCallback::new(Box::new(Pass)));
    hooks.add_stop(StopCallback::new(Box::new(Pass)));
    assert!(hooks.has_pre_tool_use_hooks() && hooks.has_post_tool_use_hooks());
    assert!(hooks.has_user_prompt_submit_hooks() && hooks.has_stop_hooks());
    assert_eq!(hooks.total(), Some(6));
    assert_eq!(hooks.pre_tool_use_hooks().len(), 2);
    assert_eq!(hooks.pre_tool_use_hooks()[0].0.as_deref(), Some("Bash"));
    assert_eq!(hooks.pre_tool_use_hooks()[1].0, None);
    assert_eq!(hooks.post_tool_use_hooks()[0].0.as_deref(), Some("Write|Edit"));
    assert_eq!(hooks.user_prompt_submit_hooks().len(), 1);
    assert_eq!(hooks.stop_hooks().len(), 2);
    assert!(hooks.get_pre_tool_use_hook(1).is_some() && hooks.get_pre_tool_use_hook(2).is_none());
    assert!(hooks.get_post_tool_use_hook(0).is_some() && hooks.get_post_tool_use_hook(1).is_none());
    assert!(hooks.get_user_prompt_submit_hook(0).is_some() && hooks.get_user_prompt_submit_hook(1).is_none());
    assert!(hooks.get_stop_hook(1).is_some() && hooks.get_stop_hook(2).is_none());
    assert_eq!(Hooks::from_pre_tool_use(PreToolUseCallback::new(Box::new(Pass))).pre_tool_use_hooks().len(), 1);
    assert_eq!(Hooks::from_post_tool_use(PostToolUseCallback::new(Box::new(Pass))).post_tool_use_hooks()[0].0, None);
    assert_eq!(Hooks::from_user_prompt_submit(UserPromptSubmitCallback::new(Box::new(Pass))).total(), Some(1));
    assert_eq!(Hooks::from_stop(StopCallback::new(Box::new(Pass))).stop_hooks().len(), 1);
    assert_eq!(Hooks::default().total(), Some(0));
}

#[test]
fn what_a_hook_for_pre_tool_use_answers() {
    assert_eq!(wire(&PreToolUseOutput::pass().to_hook_response()), "{\"hookSpecificOutput\":{\"hookEventName\":\"PreToolUse\"}}");
    assert_eq!(wire(&PreToolUseOutput::new().to_hook_response()), wire(&PreToolUseOutput::default().to_hook_response()));
    assert_eq!(
        wire(&PreToolUseOutput::allow().to_hook_response()),
        "{\"hookSpecificOutput\":{\"hookEventName\":\"PreToolUse\",\"permissionDecision\":\"allow\"}}"
    );
    assert_eq!(
        wire(&PreToolUseOutput::deny("no").to_hook_response()),
        "{\"hookSpecificOutput\":{\"hookEventName\":\"PreToolUse\",\"permissionDecision\":\"deny\",\"permissionDecisionReason\":\"no\"}}"
    );
    let asked = PreToolUseOutput::ask("sure?").with_updated_input(ToolInput::empty().set_string("command", "ls"));
    assert_eq!(
        wire(&asked.to_hook_response()),
        "{\"hookSpecificOutput\":{\"hookEventName\":\"PreToolUse\",\"permissionDecision\":\"ask\",\"permissionDecisionReason\":\"sure?\",\"updatedInput\":{\"command\":\"ls\"}}}"
    );
    let mut output = PreToolUseOutput::new().with_decision(PreToolUseDecision::Deny).with_reason("r");
    assert_eq!((output.decision(), output.reason()), (Some(PreToolUseDecision::Deny), Some("r")));
    assert!(output.updated_input().is_none());
    output.set_decision(PreToolUseDecision::Allow);
    output.set_reason("s");
    output.set_updated_input(ToolInput::empty());
    assert_eq!((output.decision(), output.reason()), (Some(PreToolUseDecision::Allow), Some("s")));
    assert!(output.updated_input().unwrap().is_empty());
    assert_eq!(PreToolUseDecision::Allow.as_str(), "allow");
    assert_eq!(PreToolUseDecision::Deny.as_str(), "deny");
    assert_eq!(PreToolUseDecision::Ask.as_str(), "ask");
}

#[test]
fn what_the_other_hooks_answer() {
    assert_eq!(wire(&StopOutput::pass().to_hook_response()), "{\"hookSpecificOutput\":{\"hookEventName\":\"Stop\"}}");
    assert_eq!(
        wire(&StopOutput::block("go on").to_hook_response()),
        "{\"decision\":\"block\",\"hookSpecificOutput\":{\"hookEventName\":\"Stop\"},\"reason\":\"go on\"}"
    );
    assert_eq!(
        wire(&StopOutput::new().with_decision(StopDecision::Continue).with_reason("fine").to_hook_response()),
        "{\"hookSpecificOutput\":{\"hookEventName\":\"Stop\"},\"reason\":\"fine\"}"
    );
    let mut stop = StopOutput::default();
    stop.set_decision(StopDecision::Block);
    stop.set_reason("r");
    assert_eq!((stop.decision(), stop.reason()), (Some(StopDecision::Block), Some("r")));

    assert_eq!(
        wire(&UserPromptSubmitOutput::pass().to_hook_response()),
        "{\"hookSpecificOutput\":{\"hookEventName\":\"UserPromptSubmit\"}}"
    );
    assert_eq!(
        wire(&UserPromptSubmitOutput::block("no").with_additional_context("ctx").to_hook_response()),
        "{\"decision\":\"block\",\"hookSpecificOutput\":{\"additionalContext\":\"ctx\",\"hookEventName\":\"UserPromptSubmit\"},\"reason\":\"no\"}"
    );
    let mut prompt = UserPromptSubmitOutput::new().with_decision(UserPromptSubmitDecision::Continue).with_reason("r");
    prompt.set_decision(UserPromptSubmitDecision::Block);
    prompt.set_reason("s");
    prompt.set_additional_context("c");
    assert_eq!((prompt.decision(), prompt.reason(), prompt.additional_context()), (Some(UserPromptSubmitDecision::Block), Some("s"), Some("c")));
    assert_eq!(UserPromptSubmitOutput::default().decision(), None);

    assert_eq!(
        wire(&PostToolUseOutput::pass().to_hook_response()),
        "{\"hookSpecificOutput\":{\"hookEventName\":\"PostToolUse\"}}"
    );
    assert_eq!(
        wire(&PostToolUseOutput::continue_with_context("ctx").to_hook_response()),
        "{\"hookSpecificOutput\":{\"additionalContext\":\"ctx\",\"hookEventName\":\"PostToolUse\"}}"
    );
    assert_eq!(
        wire(&PostToolUseOutput::block("bad").to_hook_response()),
        "{\"decision\":\"block\",\"hookSpecificOutput\":{\"hookEventName\":\"PostToolUse\"},\"reason\":\"bad\"}"
    );
    let mut post = PostToolUseOutput::new().with_decision(PostToolUseDecision::Block).with_reason("r").with_additional_context("c");
    assert_eq!((post.decision(), post.reason(), post.additional_context()), (Some(PostToolUseDecision::Block), Some("r"), Some("c")));
    post.set_decision(PostToolUseDecision::Continue);
    post.set_reason("s");
    post.set_additional_context("d");
    assert_eq!((post.decision(), post.reason(), post.additional_context()), (Some(PostToolUseDecision::Continue), Some("s"), Some("d")));
    assert_eq!(PostToolUseOutput::default().reason(), None);
}

#[test]
fn what_a_hook_is_told() {
    let payload = parse("{\"session_id\":\"s\",\"transcript_path\":\"/t\",\"tool_name\":\"Bash\",\"tool_input\":{\"command\":\"ls\"},\"tool_response\":[1],\"prompt\":\"hi\",\"stop_hook_active\":true}").unwrap();
    let pre = PreToolUseInput::from_json(&payload);
    assert_eq!((pre.session_id(), pre.transcript_path(), pre.tool_name()), ("s", "/t", "Bash"));
    assert_eq!(pre.tool_input().get_string("command"), Some("ls"));
    assert_eq!(pre.clone().tool_name(), "Bash");
    let post = PostToolUseInput::from_json(&payload);
    assert_eq!((post.session_id(), post.transcript_path(), post.tool_name()), ("s", "/t", "Bash"));
    assert_eq!(post.tool_input().get_string("command"), Some("ls"));
    assert_eq!(post.clone().tool_response(), &parse("[1]").unwrap());
    let prompt = UserPromptSubmitInput::from_json(&payload);
    assert_eq!((prompt.session_id(), prompt.transcript_path(), prompt.clone().prompt()), ("s", "/t", "hi"));
    let stop = StopInput::from_json(&payload);
    assert_eq!((stop.session_id(), stop.transcript_path(), stop.clone().stop_hook_active()), ("s", "/t", true));

    let nothing = Json::integer(1);
    let pre = PreToolUseInput::from_json(&nothing);
    assert_eq!((pre.session_id(), pre.transcript_path(), pre.tool_name()), ("", "", ""));
    assert!(pre.tool_input().as_value().is_null());
    let post = PostToolUseInput::from_json(&parse("{\"session_id\":5}").unwrap());
    assert_eq!(post.session_id(), "");
    assert!(post.tool_response().is_null());
    assert_eq!(UserPromptSubmitInput::from_json(&nothing).prompt(), "");
    assert!(!StopInput::from_json(&parse("{\"stop_hook_active\":\"yes\"}").unwrap()).stop_hook_active());

    let pre = PreToolUseInput::new("a", "b", "c", ToolInput::empty());
    assert_eq!((pre.session_id(), pre.transcript_path(), pre.tool_name()), ("a", "b", "c"));
    let post = PostToolUseInput::new("a", "b", "c", ToolInput::empty(), Json::null());
    assert_eq!((post.session_id(), post.transcript_path(), post.tool_name()), ("a", "b", "c"));
    assert_eq!(UserPromptSubmitInput::new("a", "b", "c").prompt(), "c");
    assert!(!StopInput::new("a", "b", false).stop_hook_active());
}
