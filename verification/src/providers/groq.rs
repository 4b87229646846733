//! Groq chat completions: which conversations are sent, the prompts built for
//! each task, and how an answer is read.
use vstd::prelude::*;
use vstd::string::*;
use crate::error::{AppError, GroqError, ValidationError, Result};
use crate::config::GroqConfig;
use crate::validation::{validate_not_empty, not_empty_outcome};
use crate::text::str_eq;

verus! {

pub const GROQ_API_BASE: &'static str = "https://api.groq.com/openai/v1";
pub const TIMEOUT_SECONDS: u64 = 120;
pub const MAX_TOKENS_DEFAULT: u32 = 4096;
pub const PROMPT_LENGTH_MAX: usize = 128000;

#[derive(Debug, Clone)]
pub struct ChatMessage {
    pub role: String,
    pub content: String,
}

#[derive(Debug, Clone)]
pub struct ChatResponse {
    pub id: String,
    pub choices: Vec<ChatChoice>,
    pub usage: Option<Usage>,
}

#[derive(Debug, Clone)]
pub struct ChatChoice {
    pub index: u32,
    pub message: ChatMessage,
    pub finish_reason: Option<String>,
}

#[derive(Debug, Clone)]
pub struct Usage {
    pub prompt_tokens: u32,
    pub completion_tokens: u32,
    pub total_tokens: u32,
}

/// The messages and token budget of a request; the sampling temperature is
/// chosen by the caller.
pub struct ChatPlan {
    pub messages: Vec<ChatMessage>,
    pub max_tokens: Option<u32>,
}

pub open spec fn is_valid_role(role: Seq<char>) -> bool {
    role == "system"@ || role == "user"@ || role == "assistant"@
}

/// Total bytes of the messages' contents.
pub open spec fn total_content(m: Seq<ChatMessage>) -> nat
    decreases m.len(),
{
    if m.len() == 0 { 0 } else { total_content(m.drop_last()) + crate::deployment::pipeline::bytes(m.last().content).len() }
}

/// Position of the first message whose role is empty or unknown, if any.
pub open spec fn first_bad_role(m: Seq<ChatMessage>, i: int) -> bool {
    &&& 0 <= i < m.len()
    &&& !is_valid_role(m[i].role@)
    &&& forall|j: int| 0 <= j < i ==> is_valid_role(#[trigger] m[j].role@)
}

/// A character with the Unicode `White_Space` property.
pub open spec fn is_white_space(c: char) -> bool {
    let v = c as u32;
    ||| 0x09 <= v <= 0x0d
    ||| v == 0x20 || v == 0x85 || v == 0xa0 || v == 0x1680
    ||| 0x2000 <= v <= 0x200a
    ||| v == 0x2028 || v == 0x2029 || v == 0x202f || v == 0x205f || v == 0x3000
}

/// `s` without its leading white space.
pub open spec fn trim_start(s: Seq<char>) -> Seq<char>
    decreases s.len(),
{
    if s.len() > 0 && is_white_space(s[0]) { trim_start(s.drop_first()) } else { s }
}

/// `s` without its trailing white space.
pub open spec fn trim_end(s: Seq<char>) -> Seq<char>
    decreases s.len(),
{
    if s.len() > 0 && is_white_space(s.last()) { trim_end(s.drop_last()) } else { s }
}

/// `s` without its leading and trailing white space.
pub open spec fn trimmed(s: Seq<char>) -> Seq<char> {
    trim_end(trim_start(s))
}

/// Trims `s` with `str::trim`, which removes the leading and trailing
/// characters with the Unicode `White_Space` property.
#[verifier::external_body]
pub(crate) fn trim_text(s: &str) -> (r: String)
    ensures
        r@ == trimmed(s@),
{
    s.trim().to_string()
}

pub struct GroqProvider {
    api_key: String,
    model_id: String,
}

impl GroqProvider {
    pub closed spec fn spec_api_key(&self) -> String {
        self.api_key
    }

    pub closed spec fn spec_model_id(&self) -> String {
        self.model_id
    }

    pub fn new(config: &GroqConfig) -> (p: GroqProvider)
        ensures
            p.spec_api_key() == config.api_key,
            p.spec_model_id() == config.model_id,
    {
        GroqProvider { api_key: config.api_key.clone(), model_id: config.model_id.clone() }
    }

    pub fn model_id(&self) -> (m: &String)
        ensures
            *m == self.spec_model_id(),
    {
        &self.model_id
    }

    /// The value of the `Authorization` header.
    pub fn authorization(&self) -> (h: String)
        ensures
            h@ == "Bearer "@ + self.spec_api_key()@,
    {
        let mut h = "Bearer ".to_owned();
        h.append(self.api_key.as_str());
        h
    }

    /// The URL of the chat completions endpoint.
    pub fn chat_url() -> (u: &'static str)
        ensures
            u@ == "https://api.groq.com/openai/v1/chat/completions"@,
    {
        "https://api.groq.com/openai/v1/chat/completions"
    }

    /// Checks a conversation before it is sent: there is at least one message,
    /// the contents together are at most `PROMPT_LENGTH_MAX` bytes, and every
    /// role is `system`, `user` or `assistant`. A total beyond `usize::MAX` is
    /// reported as `usize::MAX`.
    pub fn validate_messages(messages: &Vec<ChatMessage>) -> (r: Result<()>)
        ensures
            messages@.len() == 0 ==> r == Err::<(), AppError>(AppError::Validation(ValidationError::Empty { field: "messages" })),
            messages@.len() > 0 && total_content(messages@) > PROMPT_LENGTH_MAX ==> r == Err::<(), AppError>(
                AppError::Groq(GroqError::PromptTooLarge {
                    length: if total_content(messages@) > usize::MAX { usize::MAX } else { total_content(messages@) as usize },
                    limit: PROMPT_LENGTH_MAX,
                })),
            messages@.len() > 0 && total_content(messages@) <= PROMPT_LENGTH_MAX ==> {
                &&& (r is Ok <==> forall|j: int| 0 <= j < messages@.len() ==> is_valid_role(#[trigger] messages@[j].role@))
                &&& forall|i: int| first_bad_role(messages@, i) ==> if messages@[i].role@.len() == 0 {
                    r == Err::<(), AppError>(AppError::Validation(ValidationError::Empty { field: "role" }))
                } else {
                    r matches Err(AppError::Groq(GroqError::InvalidRole { role })) && role@ == messages@[i].role@
                }
            },
    {
        let n = messages.len();
        if n == 0 {
            return Err(AppError::Validation(ValidationError::Empty { field: "messages" }));
        }
        let mut total: u128 = 0;
        let mut i: usize = 0;
        while i < n
            invariant
                n == messages@.len(),
                i <= n,
                total as nat == total_content(messages@.take(i as int)),
                total <= i as u128 * 0xffff_ffff_ffff_ffff,
            decreases n - i,
        {
            let len = messages[i].content.as_str().as_bytes().len();
            assert(messages@.take(i + 1).drop_last() =~= messages@.take(i as int));
            assert(total + len <= (i + 1) as u128 * 0xffff_ffff_ffff_ffff) by (nonlinear_arith)
                requires
                    total <= i as u128 * 0xffff_ffff_ffff_ffff,
                    len <= 0xffff_ffff_ffff_ffff,
            ;
            assert((i + 1) as u128 * 0xffff_ffff_ffff_ffff <= 0xffff_ffff_ffff_ffff * 0xffff_ffff_ffff_ffff) by (nonlinear_arith)
                requires
                    i < n,
                    n <= 0xffff_ffff_ffff_ffff,
            ;
            total = total + len as u128;
            i = i + 1;
        }
        assert(messages@.take(n as int) =~= messages@);
        if total > PROMPT_LENGTH_MAX as u128 {
            let length: usize = if total > usize::MAX as u128 { usize::MAX } else { total as usize };
            return Err(AppError::Groq(GroqError::PromptTooLarge { length, limit: PROMPT_LENGTH_MAX }));
        }
        let mut j: usize = 0;
        while j < n
            invariant
                n == messages@.len(),
                j <= n,
                total_content(messages@) <= PROMPT_LENGTH_MAX,
                forall|k: int| 0 <= k < j ==> is_valid_role(#[trigger] messages@[k].role@),
            decreases n - j,
        {
            let role = messages[j].role.as_str();
            if role.as_bytes().len() == 0 {
                proof {
                    vstd::utf8::encode_utf8_decode_utf8(messages@[j as int].role@);
                    reveal_strlit("system");
                    reveal_strlit("user");
                    reveal_strlit("assistant");
                    assert(messages@[j as int].role@.len() == 0);
                    assert(first_bad_role(messages@, j as int));
                    assert forall|i: int| first_bad_role(messages@, i) implies i == j by {
                        if i < j { assert(is_valid_role(messages@[i].role@)); }
                        if i > j { assert(is_valid_role(messages@[j as int].role@)); }
                    }
                }
                return Err(AppError::Validation(ValidationError::Empty { field: "role" }));
            }
            if !(str_eq(role, "system") || str_eq(role, "user") || str_eq(role, "assistant")) {
                proof {
                    assert(first_bad_role(messages@, j as int));
                    assert forall|i: int| first_bad_role(messages@, i) implies i == j by {
                        if i < j { assert(is_valid_role(messages@[i].role@)); }
                        if i > j { assert(is_valid_role(messages@[j as int].role@)); }
                    }
                    if messages@[j as int].role@.len() == 0 {
                        assert(messages@[j as int].role@ =~= Seq::<char>::empty());
                    }
                }
                return Err(AppError::Groq(GroqError::InvalidRole { role: messages[j].role.clone() }));
            }
            j = j + 1;
        }
        Ok(())
    }

    /// An answer without any choice is an error.
    pub fn check_choices(response: &ChatResponse) -> (r: Result<()>)
        ensures
            r is Ok <==> response.choices@.len() > 0,
            r is Err ==> r == Err::<(), AppError>(AppError::Groq(GroqError::EmptyResponse)),
    {
        if response.choices.len() == 0 {
            return Err(AppError::Groq(GroqError::EmptyResponse));
        }
        Ok(())
    }

    /// The text of the first choice, or nothing.
    pub fn first_content(response: &ChatResponse) -> (s: String)
        ensures
            s@ == if response.choices@.len() > 0 { response.choices@[0].message.content@ } else { Seq::empty() },
    {
        if response.choices.len() > 0 {
            response.choices[0].message.content.clone()
        } else {
            String::new()
        }
    }
}

} // verus!

verus! {

/// `m` is a message with `role` and content `content`.
pub open spec fn message_is(m: ChatMessage, role: Seq<char>, content: Seq<char>) -> bool {
    m.role@ == role && m.content@ == content
}

pub open spec fn analyzer_prompt(language: Seq<char>) -> Seq<char> {
    "You are a code analyzer. Analyze the following "@ + language
        + " code and provide:\n1. A brief summary of what the code does\n2. Any potential issues or bugs\n3. Security concerns if any\n4. Suggestions for improvement\nBe concise and technical."@
}

pub open spec fn fenced_code(language: Seq<char>, code: Seq<char>) -> Seq<char> {
    "```"@ + language + "\n"@ + code + "\n```"@
}

pub open spec fn explain_request(error: Seq<char>, context: Option<Seq<char>>) -> Seq<char> {
    "Error:\n"@ + error + match context {
        Some(c) => "\n\nContext:\n"@ + c,
        None => Seq::empty(),
    }
}

fn message(role: &str, content: String) -> (m: ChatMessage)
    ensures
        m.role@ == role@,
        m.content == content,
{
    ChatMessage { role: role.to_owned(), content }
}

impl GroqProvider {
    /// A single user prompt with the default token budget.
    pub fn complete_plan(prompt: &str) -> (r: Result<ChatPlan>)
        ensures
            match not_empty_outcome(prompt.spec_bytes(), "prompt") {
                Err(e) => r is Err && r->Err_0 == e,
                Ok(()) => r matches Ok(p) && p.max_tokens is None && p.messages@.len() == 1
                    && message_is(p.messages@[0], "user"@, prompt@),
            },
    {
        if let Err(e) = validate_not_empty(prompt, "prompt") {
            return Err(e);
        }
        let mut messages = Vec::new();
        messages.push(message("user", prompt.to_owned()));
        Ok(ChatPlan { messages, max_tokens: None })
    }

    /// The conversation that asks for an analysis of `code` written in `language`.
    pub fn analyze_code_plan(code: &str, language: &str) -> (r: Result<ChatPlan>)
        ensures
            match not_empty_outcome(code.spec_bytes(), "code") {
                Err(e) => r is Err && r->Err_0 == e,
                Ok(()) => r matches Ok(p) && p.max_tokens == Some(2048u32) && p.messages@.len() == 2
                    && message_is(p.messages@[0], "system"@, analyzer_prompt(language@))
                    && message_is(p.messages@[1], "user"@, fenced_code(language@, code@)),
            },
    {
        if let Err(e) = validate_not_empty(code, "code") {
            return Err(e);
        }
        let mut system = "You are a code analyzer. Analyze the following ".to_owned();
        system.append(language);
        system.append(
            " code and provide:\n1. A brief summary of what the code does\n2. Any potential issues or bugs\n3. Security concerns if any\n4. Suggestions for improvement\nBe concise and technical.",
        );
        let mut user = "```".to_owned();
        user.append(language);
        user.append("\n");
        user.append(code);
        user.append("\n```");
        let mut messages = Vec::new();
        messages.push(message("system", system));
        messages.push(message("user", user));
        Ok(ChatPlan { messages, max_tokens: Some(2048) })
    }

    /// The conversation that asks for a commit message for `diff`.
    pub fn commit_message_plan(diff: &str) -> (r: Result<ChatPlan>)
        ensures
            match not_empty_outcome(diff.spec_bytes(), "diff") {
                Err(e) => r is Err && r->Err_0 == e,
                Ok(()) => r matches Ok(p) && p.max_tokens == Some(100u32) && p.messages@.len() == 2
                    && message_is(p.messages@[0], "system"@,
                        "You are a git commit message generator. Generate a concise, conventional commit message for the given diff. Use format: type(scope): description\nTypes: feat, fix, docs, style, refactor, test, chore\nKeep it under 72 characters. Only output the commit message, nothing else."@)
                    && message_is(p.messages@[1], "user"@, diff@),
            },
    {
        if let Err(e) = validate_not_empty(diff, "diff") {
            return Err(e);
        }
        let mut messages = Vec::new();
        messages.push(message("system",
            "You are a git commit message generator. Generate a concise, conventional commit message for the given diff. Use format: type(scope): description\nTypes: feat, fix, docs, style, refactor, test, chore\nKeep it under 72 characters. Only output the commit message, nothing else."
                .to_owned()));
        messages.push(message("user", diff.to_owned()));
        Ok(ChatPlan { messages, max_tokens: Some(100) })
    }

    /// The conversation that asks to explain `error`, with its context if given.
    pub fn explain_error_plan(error: &str, context: Option<&str>) -> (r: Result<ChatPlan>)
        ensures
            match not_empty_outcome(error.spec_bytes(), "error") {
                Err(e) => r is Err && r->Err_0 == e,
                Ok(()) => r matches Ok(p) && p.max_tokens == Some(1024u32) && p.messages@.len() == 2
                    && message_is(p.messages@[0], "system"@,
                        "You are a debugging assistant. Explain the given error message in simple terms and suggest potential fixes. Be concise and actionable."@)
                    && message_is(p.messages@[1], "user"@, explain_request(error@, match context {
                        Some(c) => Some(c@),
                        None => None,
                    })),
            },
    {
        if let Err(e) = validate_not_empty(error, "error") {
            return Err(e);
        }
        let mut user = "Error:\n".to_owned();
        user.append(error);
        let ghost ctx_view = match context {
            Some(c) => Some(c@),
            None => None,
        };
        if let Some(ctx) = context {
            user.append("\n\nContext:\n");
            user.append(ctx);
        }
        assert(user@ =~= explain_request(error@, ctx_view));
        let mut messages = Vec::new();
        messages.push(message("system",
            "You are a debugging assistant. Explain the given error message in simple terms and suggest potential fixes. Be concise and actionable."
                .to_owned()));
        messages.push(message("user", user));
        Ok(ChatPlan { messages, max_tokens: Some(1024) })
    }

    /// The commit message in an answer: the first choice's text, trimmed, or
    /// nothing when there is no choice.
    pub fn commit_message_of(response: &ChatResponse) -> (s: String)
        ensures
            s@ == if response.choices@.len() > 0 { trimmed(response.choices@[0].message.content@) } else { Seq::empty() },
    {
        if response.choices.len() == 0 {
            return String::new();
        }
        trim_text(response.choices[0].message.content.as_str())
    }
}

} // verus!
