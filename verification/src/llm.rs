//! What the engine knows of the model service: where it is, which models it
//! asks, and how a request is addressed.

use vstd::prelude::*;

verus! {

/// The address of the model service.
pub const LLM_BASE_URL: &'static str = "https://dashscope.aliyuncs.com/compatible-mode/v1";

/// The lightweight model: routers, focus, tasks, commit messages, titles.
pub const FLASH_MODEL: &'static str = "qwen-flash";

/// The model of the editing agents.
pub const CODER_MODEL: &'static str = "qwen3-coder-flash";

/// The address of the chat-completion endpoint below `base_url`.
pub fn completions_url(base_url: &str) -> (r: String)
    ensures
        r@ == base_url@ + "/chat/completions"@,
{
    let mut url = base_url.to_string();
    url.append("/chat/completions");
    url
}

/// The value of the authorisation header for an API key.
pub fn bearer(api_key: &str) -> (r: String)
    ensures
        r@ == "Bearer "@ + api_key@,
{
    let mut h = "Bearer ".to_string();
    h.append(api_key);
    h
}

} // verus!
