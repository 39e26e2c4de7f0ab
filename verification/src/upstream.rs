use vstd::prelude::*;

use crate::config::AgentConfig;
use crate::errors::CoreError;
use crate::ids::AgentId;
use crate::payload::{
    chat_request_body, completion_request_body, record_body, spec_chat_request_body,
    spec_completion_request_body, spec_record_body,
};
use crate::prompt::{full_prompt, spec_full_prompt, spec_system_prompt_of, spec_views, system_prompt};

verus! {

/// The reply text a chat-completion response body carries: the string at
/// `choices[0].message.content` of the parsed body, when the body parses as
/// JSON and that path holds a string. A function of the body text alone.
pub uninterp spec fn chat_content_of(body: Seq<char>) -> Option<Seq<char>>;

/// Relies on serde_json::from_str, serde_json::Value::get and
/// serde_json::Value::as_str: parses the body and reads the string at
/// `choices[0].message.content`, or nothing when the body does not parse or
/// the path does not hold a string. serde_json computes this from the body
/// text alone.
#[verifier::external_body]
fn extract_chat_content(body: &str) -> (r: Option<String>)
    ensures
        match r {
            Some(s) => chat_content_of(body@) == Some(s@),
            None => chat_content_of(body@) is None,
        },
{
    let v: serde_json::Value = match serde_json::from_str(body) {
        Ok(v) => v,
        Err(_) => return None,
    };
    v.get("choices")
        .and_then(|c| c.get(0))
        .and_then(|c| c.get("message"))
        .and_then(|m| m.get("content"))
        .and_then(|t| t.as_str())
        .map(|s| s.to_string())
}

/// The reply text a plain-completion response body carries: the string at
/// `choices[0].text` of the parsed body, when the body parses as JSON and
/// that path holds a string. A function of the body text alone.
pub uninterp spec fn completion_text_of(body: Seq<char>) -> Option<Seq<char>>;

/// Relies on serde_json::from_str, serde_json::Value::get and
/// serde_json::Value::as_str: parses the body and reads the string at
/// `choices[0].text`, or nothing when the body does not parse or the path
/// does not hold a string. serde_json computes this from the body text alone.
#[verifier::external_body]
fn extract_completion_text(body: &str) -> (r: Option<String>)
    ensures
        match r {
            Some(s) => completion_text_of(body@) == Some(s@),
            None => completion_text_of(body@) is None,
        },
{
    let v: serde_json::Value = match serde_json::from_str(body) {
        Ok(v) => v,
        Err(_) => return None,
    };
    v.get("choices")
        .and_then(|c| c.get(0))
        .and_then(|c| c.get("text"))
        .and_then(|t| t.as_str())
        .map(|s| s.to_string())
}

/// Turns an extracted reply into the interaction's outcome: text found means
/// success with exactly that text, text missing means the provider returned
/// unparseable data, an upstream failure.
pub fn conclude_extraction(extracted: Option<String>) -> (r: Result<String, CoreError>)
    ensures
        match extracted {
            Some(t) => r == Ok::<String, CoreError>(t),
            None => r == Err::<String, CoreError>(CoreError::UpstreamFailure),
        },
{
    match extracted {
        Some(t) => Ok(t),
        None => Err(CoreError::UpstreamFailure),
    }
}

/// Reads the reply text out of a chat-completion response body: exactly the
/// text at `choices[0].message.content`, or `UpstreamFailure` when the body
/// carries none.
pub fn chat_response_text(body: &str) -> (r: Result<String, CoreError>)
    ensures
        match chat_content_of(body@) {
            Some(t) => (r matches Ok(s) && s@ == t),
            None => r == Err::<String, CoreError>(CoreError::UpstreamFailure),
        },
{
    conclude_extraction(extract_chat_content(body))
}

/// Reads the reply text out of a plain-completion response body: exactly the
/// text at `choices[0].text`, or `UpstreamFailure` when the body carries none.
pub fn completion_response_text(body: &str) -> (r: Result<String, CoreError>)
    ensures
        match completion_text_of(body@) {
            Some(t) => (r matches Ok(s) && s@ == t),
            None => r == Err::<String, CoreError>(CoreError::UpstreamFailure),
        },
{
    conclude_extraction(extract_completion_text(body))
}

/// The terminal outcome of one interaction, given everything the transport
/// did: a failed call is an upstream failure, a delivered response body
/// yields exactly the reply text it carries, or an upstream failure when it
/// carries none. No retry is made in either case.
pub fn conclude_interaction(transport: Result<String, String>) -> (r: Result<String, CoreError>)
    ensures
        transport is Err ==> r == Err::<String, CoreError>(CoreError::UpstreamFailure),
        transport matches Ok(body) ==> match chat_content_of(body@) {
            Some(t) => (r matches Ok(s) && s@ == t),
            None => r == Err::<String, CoreError>(CoreError::UpstreamFailure),
        },
{
    match transport {
        Err(_) => Err(CoreError::UpstreamFailure),
        Ok(body) => chat_response_text(body.as_str()),
    }
}

/// The outcome of the vector-store upsert, decided from what the transport
/// delivered as plain values: a failed call is the transport error under the
/// request-failure text; a delivered response records the exchange exactly
/// when its status was success, and a rejected one fails with the response
/// text. Whatever comes out feeds `settle_storage`: it never reaches the
/// caller of the interaction.
pub fn conclude_storage(delivery: Result<(bool, String), String>) -> (r: Result<(), String>)
    ensures
        delivery matches Err(e) ==> (r matches Err(m) && m@ == "Request failed: "@ + e@),
        delivery matches Ok(d) ==> (d.0 ==> r == Ok::<(), String>(())),
        delivery matches Ok(d) ==> (!d.0 ==> (r matches Err(m) && m@
            == "Failed to store interaction: "@ + d.1@)),
{
    match delivery {
        Err(e) => {
            let mut m = String::from_str("Request failed: ");
            m.append(e.as_str());
            Err(m)
        },
        Ok((ok, body)) => {
            if ok {
                Ok(())
            } else {
                let mut m = String::from_str("Failed to store interaction: ");
                m.append(body.as_str());
                Err(m)
            }
        },
    }
}

/// The outcome of a vector-store connectivity probe, decided from what the
/// transport delivered as plain values: a failed call or a non-success
/// status is the named failure with the delivered text, and success hands
/// back the response text for the caller's log.
pub fn conclude_probe(delivery: Result<(bool, String), String>) -> (r: Result<String, String>)
    ensures
        delivery matches Err(e) ==> (r matches Err(m) && m@ == "Failed to connect to Pinecone: "@
            + e@),
        delivery matches Ok(d) ==> (d.0 ==> r == Ok::<String, String>(d.1)),
        delivery matches Ok(d) ==> (!d.0 ==> (r matches Err(m) && m@
            == "Pinecone connection failed: "@ + d.1@)),
{
    match delivery {
        Err(e) => {
            let mut m = String::from_str("Failed to connect to Pinecone: ");
            m.append(e.as_str());
            Err(m)
        },
        Ok((ok, body)) => {
            if ok {
                Ok(body)
            } else {
                let mut m = String::from_str("Pinecone connection failed: ");
                m.append(body.as_str());
                Err(m)
            }
        },
    }
}

/// Checks the two relational-store settings together: both present yields
/// the pair, a missing one fails only this operation, naming the absent
/// setting. The endpoint is checked first.
pub fn relational_store_settings(url: Option<String>, key: Option<String>) -> (r: Result<
    (String, String),
    String,
>)
    ensures
        url is None ==> (r matches Err(m) && m@ == "SUPABASE_URL environment variable not set"@),
        url is Some && key is None ==> (r matches Err(m) && m@
            == "SUPABASE_KEY environment variable not set"@),
        url is Some && key is Some ==> r == Ok::<(String, String), String>(
            (url.unwrap(), key.unwrap()),
        ),
{
    match (url, key) {
        (None, _) => Err(String::from_str("SUPABASE_URL environment variable not set")),
        (Some(_), None) => Err(String::from_str("SUPABASE_KEY environment variable not set")),
        (Some(u), Some(k)) => Ok((u, k)),
    }
}

/// The reply the original caller receives, given what came back over the
/// target agent's reply channel: the agent's own outcome when it answered,
/// or `ActorUnavailable` when the channel died without an answer — an agent
/// that is registered but unreachable, distinct from an unknown one.
pub fn deliver_reply(reply: Option<Result<String, CoreError>>) -> (r: Result<String, CoreError>)
    ensures
        reply matches Some(outcome) ==> r == outcome,
        reply is None ==> r == Err::<String, CoreError>(CoreError::ActorUnavailable),
{
    match reply {
        Some(outcome) => outcome,
        None => Err(CoreError::ActorUnavailable),
    }
}

/// Settles the detached storage write against the interaction's outcome.
/// The outcome is handed back exactly as it was, whatever the storage did:
/// a storage failure never fails the interaction. It only yields a warning
/// line for the observability sink.
pub fn settle_storage(response: Result<String, CoreError>, storage: Result<(), String>) -> (r: (
    Result<String, CoreError>,
    Option<String>,
))
    ensures
        r.0 == response,
        storage is Ok ==> r.1 is None,
        storage matches Err(e) ==> (r.1 matches Some(w) && w@
            == "Warning: failed to store interaction: "@ + e@),
{
    match storage {
        Ok(_) => (response, None),
        Err(e) => {
            let mut w = String::from_str("Warning: failed to store interaction: ");
            w.append(e.as_str());
            (response, Some(w))
        },
    }
}

/// One fully prepared HTTP call to an upstream collaborator: where to post,
/// the bearer credential, and the exact payload text.
pub struct UpstreamCall {
    /// The collaborator's endpoint.
    pub endpoint: String,
    /// The credential sent with the call.
    pub api_key: String,
    /// The payload text.
    pub body: String,
}

/// Prepares the chat-completion call for one interaction: the fixed chat
/// endpoint, the given credential, and the payload synthesized from the
/// agent's configuration and the query. A missing credential fails only
/// this operation, as `ConfigurationMissing`.
pub fn prepare_chat_call(api_key: Option<String>, config: &AgentConfig, query: &str) -> (r: Result<
    UpstreamCall,
    CoreError,
>)
    ensures
        api_key is None ==> r == Err::<UpstreamCall, CoreError>(CoreError::ConfigurationMissing),
        api_key matches Some(k) ==> (r matches Ok(call) && call.api_key == k && call.endpoint@
            == "https://api.openai.com/v1/chat/completions"@ && call.body@
            == spec_chat_request_body(spec_system_prompt_of(*config), query@)),
{
    match api_key {
        None => Err(CoreError::ConfigurationMissing),
        Some(k) => {
            let system = system_prompt(config);
            let body = chat_request_body(system.as_str(), query);
            Ok(
                UpstreamCall {
                    endpoint: String::from_str("https://api.openai.com/v1/chat/completions"),
                    api_key: k,
                    body,
                },
            )
        },
    }
}

/// Prepares the plain-completion call for one interaction: the fixed legacy
/// endpoint, the given credential, and the payload holding the one full
/// prompt text. A missing credential fails only this operation.
pub fn prepare_completion_call(api_key: Option<String>, config: &AgentConfig, query: &str) -> (r:
    Result<UpstreamCall, CoreError>)
    ensures
        api_key is None ==> r == Err::<UpstreamCall, CoreError>(CoreError::ConfigurationMissing),
        api_key matches Some(k) ==> (r matches Ok(call) && call.api_key == k && call.endpoint@
            == "https://api.openai.com/v1/completions"@ && call.body@
            == spec_completion_request_body(
            spec_full_prompt(
                config.expertise@,
                config.personality@,
                spec_views(config.goals@),
                config.knowledge_base@,
                query@,
            ),
        )),
{
    match api_key {
        None => Err(CoreError::ConfigurationMissing),
        Some(k) => {
            let prompt = full_prompt(config, query);
            let body = completion_request_body(prompt.as_str());
            Ok(
                UpstreamCall {
                    endpoint: String::from_str("https://api.openai.com/v1/completions"),
                    api_key: k,
                    body,
                },
            )
        },
    }
}

/// Prepares the vector-store upsert recording one exchange, under the given
/// record identifier bits. A missing credential fails only this operation.
pub fn prepare_record_call_with_id(
    api_key: Option<String>,
    owner: &str,
    agent: AgentId,
    query: &str,
    response: &str,
    embedding_json: &str,
    record_bits: u128,
) -> (r: Result<UpstreamCall, CoreError>)
    ensures
        api_key is None ==> r == Err::<UpstreamCall, CoreError>(CoreError::ConfigurationMissing),
        api_key matches Some(k) ==> (r matches Ok(call) && call.api_key == k && call.endpoint@
            == "https://your-pinecone-index-url/vectors/upsert"@ && call.body@ == spec_record_body(
            owner@,
            agent,
            query@,
            response@,
            embedding_json@,
            record_bits,
        )),
{
    match api_key {
        None => Err(CoreError::ConfigurationMissing),
        Some(k) => {
            let body = record_body(owner, agent, query, response, embedding_json, record_bits);
            Ok(
                UpstreamCall {
                    endpoint: String::from_str("https://your-pinecone-index-url/vectors/upsert"),
                    api_key: k,
                    body,
                },
            )
        },
    }
}

/// Prepares the vector-store upsert recording one exchange, drawing a fresh
/// random record identifier. Whatever identifier is drawn, the call is the
/// one `prepare_record_call_with_id` prepares for it.
pub fn prepare_record_call(
    api_key: Option<String>,
    owner: &str,
    agent: AgentId,
    query: &str,
    response: &str,
    embedding_json: &str,
) -> (r: Result<UpstreamCall, CoreError>)
    ensures
        api_key is None ==> r == Err::<UpstreamCall, CoreError>(CoreError::ConfigurationMissing),
        api_key matches Some(k) ==> (r matches Ok(call) && call.api_key == k && call.endpoint@
            == "https://your-pinecone-index-url/vectors/upsert"@ && exists|b: u128|
            call.body@ == spec_record_body(owner@, agent, query@, response@, embedding_json@, b)),
{
    let record = AgentId::fresh();
    let r = prepare_record_call_with_id(
        api_key,
        owner,
        agent,
        query,
        response,
        embedding_json,
        record.bits,
    );
    proof {
        match r {
            Ok(ref call) => {
                assert(call.body@ == spec_record_body(
                    owner@,
                    agent,
                    query@,
                    response@,
                    embedding_json@,
                    record.bits,
                ));
            },
            Err(_) => {},
        }
    }
    r
}

/// Checks the two vector-store settings together: both present yields the
/// pair, either absent fails only this operation, as `ConfigurationMissing`.
pub fn vector_store_settings(api_key: Option<String>, index_url: Option<String>) -> (r: Result<
    (String, String),
    CoreError,
>)
    ensures
        api_key is None || index_url is None ==> r == Err::<(String, String), CoreError>(
            CoreError::ConfigurationMissing,
        ),
        api_key is Some && index_url is Some ==> r == Ok::<(String, String), CoreError>(
            (api_key.unwrap(), index_url.unwrap()),
        ),
{
    match (api_key, index_url) {
        (Some(k), Some(u)) => Ok((k, u)),
        _ => Err(CoreError::ConfigurationMissing),
    }
}

} // verus!
