use agent_registry::agent::Agent;
use agent_registry::config::AgentConfig;
use agent_registry::errors::CoreError;
use agent_registry::ids::AgentId;
use agent_registry::payload::{
    actor_row_body, chat_request_body, chat_row_body, completion_request_body,
    placeholder_embedding_json, user_row_body,
};
use agent_registry::prompt::{full_prompt, join_texts, system_prompt};
use agent_registry::upstream::{
    chat_response_text, completion_response_text, conclude_interaction, conclude_probe,
    conclude_storage, deliver_reply, prepare_chat_call, prepare_completion_call,
    prepare_record_call, prepare_record_call_with_id, relational_store_settings, settle_storage,
    vector_store_settings,
};

fn coach_config() -> AgentConfig {
    AgentConfig {
        name: "Coach".to_string(),
        personality: "stern".to_string(),
        expertise: "Fitness".to_string(),
        goals: vec!["lose weight".to_string()],
        knowledge_base: "nutrition".to_string(),
        picture_url: None,
    }
}

const COACH_SYSTEM_PROMPT: &str = "You are a Fitness life coach with a stern personality. \
     You are helping the user achieve the following goals: lose weight. \
     Use your knowledge base: nutrition.";

#[test]
fn system_prompt_is_exact() {
    let config = coach_config();
    assert_eq!(system_prompt(&config), COACH_SYSTEM_PROMPT);
}

#[test]
fn full_prompt_appends_the_query() {
    let config = coach_config();
    let expected = format!(
        "{} Respond to this user query: what should I eat?",
        COACH_SYSTEM_PROMPT
    );
    assert_eq!(full_prompt(&config, "what should I eat?"), expected);
}

#[test]
fn goals_join_with_commas() {
    assert_eq!(join_texts(&Vec::new(), ", "), "");
    assert_eq!(join_texts(&vec!["one".to_string()], ", "), "one");
    assert_eq!(
        join_texts(&vec!["a".to_string(), "b".to_string(), "c".to_string()], ", "),
        "a, b, c"
    );
}

#[test]
fn chat_request_body_is_exact_and_parses() {
    let body = chat_request_body("be brief", "hi \"there\"\n");
    assert_eq!(
        body,
        "{\"model\":\"gpt-4o-2024-11-20\",\"messages\":[{\"role\":\"system\",\"content\":\"be brief\"},{\"role\":\"user\",\"content\":\"hi \\\"there\\\"\\n\"}],\"max_tokens\":150,\"temperature\":0.7}"
    );
    // The payload the library frames is exactly what a JSON reader sees.
    let v: serde_json::Value = serde_json::from_str(&body).expect("payload should parse");
    assert_eq!(v["model"], "gpt-4o-2024-11-20");
    assert_eq!(v["messages"][0]["role"], "system");
    assert_eq!(v["messages"][0]["content"], "be brief");
    assert_eq!(v["messages"][1]["content"], "hi \"there\"\n");
    assert_eq!(v["max_tokens"], 150);
    assert!((v["temperature"].as_f64().unwrap() - 0.7).abs() < 1e-9);
}

#[test]
fn control_characters_are_escaped() {
    let body = chat_request_body("s", "a\u{1}b\tc");
    let v: serde_json::Value = serde_json::from_str(&body).expect("payload should parse");
    assert_eq!(v["messages"][1]["content"], "a\u{1}b\tc");
    assert!(body.contains("\\u0001"));
}

#[test]
fn completion_request_body_is_exact() {
    assert_eq!(
        completion_request_body("say hi"),
        "{\"model\":\"text-davinci-003\",\"prompt\":\"say hi\",\"max_tokens\":150,\"temperature\":0.7}"
    );
}

#[test]
fn chat_response_text_reads_the_content() {
    let body = "{\"choices\":[{\"message\":{\"content\":\"Eat protein.\"}}]}";
    assert_eq!(chat_response_text(body), Ok("Eat protein.".to_string()));
}

#[test]
fn chat_response_without_content_is_upstream_failure() {
    assert_eq!(
        chat_response_text("{\"choices\":[]}"),
        Err(CoreError::UpstreamFailure)
    );
    assert_eq!(
        chat_response_text("not json at all"),
        Err(CoreError::UpstreamFailure)
    );
    assert_eq!(
        chat_response_text("{\"choices\":[{\"message\":{\"content\":5}}]}"),
        Err(CoreError::UpstreamFailure)
    );
}

#[test]
fn completion_response_text_reads_the_text_field() {
    let body = "{\"choices\":[{\"text\":\"Hello.\"}]}";
    assert_eq!(completion_response_text(body), Ok("Hello.".to_string()));
    assert_eq!(
        completion_response_text("{\"choices\":[{\"message\":{\"content\":\"x\"}}]}"),
        Err(CoreError::UpstreamFailure)
    );
}

#[test]
fn transport_failure_is_upstream_failure() {
    assert_eq!(
        conclude_interaction(Err("connection refused".to_string())),
        Err(CoreError::UpstreamFailure)
    );
}

#[test]
fn storage_failure_never_fails_the_interaction() {
    let (outcome, warning) = settle_storage(
        Ok("Eat protein.".to_string()),
        Err("database unreachable".to_string()),
    );
    assert_eq!(outcome, Ok("Eat protein.".to_string()));
    assert_eq!(
        warning,
        Some("Warning: failed to store interaction: database unreachable".to_string())
    );

    let (outcome, warning) = settle_storage(Ok("fine".to_string()), Ok(()));
    assert_eq!(outcome, Ok("fine".to_string()));
    assert_eq!(warning, None);
}

#[test]
fn prepare_chat_call_without_key_is_configuration_missing() {
    let r = prepare_chat_call(None, &coach_config(), "hi");
    assert!(matches!(r, Err(CoreError::ConfigurationMissing)));
}

#[test]
fn prepare_chat_call_builds_the_exact_request() {
    let call = prepare_chat_call(Some("SECRET-REDACTED".to_string()), &coach_config(), "hi")
        .expect("call should be prepared");
    assert_eq!(call.endpoint, "https://api.openai.com/v1/chat/completions");
    assert_eq!(call.api_key, "SECRET-REDACTED");
    let v: serde_json::Value = serde_json::from_str(&call.body).expect("payload should parse");
    assert_eq!(v["messages"][0]["content"], COACH_SYSTEM_PROMPT);
    assert_eq!(v["messages"][1]["content"], "hi");
}

#[test]
fn prepare_completion_call_uses_the_full_prompt() {
    let call = prepare_completion_call(Some("SECRET-REDACTED".to_string()), &coach_config(), "hi")
        .expect("call should be prepared");
    assert_eq!(call.endpoint, "https://api.openai.com/v1/completions");
    let v: serde_json::Value = serde_json::from_str(&call.body).expect("payload should parse");
    assert_eq!(
        v["prompt"],
        format!("{} Respond to this user query: hi", COACH_SYSTEM_PROMPT)
    );
}

#[test]
fn record_call_carries_the_exchange() {
    let agent = AgentId {
        bits: 0xa1a2a3a4_b1b2_c1c2_d1d2_d3d4d5d6d7d8,
    };
    let embedding = placeholder_embedding_json();
    let call = prepare_record_call_with_id(
        Some("SECRET-REDACTED".to_string()),
        "user1",
        agent,
        "what should I eat?",
        "Eat protein.",
        &embedding,
        0x1111_2222_3333_4444_5555_6666_7777_8888,
    )
    .expect("call should be prepared");
    assert_eq!(call.endpoint, "https://your-pinecone-index-url/vectors/upsert");
    let v: serde_json::Value = serde_json::from_str(&call.body).expect("payload should parse");
    assert_eq!(
        v["vectors"][0]["id"],
        "chat-user1-11112222-3333-4444-5555-666677778888"
    );
    assert_eq!(v["vectors"][0]["values"][0].as_f64().unwrap(), 0.1);
    let metadata = &v["vectors"][0]["metadata"];
    assert_eq!(metadata["user_id"], "user1");
    assert_eq!(metadata["actor_id"], "a1a2a3a4-b1b2-c1c2-d1d2-d3d4d5d6d7d8");
    assert_eq!(metadata["query"], "what should I eat?");
    assert_eq!(metadata["response"], "Eat protein.");

    let missing = prepare_record_call(None, "user1", agent, "q", "r", &embedding);
    assert!(matches!(missing, Err(CoreError::ConfigurationMissing)));
}

#[test]
fn vector_store_settings_need_both_values() {
    assert_eq!(
        vector_store_settings(Some("k".to_string()), Some("u".to_string())),
        Ok(("k".to_string(), "u".to_string()))
    );
    assert_eq!(
        vector_store_settings(None, Some("u".to_string())),
        Err(CoreError::ConfigurationMissing)
    );
    assert_eq!(
        vector_store_settings(Some("k".to_string()), None),
        Err(CoreError::ConfigurationMissing)
    );
}

#[test]
fn identifier_renders_in_hyphenated_hex() {
    let id = AgentId {
        bits: 0xa1a2a3a4_b1b2_c1c2_d1d2_d3d4d5d6d7d8,
    };
    assert_eq!(id.render(), "a1a2a3a4-b1b2-c1c2-d1d2-d3d4d5d6d7d8");
    assert_eq!(
        AgentId { bits: 0 }.render(),
        "00000000-0000-0000-0000-000000000000"
    );
    // The library's rendering agrees with the identifier crate's own.
    let reference = uuid::Uuid::from_u128(id.bits).to_string();
    assert_eq!(id.render(), reference);
}

#[test]
fn error_messages_are_fixed() {
    assert_eq!(
        CoreError::DuplicateAgent.message(),
        "agent already exists under the generated id"
    );
    assert_eq!(
        CoreError::AgentNotFound.message(),
        "no agent found under the requested id"
    );
    assert_eq!(CoreError::ActorUnavailable.message(), "agent failed to respond");
    assert_eq!(
        CoreError::UpstreamFailure.message(),
        "completion provider call failed"
    );
    assert_eq!(
        CoreError::ConfigurationMissing.message(),
        "required credential or endpoint not configured"
    );
}

#[test]
fn notice_log_line_names_agent_and_message() {
    let agent = Agent::new(
        AgentId {
            bits: 0xa1a2a3a4_b1b2_c1c2_d1d2_d3d4d5d6d7d8,
        },
        "user1".to_string(),
        coach_config(),
    );
    assert_eq!(
        agent.notice_log_line("maintenance tonight"),
        "Actor a1a2a3a4-b1b2-c1c2-d1d2-d3d4d5d6d7d8 received broadcast message: maintenance tonight"
    );
}

#[test]
fn row_bodies_are_exact() {
    assert_eq!(
        user_row_body("a@b.c", "Ann"),
        "{\"email\":\"a@b.c\",\"name\":\"Ann\"}"
    );
    assert_eq!(
        actor_row_body("user1", "Coach", "stern", "Fitness", Some("https://p.example/x")),
        "{\"user_id\":\"user1\",\"name\":\"Coach\",\"personality\":\"stern\",\"expertise\":\"Fitness\",\"picture_url\":\"https://p.example/x\"}"
    );
    assert_eq!(
        actor_row_body("user1", "Coach", "stern", "Fitness", None),
        "{\"user_id\":\"user1\",\"name\":\"Coach\",\"personality\":\"stern\",\"expertise\":\"Fitness\",\"picture_url\":null}"
    );
    assert_eq!(
        chat_row_body("abc", "hello", Some("[0.1,0.2,0.3]")),
        "{\"actor_id\":\"abc\",\"message\":\"hello\",\"embedding\":[0.1,0.2,0.3]}"
    );
    assert_eq!(
        chat_row_body("abc", "hello", None),
        "{\"actor_id\":\"abc\",\"message\":\"hello\",\"embedding\":null}"
    );
}

#[test]
fn unanswered_reply_channel_is_actor_unavailable() {
    assert_eq!(deliver_reply(None), Err(CoreError::ActorUnavailable));
    assert_eq!(
        deliver_reply(Some(Ok("fine".to_string()))),
        Ok("fine".to_string())
    );
    assert_eq!(
        deliver_reply(Some(Err(CoreError::UpstreamFailure))),
        Err(CoreError::UpstreamFailure)
    );
}

#[test]
fn storage_outcome_follows_the_response_status() {
    assert_eq!(conclude_storage(Ok((true, "ignored".to_string()))), Ok(()));
    assert_eq!(
        conclude_storage(Ok((false, "quota exceeded".to_string()))),
        Err("Failed to store interaction: quota exceeded".to_string())
    );
    assert_eq!(
        conclude_storage(Err("connection reset".to_string())),
        Err("Request failed: connection reset".to_string())
    );
}

#[test]
fn rejected_upsert_yields_the_storage_warning() {
    // A storage rejection becomes a warning line, never an interaction failure.
    let storage = conclude_storage(Ok((false, "bad index".to_string())));
    let (outcome, warning) = settle_storage(Ok("Eat protein.".to_string()), storage);
    assert_eq!(outcome, Ok("Eat protein.".to_string()));
    assert_eq!(
        warning,
        Some(
            "Warning: failed to store interaction: Failed to store interaction: bad index"
                .to_string()
        )
    );
}

#[test]
fn connectivity_probe_follows_the_response_status() {
    assert_eq!(
        conclude_probe(Ok((true, "{\"vectors\":0}".to_string()))),
        Ok("{\"vectors\":0}".to_string())
    );
    assert_eq!(
        conclude_probe(Ok((false, "denied".to_string()))),
        Err("Pinecone connection failed: denied".to_string())
    );
    assert_eq!(
        conclude_probe(Err("timed out".to_string())),
        Err("Failed to connect to Pinecone: timed out".to_string())
    );
}

#[test]
fn relational_store_settings_name_the_absent_value() {
    assert_eq!(
        relational_store_settings(Some("https://db.example".to_string()), Some("k".to_string())),
        Ok(("https://db.example".to_string(), "k".to_string()))
    );
    assert_eq!(
        relational_store_settings(None, Some("k".to_string())),
        Err("SUPABASE_URL environment variable not set".to_string())
    );
    assert_eq!(
        relational_store_settings(Some("https://db.example".to_string()), None),
        Err("SUPABASE_KEY environment variable not set".to_string())
    );
}
