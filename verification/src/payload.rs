use vstd::prelude::*;

use crate::ids::{push_char, spec_hex_digit, spec_id_text, AgentId};

verus! {

/// How one character is written inside a JSON string: the quote, the
/// backslash and the common control characters get their two-character
/// escapes, any other control character the four-digit unicode escape,
/// and everything else stands as itself.
pub open spec fn spec_json_escaped_char(c: char) -> Seq<char> {
    if c == '"' {
        seq!['\\', '"']
    } else if c == '\\' {
        seq!['\\', '\\']
    } else if c == '\n' {
        seq!['\\', 'n']
    } else if c == '\r' {
        seq!['\\', 'r']
    } else if c == '\t' {
        seq!['\\', 't']
    } else if (c as u32) < 0x20 {
        seq!['\\', 'u', '0', '0', spec_hex_digit((c as u32 / 16) as int), spec_hex_digit(
            (c as u32 % 16) as int,
        )]
    } else {
        seq![c]
    }
}

/// The body of a JSON string holding `s`: each character escaped in turn.
pub open spec fn spec_json_escaped(s: Seq<char>) -> Seq<char>
    decreases s.len(),
{
    if s.len() == 0 {
        Seq::empty()
    } else {
        spec_json_escaped(s.drop_last()) + spec_json_escaped_char(s.last())
    }
}

/// The JSON string holding `s`: its escaped body between double quotes.
pub open spec fn spec_json_string(s: Seq<char>) -> Seq<char> {
    seq!['"'] + spec_json_escaped(s) + seq!['"']
}

/// Appends the escaped body of `text` to `out`.
fn push_json_escaped(out: &mut String, text: &str)
    ensures
        final(out)@ == old(out)@ + spec_json_escaped(text@),
{
    let n = text.unicode_len();
    let mut i: usize = 0;
    while i < n
        invariant
            i <= n == text@.len(),
            out@ == old(out)@ + spec_json_escaped(text@.subrange(0, i as int)),
        decreases n - i,
    {
        let c = text.get_char(i);
        if c == '"' {
            out.append("\\\"");
        } else if c == '\\' {
            out.append("\\\\");
        } else if c == '\n' {
            out.append("\\n");
        } else if c == '\r' {
            out.append("\\r");
        } else if c == '\t' {
            out.append("\\t");
        } else if (c as u32) < 0x20 {
            out.append("\\u00");
            let code = c as u32;
            push_char(out, crate::ids::hex_digit_char((code / 16) as u64));
            push_char(out, crate::ids::hex_digit_char((code % 16) as u64));
        } else {
            push_char(out, c);
        }
        proof {
            reveal_strlit("\\\"");
            reveal_strlit("\\\\");
            reveal_strlit("\\n");
            reveal_strlit("\\r");
            reveal_strlit("\\t");
            reveal_strlit("\\u00");
            assert(text@.subrange(0, i + 1).drop_last() =~= text@.subrange(0, i as int));
            assert(text@.subrange(0, i + 1).last() == text@[i as int]);
            assert(out@ =~= old(out)@ + spec_json_escaped(text@.subrange(0, i + 1)));
        }
        i = i + 1;
    }
    proof {
        assert(text@.subrange(0, n as int) =~= text@);
    }
}

/// Appends the JSON string holding `text` to `out`.
fn push_json_string(out: &mut String, text: &str)
    ensures
        final(out)@ == old(out)@ + spec_json_string(text@),
{
    push_char(out, '"');
    push_json_escaped(out, text);
    push_char(out, '"');
    proof {
        assert(final(out)@ =~= old(out)@ + spec_json_string(text@));
    }
}

/// The chat-completion request payload: the fixed chat model, a system
/// message holding the agent's prompt, a user message holding the query,
/// and the fixed token and temperature settings.
pub open spec fn spec_chat_request_body(system: Seq<char>, query: Seq<char>) -> Seq<char> {
    "{\"model\":\"gpt-4o-2024-11-20\",\"messages\":[{\"role\":\"system\",\"content\":"@
        + spec_json_string(system) + "},{\"role\":\"user\",\"content\":"@ + spec_json_string(query)
        + "}],\"max_tokens\":150,\"temperature\":0.7}"@
}

/// Builds the chat-completion request payload.
pub fn chat_request_body(system: &str, query: &str) -> (r: String)
    ensures
        r@ == spec_chat_request_body(system@, query@),
{
    let mut out = String::from_str(
        "{\"model\":\"gpt-4o-2024-11-20\",\"messages\":[{\"role\":\"system\",\"content\":",
    );
    push_json_string(&mut out, system);
    out.append("},{\"role\":\"user\",\"content\":");
    push_json_string(&mut out, query);
    out.append("}],\"max_tokens\":150,\"temperature\":0.7}");
    proof {
        assert(out@ =~= spec_chat_request_body(system@, query@));
    }
    out
}

/// The plain-completion request payload: the fixed legacy model, the one
/// full prompt text, and the fixed token and temperature settings.
pub open spec fn spec_completion_request_body(prompt: Seq<char>) -> Seq<char> {
    "{\"model\":\"text-davinci-003\",\"prompt\":"@ + spec_json_string(prompt)
        + ",\"max_tokens\":150,\"temperature\":0.7}"@
}

/// Builds the plain-completion request payload.
pub fn completion_request_body(prompt: &str) -> (r: String)
    ensures
        r@ == spec_completion_request_body(prompt@),
{
    let mut out = String::from_str("{\"model\":\"text-davinci-003\",\"prompt\":");
    push_json_string(&mut out, prompt);
    out.append(",\"max_tokens\":150,\"temperature\":0.7}");
    proof {
        assert(out@ =~= spec_completion_request_body(prompt@));
    }
    out
}

/// The record identifier of one stored exchange: the owner's name and a
/// fresh 128-bit value under a fixed prefix.
pub open spec fn spec_record_id(owner: Seq<char>, record_bits: u128) -> Seq<char> {
    "chat-"@ + owner + "-"@ + spec_id_text(record_bits)
}

/// The vector-store upsert payload recording one exchange: one vector under
/// the record identifier, carrying the embedding values and the exchange
/// itself — owner, agent, query and response — as metadata.
pub open spec fn spec_record_body(
    owner: Seq<char>,
    agent: AgentId,
    query: Seq<char>,
    response: Seq<char>,
    embedding_json: Seq<char>,
    record_bits: u128,
) -> Seq<char> {
    "{\"vectors\":[{\"id\":"@ + spec_json_string(spec_record_id(owner, record_bits))
        + ",\"values\":"@ + embedding_json + ",\"metadata\":{\"user_id\":"@ + spec_json_string(
        owner,
    ) + ",\"actor_id\":"@ + spec_json_string(spec_id_text(agent.bits)) + ",\"query\":"@
        + spec_json_string(query) + ",\"response\":"@ + spec_json_string(response) + "}}]}"@
}

/// Builds the vector-store upsert payload for one exchange. The embedding
/// is spliced in as the JSON text the caller rendered it to; everything
/// textual is escaped here.
pub fn record_body(
    owner: &str,
    agent: AgentId,
    query: &str,
    response: &str,
    embedding_json: &str,
    record_bits: u128,
) -> (r: String)
    ensures
        r@ == spec_record_body(owner@, agent, query@, response@, embedding_json@, record_bits),
{
    let mut record_id = String::from_str("chat-");
    record_id.append(owner);
    record_id.append("-");
    let fresh_part = AgentId { bits: record_bits }.render();
    record_id.append(fresh_part.as_str());

    let mut out = String::from_str("{\"vectors\":[{\"id\":");
    push_json_string(&mut out, record_id.as_str());
    out.append(",\"values\":");
    out.append(embedding_json);
    out.append(",\"metadata\":{\"user_id\":");
    push_json_string(&mut out, owner);
    out.append(",\"actor_id\":");
    let agent_text = agent.render();
    push_json_string(&mut out, agent_text.as_str());
    out.append(",\"query\":");
    push_json_string(&mut out, query);
    out.append(",\"response\":");
    push_json_string(&mut out, response);
    out.append("}}]}");
    proof {
        assert(record_id@ =~= spec_record_id(owner@, record_bits));
        assert(out@ =~= spec_record_body(
            owner@,
            agent,
            query@,
            response@,
            embedding_json@,
            record_bits,
        ));
    }
    out
}

/// The placeholder embedding, rendered as JSON: the fixed three-component
/// vector the exchange records carry until a real generator is wired in.
pub fn placeholder_embedding_json() -> (r: String)
    ensures
        r@ == "[0.1,0.2,0.3]"@,
{
    String::from_str("[0.1,0.2,0.3]")
}

/// An optional JSON value: the text itself when present, `null` otherwise.
pub open spec fn spec_json_or_null(v: Option<Seq<char>>) -> Seq<char> {
    match v {
        Some(s) => s,
        None => "null"@,
    }
}

/// The row recording one account in the relational store.
pub open spec fn spec_user_row_body(email: Seq<char>, name: Seq<char>) -> Seq<char> {
    "{\"email\":"@ + spec_json_string(email) + ",\"name\":"@ + spec_json_string(name) + "}"@
}

/// Builds the row recording one account.
pub fn user_row_body(email: &str, name: &str) -> (r: String)
    ensures
        r@ == spec_user_row_body(email@, name@),
{
    let mut out = String::from_str("{\"email\":");
    push_json_string(&mut out, email);
    out.append(",\"name\":");
    push_json_string(&mut out, name);
    out.append("}");
    proof {
        assert(out@ =~= spec_user_row_body(email@, name@));
    }
    out
}

/// The row recording one agent in the relational store: its owner, display
/// name, personality, expertise, and picture reference or `null`.
pub open spec fn spec_actor_row_body(
    owner: Seq<char>,
    name: Seq<char>,
    personality: Seq<char>,
    expertise: Seq<char>,
    picture_url: Option<Seq<char>>,
) -> Seq<char> {
    "{\"user_id\":"@ + spec_json_string(owner) + ",\"name\":"@ + spec_json_string(name)
        + ",\"personality\":"@ + spec_json_string(personality) + ",\"expertise\":"@
        + spec_json_string(expertise) + ",\"picture_url\":"@ + (match picture_url {
        Some(u) => spec_json_string(u),
        None => "null"@,
    }) + "}"@
}

/// Builds the row recording one agent.
pub fn actor_row_body(
    owner: &str,
    name: &str,
    personality: &str,
    expertise: &str,
    picture_url: Option<&str>,
) -> (r: String)
    ensures
        r@ == spec_actor_row_body(
            owner@,
            name@,
            personality@,
            expertise@,
            match picture_url {
                Some(u) => Some(u@),
                None => None,
            },
        ),
{
    let mut out = String::from_str("{\"user_id\":");
    push_json_string(&mut out, owner);
    out.append(",\"name\":");
    push_json_string(&mut out, name);
    out.append(",\"personality\":");
    push_json_string(&mut out, personality);
    out.append(",\"expertise\":");
    push_json_string(&mut out, expertise);
    out.append(",\"picture_url\":");
    match picture_url {
        Some(u) => push_json_string(&mut out, u),
        None => out.append("null"),
    }
    out.append("}");
    proof {
        assert(out@ =~= spec_actor_row_body(
            owner@,
            name@,
            personality@,
            expertise@,
            match picture_url {
                Some(u) => Some(u@),
                None => None,
            },
        ));
    }
    out
}

/// The row recording one exchange in the relational store: the agent's
/// identifier text, the message, and the embedding as JSON or `null`.
pub open spec fn spec_chat_row_body(
    actor_id: Seq<char>,
    message: Seq<char>,
    embedding_json: Option<Seq<char>>,
) -> Seq<char> {
    "{\"actor_id\":"@ + spec_json_string(actor_id) + ",\"message\":"@ + spec_json_string(message)
        + ",\"embedding\":"@ + spec_json_or_null(embedding_json) + "}"@
}

/// Builds the row recording one exchange. The embedding is spliced in as the
/// JSON text the caller rendered it to, or `null` when there is none.
pub fn chat_row_body(actor_id: &str, message: &str, embedding_json: Option<&str>) -> (r: String)
    ensures
        r@ == spec_chat_row_body(
            actor_id@,
            message@,
            match embedding_json {
                Some(e) => Some(e@),
                None => None,
            },
        ),
{
    let mut out = String::from_str("{\"actor_id\":");
    push_json_string(&mut out, actor_id);
    out.append(",\"message\":");
    push_json_string(&mut out, message);
    out.append(",\"embedding\":");
    match embedding_json {
        Some(e) => out.append(e),
        None => out.append("null"),
    }
    out.append("}");
    proof {
        assert(out@ =~= spec_chat_row_body(
            actor_id@,
            message@,
            match embedding_json {
                Some(e) => Some(e@),
                None => None,
            },
        ));
    }
    out
}

} // verus!
