use vstd::prelude::*;

use crate::config::AgentConfig;

verus! {

/// The views of a sequence of strings.
pub open spec fn spec_views(parts: Seq<String>) -> Seq<Seq<char>> {
    parts.map_values(|p: String| p@)
}

/// `parts` joined with `sep` between consecutive parts: nothing for no
/// parts, the part itself for one, and otherwise each part after the first
/// preceded by one separator.
pub open spec fn spec_join(parts: Seq<Seq<char>>, sep: Seq<char>) -> Seq<char>
    decreases parts.len(),
{
    if parts.len() == 0 {
        Seq::empty()
    } else if parts.len() == 1 {
        parts[0]
    } else {
        spec_join(parts.drop_last(), sep) + sep + parts.last()
    }
}

/// Joins `parts` with `sep` between consecutive parts.
pub fn join_texts(parts: &Vec<String>, sep: &str) -> (r: String)
    ensures
        r@ == spec_join(spec_views(parts@), sep@),
{
    let mut out = String::new();
    let n = parts.len();
    let mut i: usize = 0;
    while i < n
        invariant
            i <= n == parts@.len(),
            out@ == spec_join(spec_views(parts@).subrange(0, i as int), sep@),
        decreases n - i,
    {
        if i > 0 {
            out.append(sep);
        }
        out.append(parts[i].as_str());
        proof {
            let full = spec_views(parts@);
            assert(full.subrange(0, i + 1).drop_last() =~= full.subrange(0, i as int));
            assert(full.subrange(0, i + 1).last() == parts@[i as int]@);
        }
        i = i + 1;
    }
    proof {
        assert(spec_views(parts@).subrange(0, n as int) =~= spec_views(parts@));
    }
    out
}

/// The system prompt an agent synthesizes from its immutable configuration:
/// its expertise, personality, goals joined with a comma, and knowledge base,
/// spliced into a fixed coaching instruction.
pub open spec fn spec_system_prompt(
    expertise: Seq<char>,
    personality: Seq<char>,
    goals: Seq<Seq<char>>,
    knowledge_base: Seq<char>,
) -> Seq<char> {
    "You are a "@ + expertise + " life coach with a "@ + personality
        + " personality. You are helping the user achieve the following goals: "@ + spec_join(
        goals,
        ", "@,
    ) + ". Use your knowledge base: "@ + knowledge_base + "."@
}

/// The full single-text prompt: the system prompt followed by the user's
/// query, for a completion endpoint that takes one prompt text.
pub open spec fn spec_full_prompt(
    expertise: Seq<char>,
    personality: Seq<char>,
    goals: Seq<Seq<char>>,
    knowledge_base: Seq<char>,
    query: Seq<char>,
) -> Seq<char> {
    spec_system_prompt(expertise, personality, goals, knowledge_base)
        + " Respond to this user query: "@ + query
}

/// What `system_prompt` returns for `config`.
pub open spec fn spec_system_prompt_of(config: AgentConfig) -> Seq<char> {
    spec_system_prompt(
        config.expertise@,
        config.personality@,
        spec_views(config.goals@),
        config.knowledge_base@,
    )
}

/// Synthesizes the system prompt from an agent's configuration.
pub fn system_prompt(config: &AgentConfig) -> (r: String)
    ensures
        r@ == spec_system_prompt_of(*config),
{
    let mut out = String::from_str("You are a ");
    out.append(config.expertise.as_str());
    out.append(" life coach with a ");
    out.append(config.personality.as_str());
    out.append(" personality. You are helping the user achieve the following goals: ");
    let goals = join_texts(&config.goals, ", ");
    out.append(goals.as_str());
    out.append(". Use your knowledge base: ");
    out.append(config.knowledge_base.as_str());
    out.append(".");
    out
}

/// Synthesizes the full prompt from an agent's configuration and a query.
pub fn full_prompt(config: &AgentConfig, query: &str) -> (r: String)
    ensures
        r@ == spec_full_prompt(
            config.expertise@,
            config.personality@,
            spec_views(config.goals@),
            config.knowledge_base@,
            query@,
        ),
{
    let mut out = system_prompt(config);
    out.append(" Respond to this user query: ");
    out.append(query);
    out
}

} // verus!
