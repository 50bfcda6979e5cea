//! An agent's persona and generation parameters.

use vstd::prelude::*;
use vstd::string::StringExecFns;
use crate::text::texts;

verus! {

/// What an agent is made with. It is built once, before the agent, and the
/// agent never changes it.
#[derive(Debug, PartialEq, Eq)]
pub struct AgentConfig {
    /// The agent's display name.
    pub name: String,
    /// The label under which the task is put to the agent.
    pub user_name: String,
    pub system_prompt: String,
    /// The sampling temperature, in thousandths.
    pub temperature_millis: u32,
    /// The most tokens the model may generate for one response.
    pub max_tokens: u64,
    /// The most round trips to the model in one run.
    pub max_turns: u32,
    /// The markers that end generation; none occurs twice.
    pub stop_markers: Vec<String>,
}

/// The mathematical value of an [`AgentConfig`].
pub struct AgentConfigView {
    pub name: Seq<char>,
    pub user_name: Seq<char>,
    pub system_prompt: Seq<char>,
    pub temperature_millis: u32,
    pub max_tokens: u64,
    pub max_turns: u32,
    pub stop_markers: Seq<Seq<char>>,
}

impl View for AgentConfig {
    type V = AgentConfigView;

    open spec fn view(&self) -> AgentConfigView {
        AgentConfigView {
            name: self.name@,
            user_name: self.user_name@,
            system_prompt: self.system_prompt@,
            temperature_millis: self.temperature_millis,
            max_tokens: self.max_tokens,
            max_turns: self.max_turns,
            stop_markers: texts(self.stop_markers@),
        }
    }
}

/// The configuration an agent has before anything is set.
pub open spec fn default_config() -> AgentConfigView {
    AgentConfigView {
        name: "Agent"@,
        user_name: "User"@,
        system_prompt: Seq::empty(),
        temperature_millis: 0,
        max_tokens: 8192,
        max_turns: 1,
        stop_markers: Seq::empty(),
    }
}

/// `markers` with `marker` added, unless it is there already.
pub open spec fn with_marker(markers: Seq<Seq<char>>, marker: Seq<char>) -> Seq<Seq<char>> {
    if markers.contains(marker) {
        markers
    } else {
        markers.push(marker)
    }
}

/// Whether `marker` is among `markers`.
fn has_marker(markers: &Vec<String>, marker: &String) -> (found: bool)
    ensures
        found == texts(markers@).contains(marker@),
{
    let mut i: usize = 0;
    while i < markers.len()
        invariant
            i <= markers.len(),
            forall|j: int| 0 <= j < i ==> texts(markers@)[j] != marker@,
        decreases markers.len() - i,
    {
        if markers[i] == *marker {
            assert(texts(markers@)[i as int] == marker@);
            return true;
        }
        i += 1;
    }
    false
}

impl AgentConfig {
    /// The default configuration: named "Agent", asked by "User", no system
    /// prompt, temperature 0, 8192 tokens, one turn, no stop marker.
    pub fn new() -> (out: AgentConfig)
        ensures
            out@ == default_config(),
    {
        let out = AgentConfig {
            name: String::from_str("Agent"),
            user_name: String::from_str("User"),
            system_prompt: String::new(),
            temperature_millis: 0,
            max_tokens: 8192,
            max_turns: 1,
            stop_markers: Vec::new(),
        };
        assert(texts(out.stop_markers@) =~= Seq::<Seq<char>>::empty());
        out
    }

    /// This configuration under the display name `name`.
    pub fn agent_name(self, name: &str) -> (out: AgentConfig)
        ensures
            out@ == (AgentConfigView { name: name@, ..self@ }),
    {
        AgentConfig { name: name.to_owned(), ..self }
    }

    /// This configuration with the task put under the label `name`.
    pub fn user_name(self, name: &str) -> (out: AgentConfig)
        ensures
            out@ == (AgentConfigView { user_name: name@, ..self@ }),
    {
        AgentConfig { user_name: name.to_owned(), ..self }
    }

    /// This configuration with the system prompt `prompt`.
    pub fn system_prompt(self, prompt: &str) -> (out: AgentConfig)
        ensures
            out@ == (AgentConfigView { system_prompt: prompt@, ..self@ }),
    {
        AgentConfig { system_prompt: prompt.to_owned(), ..self }
    }

    /// This configuration with the sampling temperature `millis` thousandths.
    pub fn temperature_millis(self, millis: u32) -> (out: AgentConfig)
        ensures
            out@ == (AgentConfigView { temperature_millis: millis, ..self@ }),
    {
        AgentConfig { temperature_millis: millis, ..self }
    }

    /// This configuration with at most `max_tokens` tokens per response.
    pub fn max_tokens(self, max_tokens: u64) -> (out: AgentConfig)
        ensures
            out@ == (AgentConfigView { max_tokens, ..self@ }),
    {
        AgentConfig { max_tokens, ..self }
    }

    /// This configuration with at most `max_turns` round trips per run.
    pub fn max_turns(self, max_turns: u32) -> (out: AgentConfig)
        ensures
            out@ == (AgentConfigView { max_turns, ..self@ }),
    {
        AgentConfig { max_turns, ..self }
    }

    /// This configuration with `marker` among its stop markers.
    pub fn add_stop_word(self, marker: &str) -> (out: AgentConfig)
        ensures
            out@ == (AgentConfigView {
                stop_markers: with_marker(self@.stop_markers, marker@),
                ..self@
            }),
    {
        let marker = marker.to_owned();
        if has_marker(&self.stop_markers, &marker) {
            self
        } else {
            let ghost before = self.stop_markers@;
            let mut stop_markers = self.stop_markers;
            stop_markers.push(marker);
            assert(texts(stop_markers@) =~= texts(before).push(marker@));
            AgentConfig { stop_markers, ..self }
        }
    }
}

impl Clone for AgentConfig {
    fn clone(&self) -> (out: AgentConfig)
        ensures
            out@ == self@,
    {
        let mut stop_markers: Vec<String> = Vec::new();
        let mut i: usize = 0;
        while i < self.stop_markers.len()
            invariant
                i <= self.stop_markers.len(),
                stop_markers.len() == i,
                forall|j: int| 0 <= j < i ==> (#[trigger] stop_markers[j])@ == self.stop_markers[j]@,
            decreases self.stop_markers.len() - i,
        {
            stop_markers.push(self.stop_markers[i].clone());
            i += 1;
        }
        assert(texts(stop_markers@) =~= texts(self.stop_markers@));
        AgentConfig {
            name: self.name.clone(),
            user_name: self.user_name.clone(),
            system_prompt: self.system_prompt.clone(),
            temperature_millis: self.temperature_millis,
            max_tokens: self.max_tokens,
            max_turns: self.max_turns,
            stop_markers,
        }
    }
}

} // verus!
