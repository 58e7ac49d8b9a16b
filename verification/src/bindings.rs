//! Parsing of the textual names of inspection modes and architectures, as
//! the Python bindings accept them (case-insensitively).

use vstd::prelude::*;
use vstd::string::*;

use crate::text::{same_text, to_lowercase, unicode_lowercase};
use crate::types::{spec_architecture_name, spec_mode_name, InspectMode, RagArchitecture};

verus! {

/// The inspection mode a lowercase name denotes.
pub open spec fn spec_mode_from_name(name: Seq<char>) -> Option<InspectMode> {
    if name == "full"@ {
        Some(InspectMode::Full)
    } else if name == "retrieval"@ {
        Some(InspectMode::Retrieval)
    } else if name == "context"@ {
        Some(InspectMode::Context)
    } else if name == "quick"@ {
        Some(InspectMode::Quick)
    } else {
        None
    }
}

/// The architecture a lowercase name denotes.
pub open spec fn spec_architecture_from_name(name: Seq<char>) -> Option<RagArchitecture> {
    if name == "naive"@ {
        Some(RagArchitecture::Naive)
    } else if name == "advanced"@ {
        Some(RagArchitecture::Advanced)
    } else if name == "modular"@ {
        Some(RagArchitecture::Modular)
    } else if name == "agentic"@ {
        Some(RagArchitecture::Agentic)
    } else if name == "graph"@ {
        Some(RagArchitecture::Graph)
    } else if name == "hyde"@ {
        Some(RagArchitecture::Hyde)
    } else if name == "multimodal"@ {
        Some(RagArchitecture::Multimodal)
    } else {
        None
    }
}

/// Error message for an unknown inspection mode name.
pub open spec fn spec_mode_error(s: Seq<char>) -> Seq<char> {
    "Unknown inspect_mode: '"@ + s + "'. Valid modes: full, retrieval, context, quick"@
}

/// Error message for an unknown architecture name.
pub open spec fn spec_architecture_error(s: Seq<char>) -> Seq<char> {
    "Unknown architecture: '"@ + s
        + "'. Valid architectures: naive, advanced, modular, agentic, graph, hyde, multimodal"@
}

/// The inspection mode a lowercase name denotes, if any.
pub fn mode_from_name(name: &str) -> (m: Option<InspectMode>)
    ensures
        m == spec_mode_from_name(name@),
{
    if same_text(name, "full") {
        Some(InspectMode::Full)
    } else if same_text(name, "retrieval") {
        Some(InspectMode::Retrieval)
    } else if same_text(name, "context") {
        Some(InspectMode::Context)
    } else if same_text(name, "quick") {
        Some(InspectMode::Quick)
    } else {
        None
    }
}

/// The architecture a lowercase name denotes, if any.
pub fn architecture_from_name(name: &str) -> (a: Option<RagArchitecture>)
    ensures
        a == spec_architecture_from_name(name@),
{
    if same_text(name, "naive") {
        Some(RagArchitecture::Naive)
    } else if same_text(name, "advanced") {
        Some(RagArchitecture::Advanced)
    } else if same_text(name, "modular") {
        Some(RagArchitecture::Modular)
    } else if same_text(name, "agentic") {
        Some(RagArchitecture::Agentic)
    } else if same_text(name, "graph") {
        Some(RagArchitecture::Graph)
    } else if same_text(name, "hyde") {
        Some(RagArchitecture::Hyde)
    } else if same_text(name, "multimodal") {
        Some(RagArchitecture::Multimodal)
    } else {
        None
    }
}

/// Maps a string (any letter case) to an [`InspectMode`].
pub fn parse_inspect_mode(s: &str) -> (r: Result<InspectMode, String>)
    ensures
        match r {
            Ok(m) => spec_mode_from_name(unicode_lowercase(s@)) == Some(m),
            Err(e) => spec_mode_from_name(unicode_lowercase(s@)) is None && e@ == spec_mode_error(
                s@,
            ),
        },
{
    let lower = to_lowercase(s);
    match mode_from_name(lower.as_str()) {
        Some(m) => Ok(m),
        None => {
            let mut e = String::from_str("Unknown inspect_mode: '");
            e.append(s);
            e.append("'. Valid modes: full, retrieval, context, quick");
            Err(e)
        },
    }
}

/// Maps a string (any letter case) to a [`RagArchitecture`].
pub fn parse_architecture(s: &str) -> (r: Result<RagArchitecture, String>)
    ensures
        match r {
            Ok(a) => spec_architecture_from_name(unicode_lowercase(s@)) == Some(a),
            Err(e) => spec_architecture_from_name(unicode_lowercase(s@)) is None && e@
                == spec_architecture_error(s@),
        },
{
    let lower = to_lowercase(s);
    match architecture_from_name(lower.as_str()) {
        Some(a) => Ok(a),
        None => {
            let mut e = String::from_str("Unknown architecture: '");
            e.append(s);
            e.append(
                "'. Valid architectures: naive, advanced, modular, agentic, graph, hyde, multimodal",
            );
            Err(e)
        },
    }
}

/// A character with ASCII capitals turned into lowercase letters.
pub open spec fn ascii_lower(c: char) -> char {
    if 'A' <= c && c <= 'Z' {
        ((c as u32) + 32) as char
    } else {
        c
    }
}

/// `name` is the lowercase form of the first word of the architecture's
/// display name (e.g. "hyde" for "HyDE (Hypothetical Document)").
pub open spec fn is_keyword_of(name: Seq<char>, a: RagArchitecture) -> bool {
    let display = spec_architecture_name(a);
    &&& name.len() < display.len()
    &&& display[name.len() as int] == ' '
    &&& forall|i: int| 0 <= i < name.len() ==> name[i] == ascii_lower(#[trigger] display[i])
}

/// An accepted architecture name is the lowercase first word of that
/// architecture's display name, and every architecture has an accepted name;
/// so distinct architectures are reached by distinct names.
pub proof fn lemma_architecture_names_round_trip(name: Seq<char>, a: RagArchitecture)
    ensures
        spec_architecture_from_name(name) == Some(a) ==> is_keyword_of(name, a),
        exists|n: Seq<char>| #[trigger] spec_architecture_from_name(n) == Some(a),
{
    reveal_strlit("naive");
    reveal_strlit("advanced");
    reveal_strlit("modular");
    reveal_strlit("agentic");
    reveal_strlit("graph");
    reveal_strlit("hyde");
    reveal_strlit("multimodal");
    reveal_strlit("Naive (Linear)");
    reveal_strlit("Advanced (Re-ranked + Hybrid)");
    reveal_strlit("Modular (Multi-stage)");
    reveal_strlit("Agentic (LLM-driven Routing)");
    reveal_strlit("Graph (Entity-relationship)");
    reveal_strlit("HyDE (Hypothetical Document)");
    reveal_strlit("Multimodal (Cross-modal Fusion)");
    match a {
        RagArchitecture::Naive => assert(spec_architecture_from_name("naive"@) == Some(a)),
        RagArchitecture::Advanced => {
            assert("advanced"@.len() != "naive"@.len());
            assert(spec_architecture_from_name("advanced"@) == Some(a));
        },
        RagArchitecture::Modular => {
            assert("modular"@.len() != "naive"@.len());
            assert("modular"@.len() != "advanced"@.len());
            assert(spec_architecture_from_name("modular"@) == Some(a));
        },
        RagArchitecture::Agentic => {
            assert("agentic"@[0] != "naive"@[0] && "agentic"@[0] != "modular"@[0]);
            assert("agentic"@.len() != "advanced"@.len());
            assert(spec_architecture_from_name("agentic"@) == Some(a));
        },
        RagArchitecture::Graph => {
            assert("graph"@[0] != "naive"@[0] && "graph"@.len() != "advanced"@.len());
            assert("graph"@.len() != "modular"@.len() && "graph"@.len() != "agentic"@.len());
            assert(spec_architecture_from_name("graph"@) == Some(a));
        },
        RagArchitecture::Hyde => {
            assert("hyde"@.len() != "naive"@.len() && "hyde"@.len() != "advanced"@.len());
            assert("hyde"@.len() != "modular"@.len() && "hyde"@.len() != "agentic"@.len());
            assert("hyde"@.len() != "graph"@.len());
            assert(spec_architecture_from_name("hyde"@) == Some(a));
        },
        RagArchitecture::Multimodal => {
            assert("multimodal"@.len() != "naive"@.len() && "multimodal"@.len() != "advanced"@.len());
            assert("multimodal"@.len() != "modular"@.len() && "multimodal"@.len() != "agentic"@.len());
            assert("multimodal"@.len() != "graph"@.len() && "multimodal"@.len() != "hyde"@.len());
            assert(spec_architecture_from_name("multimodal"@) == Some(a));
        },
    }
    if spec_architecture_from_name(name) == Some(a) {
        let display = spec_architecture_name(a);
        assert forall|i: int| 0 <= i < name.len() implies name[i] == ascii_lower(
            #[trigger] display[i],
        ) by {}
    }
}

/// `name` is the lowercase form of the first word of the mode's display
/// name (e.g. "full" for "Full Pipeline").
pub open spec fn is_mode_keyword_of(name: Seq<char>, m: InspectMode) -> bool {
    let display = spec_mode_name(m);
    &&& name.len() < display.len()
    &&& display[name.len() as int] == ' '
    &&& forall|i: int| 0 <= i < name.len() ==> name[i] == ascii_lower(#[trigger] display[i])
}

/// An accepted mode name is the lowercase first word of that mode's display
/// name, and every mode has an accepted name.
pub proof fn lemma_mode_names_round_trip(name: Seq<char>, m: InspectMode)
    ensures
        spec_mode_from_name(name) == Some(m) ==> is_mode_keyword_of(name, m),
        exists|n: Seq<char>| #[trigger] spec_mode_from_name(n) == Some(m),
{
    reveal_strlit("full");
    reveal_strlit("retrieval");
    reveal_strlit("context");
    reveal_strlit("quick");
    reveal_strlit("Full Pipeline");
    reveal_strlit("Retrieval Layer Only");
    reveal_strlit("Context Construction Only");
    reveal_strlit("Quick Diagnostic");
    match m {
        InspectMode::Full => assert(spec_mode_from_name("full"@) == Some(m)),
        InspectMode::Retrieval => {
            assert("retrieval"@.len() != "full"@.len());
            assert(spec_mode_from_name("retrieval"@) == Some(m));
        },
        InspectMode::Context => {
            assert("context"@.len() != "full"@.len() && "context"@.len() != "retrieval"@.len());
            assert(spec_mode_from_name("context"@) == Some(m));
        },
        InspectMode::Quick => {
            assert("quick"@.len() != "full"@.len() && "quick"@.len() != "retrieval"@.len());
            assert("quick"@.len() != "context"@.len());
            assert(spec_mode_from_name("quick"@) == Some(m));
        },
    }
    if spec_mode_from_name(name) == Some(m) {
        let display = spec_mode_name(m);
        assert forall|i: int| 0 <= i < name.len() implies name[i] == ascii_lower(
            #[trigger] display[i],
        ) by {}
    }
}

} // verus!
