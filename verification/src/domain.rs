//! The gateway's capability vocabulary as the store reads and writes it:
//! operations, API surfaces, transport modes and capability provenance.
use vstd::prelude::*;

use crate::text::str_eq;

verus! {

/// The largest tokens-per-minute limit the distributed limiter accepts: the
/// largest integer its Lua scripts hold exactly.
pub const MAX_TOKENS_PER_MINUTE: u64 = 9_007_199_254_740_991;


#[derive(Clone, Copy, Debug, Eq, PartialEq, Structural)]
pub enum OperationKind {
    Generation,
    Embeddings,
    ImageGeneration,
    TokenCount,
    Moderation,
    ModelList,
    ModelGet,
    VideoGet,
    VideoContent,
    VideoDelete,
}

pub open spec fn operation_text(o: OperationKind) -> Seq<char> {
    match o {
        OperationKind::Generation => "generation"@,
        OperationKind::Embeddings => "embeddings"@,
        OperationKind::ImageGeneration => "image_generation"@,
        OperationKind::TokenCount => "token_count"@,
        OperationKind::Moderation => "moderation"@,
        OperationKind::ModelList => "model_list"@,
        OperationKind::ModelGet => "model_get"@,
        OperationKind::VideoGet => "video_get"@,
        OperationKind::VideoContent => "video_content"@,
        OperationKind::VideoDelete => "video_delete"@,
    }
}

pub open spec fn operation_from_text(s: Seq<char>) -> Option<OperationKind> {
    if s == "generation"@ {
        Some(OperationKind::Generation)
    } else if s == "embeddings"@ {
        Some(OperationKind::Embeddings)
    } else if s == "image_generation"@ {
        Some(OperationKind::ImageGeneration)
    } else if s == "token_count"@ {
        Some(OperationKind::TokenCount)
    } else if s == "moderation"@ {
        Some(OperationKind::Moderation)
    } else if s == "model_list"@ {
        Some(OperationKind::ModelList)
    } else if s == "model_get"@ {
        Some(OperationKind::ModelGet)
    } else if s == "video_get"@ {
        Some(OperationKind::VideoGet)
    } else if s == "video_content"@ {
        Some(OperationKind::VideoContent)
    } else if s == "video_delete"@ {
        Some(OperationKind::VideoDelete)
    } else {
        None
    }
}

impl OperationKind {
    pub fn as_str(self) -> (s: &'static str)
        ensures
            s@ == operation_text(self),
    {
        match self {
            OperationKind::Generation => "generation",
            OperationKind::Embeddings => "embeddings",
            OperationKind::ImageGeneration => "image_generation",
            OperationKind::TokenCount => "token_count",
            OperationKind::Moderation => "moderation",
            OperationKind::ModelList => "model_list",
            OperationKind::ModelGet => "model_get",
            OperationKind::VideoGet => "video_get",
            OperationKind::VideoContent => "video_content",
            OperationKind::VideoDelete => "video_delete",
        }
    }

    pub fn parse(value: &str) -> (r: Option<Self>)
        ensures
            r == operation_from_text(value@),
    {
        if str_eq(value, "generation") {
            Some(OperationKind::Generation)
        } else if str_eq(value, "embeddings") {
            Some(OperationKind::Embeddings)
        } else if str_eq(value, "image_generation") {
            Some(OperationKind::ImageGeneration)
        } else if str_eq(value, "token_count") {
            Some(OperationKind::TokenCount)
        } else if str_eq(value, "moderation") {
            Some(OperationKind::Moderation)
        } else if str_eq(value, "model_list") {
            Some(OperationKind::ModelList)
        } else if str_eq(value, "model_get") {
            Some(OperationKind::ModelGet)
        } else if str_eq(value, "video_get") {
            Some(OperationKind::VideoGet)
        } else if str_eq(value, "video_content") {
            Some(OperationKind::VideoContent)
        } else if str_eq(value, "video_delete") {
            Some(OperationKind::VideoDelete)
        } else {
            None
        }
    }

    /// Model listing and detail are answered by the installation itself and
    /// are never routed to a provider.
    pub fn is_installation_local(self) -> (b: bool)
        ensures
            b == (self is ModelList || self is ModelGet),
    {
        matches!(self, OperationKind::ModelList | OperationKind::ModelGet)
    }
}

#[derive(Clone, Copy, Debug, Eq, PartialEq, Structural)]
pub enum Surface {
    OpenAi,
    Anthropic,
    Gemini,
}

pub open spec fn surface_text(s: Surface) -> Seq<char> {
    match s {
        Surface::OpenAi => "openai"@,
        Surface::Anthropic => "anthropic"@,
        Surface::Gemini => "gemini"@,
    }
}

pub open spec fn surface_from_text(s: Seq<char>) -> Option<Surface> {
    if s == "openai"@ {
        Some(Surface::OpenAi)
    } else if s == "anthropic"@ {
        Some(Surface::Anthropic)
    } else if s == "gemini"@ {
        Some(Surface::Gemini)
    } else {
        None
    }
}

impl Surface {
    pub fn as_str(self) -> (s: &'static str)
        ensures
            s@ == surface_text(self),
    {
        match self {
            Surface::OpenAi => "openai",
            Surface::Anthropic => "anthropic",
            Surface::Gemini => "gemini",
        }
    }

    pub fn parse(value: &str) -> (r: Option<Self>)
        ensures
            r == surface_from_text(value@),
    {
        if str_eq(value, "openai") {
            Some(Surface::OpenAi)
        } else if str_eq(value, "anthropic") {
            Some(Surface::Anthropic)
        } else if str_eq(value, "gemini") {
            Some(Surface::Gemini)
        } else {
            None
        }
    }
}

#[derive(Clone, Copy, Debug, Eq, PartialEq, Structural)]
pub enum TransportMode {
    Unary,
    Streaming,
    Async,
}

pub open spec fn mode_text(m: TransportMode) -> Seq<char> {
    match m {
        TransportMode::Unary => "unary"@,
        TransportMode::Streaming => "streaming"@,
        TransportMode::Async => "async"@,
    }
}

pub open spec fn mode_from_text(s: Seq<char>) -> Option<TransportMode> {
    if s == "unary"@ {
        Some(TransportMode::Unary)
    } else if s == "streaming"@ {
        Some(TransportMode::Streaming)
    } else if s == "async"@ {
        Some(TransportMode::Async)
    } else {
        None
    }
}

impl TransportMode {
    pub fn as_str(self) -> (s: &'static str)
        ensures
            s@ == mode_text(self),
    {
        match self {
            TransportMode::Unary => "unary",
            TransportMode::Streaming => "streaming",
            TransportMode::Async => "async",
        }
    }

    pub fn parse(value: &str) -> (r: Option<Self>)
        ensures
            r == mode_from_text(value@),
    {
        if str_eq(value, "unary") {
            Some(TransportMode::Unary)
        } else if str_eq(value, "streaming") {
            Some(TransportMode::Streaming)
        } else if str_eq(value, "async") {
            Some(TransportMode::Async)
        } else {
            None
        }
    }
}

/// Whether a capability was only declared or has been certified by a probe.
#[derive(Clone, Copy, Debug, Eq, PartialEq, Structural)]
pub enum CapabilitySource {
    Declared,
    Certified,
}

pub open spec fn capability_source_text(c: CapabilitySource) -> Seq<char> {
    match c {
        CapabilitySource::Declared => "declared"@,
        CapabilitySource::Certified => "certified"@,
    }
}

pub open spec fn source_from_text(s: Seq<char>) -> Option<CapabilitySource> {
    if s == "declared"@ {
        Some(CapabilitySource::Declared)
    } else if s == "certified"@ {
        Some(CapabilitySource::Certified)
    } else {
        None
    }
}

impl CapabilitySource {
    pub fn as_str(self) -> (s: &'static str)
        ensures
            s@ == capability_source_text(self),
    {
        match self {
            CapabilitySource::Declared => "declared",
            CapabilitySource::Certified => "certified",
        }
    }

    pub fn parse(value: &str) -> (r: Option<Self>)
        ensures
            r == source_from_text(value@),
    {
        if str_eq(value, "declared") {
            Some(CapabilitySource::Declared)
        } else if str_eq(value, "certified") {
            Some(CapabilitySource::Certified)
        } else {
            None
        }
    }
}


/// Each enumeration read back from its stored text is the value that was
/// stored.
pub proof fn operation_text_round_trip(o: OperationKind)
    ensures
        operation_from_text(operation_text(o)) == Some(o),
{
    match o {
        OperationKind::Generation => {
            reveal_strlit("generation");
        },
        OperationKind::Embeddings => {
            reveal_strlit("embeddings");
            reveal_strlit("generation");
            assert("embeddings"@[0] != "generation"@[0]);
        },
        OperationKind::ImageGeneration => {
            reveal_strlit("image_generation");
            reveal_strlit("generation");
            assert("image_generation"@.len() != "generation"@.len());
            reveal_strlit("embeddings");
            assert("image_generation"@.len() != "embeddings"@.len());
        },
        OperationKind::TokenCount => {
            reveal_strlit("token_count");
            reveal_strlit("generation");
            assert("token_count"@.len() != "generation"@.len());
            reveal_strlit("embeddings");
            assert("token_count"@.len() != "embeddings"@.len());
            reveal_strlit("image_generation");
            assert("token_count"@.len() != "image_generation"@.len());
        },
        OperationKind::Moderation => {
            reveal_strlit("moderation");
            reveal_strlit("generation");
            assert("moderation"@[0] != "generation"@[0]);
            reveal_strlit("embeddings");
            assert("moderation"@[0] != "embeddings"@[0]);
            reveal_strlit("image_generation");
            assert("moderation"@.len() != "image_generation"@.len());
            reveal_strlit("token_count");
            assert("moderation"@.len() != "token_count"@.len());
        },
        OperationKind::ModelList => {
            reveal_strlit("model_list");
            reveal_strlit("generation");
            assert("model_list"@[0] != "generation"@[0]);
            reveal_strlit("embeddings");
            assert("model_list"@[0] != "embeddings"@[0]);
            reveal_strlit("image_generation");
            assert("model_list"@.len() != "image_generation"@.len());
            reveal_strlit("token_count");
            assert("model_list"@.len() != "token_count"@.len());
            reveal_strlit("moderation");
            assert("model_list"@[4] != "moderation"@[4]);
        },
        OperationKind::ModelGet => {
            reveal_strlit("model_get");
            reveal_strlit("generation");
            assert("model_get"@.len() != "generation"@.len());
            reveal_strlit("embeddings");
            assert("model_get"@.len() != "embeddings"@.len());
            reveal_strlit("image_generation");
            assert("model_get"@.len() != "image_generation"@.len());
            reveal_strlit("token_count");
            assert("model_get"@.len() != "token_count"@.len());
            reveal_strlit("moderation");
            assert("model_get"@.len() != "moderation"@.len());
            reveal_strlit("model_list");
            assert("model_get"@.len() != "model_list"@.len());
        },
        OperationKind::VideoGet => {
            reveal_strlit("video_get");
            reveal_strlit("generation");
            assert("video_get"@.len() != "generation"@.len());
            reveal_strlit("embeddings");
            assert("video_get"@.len() != "embeddings"@.len());
            reveal_strlit("image_generation");
            assert("video_get"@.len() != "image_generation"@.len());
            reveal_strlit("token_count");
            assert("video_get"@.len() != "token_count"@.len());
            reveal_strlit("moderation");
            assert("video_get"@.len() != "moderation"@.len());
            reveal_strlit("model_list");
            assert("video_get"@.len() != "model_list"@.len());
            reveal_strlit("model_get");
            assert("video_get"@[0] != "model_get"@[0]);
        },
        OperationKind::VideoContent => {
            reveal_strlit("video_content");
            reveal_strlit("generation");
            assert("video_content"@.len() != "generation"@.len());
            reveal_strlit("embeddings");
            assert("video_content"@.len() != "embeddings"@.len());
            reveal_strlit("image_generation");
            assert("video_content"@.len() != "image_generation"@.len());
            reveal_strlit("token_count");
            assert("video_content"@.len() != "token_count"@.len());
            reveal_strlit("moderation");
            assert("video_content"@.len() != "moderation"@.len());
            reveal_strlit("model_list");
            assert("video_content"@.len() != "model_list"@.len());
            reveal_strlit("model_get");
            assert("video_content"@.len() != "model_get"@.len());
            reveal_strlit("video_get");
            assert("video_content"@.len() != "video_get"@.len());
        },
        OperationKind::VideoDelete => {
            reveal_strlit("video_delete");
            reveal_strlit("generation");
            assert("video_delete"@.len() != "generation"@.len());
            reveal_strlit("embeddings");
            assert("video_delete"@.len() != "embeddings"@.len());
            reveal_strlit("image_generation");
            assert("video_delete"@.len() != "image_generation"@.len());
            reveal_strlit("token_count");
            assert("video_delete"@.len() != "token_count"@.len());
            reveal_strlit("moderation");
            assert("video_delete"@.len() != "moderation"@.len());
            reveal_strlit("model_list");
            assert("video_delete"@.len() != "model_list"@.len());
            reveal_strlit("model_get");
            assert("video_delete"@.len() != "model_get"@.len());
            reveal_strlit("video_get");
            assert("video_delete"@.len() != "video_get"@.len());
            reveal_strlit("video_content");
            assert("video_delete"@.len() != "video_content"@.len());
        },
    }
}

pub proof fn surface_text_round_trip(s: Surface)
    ensures
        surface_from_text(surface_text(s)) == Some(s),
{
    match s {
        Surface::OpenAi => {
            reveal_strlit("openai");
        },
        Surface::Anthropic => {
            reveal_strlit("anthropic");
            reveal_strlit("openai");
            assert("anthropic"@.len() != "openai"@.len());
        },
        Surface::Gemini => {
            reveal_strlit("gemini");
            reveal_strlit("openai");
            assert("gemini"@[0] != "openai"@[0]);
            reveal_strlit("anthropic");
            assert("gemini"@.len() != "anthropic"@.len());
        },
    }
}

pub proof fn mode_text_round_trip(m: TransportMode)
    ensures
        mode_from_text(mode_text(m)) == Some(m),
{
    match m {
        TransportMode::Unary => {
            reveal_strlit("unary");
        },
        TransportMode::Streaming => {
            reveal_strlit("streaming");
            reveal_strlit("unary");
            assert("streaming"@.len() != "unary"@.len());
        },
        TransportMode::Async => {
            reveal_strlit("async");
            reveal_strlit("unary");
            assert("async"@[0] != "unary"@[0]);
            reveal_strlit("streaming");
            assert("async"@.len() != "streaming"@.len());
        },
    }
}

pub proof fn source_text_round_trip(c: CapabilitySource)
    ensures
        source_from_text(capability_source_text(c)) == Some(c),
{
    match c {
        CapabilitySource::Declared => {
            reveal_strlit("declared");
        },
        CapabilitySource::Certified => {
            reveal_strlit("certified");
            reveal_strlit("declared");
            assert("certified"@.len() != "declared"@.len());
        },
    }
}

/// The capability tuple that certification and routing key on.
pub type CapabilityTuple = (OperationKind, Surface, TransportMode);

} // verus!
