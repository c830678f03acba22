//! The page scripts that the host injects after a page load: their
//! identifiers, the order of injection, and the text of each.

use vstd::prelude::*;

verus! {

/// Identifies one injected script.
#[derive(Debug, Clone, Copy, PartialEq, Eq, Hash, Structural)]
pub enum ScriptId {
    Logger,
    Adblock,
    TauriBridge,
    YtMusicInfo,
    YtPlayerState,
    YtQueueController,
    YtMusicObserver,
    YtPlayerListener,
    YtMusicController,
    YtMusicSearch,
    YtDebug,
    ServerControl,
}

/// Number of scripts.
pub const SCRIPT_COUNT: usize = 12;

/// The scripts in the order in which they are injected.
pub open spec fn injection_order() -> Seq<ScriptId> {
    seq![
        ScriptId::Logger,
        ScriptId::Adblock,
        ScriptId::TauriBridge,
        ScriptId::YtMusicInfo,
        ScriptId::YtPlayerState,
        ScriptId::YtQueueController,
        ScriptId::YtMusicObserver,
        ScriptId::YtMusicController,
        ScriptId::YtPlayerListener,
        ScriptId::YtDebug,
        ScriptId::ServerControl,
        ScriptId::YtMusicSearch,
    ]
}

/// The texts of all scripts, one per script, held in injection order.
pub struct ScriptBundle {
    sources: Vec<String>,
}

impl ScriptBundle {
    /// A bundle holds exactly one text per script.
    #[verifier::type_invariant]
    spec fn complete(&self) -> bool {
        self.sources.len() == SCRIPT_COUNT
    }

    /// The text that the bundle holds for `id`.
    pub closed spec fn text_of(&self, id: ScriptId) -> Seq<char> {
        self.sources[id.slot()]@
    }

    /// Builds a bundle from the script texts given in injection order.
    /// Returns `None` unless there is exactly one text per script.
    pub fn new(sources: Vec<String>) -> (bundle: Option<ScriptBundle>)
        ensures
            bundle is Some <==> sources.len() == SCRIPT_COUNT,
            bundle matches Some(b) ==> forall|id: ScriptId|
                #[trigger] b.text_of(id) == sources[id.slot()]@,
    {
        if sources.len() == SCRIPT_COUNT {
            Some(ScriptBundle { sources })
        } else {
            None
        }
    }
}

impl ScriptId {
    /// Position of the script in the injection order.
    pub open spec fn slot(self) -> int {
        match self {
            ScriptId::Logger => 0,
            ScriptId::Adblock => 1,
            ScriptId::TauriBridge => 2,
            ScriptId::YtMusicInfo => 3,
            ScriptId::YtPlayerState => 4,
            ScriptId::YtQueueController => 5,
            ScriptId::YtMusicObserver => 6,
            ScriptId::YtMusicController => 7,
            ScriptId::YtPlayerListener => 8,
            ScriptId::YtDebug => 9,
            ScriptId::ServerControl => 10,
            ScriptId::YtMusicSearch => 11,
        }
    }

    /// Position of the script in the injection order.
    pub fn position(self) -> (at: usize)
        ensures
            at == self.slot(),
            at < SCRIPT_COUNT,
            injection_order()[at as int] == self,
    {
        match self {
            ScriptId::Logger => 0,
            ScriptId::Adblock => 1,
            ScriptId::TauriBridge => 2,
            ScriptId::YtMusicInfo => 3,
            ScriptId::YtPlayerState => 4,
            ScriptId::YtQueueController => 5,
            ScriptId::YtMusicObserver => 6,
            ScriptId::YtMusicController => 7,
            ScriptId::YtPlayerListener => 8,
            ScriptId::YtDebug => 9,
            ScriptId::ServerControl => 10,
            ScriptId::YtMusicSearch => 11,
        }
    }

    /// The text of this script, taken from `bundle`.
    pub fn content<'a>(self, bundle: &'a ScriptBundle) -> (text: &'a str)
        ensures
            text@ == bundle.text_of(self),
    {
        proof {
            use_type_invariant(bundle);
        }
        bundle.sources[self.position()].as_str()
    }

    /// All scripts, each exactly once, in the order of injection.
    pub const ALL_IN_ORDER: [ScriptId; 12] = [
        ScriptId::Logger,
        ScriptId::Adblock,
        ScriptId::TauriBridge,
        ScriptId::YtMusicInfo,
        ScriptId::YtPlayerState,
        ScriptId::YtQueueController,
        ScriptId::YtMusicObserver,
        ScriptId::YtMusicController,
        ScriptId::YtPlayerListener,
        ScriptId::YtDebug,
        ScriptId::ServerControl,
        ScriptId::YtMusicSearch,
    ];
}

/// The constant holds the scripts in the order of injection.
pub proof fn all_in_order_is_the_injection_order()
    ensures
        ScriptId::ALL_IN_ORDER@ == injection_order(),
{
    assert(ScriptId::ALL_IN_ORDER@ =~= injection_order());
}

/// Every script stands exactly once in the injection order, at its own slot.
pub proof fn injection_order_is_complete(id: ScriptId)
    ensures
        injection_order().len() == SCRIPT_COUNT,
        0 <= id.slot() < SCRIPT_COUNT,
        injection_order()[id.slot()] == id,
        forall|i: int| 0 <= i < injection_order().len() && injection_order()[i] == id
            ==> i == id.slot(),
{
}

} // verus!
