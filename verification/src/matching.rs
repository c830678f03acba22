//! The matching pipeline in front of the rules: requests that never reach
//! the network are let through, then allow-listed URLs, then the caller's
//! resource label is normalised and the rules are asked.

use crate::ruleset::{blocks, CompiledRuleSet};
use crate::text::{
    chars_of, contains, hash_text, mix, mixed, occurs_in, same_text, str_starts_with, text_hash,
};
use vstd::prelude::*;

verus! {

/// The purpose of a request, as the rules know it.
#[derive(Debug, Clone, Copy, PartialEq, Eq, Hash, Structural)]
pub enum ResourceType {
    Document,
    Subdocument,
    Stylesheet,
    Script,
    Image,
    Media,
    Xmlhttprequest,
    Other,
}

impl ResourceType {
    /// The canonical name of a resource type, which is what the rules are
    /// asked with.
    pub open spec fn name(self) -> Seq<char> {
        match self {
            ResourceType::Document => "document"@,
            ResourceType::Subdocument => "subdocument"@,
            ResourceType::Stylesheet => "stylesheet"@,
            ResourceType::Script => "script"@,
            ResourceType::Image => "image"@,
            ResourceType::Media => "media"@,
            ResourceType::Xmlhttprequest => "xmlhttprequest"@,
            ResourceType::Other => "other"@,
        }
    }

    /// The resource type that a caller's label stands for. Each canonical
    /// name stands for itself. Beside them: `main_frame` is a document,
    /// `sub_frame` a subdocument, `link` a stylesheet, `img` an image,
    /// `video` and `audio` are media, `fetch` and `xhr` are
    /// xmlhttprequest. Every other label is `Other`.
    pub open spec fn of_label(label: Seq<char>) -> ResourceType {
        if label == "document"@ || label == "main_frame"@ {
            ResourceType::Document
        } else if label == "subdocument"@ || label == "sub_frame"@ {
            ResourceType::Subdocument
        } else if label == "stylesheet"@ || label == "link"@ {
            ResourceType::Stylesheet
        } else if label == "script"@ {
            ResourceType::Script
        } else if label == "image"@ || label == "img"@ {
            ResourceType::Image
        } else if label == "media"@ || label == "video"@ || label == "audio"@ {
            ResourceType::Media
        } else if label == "xmlhttprequest"@ || label == "xhr"@ || label == "fetch"@ {
            ResourceType::Xmlhttprequest
        } else {
            ResourceType::Other
        }
    }

    /// The place of a resource type in the order in which the types are
    /// declared.
    pub open spec fn ordinal(self) -> u64 {
        match self {
            ResourceType::Document => 0,
            ResourceType::Subdocument => 1,
            ResourceType::Stylesheet => 2,
            ResourceType::Script => 3,
            ResourceType::Image => 4,
            ResourceType::Media => 5,
            ResourceType::Xmlhttprequest => 6,
            ResourceType::Other => 7,
        }
    }

    /// The place of this resource type in the order in which the types are
    /// declared.
    pub fn number(self) -> (place: u64)
        ensures
            place == self.ordinal(),
    {
        match self {
            ResourceType::Document => 0,
            ResourceType::Subdocument => 1,
            ResourceType::Stylesheet => 2,
            ResourceType::Script => 3,
            ResourceType::Image => 4,
            ResourceType::Media => 5,
            ResourceType::Xmlhttprequest => 6,
            ResourceType::Other => 7,
        }
    }

    /// The canonical name of this resource type.
    pub fn as_str(self) -> (name: &'static str)
        ensures
            name@ == self.name(),
    {
        match self {
            ResourceType::Document => "document",
            ResourceType::Subdocument => "subdocument",
            ResourceType::Stylesheet => "stylesheet",
            ResourceType::Script => "script",
            ResourceType::Image => "image",
            ResourceType::Media => "media",
            ResourceType::Xmlhttprequest => "xmlhttprequest",
            ResourceType::Other => "other",
        }
    }

    /// Normalises a caller's label.
    pub fn from_label(label: &str) -> (kind: ResourceType)
        ensures
            kind == Self::of_label(label@),
    {
        if same_text(label, "document") || same_text(label, "main_frame") {
            ResourceType::Document
        } else if same_text(label, "subdocument") || same_text(label, "sub_frame") {
            ResourceType::Subdocument
        } else if same_text(label, "stylesheet") || same_text(label, "link") {
            ResourceType::Stylesheet
        } else if same_text(label, "script") {
            ResourceType::Script
        } else if same_text(label, "image") || same_text(label, "img") {
            ResourceType::Image
        } else if same_text(label, "media") || same_text(label, "video") || same_text(
            label,
            "audio",
        ) {
            ResourceType::Media
        } else if same_text(label, "xmlhttprequest") || same_text(label, "xhr") || same_text(
            label,
            "fetch",
        ) {
            ResourceType::Xmlhttprequest
        } else {
            ResourceType::Other
        }
    }
}

/// A request as a plain value: URL, URL of the page that asks, resource
/// type.
pub type RequestView = (Seq<char>, Seq<char>, ResourceType);

/// A request: what is asked for, by which page, and for what purpose. The
/// resource type is one of a closed set, never the caller's free label.
pub struct Request {
    pub url: String,
    pub source_url: String,
    pub resource_type: ResourceType,
}

impl View for Request {
    type V = RequestView;

    open spec fn view(&self) -> RequestView {
        (self.url@, self.source_url@, self.resource_type)
    }
}

/// The unit that parts the two URLs of a request in its fingerprint: one
/// past the largest character.
pub const FINGERPRINT_BREAK: u64 = 0x11_0000;

/// The fingerprint of a request: a hash of its URL, of the URL of the page
/// that asks, and of its resource type. The same request always has the
/// same fingerprint.
pub open spec fn fingerprint_of(request: RequestView) -> u64 {
    mixed(
        text_hash(mixed(text_hash(0, request.0), FINGERPRINT_BREAK), request.1),
        request.2.ordinal(),
    )
}

impl Request {
    /// The fingerprint of this request.
    pub fn fingerprint(&self) -> (hash: u64)
        ensures
            hash == fingerprint_of(self@),
    {
        let url = hash_text(0, self.url.as_str());
        let both = hash_text(mix(url, FINGERPRINT_BREAK), self.source_url.as_str());
        mix(both, self.resource_type.number())
    }

    /// The request for `url` by the page at `source_url`, its resource type
    /// normalised from the caller's label.
    pub fn new(url: &str, source_url: &str, label: &str) -> (request: Request)
        ensures
            request@ == (url@, source_url@, ResourceType::of_label(label@)),
    {
        Request {
            url: url.to_owned(),
            source_url: source_url.to_owned(),
            resource_type: ResourceType::from_label(label),
        }
    }

    /// Whether two requests are the same.
    pub fn same(&self, other: &Request) -> (same: bool)
        ensures
            same == (self@ == other@),
    {
        self.resource_type == other.resource_type && same_text(
            self.url.as_str(),
            other.url.as_str(),
        ) && same_text(self.source_url.as_str(), other.source_url.as_str())
    }
}

/// A URL whose scheme never reaches the network: `data:`, `blob:`, or one
/// of the host's internal schemes. A scheme is given with its colon and is
/// compared as it is written.
pub open spec fn has_non_network_scheme(schemes: Seq<Seq<char>>, url: Seq<char>) -> bool {
    ||| "data:"@.is_prefix_of(url)
    ||| "blob:"@.is_prefix_of(url)
    ||| exists|i: int| 0 <= i < schemes.len() && (#[trigger] schemes[i]).is_prefix_of(url)
}

/// A URL in which an allow-listed domain stands somewhere.
pub open spec fn is_allow_listed(allowed: Seq<Seq<char>>, url: Seq<char>) -> bool {
    exists|i: int| 0 <= i < allowed.len() && occurs_in(url, #[trigger] allowed[i])
}

/// A request that is let through without asking the rules.
pub open spec fn bypasses(schemes: Seq<Seq<char>>, allowed: Seq<Seq<char>>, url: Seq<char>) -> bool {
    has_non_network_scheme(schemes, url) || is_allow_listed(allowed, url)
}

/// The verdict of the whole pipeline. `rules` is `None` while no rule set
/// is installed; nothing is blocked then.
pub open spec fn verdict(
    schemes: Seq<Seq<char>>,
    allowed: Seq<Seq<char>>,
    rules: Option<Seq<u8>>,
    url: Seq<char>,
    source_url: Seq<char>,
    label: Seq<char>,
) -> bool {
    if bypasses(schemes, allowed, url) {
        false
    } else {
        match rules {
            Some(compiled) => blocks(compiled, url, source_url, ResourceType::of_label(label).name()),
            None => false,
        }
    }
}

/// Which requests are let through without asking the rules.
pub struct MatchPolicy {
    internal_schemes: Vec<String>,
    allow_list: Vec<Vec<char>>,
}

impl MatchPolicy {
    /// The host's internal schemes.
    pub closed spec fn schemes(&self) -> Seq<Seq<char>> {
        self.internal_schemes.deep_view()
    }

    /// The allow-listed domains.
    pub closed spec fn allowed(&self) -> Seq<Seq<char>> {
        self.allow_list@.map_values(|domain: Vec<char>| domain@)
    }

    /// A policy with the given internal schemes and allow-listed domains.
    pub fn new(internal_schemes: Vec<String>, allow_list: &Vec<String>) -> (policy: MatchPolicy)
        ensures
            policy.schemes() == internal_schemes.deep_view(),
            policy.allowed() == allow_list.deep_view(),
    {
        let mut domains: Vec<Vec<char>> = Vec::new();
        let mut i: usize = 0;
        while i < allow_list.len()
            invariant
                i <= allow_list.len(),
                domains.len() == i,
                forall|k: int| 0 <= k < i ==> (#[trigger] domains[k])@ == allow_list[k]@,
            decreases allow_list.len() - i,
        {
            let domain = chars_of(allow_list[i].as_str());
            domains.push(domain);
            i += 1;
        }
        let policy = MatchPolicy { internal_schemes, allow_list: domains };
        assert(policy.allowed() =~= allow_list.deep_view());
        policy
    }

    /// The policy of the desktop shell: `tauri:` is internal, no domain is
    /// allow-listed.
    pub fn standard() -> (policy: MatchPolicy)
        ensures
            policy.schemes() == seq!["tauri:"@],
            policy.allowed() == Seq::<Seq<char>>::empty(),
    {
        let mut schemes: Vec<String> = Vec::new();
        schemes.push("tauri:".to_owned());
        let policy = MatchPolicy { internal_schemes: schemes, allow_list: Vec::new() };
        assert(policy.schemes() =~= seq!["tauri:"@]);
        assert(policy.allowed() =~= Seq::<Seq<char>>::empty());
        policy
    }

    /// Whether the scheme of `url` never reaches the network.
    pub fn is_non_network(&self, url: &str) -> (found: bool)
        ensures
            found == has_non_network_scheme(self.schemes(), url@),
    {
        if str_starts_with(url, "data:") || str_starts_with(url, "blob:") {
            return true;
        }
        let mut i: usize = 0;
        while i < self.internal_schemes.len()
            invariant
                i <= self.internal_schemes.len(),
                forall|k: int| 0 <= k < i ==> !(#[trigger] self.schemes()[k]).is_prefix_of(url@),
            decreases self.internal_schemes.len() - i,
        {
            if str_starts_with(url, self.internal_schemes[i].as_str()) {
                assert(self.schemes()[i as int] == self.internal_schemes[i as int]@);
                return true;
            }
            assert(self.schemes()[i as int] == self.internal_schemes[i as int]@);
            i += 1;
        }
        false
    }

    /// Whether an allow-listed domain stands in `url`.
    pub fn is_whitelisted(&self, url: &str) -> (found: bool)
        ensures
            found == is_allow_listed(self.allowed(), url@),
    {
        if self.allow_list.len() == 0 {
            return false;
        }
        let text = chars_of(url);
        let mut i: usize = 0;
        while i < self.allow_list.len()
            invariant
                i <= self.allow_list.len(),
                text@ == url@,
                forall|k: int| 0 <= k < i ==> !occurs_in(url@, #[trigger] self.allowed()[k]),
            decreases self.allow_list.len() - i,
        {
            assert(self.allowed()[i as int] == self.allow_list[i as int]@);
            if contains(&text, &self.allow_list[i]) {
                return true;
            }
            i += 1;
        }
        false
    }

    /// Whether a request for `url` is let through without asking the rules.
    pub fn is_bypassed(&self, url: &str) -> (found: bool)
        ensures
            found == bypasses(self.schemes(), self.allowed(), url@),
    {
        self.is_non_network(url) || self.is_whitelisted(url)
    }

    /// Runs the pipeline on one request, without any cache.
    pub fn check(
        &self,
        rules: &Option<CompiledRuleSet>,
        url: &str,
        source_url: &str,
        label: &str,
    ) -> (blocked: bool)
        ensures
            blocked == verdict(
                self.schemes(),
                self.allowed(),
                match rules {
                    Some(compiled) => Some(compiled@),
                    None => None,
                },
                url@,
                source_url@,
                label@,
            ),
    {
        if self.is_bypassed(url) {
            return false;
        }
        match rules {
            Some(compiled) => compiled.check(url, source_url, ResourceType::from_label(label).as_str()),
            None => false,
        }
    }
}

} // verus!
