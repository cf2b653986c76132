//! The AI client: request assembly, response reading, and the extraction,
//! strict parsing and deduplication of commit candidates from noisy model
//! output.
//!
//! The HTTP exchange itself happens outside this library: a caller sends the
//! request that [`Gemini::build_request`] assembles and hands the status and
//! body it got back to [`Gemini::handle_response`].

use vstd::prelude::*;

verus! {

use vstd::pervasive::VecAdditionalExecFns;

use crate::ai::json::{json_doc_of, parse_json, JsonDoc};
use crate::error::{ReviseError, ReviseResult};
use crate::text::chars_of;

/// The endpoint and the fixed persona prompt of one AI client.
#[derive(Debug, Clone)]
pub struct Gemini {
    pub prompt: String,
    pub url: String,
}

/// One structured candidate the model proposes.
#[derive(Debug, Clone, PartialEq, Eq)]
pub struct Commit {
    pub kind: String,
    pub message: String,
    pub body: String,
}

impl Commit {
    /// A copy whose fields read the same.
    pub fn duplicate(&self) -> (r: Commit)
        ensures
            r.kind@ == self.kind@,
            r.message@ == self.message@,
            r.body@ == self.body@,
    {
        Commit { kind: self.kind.clone(), message: self.message.clone(), body: self.body.clone() }
    }
}

/// One content part of a request or response turn.
#[derive(Debug, Clone)]
pub struct Part {
    pub text: Option<String>,
    pub inline_data: Option<InlineData>,
    pub file_data: Option<FileData>,
    pub video_metadata: Option<VideoMetadata>,
}

/// The author of a content turn.
#[derive(Debug, Clone, PartialEq, Eq)]
pub enum Role {
    User,
    Model,
}

/// One content turn: an author and its parts.
#[derive(Debug, Clone)]
pub struct Content {
    pub role: Role,
    pub parts: Vec<Part>,
}

#[derive(Debug, Clone)]
pub struct InlineData {
    pub mime_type: String,
    pub data: String,
}

#[derive(Debug, Clone)]
pub struct FileData {
    pub mime_type: String,
    pub file_uri: String,
}

#[derive(Debug, Clone)]
pub struct VideoMetadata {
    pub start_offset: StartOffset,
    pub end_offset: EndOffset,
}

#[derive(Debug, Clone)]
pub struct StartOffset {
    pub seconds: i32,
    pub nanos: i32,
}

#[derive(Debug, Clone)]
pub struct EndOffset {
    pub seconds: i32,
    pub nanos: i32,
}

#[derive(Debug, Clone)]
pub struct Tools {
    pub function_declarations: Vec<FunctionDeclaration>,
}

#[derive(Debug, Clone)]
pub struct FunctionDeclaration {
    pub name: String,
    pub description: String,
    pub parameters: serde_json::Value,
}

#[derive(Debug, Clone)]
pub struct SafetySettings {
    pub category: HarmCategory,
    pub threshold: HarmBlockThreshold,
}

/// Sampling settings; only the response format is ever set here.
#[derive(Debug, Clone)]
pub struct GenerationConfig {
    pub top_k: Option<i32>,
    pub candidate_count: Option<i32>,
    pub max_output_tokens: Option<i32>,
    pub stop_sequences: Option<Vec<String>>,
    pub response_mime_type: Option<String>,
}

#[derive(Debug, Clone)]
pub struct SystemInstructionContent {
    pub parts: Vec<SystemInstructionPart>,
}

#[derive(Debug, Clone)]
pub struct SystemInstructionPart {
    pub text: Option<String>,
}

#[derive(Debug, Clone, PartialEq, Eq)]
pub enum HarmCategory {
    HarmCategorySexuallyExplicit,
    HarmCategoryHateSpeech,
    HarmCategoryHarassment,
    HarmCategoryDangerousContent,
}

#[derive(Debug, Clone, PartialEq, Eq)]
pub enum HarmProbability {
    HarmProbabilityUnspecified,
    Negligible,
    Low,
    Medium,
    High,
}

#[derive(Debug, Clone, PartialEq, Eq)]
pub enum HarmBlockThreshold {
    BlockNone,
    BlockLowAndAbove,
    BlockMedAndAbove,
    BlockHighAndAbove,
}

/// The request body: ordered content turns and the generation settings.
#[derive(Debug, Clone)]
pub struct Request {
    pub contents: Vec<Content>,
    pub tools: Vec<Tools>,
    pub safety_settings: Vec<SafetySettings>,
    pub generation_config: Option<GenerationConfig>,
    pub system_instruction: Option<SystemInstructionContent>,
}

/// One candidate of a response.
#[derive(Debug, Clone)]
pub struct Candidate {
    pub content: Content,
}

/// The success body of the endpoint.
#[derive(Debug, Clone)]
pub struct GeminiResponse {
    pub candidates: Vec<Candidate>,
}

/// The bound on the HTTP call, in seconds.
pub const AI_TIMEOUT_SECS: u64 = 30;

/// The endpoint URL for `key`.
pub open spec fn spec_gemini_url(key: Seq<char>) -> Seq<char> {
    "https://generativelanguage.googleapis.com/v1beta/models/gemini-1.5-pro-latest:generateContent?key="@
        + key
}

/// A text-only user turn.
pub open spec fn is_text_turn(c: Content, text: Seq<char>) -> bool {
    &&& c.role == Role::User
    &&& c.parts@.len() == 1
    &&& c.parts@[0].text matches Some(t) && t@ == text
    &&& c.parts@[0].inline_data is None
    &&& c.parts@[0].file_data is None
    &&& c.parts@[0].video_metadata is None
}

impl Gemini {
    /// A client for the given API key: the fixed persona prompt and the
    /// endpoint URL carrying the key.
    pub fn new(key: &str) -> (g: Gemini)
        ensures
            g.url@ == spec_gemini_url(key@),
            g.prompt@ == PERSONA_PROMPT@,
    {
        let prompt = PERSONA_PROMPT.to_owned();
        let mut url = String::from_str(
            "https://generativelanguage.googleapis.com/v1beta/models/gemini-1.5-pro-latest:generateContent?key=",
        );
        url.append(key);
        Gemini { prompt, url }
    }

    /// The two-turn request for `input`: the persona prompt first, the
    /// caller's text second, both as user turns, with a JSON response asked
    /// for and nothing else set.
    pub fn build_request(&self, input: &str) -> (r: Request)
        ensures
            r.contents@.len() == 2,
            is_text_turn(r.contents@[0], self.prompt@),
            is_text_turn(r.contents@[1], input@),
            r.tools@.len() == 0,
            r.safety_settings@.len() == 0,
            r.generation_config matches Some(g) && (g.response_mime_type matches Some(m) && m@
                == "application/json"@) && g.top_k is None && g.candidate_count is None
                && g.max_output_tokens is None && g.stop_sequences is None,
            r.system_instruction is None,
    {
        let mut contents: Vec<Content> = Vec::new();
        contents.push(text_turn(self.prompt.as_str()));
        contents.push(text_turn(input));
        Request {
            contents,
            tools: Vec::new(),
            safety_settings: Vec::new(),
            generation_config: Some(
                GenerationConfig {
                    top_k: None,
                    candidate_count: None,
                    max_output_tokens: None,
                    stop_sequences: None,
                    response_mime_type: Some(String::from_str("application/json")),
                },
            ),
            system_instruction: None,
        }
    }
}

/// A text-only user turn holding `text`.
fn text_turn(text: &str) -> (c: Content)
    ensures
        is_text_turn(c, text@),
{
    let mut parts: Vec<Part> = Vec::new();
    parts.push(
        Part { text: Some(text.to_owned()), inline_data: None, file_data: None, video_metadata: None },
    );
    Content { role: Role::User, parts }
}

/// The fixed persona and output-grammar instruction sent as the first
/// request turn.
pub const PERSONA_PROMPT: &'static str = r#"
        # Character
            You're a brilliant coding buddy with top-notch proficiency in Git. Your main duty is to assist users in crafting clear and precise Git commit messages.

        ## Skills

        ### Skill 1: Multilingual Translation
        - Recognize translation requests in the format: "SourceLanguage:TargetLanguage; Content"
        - Identify requests starting with "这是一个翻译commit" as translation tasks
        - Translate the given content from the source language to the target language
        - Preserve the original text alongside the translation in the output
        - Adapt the translation to fit the context of Git commit messages
        - Example input: "中文:English; 这是一个翻译commit, 优化用户界面布局"
        - Example output:
          ```json
          [
            {
              "type": "translation",
              "message": "Optimize user interface layout",
              "body": "A long body with details about the changes made"
            },
            {
              "type": "translation",
              "message": "Optimize user interface layout",
              "body": "A long body with details about the changes made"
            },
            {
              "type": "translation",
              "message": "Optimize user interface layout",
              "body": "A long body with details about the changes made"
            }
          ]
          ```

        ### Skill 2: The Commit Message Maverick
        - Process the git diff or description given by the user
        - Curate commit messages that confidently and tersely summarize the changes made
        - Always provide exactly three alternative commit messages for each request
        - Ensure diversity in style and content among the three alternatives

        ## Output Format
        The outcome should adhere to the following structure:
        ```json
        [
          {"type": "<type>", "message": "<message>", "body": "<body>"},
          {"type": "<type>", "message": "<message>", "body": "<body>"},
          {"type": "<type>", "message": "<message>", "body": "<body>"}
        ]
        ```

        ## Constraints
        - Commit messages should be between 5-20 words
        - If the message surpasses this limit, abbreviate it without shedding essential details while employing the 'body' part for detailed elaboration
        - Do not write prefixes like "feat:", "fix:", etc. in the commit message, just put it in <type> part, and start the <message> with a verb
        - Guarantee that all dialogues are carried out in the English language, except for translation requests
        - Remain concentrated on tasks strictly linked with creating Git commit messages
        - Remember to always provide three distinct commit message options.

        ## Error Handling
        If the user's submission doesn't correspond with the demanded parameters, generate this response:
        ```json
        [{"type": "error", "message": "Request processing failure", "body":"The submitted input isn't compatible with the required parameters"}]
        ```

        "#;

/// The first position at or after `i` holding `[`.
pub open spec fn first_open(s: Seq<char>, i: int) -> Option<int>
    decreases s.len() - i when 0 <= i <= s.len()
{
    if i >= s.len() {
        None
    } else if s[i] == '[' {
        Some(i)
    } else {
        first_open(s, i + 1)
    }
}

/// The position of the `]` that closes the array a scan is inside of, given
/// that `depth` brackets are open just before position `i`.
pub open spec fn scan_end(s: Seq<char>, i: int, depth: int) -> Option<int>
    decreases s.len() - i when 0 <= i <= s.len()
{
    if i >= s.len() {
        None
    } else if s[i] == ']' && depth == 1 {
        Some(i)
    } else {
        let d = if s[i] == '[' {
            depth + 1
        } else if s[i] == ']' {
            depth - 1
        } else {
            depth
        };
        scan_end(s, i + 1, d)
    }
}

/// The first bracket-balanced array literal in `s`, brackets included, if
/// one is complete.
pub open spec fn spec_extract_array(s: Seq<char>) -> Option<Seq<char>> {
    match first_open(s, 0) {
        None => None,
        Some(b) => match scan_end(s, b + 1, 1) {
            None => None,
            Some(e) => Some(s.subrange(b, e + 1)),
        },
    }
}

/// A scan that still has more brackets open than characters left never
/// finds the closing bracket.
proof fn lemma_scan_end_short(s: Seq<char>, i: int, depth: int)
    requires
        0 <= i <= s.len(),
        depth > s.len() - i,
    ensures
        scan_end(s, i, depth) is None,
    decreases s.len() - i,
{
    if i < s.len() {
        let d = if s[i] == '[' {
            depth + 1
        } else if s[i] == ']' {
            depth - 1
        } else {
            depth
        };
        lemma_scan_end_short(s, i + 1, d);
    }
}

/// Locates the first bracket-balanced array substring of `text`: from the
/// first `[` to the bracket that balances it, both ends included. Nothing is
/// returned when no `[` occurs or the brackets never balance.
pub fn extract_json_array(text: &str) -> (r: Option<String>)
    ensures
        match r {
            Some(a) => spec_extract_array(text@) == Some(a@),
            None => spec_extract_array(text@) is None,
        },
{
    let cs = chars_of(text);
    let n = cs.len();
    let mut b: usize = 0;
    while b < n && cs[b] != '['
        invariant
            0 <= b <= n,
            n == cs@.len(),
            cs@ == text@,
            first_open(cs@, 0) == first_open(cs@, b as int),
        decreases n - b,
    {
        b = b + 1;
    }
    if b == n {
        return None;
    }
    let mut i = b + 1;
    let mut depth: usize = 1;
    while i < n
        invariant
            b < n == cs@.len(),
            cs@ == text@,
            cs@[b as int] == '[',
            first_open(cs@, 0) == Some(b as int),
            b + 1 <= i <= n,
            1 <= depth <= i - b,
            scan_end(cs@, b as int + 1, 1) == scan_end(cs@, i as int, depth as int),
        decreases n - i,
    {
        let c = cs[i];
        if c == ']' && depth == 1 {
            let sub = text.substring_char(b, i + 1);
            proof {
                assert(scan_end(cs@, i as int, depth as int) == Some(i as int));
                assert(sub@ == text@.subrange(b as int, i as int + 1));
            }
            return Some(sub.to_owned());
        }
        if c == '[' {
            if depth == usize::MAX {
                proof {
                    lemma_scan_end_short(cs@, i as int + 1, depth as int + 1);
                }
                return None;
            }
            depth = depth + 1;
        } else if c == ']' {
            depth = depth - 1;
        }
        i = i + 1;
    }
    None
}

/// The fingerprint a candidate is keyed and shown by.
pub open spec fn spec_fingerprint(message: Seq<char>, body: Seq<char>) -> Seq<char> {
    "Message: "@ + message + "\n\r"@ + "Body: "@ + body
}

/// The fingerprint of `c`: its message and body behind fixed labels.
pub fn fingerprint(c: &Commit) -> (r: String)
    ensures
        r@ == spec_fingerprint(c.message@, c.body@),
{
    let mut r = String::from_str("Message: ");
    r.append(c.message.as_str());
    r.append("\n\r");
    r.append("Body: ");
    r.append(c.body.as_str());
    proof {
        assert(r@ =~= spec_fingerprint(c.message@, c.body@));
    }
    r
}

/// The deduplicated candidates, keyed by fingerprint, in first-seen order.
#[derive(Debug, Clone)]
pub struct CandidateSet {
    entries: Vec<(String, Commit)>,
}

impl CandidateSet {
    /// The fingerprint keys, in order.
    pub closed spec fn spec_keys(&self) -> Seq<Seq<char>> {
        Seq::new(self.entries@.len(), |i: int| self.entries@[i].0@)
    }

    /// The candidate stored at position `i`.
    pub closed spec fn spec_at(&self, i: int) -> Commit {
        self.entries@[i].1
    }

    pub open spec fn spec_len(&self) -> nat {
        self.spec_keys().len()
    }

    pub open spec fn spec_contains_key(&self, k: Seq<char>) -> bool {
        exists|i: int| 0 <= i < self.spec_len() && self.spec_keys()[i] == k
    }

    /// Keys never repeat, and each key is the fingerprint of its candidate.
    pub open spec fn wf(&self) -> bool {
        &&& forall|i: int, j: int|
            0 <= i < j < self.spec_len() ==> self.spec_keys()[i] != self.spec_keys()[j]
        &&& forall|i: int|
            0 <= i < self.spec_len() ==> self.spec_keys()[i] == spec_fingerprint(
                (#[trigger] self.spec_at(i)).message@,
                self.spec_at(i).body@,
            )
    }

    pub fn new() -> (r: CandidateSet)
        ensures
            r.wf(),
            r.spec_len() == 0,
    {
        CandidateSet { entries: Vec::new() }
    }

    pub fn len(&self) -> (r: usize)
        ensures
            r == self.spec_len(),
    {
        self.entries.len()
    }

    /// The position of `k` among the keys, if it is there.
    fn find_key(&self, k: &str) -> (r: Option<usize>)
        ensures
            match r {
                Some(i) => i < self.spec_len() && self.spec_keys()[i as int] == k@,
                None => !self.spec_contains_key(k@),
            },
    {
        for i in 0..self.entries.len()
            invariant
                forall|j: int| 0 <= j < i ==> self.spec_keys()[j] != k@,
        {
            if crate::text::str_eq(self.entries[i].0.as_str(), k) {
                return Some(i);
            }
        }
        None
    }

    /// Puts `c` in under its fingerprint. A candidate whose message and body
    /// were already seen replaces the stored candidate and adds no entry, so
    /// the cardinality never exceeds the number of insertions and inserting
    /// a duplicate leaves it unchanged.
    pub fn insert(&mut self, c: Commit)
        requires
            old(self).wf(),
        ensures
            final(self).wf(),
            final(self).spec_contains_key(spec_fingerprint(c.message@, c.body@)),
            old(self).spec_contains_key(spec_fingerprint(c.message@, c.body@))
                ==> final(self).spec_keys() == old(self).spec_keys(),
            !old(self).spec_contains_key(spec_fingerprint(c.message@, c.body@))
                ==> final(self).spec_keys() == old(self).spec_keys().push(
                spec_fingerprint(c.message@, c.body@),
            ),
            final(self).spec_len() <= old(self).spec_len() + 1,
            exists|i: int|
                0 <= i < final(self).spec_len() && (#[trigger] final(self).spec_keys()[i])
                    == spec_fingerprint(c.message@, c.body@) && final(self).spec_at(i) == c,
            forall|i: int|
                0 <= i < old(self).spec_len() && (#[trigger] old(self).spec_keys()[i])
                    != spec_fingerprint(c.message@, c.body@) ==> final(self).spec_at(i) == old(
                    self,
                ).spec_at(i) && final(self).spec_keys()[i] == old(self).spec_keys()[i],
    {
        let key = fingerprint(&c);
        let ghost fp = spec_fingerprint(c.message@, c.body@);
        match self.find_key(key.as_str()) {
            Some(i) => {
                self.entries.set(i, (key, c));
                proof {
                    assert(self.spec_keys() =~= old(self).spec_keys());
                    assert(self.spec_keys()[i as int] == fp);
                    assert(self.spec_contains_key(fp));
                    assert(self.spec_at(i as int) == c);
                    assert forall|idx: int| 0 <= idx < self.spec_len() implies self.spec_keys()[idx]
                        == spec_fingerprint(
                        (#[trigger] self.spec_at(idx)).message@,
                        self.spec_at(idx).body@,
                    ) by {
                        if idx != i as int {
                            assert(self.spec_at(idx) == old(self).spec_at(idx));
                            assert(old(self).spec_keys()[idx] == spec_fingerprint(
                                old(self).spec_at(idx).message@,
                                old(self).spec_at(idx).body@,
                            ));
                        }
                    }
                }
            }
            None => {
                self.entries.push((key, c));
                proof {
                    let prior = old(self).spec_keys();
                    assert(self.spec_keys() =~= prior.push(fp));
                    assert(self.spec_keys()[prior.len() as int] == fp);
                    assert(self.spec_contains_key(fp));
                    assert(self.spec_at(prior.len() as int) == c);
                    assert forall|idx: int| 0 <= idx < self.spec_len() implies self.spec_keys()[idx]
                        == spec_fingerprint(
                        (#[trigger] self.spec_at(idx)).message@,
                        self.spec_at(idx).body@,
                    ) by {
                        if idx < prior.len() {
                            assert(self.spec_at(idx) == old(self).spec_at(idx));
                            assert(self.spec_keys()[idx] == prior[idx]);
                            assert(prior[idx] == spec_fingerprint(
                                old(self).spec_at(idx).message@,
                                old(self).spec_at(idx).body@,
                            ));
                        }
                    }
                    assert forall|a: int, b: int| 0 <= a < b < self.spec_len() implies self.spec_keys()[a]
                        != self.spec_keys()[b] by {
                        if b < prior.len() {
                            assert(prior[a] != prior[b]);
                        } else {
                            assert(!old(self).spec_contains_key(fp));
                            assert(self.spec_keys()[a] == prior[a]);
                        }
                    }
                }
            }
        }
    }

    /// The candidate stored under `k`, if the key is there.
    pub fn get(&self, k: &str) -> (r: Option<&Commit>)
        ensures
            match r {
                Some(c) => exists|i: int|
                    0 <= i < self.spec_len() && (#[trigger] self.spec_keys()[i]) == k@ && *c
                        == self.spec_at(i),
                None => !self.spec_contains_key(k@),
            },
    {
        match self.find_key(k) {
            Some(i) => Some(&self.entries[i].1),
            None => None,
        }
    }

    /// The fingerprint keys as strings, in order.
    pub fn keys(&self) -> (r: Vec<String>)
        ensures
            r@.len() == self.spec_len(),
            forall|i: int| 0 <= i < r@.len() ==> (#[trigger] r@[i])@ == self.spec_keys()[i],
    {
        let mut r: Vec<String> = Vec::new();
        for i in 0..self.entries.len()
            invariant
                r@.len() == i,
                forall|j: int| 0 <= j < i ==> (#[trigger] r@[j])@ == self.spec_keys()[j],
        {
            r.push(self.entries[i].0.clone());
        }
        r
    }

    /// Deduplicates a parsed candidate list. The keys are exactly the
    /// records' fingerprints in first-seen order, so the cardinality never
    /// exceeds the list's length; the candidate stored under each key is the
    /// last record with that fingerprint, as a mapping insert overwrites.
    pub fn from_candidates(list: Vec<Commit>) -> (r: CandidateSet)
        ensures
            r.wf(),
            r.spec_len() <= list@.len(),
            r.spec_keys() == spec_dedup_keys(list@, list@.len() as int),
            forall|j: int|
                0 <= j < list@.len() ==> r.spec_contains_key(
                    spec_fingerprint((#[trigger] list@[j]).message@, list@[j].body@),
                ),
            all_last_wins(list@, list@.len() as int, r),
    {
        let mut r = CandidateSet::new();
        for i in 0..list.len()
            invariant
                r.wf(),
                r.spec_len() <= i,
                r.spec_keys() == spec_dedup_keys(list@, i as int),
                forall|j: int|
                    0 <= j < i ==> r.spec_contains_key(
                        spec_fingerprint((#[trigger] list@[j]).message@, list@[j].body@),
                    ),
                all_last_wins(list@, i as int, r),
        {
            let c = list[i].duplicate();
            let ghost before = r;
            r.insert(c);
            proof {
                let fp = spec_fingerprint(list@[i as int].message@, list@[i as int].body@);
                assert(r.spec_contains_key(fp));
                assert forall|j: int| 0 <= j < i + 1 implies r.spec_contains_key(
                    spec_fingerprint((#[trigger] list@[j]).message@, list@[j].body@),
                ) by {
                    if j < i {
                        let fpj = spec_fingerprint(list@[j].message@, list@[j].body@);
                        assert(before.spec_contains_key(fpj));
                        let w = choose|k: int|
                            0 <= k < before.spec_len() && before.spec_keys()[k] == fpj;
                        assert(r.spec_keys()[w] == fpj);
                    }
                }
                if before.spec_contains_key(fp) {
                    assert(spec_dedup_keys(list@, i as int).contains(fp)) by {
                        let w = choose|k: int|
                            0 <= k < before.spec_len() && before.spec_keys()[k] == fp;
                        assert(spec_dedup_keys(list@, i as int)[w] == fp);
                    }
                    assert(r.spec_keys() =~= spec_dedup_keys(list@, i + 1));
                } else {
                    assert(!spec_dedup_keys(list@, i as int).contains(fp)) by {
                        if spec_dedup_keys(list@, i as int).contains(fp) {
                            let w = choose|k: int|
                                0 <= k < spec_dedup_keys(list@, i as int).len()
                                    && spec_dedup_keys(list@, i as int)[k] == fp;
                            assert(before.spec_keys()[w] == fp);
                        }
                    }
                    assert(r.spec_keys() =~= spec_dedup_keys(list@, i + 1));
                }
                assert(all_last_wins(list@, i as int, before));
                let iw = choose|w: int|
                    0 <= w < r.spec_len() && (#[trigger] r.spec_keys()[w]) == fp && r.spec_at(w)
                        == c;
                assert forall|k: int| 0 <= k < r.spec_len() implies #[trigger] spec_last_wins(
                    list@,
                    i + 1,
                    r,
                    k,
                ) by {
                    if r.spec_keys()[k] == fp {
                        assert(k == iw) by {
                            if k != iw {
                                assert(r.spec_keys()[k] != r.spec_keys()[iw]);
                            }
                        }
                        assert(spec_last_index_of(list@, i + 1, fp) == i);
                        assert(spec_candidate_matches(list@[i as int], r.spec_at(k)));
                    } else {
                        assert(k < before.spec_len() && before.spec_keys()[k] == r.spec_keys()[k]
                            && r.spec_at(k) == before.spec_at(k)) by {
                            if before.spec_contains_key(fp) {
                                assert(r.spec_keys() == before.spec_keys());
                            } else {
                                assert(r.spec_keys() == before.spec_keys().push(fp));
                                assert(k < before.spec_len()) by {
                                    if k == before.spec_len() as int {
                                        assert(r.spec_keys()[k] == fp);
                                    }
                                }
                            }
                        }
                        assert(spec_last_wins(list@, i as int, before, k));
                        assert(spec_last_index_of(list@, i + 1, r.spec_keys()[k])
                            == spec_last_index_of(list@, i as int, before.spec_keys()[k]));
                    }
                }
                assert(all_last_wins(list@, i + 1, r));
            }
        }
        r
    }
}

/// Whether the stored candidate `c` reads the same as the record `rec`.
pub open spec fn spec_candidate_matches(rec: Commit, c: Commit) -> bool {
    c.kind@ == rec.kind@ && c.message@ == rec.message@ && c.body@ == rec.body@
}

/// The position of the last record among the first `n` of `list` whose
/// fingerprint is `fp`, or a negative value when none has it.
pub open spec fn spec_last_index_of(list: Seq<Commit>, n: int, fp: Seq<char>) -> int
    decreases n,
{
    if n <= 0 {
        -1
    } else if spec_fingerprint(list[n - 1].message@, list[n - 1].body@) == fp {
        n - 1
    } else {
        spec_last_index_of(list, n - 1, fp)
    }
}

/// The candidate stored at position `k` of `set` reads as the last record
/// among the first `n` of `list` whose fingerprint is that key: a mapping
/// insert overwrites, so the last duplicate wins.
pub open spec fn spec_last_wins(list: Seq<Commit>, n: int, set: CandidateSet, k: int) -> bool {
    let j = spec_last_index_of(list, n, set.spec_keys()[k]);
    0 <= j < n && spec_candidate_matches(list[j], set.spec_at(k))
}

/// Every stored candidate is the last record with its key's fingerprint.
pub open spec fn all_last_wins(list: Seq<Commit>, n: int, set: CandidateSet) -> bool {
    forall|k: int| 0 <= k < set.spec_len() ==> #[trigger] spec_last_wins(list, n, set, k)
}

/// The fingerprints of the first `n` records, in first-seen order, each
/// once.
pub open spec fn spec_dedup_keys(list: Seq<Commit>, n: int) -> Seq<Seq<char>>
    decreases n,
{
    if n <= 0 {
        Seq::empty()
    } else {
        let k = spec_dedup_keys(list, n - 1);
        let fp = spec_fingerprint(list[n - 1].message@, list[n - 1].body@);
        if k.contains(fp) {
            k
        } else {
            k.push(fp)
        }
    }
}

/// The string member of `d` under `key`, when `d` is an object holding one.
pub open spec fn spec_member_str(d: JsonDoc, key: Seq<char>) -> Option<Seq<char>> {
    match d.spec_get(key) {
        Some(JsonDoc::Str(s)) => Some(s@),
        _ => None,
    }
}

/// The string member of `d` under `key`, when `d` is an object holding one.
fn member_str(d: &JsonDoc, key: &str) -> (r: Option<String>)
    ensures
        match r {
            Some(s) => spec_member_str(*d, key@) == Some(s@),
            None => spec_member_str(*d, key@) is None,
        },
{
    match d.get_member(key) {
        Some(m) => match m.as_text() {
            Some(s) => Some(s.clone()),
            None => None,
        },
        None => None,
    }
}

/// The candidate record `d` carries, when it is an object with string
/// members `type`, `message` and `body`; the record as field views.
pub open spec fn spec_record(d: JsonDoc) -> Option<(Seq<char>, Seq<char>, Seq<char>)> {
    match (spec_member_str(d, "type"@), spec_member_str(d, "message"@), spec_member_str(
        d,
        "body"@,
    )) {
        (Some(k), Some(m), Some(b)) => Some((k, m, b)),
        _ => None,
    }
}

/// The records of the first `n` items, when every one of them is a
/// well-formed record.
pub open spec fn spec_records_of(items: Seq<JsonDoc>, n: int) -> Option<
    Seq<(Seq<char>, Seq<char>, Seq<char>)>,
>
    decreases n,
{
    if n <= 0 {
        Some(Seq::empty())
    } else {
        match (spec_records_of(items, n - 1), spec_record(items[n - 1])) {
            (Some(rs), Some(rec)) => Some(rs.push(rec)),
            _ => None,
        }
    }
}

/// The ordered candidate records of `d`, when `d` is an array of
/// well-formed records.
pub open spec fn spec_records(d: JsonDoc) -> Option<Seq<(Seq<char>, Seq<char>, Seq<char>)>> {
    match d {
        JsonDoc::Arr(items) => spec_records_of(items@, items@.len() as int),
        _ => None,
    }
}

/// One malformed item makes the whole record list malformed.
proof fn lemma_records_of_bad(items: Seq<JsonDoc>, n: int, i: int)
    requires
        0 <= i < n,
        spec_record(items[i]) is None,
    ensures
        spec_records_of(items, n) is None,
    decreases n,
{
    if n - 1 > i {
        lemma_records_of_bad(items, n - 1, i);
    }
}

/// Whether the parsed candidates read as the records, field by field.
pub open spec fn spec_commits_match(
    list: Seq<Commit>,
    recs: Seq<(Seq<char>, Seq<char>, Seq<char>)>,
) -> bool {
    &&& list.len() == recs.len()
    &&& forall|i: int|
        0 <= i < list.len() ==> ((#[trigger] list[i]).kind@ == recs[i].0 && list[i].message@
            == recs[i].1 && list[i].body@ == recs[i].2)
}

/// Parses `arr_text` strictly as an ordered sequence of candidate records:
/// one JSON document that is an array of objects, each carrying string
/// members `type`, `message` and `body`. Exactly anything else fails.
fn parse_candidates(arr_text: &str) -> (r: Option<Vec<Commit>>)
    ensures
        match r {
            Some(list) => (json_doc_of(arr_text@) matches Some(doc) && spec_records(
                doc,
            ) matches Some(recs) && spec_commits_match(list@, recs)),
            None => (match json_doc_of(arr_text@) {
                Some(doc) => spec_records(doc) is None,
                None => true,
            }),
        },
{
    let doc = match parse_json(arr_text) {
        Some(d) => d,
        None => {
            return None;
        }
    };
    let items = match doc.as_items() {
        Some(l) => l,
        None => {
            return None;
        }
    };
    let mut out: Vec<Commit> = Vec::new();
    for i in 0..items.len()
        invariant
            json_doc_of(arr_text@) == Some(doc),
            doc matches JsonDoc::Arr(l) && l == *items,
            spec_records_of(items@, i as int) matches Some(rs) && spec_commits_match(out@, rs),
    {
        let kind = match member_str(&items[i], "type") {
            Some(s) => s,
            None => {
                proof {
                    lemma_records_of_bad(items@, items@.len() as int, i as int);
                }
                return None;
            }
        };
        let message = match member_str(&items[i], "message") {
            Some(s) => s,
            None => {
                proof {
                    lemma_records_of_bad(items@, items@.len() as int, i as int);
                }
                return None;
            }
        };
        let body = match member_str(&items[i], "body") {
            Some(s) => s,
            None => {
                proof {
                    lemma_records_of_bad(items@, items@.len() as int, i as int);
                }
                return None;
            }
        };
        out.push(Commit { kind, message, body });
        proof {
            let rs = spec_records_of(items@, i as int)->0;
            assert(spec_record(items@[i as int]) is Some);
            assert(spec_records_of(items@, i + 1) matches Some(rs2) && rs2 == rs.push(
                spec_record(items@[i as int])->0,
            ));
        }
    }
    Some(out)
}

/// A parse failure carrying `message`.
fn parse_error(message: &str) -> (r: ReviseError)
    ensures
        r matches ReviseError::Parse { .. },
{
    ReviseError::Parse { message: message.to_owned() }
}

/// The last record among the first `n` whose fingerprint is `fp`, or a
/// negative value when none has it.
pub open spec fn spec_last_record_index(
    recs: Seq<(Seq<char>, Seq<char>, Seq<char>)>,
    n: int,
    fp: Seq<char>,
) -> int
    decreases n,
{
    if n <= 0 {
        -1
    } else if spec_fingerprint(recs[n - 1].1, recs[n - 1].2) == fp {
        n - 1
    } else {
        spec_last_record_index(recs, n - 1, fp)
    }
}

/// The fingerprints of the first `n` records, in first-seen order, each
/// once.
pub open spec fn spec_dedup_record_keys(
    recs: Seq<(Seq<char>, Seq<char>, Seq<char>)>,
    n: int,
) -> Seq<Seq<char>>
    decreases n,
{
    if n <= 0 {
        Seq::empty()
    } else {
        let k = spec_dedup_record_keys(recs, n - 1);
        let fp = spec_fingerprint(recs[n - 1].1, recs[n - 1].2);
        if k.contains(fp) {
            k
        } else {
            k.push(fp)
        }
    }
}

/// What the deduplicated set of the records holds: the keys are the
/// records' fingerprints in first-seen order, and each key's candidate
/// reads as the last record with that fingerprint.
pub open spec fn spec_set_of_records(
    recs: Seq<(Seq<char>, Seq<char>, Seq<char>)>,
    cs: CandidateSet,
) -> bool {
    &&& cs.wf()
    &&& cs.spec_keys() == spec_dedup_record_keys(recs, recs.len() as int)
    &&& forall|j: int|
        0 <= j < recs.len() ==> cs.spec_contains_key(
            spec_fingerprint((#[trigger] recs[j]).1, recs[j].2),
        )
    &&& forall|k: int|
        0 <= k < cs.spec_len() ==> {
            let j = spec_last_record_index(recs, recs.len() as int, #[trigger] cs.spec_keys()[k]);
            &&& 0 <= j < recs.len()
            &&& cs.spec_at(k).kind@ == recs[j].0
            &&& cs.spec_at(k).message@ == recs[j].1
            &&& cs.spec_at(k).body@ == recs[j].2
        }
}

/// Candidates that read as the records dedup alike: the keys and the
/// last-record indexes agree.
proof fn lemma_records_bridge(
    list: Seq<Commit>,
    recs: Seq<(Seq<char>, Seq<char>, Seq<char>)>,
    n: int,
)
    requires
        spec_commits_match(list, recs),
        0 <= n <= list.len(),
    ensures
        spec_dedup_keys(list, n) == spec_dedup_record_keys(recs, n),
        forall|fp: Seq<char>|
            #[trigger] spec_last_index_of(list, n, fp) == spec_last_record_index(recs, n, fp),
    decreases n,
{
    if n > 0 {
        lemma_records_bridge(list, recs, n - 1);
        assert(spec_fingerprint(list[n - 1].message@, list[n - 1].body@) == spec_fingerprint(
            recs[n - 1].1,
            recs[n - 1].2,
        ));
        assert(spec_dedup_keys(list, n) =~= spec_dedup_record_keys(recs, n));
        assert forall|fp: Seq<char>| #[trigger] spec_last_index_of(list, n, fp)
            == spec_last_record_index(recs, n, fp) by {
            assert(spec_last_index_of(list, n - 1, fp) == spec_last_record_index(recs, n - 1, fp));
        }
    }
}

/// The candidate records the model text carries: the first bracket-balanced
/// array substring, parsed strictly.
pub open spec fn spec_parsed_records(text: Seq<char>) -> Option<
    Seq<(Seq<char>, Seq<char>, Seq<char>)>,
> {
    match spec_extract_array(text) {
        None => None,
        Some(arr) => match json_doc_of(arr) {
            None => None,
            Some(d) => spec_records(d),
        },
    }
}

/// Extracts the first bracket-balanced array from the model's text, parses
/// it strictly as candidate records, and deduplicates them by fingerprint:
/// the result is the records' set exactly when the text carries such an
/// array, and a parse error exactly otherwise.
pub fn candidates_from_text(text: &str) -> (r: ReviseResult<CandidateSet>)
    ensures
        r is Ok <==> spec_parsed_records(text@) is Some,
        match r {
            Ok(cs) => spec_set_of_records(spec_parsed_records(text@)->0, cs),
            Err(e) => e matches ReviseError::Parse { .. },
        },
{
    let arr = match extract_json_array(text) {
        Some(a) => a,
        None => {
            return Err(parse_error("no array found in response text"));
        }
    };
    let list = match parse_candidates(arr.as_str()) {
        Some(l) => l,
        None => {
            return Err(parse_error("malformed candidate array"));
        }
    };
    let ghost recs = spec_parsed_records(text@)->0;
    let r = CandidateSet::from_candidates(list);
    proof {
        lemma_records_bridge(list@, recs, list@.len() as int);
        assert forall|j: int| 0 <= j < recs.len() implies r.spec_contains_key(
            spec_fingerprint((#[trigger] recs[j]).1, recs[j].2),
        ) by {
            assert(r.spec_contains_key(spec_fingerprint(list@[j].message@, list@[j].body@)));
        }
        assert forall|k: int| 0 <= k < r.spec_len() implies {
            let j = spec_last_record_index(recs, recs.len() as int, #[trigger] r.spec_keys()[k]);
            &&& 0 <= j < recs.len()
            &&& r.spec_at(k).kind@ == recs[j].0
            &&& r.spec_at(k).message@ == recs[j].1
            &&& r.spec_at(k).body@ == recs[j].2
        } by {
            assert(spec_last_wins(list@, list@.len() as int, r, k));
            let j = spec_last_index_of(list@, list@.len() as int, r.spec_keys()[k]);
            assert(spec_last_record_index(recs, recs.len() as int, r.spec_keys()[k]) == j);
        }
    }
    Ok(r)
}

/// The text of the first candidate's first content part in the endpoint's
/// success body.
pub open spec fn spec_first_candidate_text(doc: JsonDoc) -> Option<Seq<char>> {
    match doc.spec_get("candidates"@) {
        Some(JsonDoc::Arr(cands)) => {
            if cands@.len() == 0 {
                None
            } else {
                match cands@[0].spec_get("content"@) {
                    Some(content) => match content.spec_get("parts"@) {
                        Some(JsonDoc::Arr(parts)) => {
                            if parts@.len() == 0 {
                                None
                            } else {
                                match parts@[0].spec_get("text"@) {
                                    Some(JsonDoc::Str(t)) => Some(t@),
                                    _ => None,
                                }
                            }
                        },
                        _ => None,
                    },
                    None => None,
                }
            }
        },
        _ => None,
    }
}

/// The text of the first candidate's first content part in the endpoint's
/// success body; each missing layer is its own parse error, and there is
/// one exactly when the body is not JSON or some layer is missing.
fn first_candidate_text(body: &str) -> (r: ReviseResult<String>)
    ensures
        match r {
            Ok(t) => (json_doc_of(body@) matches Some(doc) && spec_first_candidate_text(doc)
                == Some(t@)),
            Err(e) => (e matches ReviseError::Parse { .. }) && (match json_doc_of(body@) {
                Some(doc) => spec_first_candidate_text(doc) is None,
                None => true,
            }),
        },
{
    let doc = match parse_json(body) {
        Some(d) => d,
        None => {
            return Err(parse_error("response body is not JSON"));
        }
    };
    let candidates = match doc.get_member("candidates") {
        Some(c) => c,
        None => {
            return Err(parse_error("No candidates found"));
        }
    };
    let list = match candidates.as_items() {
        Some(l) => l,
        None => {
            return Err(parse_error("No candidates found"));
        }
    };
    if list.len() == 0 {
        return Err(parse_error("No candidates found"));
    }
    let content = match list[0].get_member("content") {
        Some(c) => c,
        None => {
            return Err(parse_error("No parts found"));
        }
    };
    let parts = match content.get_member("parts") {
        Some(p) => p,
        None => {
            return Err(parse_error("No parts found"));
        }
    };
    let parts_list = match parts.as_items() {
        Some(l) => l,
        None => {
            return Err(parse_error("No parts found"));
        }
    };
    if parts_list.len() == 0 {
        return Err(parse_error("No parts found"));
    }
    let text = match parts_list[0].get_member("text") {
        Some(t) => t,
        None => {
            return Err(parse_error("No text found"));
        }
    };
    match text.as_text() {
        Some(s) => Ok(s.clone()),
        None => Err(parse_error("No text found")),
    }
}

/// Whether the endpoint's success body yields candidates: it is JSON, its
/// first candidate's first part holds text, and that text carries a
/// bracket-balanced array of well-formed records.
pub open spec fn spec_response_ok(body: Seq<char>) -> bool {
    &&& json_doc_of(body) is Some
    &&& spec_first_candidate_text(json_doc_of(body)->0) is Some
    &&& spec_parsed_records(spec_first_candidate_text(json_doc_of(body)->0)->0) is Some
}

impl Gemini {
    /// Turns the endpoint's answer into the deduplicated candidate set. Any
    /// status other than 200 is the API error carrying that status and the
    /// body as received. On 200 the result is the deduplicated set of the
    /// records in the body's first candidate text exactly when the body
    /// yields them, and a parse error exactly otherwise.
    pub fn handle_response(&self, status: u16, body: &str) -> (r: ReviseResult<CandidateSet>)
        ensures
            status != 200 ==> (r matches Err(ReviseError::Api { status: s, body: b }) && s
                == status && b@ == body@),
            status == 200 ==> (r is Ok <==> spec_response_ok(body@)),
            status == 200 ==> match r {
                Ok(cs) => spec_set_of_records(
                    spec_parsed_records(
                        spec_first_candidate_text(json_doc_of(body@)->0)->0,
                    )->0,
                    cs,
                ),
                Err(e) => e matches ReviseError::Parse { .. },
            },
    {
        if status != 200 {
            return Err(ReviseError::Api { status, body: body.to_owned() });
        }
        let text = match first_candidate_text(body) {
            Ok(t) => t,
            Err(e) => {
                return Err(e);
            }
        };
        candidates_from_text(text.as_str())
    }
}

} // verus!
