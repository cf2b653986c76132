//! The configuration value object handed to every component.
//!
//! Loading a configuration file and reading the environment happen outside
//! this library; the composition core only reads the plain values held here.

use vstd::prelude::*;

verus! {

use crate::text::spaces;

/// One selectable commit type: a short key and its description.
#[derive(Debug, Clone)]
pub struct Type {
    pub key: String,
    pub value: String,
}

/// The emoji shown for a commit type.
#[derive(Debug, Clone)]
pub struct Emoji {
    pub key: String,
    pub value: String,
}

#[derive(Debug, Clone, Copy)]
pub struct AutoGit {
    pub add: bool,
    pub push: bool,
    pub diff: bool,
    pub footer: bool,
}

#[derive(Debug, Clone, Copy)]
pub struct AutoCommit {
    pub content: bool,
    pub footer: bool,
}

#[derive(Debug, Clone, Copy)]
pub struct Auto {
    pub git: AutoGit,
    pub commit: AutoCommit,
}

#[derive(Debug, Clone)]
pub struct Render {}

/// One configured hook command.
#[derive(Debug, Clone)]
pub struct Hook {
    pub command: String,
    pub order: Option<u32>,
    pub skip: Option<bool>,
}

/// All configuration the composition core reads.
#[derive(Debug, Clone)]
pub struct ReviseConfig {
    pub template: String,
    pub types: Vec<Type>,
    pub emojis: Vec<Emoji>,
    pub scopes: Vec<String>,
    pub auto: Auto,
    pub api_key: Vec<(String, String)>,
    pub exclude_files: Vec<String>,
    pub hooks: Vec<(crate::hook::HookType, Vec<Hook>)>,
}

impl Type {
    /// The key and the description run together, with nothing between them.
    pub fn get_type(&self) -> (r: String)
        ensures
            r@ == self.key@ + self.value@,
    {
        let mut r = self.key.clone();
        r.append(self.value.as_str());
        r
    }
}

/// The length of the longest key among `types`, or `fallback` if there is none.
pub open spec fn spec_max_key_len(types: Seq<Type>, fallback: nat) -> nat
    decreases types.len(),
{
    if types.len() == 0 {
        fallback
    } else {
        let rest = spec_max_key_len(types.drop_last(), fallback);
        let last = types.last().key@.len();
        if types.len() == 1 {
            last
        } else if last > rest {
            last
        } else {
            rest
        }
    }
}

/// The label shown for a type: `key`, a colon, enough spaces to align every
/// description one column past the longest key, then the description.
pub open spec fn spec_type_label(t: Type, width: nat) -> Seq<char> {
    t.key@ + seq![':'] + spaces((width - t.key@.len()) as nat) + t.value@
}

/// The template text the built-in configuration carries.
pub open spec fn default_template() -> Seq<char> {
    "
{{commit_icon}} {{ commit_type }}{% if commit_scope %}({{commit_scope}}){% endif %}{% if commit_breaking %}!{% endif %}: {{ commit_subject }}{% if commit_issue %}({{commit_issue}}){% endif %}
{% if commit_body %}\n{{ commit_body }}{% endif %}
{% if commit_breaking %}\nBREAKING CHANGE: {{ commit_breaking }}{% endif %}"@
}

/// What the built-in configuration holds: the conventional eleven commit
/// types with their descriptions and emojis, no scopes, no automation, no
/// API keys, and the default template.
pub open spec fn is_default_config(c: ReviseConfig) -> bool {
    &&& c.template@ == default_template()
    &&& c.types@.len() == 11
    &&& c.types@[0].key@ == "feat"@ && c.types@[0].value@ == "A new feature"@
    &&& c.types@[1].key@ == "fix"@ && c.types@[1].value@ == "A bug fix"@
    &&& c.types@[2].key@ == "docs"@ && c.types@[2].value@ == "Documentation only changes"@
    &&& c.types@[3].key@ == "style"@ && c.types@[3].value@
        == "Changes that do not affect the meaning of the code"@
    &&& c.types@[4].key@ == "refactor"@ && c.types@[4].value@
        == "A code change that neither fixes a bug nor adds a feature"@
    &&& c.types@[5].key@ == "perf"@ && c.types@[5].value@
        == "A code change that improves performance"@
    &&& c.types@[6].key@ == "test"@ && c.types@[6].value@
        == "Adding missing tests or correcting existing tests"@
    &&& c.types@[7].key@ == "build"@ && c.types@[7].value@
        == "Changes that affect the build system or external dependencies"@
    &&& c.types@[8].key@ == "ci"@ && c.types@[8].value@
        == "Changes to our CI configuration files and scripts"@
    &&& c.types@[9].key@ == "chore"@ && c.types@[9].value@
        == "Other changes that don\"t modify src or test files"@
    &&& c.types@[10].key@ == "revert"@ && c.types@[10].value@ == "Reverts a previous commit"@
    &&& c.emojis@.len() == 11
    &&& forall|i: int| 0 <= i < 11 ==> (#[trigger] c.emojis@[i]).key@ == c.types@[i].key@
    &&& c.emojis@[0].value@ == "\u{2728}"@
    &&& c.emojis@[1].value@ == "\u{1f41b}"@
    &&& c.emojis@[2].value@ == "\u{1f4da}"@
    &&& c.emojis@[3].value@ == "\u{1f3a8}"@
    &&& c.emojis@[4].value@ == "\u{267b}\u{fe0f}"@
    &&& c.emojis@[5].value@ == "\u{26a1}\u{fe0f}"@
    &&& c.emojis@[6].value@ == "\u{2705}"@
    &&& c.emojis@[7].value@ == "\u{1f4e6}\u{fe0f}"@
    &&& c.emojis@[8].value@ == "\u{2699}\u{fe0f}"@
    &&& c.emojis@[9].value@ == "\u{1f528}"@
    &&& c.emojis@[10].value@ == "\u{1f519}"@
    &&& c.scopes@.len() == 0
    &&& c.auto.git.add == false && c.auto.git.push == false && c.auto.git.diff == false
        && c.auto.git.footer == false
    &&& c.auto.commit.content == false && c.auto.commit.footer == false
    &&& c.api_key@.len() == 0
    &&& c.exclude_files@.len() == 0
    &&& c.hooks@.len() == 0
}

impl ReviseConfig {
    pub fn new() -> (r: ReviseConfig)
        ensures
            is_default_config(r),
    {
        Self::default()
    }

    /// The labels offered when selecting a commit type, one per configured
    /// type, each padded so the descriptions line up. Lengths are counted in
    /// characters.
    pub fn get_types(&self) -> (r: Vec<String>)
        ensures
            r@.len() == self.types@.len(),
            forall|i: int|
                0 <= i < r@.len() ==> #[trigger] r@[i]@ == spec_type_label(
                    self.types@[i],
                    spec_max_key_len(self.types@, 5) + 1,
                ),
    {
        let mut max_len: usize = if self.types.len() == 0 {
            5
        } else {
            0
        };
        for i in it: 0..self.types.len()
            invariant
                self.types@.len() <= usize::MAX,
                if i == 0 && self.types@.len() > 0 {
                    max_len == 0
                } else {
                    max_len == spec_max_key_len(self.types@.subrange(0, i as int), 5)
                },
                forall|j: int| 0 <= j < i ==> #[trigger] self.types@[j].key@.len() <= max_len,
                max_len <= usize::MAX,
        {
            let k = self.types[i].key.unicode_len();
            if i == 0 || k > max_len {
                max_len = k;
            }
            proof {
                assert(self.types@.subrange(0, i + 1).drop_last() =~= self.types@.subrange(
                    0,
                    i as int,
                ));
            }
        }
        proof {
            if self.types@.len() > 0 {
                assert(self.types@.subrange(0, self.types@.len() as int) =~= self.types@);
            }
        }
        let mut r: Vec<String> = Vec::new();
        for i in 0..self.types.len()
            invariant
                r@.len() == i,
                max_len == spec_max_key_len(self.types@, 5),
                forall|j: int|
                    0 <= j < self.types@.len() ==> (#[trigger] self.types@[j]).key@.len()
                        <= max_len,
                forall|j: int|
                    0 <= j < i ==> #[trigger] r@[j]@ == spec_type_label(
                        self.types@[j],
                        max_len as nat + 1,
                    ),
        {
            let t = &self.types[i];
            let mut label = t.key.clone();
            label.append(":");
            let pad = max_len - t.key.unicode_len();
            crate::text::push_spaces(&mut label, pad);
            label.append(" ");
            label.append(t.value.as_str());
            proof {
                reveal_strlit(":");
                reveal_strlit(" ");
                assert(":"@ =~= seq![':']);
                assert(" "@ =~= seq![' ']);
                assert(spaces(pad as nat).push(' ') =~= spaces(pad as nat + 1));
                assert(label@ =~= spec_type_label(self.types@[i as int], max_len as nat + 1));
            }
            r.push(label);
        }
        r
    }

    /// The key of the type at position `idx`, if there is one.
    pub fn get_type_key(&self, idx: usize) -> (r: Option<String>)
        ensures
            idx < self.types@.len() ==> (r matches Some(k) && k@ == self.types@[idx as int].key@),
            idx >= self.types@.len() ==> r is None,
    {
        if idx < self.types.len() {
            Some(self.types[idx].key.clone())
        } else {
            None
        }
    }

    /// The emoji configured for `key`: the value of the first entry whose key
    /// matches, if any matches.
    pub fn get_emoji(&self, key: &str) -> (r: Option<String>)
        ensures
            match r {
                Some(v) => exists|i: int|
                    {
                        &&& 0 <= i < self.emojis@.len()
                        &&& (#[trigger] self.emojis@[i]).key@ == key@
                        &&& v@ == self.emojis@[i].value@
                        &&& forall|j: int|
                            0 <= j < i ==> (#[trigger] self.emojis@[j]).key@ != key@
                    },
                None => forall|i: int|
                    0 <= i < self.emojis@.len() ==> (#[trigger] self.emojis@[i]).key@ != key@,
            },
    {
        for i in it: 0..self.emojis.len()
            invariant
                forall|j: int| 0 <= j < i ==> (#[trigger] self.emojis@[j]).key@ != key@,
        {
            if crate::text::str_eq(self.emojis[i].key.as_str(), key) {
                return Some(self.emojis[i].value.clone());
            }
        }
        None
    }

    pub fn get_scopes(&self) -> (r: Vec<String>)
        ensures
            r@ == self.scopes@,
    {
        self.scopes.clone()
    }

    /// The API key stored under `name`, if any entry carries that name.
    pub fn get_api_key(&self, name: &str) -> (r: Option<String>)
        ensures
            match r {
                Some(v) => exists|i: int|
                    {
                        &&& 0 <= i < self.api_key@.len()
                        &&& (#[trigger] self.api_key@[i]).0@ == name@
                        &&& v@ == self.api_key@[i].1@
                        &&& forall|j: int|
                            0 <= j < i ==> (#[trigger] self.api_key@[j]).0@ != name@
                    },
                None => forall|i: int|
                    0 <= i < self.api_key@.len() ==> (#[trigger] self.api_key@[i]).0@ != name@,
            },
    {
        for i in it: 0..self.api_key.len()
            invariant
                forall|j: int| 0 <= j < i ==> (#[trigger] self.api_key@[j]).0@ != name@,
        {
            if crate::text::str_eq(self.api_key[i].0.as_str(), name) {
                return Some(self.api_key[i].1.clone());
            }
        }
        None
    }
}

/// A commit type entry built from two literals.
fn ty(key: &str, value: &str) -> (t: Type)
    ensures
        t.key@ == key@,
        t.value@ == value@,
{
    Type { key: key.to_owned(), value: value.to_owned() }
}

/// An emoji entry built from two literals.
fn em(key: &str, value: &str) -> (e: Emoji)
    ensures
        e.key@ == key@,
        e.value@ == value@,
{
    Emoji { key: key.to_owned(), value: value.to_owned() }
}

impl Default for ReviseConfig {
    fn default() -> (r: Self)
        ensures
            is_default_config(r),
    {
        let mut types: Vec<Type> = Vec::new();
        types.push(ty("feat", "A new feature"));
        types.push(ty("fix", "A bug fix"));
        types.push(ty("docs", "Documentation only changes"));
        types.push(ty("style", "Changes that do not affect the meaning of the code"));
        types.push(ty("refactor", "A code change that neither fixes a bug nor adds a feature"));
        types.push(ty("perf", "A code change that improves performance"));
        types.push(ty("test", "Adding missing tests or correcting existing tests"));
        types.push(ty("build", "Changes that affect the build system or external dependencies"));
        types.push(ty("ci", "Changes to our CI configuration files and scripts"));
        types.push(ty("chore", "Other changes that don\"t modify src or test files"));
        types.push(ty("revert", "Reverts a previous commit"));
        let mut emojis: Vec<Emoji> = Vec::new();
        emojis.push(em("feat", "\u{2728}"));
        emojis.push(em("fix", "\u{1f41b}"));
        emojis.push(em("docs", "\u{1f4da}"));
        emojis.push(em("style", "\u{1f3a8}"));
        emojis.push(em("refactor", "\u{267b}\u{fe0f}"));
        emojis.push(em("perf", "\u{26a1}\u{fe0f}"));
        emojis.push(em("test", "\u{2705}"));
        emojis.push(em("build", "\u{1f4e6}\u{fe0f}"));
        emojis.push(em("ci", "\u{2699}\u{fe0f}"));
        emojis.push(em("chore", "\u{1f528}"));
        emojis.push(em("revert", "\u{1f519}"));
        let template = String::from_str(
            "
{{commit_icon}} {{ commit_type }}{% if commit_scope %}({{commit_scope}}){% endif %}{% if commit_breaking %}!{% endif %}: {{ commit_subject }}{% if commit_issue %}({{commit_issue}}){% endif %}
{% if commit_body %}\n{{ commit_body }}{% endif %}
{% if commit_breaking %}\nBREAKING CHANGE: {{ commit_breaking }}{% endif %}",
        );
        ReviseConfig {
            template,
            types,
            emojis,
            scopes: Vec::new(),
            auto: Auto {
                git: AutoGit { add: false, push: false, diff: false, footer: false },
                commit: AutoCommit { content: false, footer: false },
            },
            api_key: Vec::new(),
            exclude_files: Vec::new(),
            hooks: Vec::new(),
        }
    }
}

} // verus!
