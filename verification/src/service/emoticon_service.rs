//! Emoji reactions to messages: which rules are configured and which reactions
//! a message earns.

use crate::text;
use regex::Regex;
use vstd::prelude::*;

verus! {

/// The file that the rules are read from, relative to the working directory,
/// unless another one is configured.
pub const DEFAULT_CONFIG_PATH: &'static str = "emoticons.json";

/// The file that the rules are read from: the configured one, if any is.
pub fn config_path(configured: Option<String>) -> (r: String)
    ensures
        r@ == match configured {
            Some(path) => path@,
            None => DEFAULT_CONFIG_PATH@,
        },
{
    match configured {
        Some(path) => path,
        None => DEFAULT_CONFIG_PATH.to_string(),
    }
}

/// Why the rules could not be loaded.
#[derive(Debug)]
pub enum EmoticonConfigError {
    /// The file could not be read.
    Read {
        /// The file.
        path: String,
        /// What went wrong.
        source: String,
    },
    /// The file is not in the expected format.
    Parse {
        /// The file.
        path: String,
        /// What went wrong.
        source: String,
    },
    /// A pattern is not a regular expression.
    InvalidRegex {
        /// The pattern.
        pattern: String,
        /// What is wrong with it.
        source: String,
    },
    /// An emoji is not one.
    InvalidEmoji {
        /// The emoji as it was written.
        raw: String,
        /// What is wrong with it.
        reason: String,
    },
}

/// What an [`EmoticonConfigError`] holds.
pub enum ConfigErrorView {
    /// The file could not be read.
    Read {
        /// The file.
        path: Seq<char>,
        /// What went wrong.
        source: Seq<char>,
    },
    /// The file is not in the expected format.
    Parse {
        /// The file.
        path: Seq<char>,
        /// What went wrong.
        source: Seq<char>,
    },
    /// A pattern is not a regular expression.
    InvalidRegex {
        /// The pattern.
        pattern: Seq<char>,
        /// What is wrong with it.
        source: Seq<char>,
    },
    /// An emoji is not one.
    InvalidEmoji {
        /// The emoji as it was written.
        raw: Seq<char>,
        /// What is wrong with it.
        reason: Seq<char>,
    },
}

impl View for EmoticonConfigError {
    type V = ConfigErrorView;

    open spec fn view(&self) -> ConfigErrorView {
        match self {
            EmoticonConfigError::Read { path, source } => ConfigErrorView::Read {
                path: path@,
                source: source@,
            },
            EmoticonConfigError::Parse { path, source } => ConfigErrorView::Parse {
                path: path@,
                source: source@,
            },
            EmoticonConfigError::InvalidRegex { pattern, source } => ConfigErrorView::InvalidRegex {
                pattern: pattern@,
                source: source@,
            },
            EmoticonConfigError::InvalidEmoji { raw, reason } => ConfigErrorView::InvalidEmoji {
                raw: raw@,
                reason: reason@,
            },
        }
    }
}

impl ConfigErrorView {
    /// The text that the error is reported with.
    pub open spec fn text(self) -> Seq<char> {
        match self {
            ConfigErrorView::Read { path, source } => "Failed to read "@ + path + ": "@ + source,
            ConfigErrorView::Parse { path, source } => "Failed to parse "@ + path + ": "@ + source,
            ConfigErrorView::InvalidRegex { pattern, source } => "Invalid regex '"@ + pattern
                + "': "@ + source,
            ConfigErrorView::InvalidEmoji { raw, reason } => "Invalid emoji '"@ + raw + "': "@
                + reason,
        }
    }
}

impl EmoticonConfigError {
    /// Writes the text that the error is reported with.
    pub fn message(&self) -> (r: String)
        ensures
            r@ == self@.text(),
    {
        match self {
            EmoticonConfigError::Read { path, source } => sentence(
                "Failed to read ",
                path.as_str(),
                ": ",
                source.as_str(),
            ),
            EmoticonConfigError::Parse { path, source } => sentence(
                "Failed to parse ",
                path.as_str(),
                ": ",
                source.as_str(),
            ),
            EmoticonConfigError::InvalidRegex { pattern, source } => sentence(
                "Invalid regex '",
                pattern.as_str(),
                "': ",
                source.as_str(),
            ),
            EmoticonConfigError::InvalidEmoji { raw, reason } => sentence(
                "Invalid emoji '",
                raw.as_str(),
                "': ",
                reason.as_str(),
            ),
        }
    }
}

fn sentence(a: &str, b: &str, c: &str, d: &str) -> (r: String)
    ensures
        r@ == a@ + b@ + c@ + d@,
{
    let mut out = a.to_string();
    out.append(b);
    out.append(c);
    out.append(d);
    out
}

/// A reaction to a message.
#[derive(Debug)]
pub enum ReactionType {
    /// A Unicode emoji.
    Unicode(String),
    /// An emoji of some guild.
    Custom {
        /// Whether it moves.
        animated: bool,
        /// Its id. Discord gives out none that is zero; whoever sends the
        /// reaction has to reject one.
        id: u64,
        /// Its name, where it has one.
        name: Option<String>,
    },
}

/// What a [`ReactionType`] holds.
pub enum ReactionView {
    /// A Unicode emoji.
    Unicode(Seq<char>),
    /// An emoji of some guild.
    Custom {
        /// Whether it moves.
        animated: bool,
        /// Its id.
        id: u64,
        /// Its name, where it has one.
        name: Option<Seq<char>>,
    },
}

/// What tells two reactions apart: the emoji itself, or the id of a guild's.
pub enum ReactionKey {
    /// A Unicode emoji.
    Unicode(Seq<char>),
    /// An emoji of some guild, by its id.
    Custom(u64),
}

impl View for ReactionType {
    type V = ReactionView;

    open spec fn view(&self) -> ReactionView {
        match self {
            ReactionType::Unicode(emoji) => ReactionView::Unicode(emoji@),
            ReactionType::Custom { animated, id, name } => ReactionView::Custom {
                animated: *animated,
                id: *id,
                name: text::text_of(*name),
            },
        }
    }
}

impl ReactionView {
    /// What tells this reaction apart from others.
    pub open spec fn key(self) -> ReactionKey {
        match self {
            ReactionView::Unicode(emoji) => ReactionKey::Unicode(emoji),
            ReactionView::Custom { id, .. } => ReactionKey::Custom(id),
        }
    }
}

impl Clone for ReactionType {
    fn clone(&self) -> (r: Self)
        ensures
            r == *self,
    {
        match self {
            ReactionType::Unicode(emoji) => ReactionType::Unicode(emoji.clone()),
            ReactionType::Custom { animated, id, name } => ReactionType::Custom {
                animated: *animated,
                id: *id,
                name: match name {
                    Some(name) => Some(name.clone()),
                    None => None,
                },
            },
        }
    }
}

impl ReactionType {
    /// Whether this and `other` are the same reaction.
    pub fn same_key(&self, other: &ReactionType) -> (r: bool)
        ensures
            r == (self@.key() == other@.key()),
    {
        match self {
            ReactionType::Unicode(a) => match other {
                ReactionType::Unicode(b) => text::same_text(a.as_str(), b.as_str()),
                ReactionType::Custom { .. } => false,
            },
            ReactionType::Custom { id: a, .. } => match other {
                ReactionType::Unicode(_) => false,
                ReactionType::Custom { id: b, .. } => *a == *b,
            },
        }
    }
}

/// What stands between the angle brackets of a mention, where `s` is one.
pub open spec fn mention_inner(s: Seq<char>) -> Option<Seq<char>> {
    if s.len() >= 2 && s[0] == '<' && s.last() == '>' {
        Some(s.subrange(1, s.len() - 1))
    } else {
        None
    }
}

/// Whether a mention, given what stands between its brackets, is of an emoji
/// that moves.
pub open spec fn is_animated(inner: Seq<char>) -> bool {
    "a:"@.is_prefix_of(inner)
}

/// The name and the id of a mention, given what stands between its brackets.
pub open spec fn mention_body(inner: Seq<char>) -> Seq<char> {
    if is_animated(inner) {
        inner.skip("a:"@.len() as int)
    } else if ":"@.is_prefix_of(inner) {
        inner.skip(":"@.len() as int)
    } else {
        inner
    }
}

/// The reaction that `raw` writes, or what is wrong with it. Accepted are, with
/// white space around them or not, `<:name:id>` and `<a:name:id>`, where the id
/// follows the last colon, and any other text as a Unicode emoji.
pub open spec fn reaction_of(raw: Seq<char>) -> Result<ReactionView, Seq<char>> {
    let trimmed = text::trim(raw);
    match mention_inner(trimmed) {
        Some(inner) => {
            let body = mention_body(inner);
            let colon = text::last_index(body, ':');
            if colon < 0 {
                Err("expected '<:name:id>' or '<a:name:id>'"@)
            } else {
                let id_part = body.skip(colon + 1);
                match text::parse_u64(id_part) {
                    Some(id) => Ok(
                        ReactionView::Custom {
                            animated: is_animated(inner),
                            id,
                            name: if colon == 0 {
                                None
                            } else {
                                Some(body.take(colon))
                            },
                        },
                    ),
                    None => Err("'"@ + id_part + "' is not a valid emoji id"@),
                }
            }
        },
        None => if trimmed.len() == 0 {
            Err("empty emoji"@)
        } else {
            Ok(ReactionView::Unicode(trimmed))
        },
    }
}

/// Reads a reaction.
pub fn parse_reaction(raw: &str) -> (r: Result<ReactionType, EmoticonConfigError>)
    ensures
        match r {
            Ok(reaction) => reaction_of(raw@) == Ok::<ReactionView, Seq<char>>(reaction@),
            Err(e) => {
                &&& reaction_of(raw@) matches Err(reason)
                &&& e@ == (ConfigErrorView::InvalidEmoji { raw: raw@, reason })
            },
        },
{
    let trimmed = text::trimmed(&text::chars_of(raw));
    if trimmed.len() >= 2 && trimmed[0] == '<' && trimmed[trimmed.len() - 1] == '>' {
        let inner = text::chars_between(&trimmed, 1, trimmed.len() - 1);
        let animated = text::begins_with(&inner, &text::chars_of("a:"));
        let body = match text::stripped_prefix(&inner, &text::chars_of("a:")) {
            Some(rest) => rest,
            None => match text::stripped_prefix(&inner, &text::chars_of(":")) {
                Some(rest) => rest,
                None => inner,
            },
        };
        let colon = match text::position_of_last(&body, ':') {
            Some(colon) => colon,
            None => {
                return Err(
                    EmoticonConfigError::InvalidEmoji {
                        raw: raw.to_string(),
                        reason: "expected '<:name:id>' or '<a:name:id>'".to_string(),
                    },
                );
            },
        };
        let id_part = text::chars_between(&body, colon + 1, body.len());
        assert(id_part@ =~= body@.skip(colon + 1));
        return match text::parsed_u64(&id_part) {
            Some(id) => {
                let name = if colon == 0 {
                    None
                } else {
                    let name = text::chars_between(&body, 0, colon);
                    assert(name@ =~= body@.take(colon as int));
                    Some(text::string_of(&name))
                };
                Ok(ReactionType::Custom { animated, id, name })
            },
            None => {
                let mut reason = "'".to_string();
                reason.append(text::string_of(&id_part).as_str());
                reason.append("' is not a valid emoji id");
                Err(EmoticonConfigError::InvalidEmoji { raw: raw.to_string(), reason })
            },
        };
    }
    if trimmed.len() == 0 {
        return Err(
            EmoticonConfigError::InvalidEmoji {
                raw: raw.to_string(),
                reason: "empty emoji".to_string(),
            },
        );
    }
    Ok(ReactionType::Unicode(text::string_of(&trimmed)))
}

/// What `Regex::new` says is wrong with a pattern, or `None` where it accepts
/// it.
pub uninterp spec fn regex_error_text(pattern: Seq<char>) -> Option<Seq<char>>;

/// Whether `Regex::is_match` finds a match of a pattern anywhere in a text.
pub uninterp spec fn regex_matches(pattern: Seq<char>, content: Seq<char>) -> bool;

/// `Regex::new`: compiles the pattern, and says what is wrong with one that
/// does not compile. The outcome depends on the pattern alone.
#[verifier::external_body]
fn regex_error(pattern: &str) -> (r: Option<String>)
    ensures
        text::text_of(r) == regex_error_text(pattern@),
{
    match Regex::new(pattern) {
        Ok(_) => None,
        Err(e) => Some(e.to_string()),
    }
}

/// `Regex::is_match`, on the regular expression that the pattern compiles to:
/// whether the text holds a match. The outcome depends on the pattern and the
/// text alone. A pattern that does not compile matches nothing.
#[verifier::external_body]
fn regex_is_match(pattern: &str, content: &str) -> (r: bool)
    ensures
        r == regex_matches(pattern@, content@),
{
    match Regex::new(pattern) {
        Ok(regex) => regex.is_match(content),
        Err(_) => false,
    }
}

/// A rule as it is configured.
#[derive(Debug)]
pub struct RawRule {
    /// The regular expression that a message has to match.
    pub pattern: String,
    /// The reaction to such a message, as [`parse_reaction`] reads it.
    pub emoji: String,
}

/// What the configuration file turned out to be.
pub enum ConfigFile {
    /// There is none.
    Missing,
    /// It could not be read, and why.
    Unreadable(String),
    /// It is not in the expected format, and why.
    Unparsable(String),
    /// Its rules, in order.
    Rules(Vec<RawRule>),
}

/// A rule: a reaction to the messages that match a pattern.
pub struct EmoticonRule {
    /// The pattern.
    pub pattern: String,
    /// The reaction.
    pub reaction: ReactionType,
}

/// What an [`EmoticonRule`] holds.
pub struct RuleView {
    /// The pattern.
    pub pattern: Seq<char>,
    /// The reaction.
    pub reaction: ReactionView,
}

impl View for EmoticonRule {
    type V = RuleView;

    open spec fn view(&self) -> RuleView {
        RuleView { pattern: self.pattern@, reaction: self.reaction@ }
    }
}

/// What a list of rules holds.
pub open spec fn rule_views(rules: Seq<EmoticonRule>) -> Seq<RuleView> {
    rules.map_values(|rule: EmoticonRule| rule@)
}

/// What a list of reactions holds.
pub open spec fn reaction_views(reactions: Seq<ReactionType>) -> Seq<ReactionView> {
    reactions.map_values(|reaction: ReactionType| reaction@)
}

/// What is wrong with each pattern of `rules`.
pub open spec fn pattern_errors(rules: Seq<RawRule>) -> Seq<Option<Seq<char>>> {
    rules.map_values(|rule: RawRule| regex_error_text(rule.pattern@))
}

/// The texts of a list of optional strings.
pub open spec fn optional_texts(strings: Seq<Option<String>>) -> Seq<Option<Seq<char>>> {
    strings.map_values(|s: Option<String>| text::text_of(s))
}

/// The rule that a configured one stands for, or why it stands for none, where
/// `error` is what is wrong with its pattern. The pattern is looked at first.
pub open spec fn rule_of(raw: RawRule, error: Option<Seq<char>>) -> Result<
    RuleView,
    ConfigErrorView,
> {
    match error {
        Some(source) => Err(ConfigErrorView::InvalidRegex { pattern: raw.pattern@, source }),
        None => match reaction_of(raw.emoji@) {
            Ok(reaction) => Ok(RuleView { pattern: raw.pattern@, reaction }),
            Err(reason) => Err(ConfigErrorView::InvalidEmoji { raw: raw.emoji@, reason }),
        },
    }
}

/// The rules that the configured ones stand for, in order, or why the first
/// that stands for none does, where `errors` is what is wrong with each
/// pattern.
pub open spec fn rules_of(raw: Seq<RawRule>, errors: Seq<Option<Seq<char>>>) -> Result<
    Seq<RuleView>,
    ConfigErrorView,
>
    decreases raw.len(),
{
    if raw.len() == 0 {
        Ok(seq![])
    } else {
        match rules_of(raw.drop_last(), errors.drop_last()) {
            Err(e) => Err(e),
            Ok(before) => match rule_of(raw.last(), errors.last()) {
                Err(e) => Err(e),
                Ok(rule) => Ok(before.push(rule)),
            },
        }
    }
}

/// Whether one of `reactions` is the same as `reaction`.
pub open spec fn has_key(reactions: Seq<ReactionView>, reaction: ReactionView) -> bool {
    exists|i: int|
        0 <= i < reactions.len() && (#[trigger] reactions[i]).key() == reaction.key()
}

/// The reactions of the rules whose patterns match, where `matched` says which
/// do: each once, in the order of the rules.
pub open spec fn picked(rules: Seq<RuleView>, matched: Seq<bool>) -> Seq<ReactionView>
    decreases rules.len(),
{
    if rules.len() == 0 {
        seq![]
    } else {
        let before = picked(rules.drop_last(), matched.drop_last());
        if matched.last() && !has_key(before, rules.last().reaction) {
            before.push(rules.last().reaction)
        } else {
            before
        }
    }
}

/// Which of `rules` have a pattern that matches `content`.
pub open spec fn matches_of(rules: Seq<RuleView>, content: Seq<char>) -> Seq<bool> {
    rules.map_values(|rule: RuleView| regex_matches(rule.pattern, content))
}

/// An error in the rules before the last is an error in the rules.
proof fn lemma_rules_prefix(raw: Seq<RawRule>, errors: Seq<Option<Seq<char>>>, n: int)
    requires
        0 <= n <= raw.len(),
        raw.len() == errors.len(),
        rules_of(raw.take(n), errors.take(n)) is Err,
    ensures
        rules_of(raw, errors) == rules_of(raw.take(n), errors.take(n)),
    decreases raw.len(),
{
    if n == raw.len() {
        assert(raw.take(n) =~= raw);
        assert(errors.take(n) =~= errors);
    } else {
        assert(raw.drop_last().take(n) =~= raw.take(n));
        assert(errors.drop_last().take(n) =~= errors.take(n));
        lemma_rules_prefix(raw.drop_last(), errors.drop_last(), n);
    }
}

/// The configured rules.
pub struct EmoticonService {
    /// The rules, in order.
    pub rules: Vec<EmoticonRule>,
}

impl EmoticonService {
    /// A service without rules, which reacts to nothing.
    pub fn empty() -> (r: Self)
        ensures
            rule_views(r.rules@) == Seq::<RuleView>::empty(),
    {
        let r = EmoticonService { rules: Vec::new() };
        assert(rule_views(r.rules@) =~= seq![]);
        r
    }

    /// Turns the configured rules into a service, where `errors` is what is
    /// wrong with each pattern.
    pub fn from_rules(raw: Vec<RawRule>, errors: &Vec<Option<String>>) -> (r: Result<
        Self,
        EmoticonConfigError,
    >)
        requires
            raw@.len() == errors@.len(),
        ensures
            match r {
                Ok(service) => rules_of(raw@, optional_texts(errors@)) == Ok::<
                    Seq<RuleView>,
                    ConfigErrorView,
                >(rule_views(service.rules@)),
                Err(e) => rules_of(raw@, optional_texts(errors@)) == Err::<
                    Seq<RuleView>,
                    ConfigErrorView,
                >(e@),
            },
    {
        let mut rules: Vec<EmoticonRule> = Vec::new();
        let ghost texts = optional_texts(errors@);
        assert(rule_views(rules@) =~= seq![]);
        assert(raw@.take(0) =~= seq![]);
        for i in 0..raw.len()
            invariant
                raw@.len() == errors@.len(),
                texts == optional_texts(errors@),
                rules_of(raw@.take(i as int), texts.take(i as int)) == Ok::<
                    Seq<RuleView>,
                    ConfigErrorView,
                >(rule_views(rules@)),
        {
            assert(raw@.take(i + 1).drop_last() =~= raw@.take(i as int));
            assert(texts.take(i + 1).drop_last() =~= texts.take(i as int));
            assert(texts.take(i + 1).last() == text::text_of(errors@[i as int]));
            if let Some(source) = &errors[i] {
                proof {
                    lemma_rules_prefix(raw@, texts, i + 1);
                }
                return Err(
                    EmoticonConfigError::InvalidRegex {
                        pattern: raw[i].pattern.clone(),
                        source: source.clone(),
                    },
                );
            }
            let reaction = match parse_reaction(raw[i].emoji.as_str()) {
                Ok(reaction) => reaction,
                Err(e) => {
                    proof {
                        lemma_rules_prefix(raw@, texts, i + 1);
                    }
                    return Err(e);
                },
            };
            let ghost before = rules@;
            let pattern = raw[i].pattern.clone();
            rules.push(EmoticonRule { pattern, reaction });
            assert(rule_views(rules@) =~= rule_views(before).push(rules@.last()@));
        }
        assert(raw@.take(raw.len() as int) =~= raw@);
        assert(texts.take(raw.len() as int) =~= texts);
        Ok(EmoticonService { rules })
    }

    /// Loads the rules of the configuration file at `path`, given what it
    /// turned out to be. A file that is not there leaves the service without
    /// rules.
    pub fn load_from_path(path: &str, file: ConfigFile) -> (r: Result<Self, EmoticonConfigError>)
        ensures
            match file {
                ConfigFile::Missing => r matches Ok(service) && rule_views(service.rules@) == Seq::<
                    RuleView,
                >::empty(),
                ConfigFile::Unreadable(reason) => r matches Err(e) && e@ == (
                ConfigErrorView::Read { path: path@, source: reason@ }),
                ConfigFile::Unparsable(reason) => r matches Err(e) && e@ == (
                ConfigErrorView::Parse { path: path@, source: reason@ }),
                ConfigFile::Rules(raw) => match r {
                    Ok(service) => rules_of(raw@, pattern_errors(raw@)) == Ok::<
                        Seq<RuleView>,
                        ConfigErrorView,
                    >(rule_views(service.rules@)),
                    Err(e) => rules_of(raw@, pattern_errors(raw@)) == Err::<
                        Seq<RuleView>,
                        ConfigErrorView,
                    >(e@),
                },
            },
    {
        match file {
            ConfigFile::Missing => Ok(EmoticonService::empty()),
            ConfigFile::Unreadable(source) => Err(
                EmoticonConfigError::Read { path: path.to_string(), source },
            ),
            ConfigFile::Unparsable(source) => Err(
                EmoticonConfigError::Parse { path: path.to_string(), source },
            ),
            ConfigFile::Rules(raw) => {
                let mut errors: Vec<Option<String>> = Vec::new();
                for i in 0..raw.len()
                    invariant
                        optional_texts(errors@) == pattern_errors(raw@.take(i as int)),
                {
                    let ghost before = errors@;
                    errors.push(regex_error(raw[i].pattern.as_str()));
                    assert(optional_texts(errors@) =~= optional_texts(before).push(
                        regex_error_text(raw@[i as int].pattern@),
                    ));
                    assert(optional_texts(errors@) =~= pattern_errors(raw@.take(i + 1)));
                }
                assert(raw@.take(raw.len() as int) =~= raw@);
                assert(errors@.len() == optional_texts(errors@).len());
                EmoticonService::from_rules(raw, &errors)
            },
        }
    }

    /// The reactions of the rules whose patterns match, where `matched` says
    /// which do: each once, in the order of the rules.
    pub fn pick_reactions(&self, matched: &Vec<bool>) -> (r: Vec<ReactionType>)
        requires
            matched@.len() == self.rules@.len(),
        ensures
            reaction_views(r@) == picked(rule_views(self.rules@), matched@),
    {
        let mut out: Vec<ReactionType> = Vec::new();
        let ghost rules = rule_views(self.rules@);
        assert(reaction_views(out@) =~= seq![]);
        for i in 0..self.rules.len()
            invariant
                matched@.len() == self.rules@.len(),
                rules == rule_views(self.rules@),
                reaction_views(out@) == picked(rules.take(i as int), matched@.take(i as int)),
        {
            assert(rules.take(i + 1).drop_last() =~= rules.take(i as int));
            assert(matched@.take(i + 1).drop_last() =~= matched@.take(i as int));
            let ghost before = out@;
            if matched[i] {
                let reaction = &self.rules[i].reaction;
                if !holds_reaction(&out, reaction) {
                    out.push(reaction.clone());
                    assert(reaction_views(out@) =~= reaction_views(before).push(reaction@));
                }
            }
        }
        assert(rules.take(rules.len() as int) =~= rules);
        assert(matched@.take(rules.len() as int) =~= matched@);
        out
    }

    /// The reactions that `content` earns: those of the rules whose patterns
    /// match it, each once, in the order of the rules.
    pub fn detect_reactions(&self, content: &str) -> (r: Vec<ReactionType>)
        ensures
            reaction_views(r@) == picked(
                rule_views(self.rules@),
                matches_of(rule_views(self.rules@), content@),
            ),
    {
        let mut matched: Vec<bool> = Vec::new();
        let ghost rules = rule_views(self.rules@);
        for i in 0..self.rules.len()
            invariant
                rules == rule_views(self.rules@),
                matched@ == matches_of(rules.take(i as int), content@),
        {
            matched.push(regex_is_match(self.rules[i].pattern.as_str(), content));
            assert(matched@ =~= matches_of(rules.take(i + 1), content@));
        }
        assert(rules.take(rules.len() as int) =~= rules);
        self.pick_reactions(&matched)
    }
}

/// Whether one of `reactions` is the same as `reaction`.
fn holds_reaction(reactions: &Vec<ReactionType>, reaction: &ReactionType) -> (r: bool)
    ensures
        r == has_key(reaction_views(reactions@), reaction@),
{
    let ghost views = reaction_views(reactions@);
    for i in 0..reactions.len()
        invariant
            views == reaction_views(reactions@),
            forall|j: int| 0 <= j < i ==> (#[trigger] views[j]).key() != reaction@.key(),
    {
        if reactions[i].same_key(reaction) {
            assert(views[i as int].key() == reaction@.key());
            return true;
        }
        assert(views[i as int] == reactions@[i as int]@);
    }
    false
}

/// No reaction is given twice.
pub proof fn law_reactions_are_given_once(rules: Seq<RuleView>, matched: Seq<bool>, i: int, j: int)
    requires
        rules.len() == matched.len(),
        0 <= i < j < picked(rules, matched).len(),
    ensures
        picked(rules, matched)[i].key() != picked(rules, matched)[j].key(),
    decreases rules.len(),
{
    if rules.len() > 0 {
        let before = picked(rules.drop_last(), matched.drop_last());
        if j < before.len() {
            law_reactions_are_given_once(rules.drop_last(), matched.drop_last(), i, j);
        } else {
            assert(picked(rules, matched)[i] == before[i]);
        }
    }
}

/// Every rule that matches has its reaction given.
pub proof fn law_matching_rules_react(rules: Seq<RuleView>, matched: Seq<bool>, i: int)
    requires
        rules.len() == matched.len(),
        0 <= i < rules.len(),
        matched[i],
    ensures
        has_key(picked(rules, matched), rules[i].reaction),
    decreases rules.len(),
{
    let before = picked(rules.drop_last(), matched.drop_last());
    let all = picked(rules, matched);
    if i < rules.len() - 1 {
        law_matching_rules_react(rules.drop_last(), matched.drop_last(), i);
        let k = choose|k: int|
            0 <= k < before.len() && (#[trigger] before[k]).key() == rules[i].reaction.key();
        assert(all[k] == before[k]);
    } else if has_key(before, rules.last().reaction) {
    } else {
        assert(all.last() == rules.last().reaction);
        assert(all[all.len() - 1].key() == rules[i].reaction.key());
    }
}

/// Reactions come only from rules that match, and in the order of the rules:
/// there is a strictly increasing choice of matching rules, one for each. It is the
/// first matching rule with that reaction which gives it.
pub proof fn law_reactions_follow_the_rules(rules: Seq<RuleView>, matched: Seq<bool>) -> (from: Seq<
    int,
>)
    requires
        rules.len() == matched.len(),
    ensures
        from.len() == picked(rules, matched).len(),
        forall|k: int|
            #![trigger from[k]]
            0 <= k < from.len() ==> 0 <= from[k] < rules.len() && matched[from[k]]
                && rules[from[k]].reaction == picked(rules, matched)[k],
        forall|k: int, l: int| 0 <= k < l < from.len() ==> from[k] < from[l],
        forall|k: int, j: int|
            #![trigger from[k], rules[j]]
            0 <= k < from.len() && 0 <= j < from[k] && matched[j] ==> rules[j].reaction.key()
                != rules[from[k]].reaction.key(),
    decreases rules.len(),
{
    if rules.len() == 0 {
        seq![]
    } else {
        let n = rules.len() - 1;
        let init = rules.drop_last();
        let init_matched = matched.drop_last();
        let before = law_reactions_follow_the_rules(init, init_matched);
        let picked_before = picked(init, init_matched);
        let result = if matched.last() && !has_key(picked_before, rules.last().reaction) {
            before.push(n)
        } else {
            before
        };
        assert forall|k: int| #![trigger result[k]] 0 <= k < result.len() implies 0 <= result[k]
            < rules.len() && matched[result[k]] && rules[result[k]].reaction == picked(
            rules,
            matched,
        )[k] by {
            if k < before.len() {
                assert(result[k] == before[k]);
                assert(init[before[k]] == rules[before[k]]);
                assert(init_matched[before[k]] == matched[before[k]]);
            }
        }
        assert forall|k: int, l: int| 0 <= k < l < result.len() implies result[k] < result[l] by {
            assert(result[k] == before[k]);
            if l < before.len() {
                assert(result[l] == before[l]);
            }
        }
        assert forall|k: int, j: int|
            #![trigger result[k], rules[j]]
            0 <= k < result.len() && 0 <= j < result[k] && matched[j] implies rules[j].reaction.key()
            != rules[result[k]].reaction.key() by {
            assert(init[j] == rules[j]);
            assert(init_matched[j] == matched[j]);
            if k < before.len() {
                assert(result[k] == before[k]);
                assert(init[before[k]] == rules[before[k]]);
            } else {
                law_matching_rules_react(init, init_matched, j);
                if rules[j].reaction.key() == rules.last().reaction.key() {
                    let i = choose|i: int|
                        0 <= i < picked_before.len() && (#[trigger] picked_before[i]).key()
                            == rules[j].reaction.key();
                    assert(has_key(picked_before, rules.last().reaction));
                }
            }
        }
        result
    }
}

/// Without rules no message earns a reaction.
pub proof fn law_no_rules_no_reactions(content: Seq<char>)
    ensures
        picked(seq![], matches_of(seq![], content)) == Seq::<ReactionView>::empty(),
{
}

/// Rules load exactly when each of them is fine by itself, and then all of them
/// do, in order.
pub proof fn law_rules_load_in_full(raw: Seq<RawRule>, errors: Seq<Option<Seq<char>>>)
    requires
        raw.len() == errors.len(),
    ensures
        rules_of(raw, errors) is Ok <==> forall|i: int|
            0 <= i < raw.len() ==> rule_of(#[trigger] raw[i], errors[i]) is Ok,
        rules_of(raw, errors) matches Ok(rules) ==> {
            &&& rules.len() == raw.len()
            &&& forall|i: int|
                0 <= i < raw.len() ==> rule_of(raw[i], errors[i]) == Ok::<
                    RuleView,
                    ConfigErrorView,
                >(#[trigger] rules[i])
        },
    decreases raw.len(),
{
    if raw.len() > 0 {
        let init = raw.drop_last();
        let init_errors = errors.drop_last();
        law_rules_load_in_full(init, init_errors);
        let last = raw.len() - 1;
        if rules_of(init, init_errors) is Err {
            let i = choose|i: int|
                0 <= i < init.len() && !(rule_of(#[trigger] init[i], init_errors[i]) is Ok);
            assert(!(rule_of(raw[i], errors[i]) is Ok));
        } else if rule_of(raw.last(), errors.last()) is Err {
            assert(!(rule_of(raw[last], errors[last]) is Ok));
        } else {
            assert forall|i: int| 0 <= i < raw.len() implies rule_of(
                #[trigger] raw[i],
                errors[i],
            ) is Ok by {
                if i < last {
                    assert(rule_of(init[i], init_errors[i]) is Ok);
                }
            }
        }
        if rules_of(init, init_errors) is Ok {
            let before = rules_of(init, init_errors)->Ok_0;
            assert forall|i: int| 0 <= i < init.len() implies rule_of(raw[i], errors[i]) == Ok::<
                RuleView,
                ConfigErrorView,
            >(#[trigger] before[i]) by {
                assert(init[i] == raw[i]);
            }
        }
    }
}

/// Where rules do not load, the error is that of the first rule that is not
/// fine.
pub proof fn law_first_bad_rule_is_reported(
    raw: Seq<RawRule>,
    errors: Seq<Option<Seq<char>>>,
    n: int,
)
    requires
        raw.len() == errors.len(),
        0 <= n < raw.len(),
        rule_of(raw[n], errors[n]) is Err,
        forall|i: int| 0 <= i < n ==> rule_of(#[trigger] raw[i], errors[i]) is Ok,
    ensures
        rules_of(raw, errors) == Err::<Seq<RuleView>, ConfigErrorView>(
            rule_of(raw[n], errors[n])->Err_0,
        ),
{
    let head = raw.take(n + 1);
    let head_errors = errors.take(n + 1);
    law_rules_load_in_full(head.drop_last(), head_errors.drop_last());
    assert(rules_of(head, head_errors) is Err);
    lemma_rules_prefix(raw, errors, n + 1);
}

/// What stands before the name in a mention.
pub open spec fn mention_head(animated: bool) -> Seq<char> {
    if animated {
        "<a:"@
    } else {
        "<:"@
    }
}

/// A mention that is written with a name and an id is read as the emoji of that
/// name and id, whatever the name.
pub proof fn law_mentions_are_read(animated: bool, name: Seq<char>, id: u64)
    ensures
        reaction_of(mention_head(animated) + name + ":"@ + text::decimal(id as nat) + ">"@) == Ok::<
            ReactionView,
            Seq<char>,
        >(
            ReactionView::Custom {
                animated,
                id,
                name: if name.len() == 0 {
                    None
                } else {
                    Some(name)
                },
            },
        ),
{
    reveal_strlit("<a:");
    reveal_strlit("<:");
    reveal_strlit("a:");
    reveal_strlit(":");
    reveal_strlit(">");
    let digits = text::decimal(id as nat);
    let body = name + ":"@ + digits;
    let prefix = if animated {
        "a:"@
    } else {
        ":"@
    };
    let inner = prefix + body;
    let s = mention_head(animated) + name + ":"@ + digits + ">"@;
    assert(s[0] == '<' && s.last() == '>');
    assert(text::trim(s) == s);
    assert(s.subrange(1, s.len() - 1) =~= inner);
    if animated {
        assert("a:"@ =~= inner.subrange(0, 2));
    } else {
        assert(inner[0] == ':');
        assert(inner.subrange(0, 2)[0] == inner[0]);
        assert(!is_animated(inner));
        assert(":"@ =~= inner.subrange(0, 1));
    }
    assert(mention_body(inner) =~= body);
    text::lemma_last_index(body, ':');
    text::law_decimal_parses_back(id);
    let colon = text::last_index(body, ':');
    assert(body[name.len() as int] == ':');
    if colon > name.len() {
        text::lemma_decimal_digits(id as nat);
        assert(text::is_digit(digits[colon - name.len() - 1]));
    }
    assert(colon == name.len());
    assert(body.skip(colon + 1) =~= digits);
    assert(body.take(colon) =~= name);
}

/// The rules are read from the configured file, and else from `emoticons.json`.
pub proof fn law_configured_file_comes_first(configured: Option<String>, r: String)
    requires
        call_ensures(config_path, (configured,), r),
    ensures
        configured matches Some(path) ==> r@ == path@,
        configured is None ==> r@ == "emoticons.json"@,
{
}

/// An error says what was wrong, and of what.
pub proof fn law_config_errors_say_what_is_wrong(e: EmoticonConfigError, r: String)
    requires
        call_ensures(EmoticonConfigError::message, (&e,), r),
    ensures
        e matches EmoticonConfigError::Read { path, source } ==> r@ == "Failed to read "@ + path@
            + ": "@ + source@,
        e matches EmoticonConfigError::Parse { path, source } ==> r@ == "Failed to parse "@ + path@
            + ": "@ + source@,
        e matches EmoticonConfigError::InvalidRegex { pattern, source } ==> r@ == "Invalid regex '"@
            + pattern@ + "': "@ + source@,
        e matches EmoticonConfigError::InvalidEmoji { raw, reason } ==> r@ == "Invalid emoji '"@
            + raw@ + "': "@ + reason@,
{
}

/// Unicode emoji are the same where their text is, emoji of guilds where their id
/// is, whatever their name, and no two of different sorts are the same.
pub proof fn law_reactions_are_told_apart(a: ReactionType, b: ReactionType, r: bool)
    requires
        call_ensures(ReactionType::same_key, (&a, &b), r),
    ensures
        a is Unicode && b is Unicode ==> (r <==> a->Unicode_0@ == b->Unicode_0@),
        a is Custom && b is Custom ==> (r <==> a->id == b->id),
        a is Custom != b is Custom ==> !r,
{
}

/// What is not written in angle brackets is an emoji as it stands, without the
/// white space around it. Nothing but white space is refused.
pub proof fn law_plain_emoji_are_taken_as_they_are(
    raw: &str,
    r: Result<ReactionType, EmoticonConfigError>,
)
    requires
        call_ensures(parse_reaction, (raw,), r),
        ({
            let t = text::trim(raw@);
            t.len() < 2 || t[0] != '<' || t.last() != '>'
        }),
    ensures
        text::trim(raw@).len() > 0 ==> (r matches Ok(ReactionType::Unicode(emoji)) && emoji@
            == text::trim(raw@)),
        text::trim(raw@).len() == 0 ==> {
            &&& r matches Err(EmoticonConfigError::InvalidEmoji { raw: quoted, reason })
            &&& quoted@ == raw@
            &&& reason@ == "empty emoji"@
        },
{
}

/// What is written in angle brackets is a mention: behind `a:` one that moves,
/// behind `:` or nothing one that does not. What follows the last colon is the id,
/// and what precedes it is the name, if there is one. An id that is no number is
/// refused.
pub proof fn law_mentions_give_name_and_id(
    raw: &str,
    r: Result<ReactionType, EmoticonConfigError>,
    head: Seq<char>,
    name: Seq<char>,
    id: Seq<char>,
)
    requires
        call_ensures(parse_reaction, (raw,), r),
        text::trim(raw@) == "<"@ + head + name + ":"@ + id + ">"@,
        !id.contains(':'),
        head == "a:"@ || head == ":"@ || head == ""@,
        head == ""@ ==> !(":"@.is_prefix_of(name + ":"@)) && !("a:"@.is_prefix_of(name + ":"@)),
    ensures
        text::parse_u64(id) matches Some(number) ==> {
            &&& r is Ok
            &&& r->Ok_0 is Custom
            &&& r->Ok_0->id == number
            &&& r->Ok_0->animated <==> head == "a:"@
            &&& name.len() == 0 <==> r->Ok_0->name is None
            &&& name.len() > 0 ==> r->Ok_0->name->0@ == name
        },
        text::parse_u64(id) is None ==> {
            &&& r matches Err(EmoticonConfigError::InvalidEmoji { raw: quoted, reason })
            &&& quoted@ == raw@
            &&& reason@ == "'"@ + id + "' is not a valid emoji id"@
        },
{
    reveal_strlit("<");
    reveal_strlit(">");
    reveal_strlit(":");
    reveal_strlit("a:");
    reveal_strlit("");
    let t = text::trim(raw@);
    let body = name + ":"@ + id;
    let inner = head + body;
    assert(t[0] == '<' && t.last() == '>');
    assert(t.subrange(1, t.len() - 1) =~= inner);
    assert("a:"@.len() == 2 && ":"@.len() == 1 && ""@.len() == 0);
    if head == "a:"@ {
        assert("a:"@ =~= inner.subrange(0, 2));
        assert(mention_body(inner) =~= body);
    } else if head == ":"@ {
        assert(inner[0] == ':');
        assert(!is_animated(inner)) by {
            if is_animated(inner) {
                assert(inner.subrange(0, 2)[0] == inner[0]);
                assert("a:"@[0] == 'a');
            }
        }
        assert(":"@ =~= inner.subrange(0, 1));
        assert(mention_body(inner) =~= body);
    } else {
        assert(inner =~= body);
        let start = name + ":"@;
        assert(!is_animated(inner)) by {
            if is_animated(inner) {
                assert(inner.subrange(0, 2)[0] == inner[0] && inner.subrange(0, 2)[1] == inner[1]);
                if start.len() >= 2 {
                    assert(start.subrange(0, 2) =~= "a:"@);
                } else {
                    assert(start[0] == ':' && inner[0] == ':');
                }
            }
        }
        assert(!(":"@.is_prefix_of(inner))) by {
            if ":"@.is_prefix_of(inner) {
                assert(inner.subrange(0, 1)[0] == inner[0]);
                assert(start[0] == inner[0]);
                assert(start.subrange(0, 1) =~= ":"@);
            }
        }
        assert(mention_body(inner) =~= body);
    }
    text::lemma_last_index(body, ':');
    let colon = text::last_index(body, ':');
    assert(body[name.len() as int] == ':');
    if colon > name.len() {
        assert(id[colon - name.len() - 1] == ':');
    }
    assert(colon == name.len());
    assert(body.skip(colon + 1) =~= id);
    assert(body.take(colon) =~= name);
}

/// A mention in which no colon separates a name from an id is refused.
pub proof fn law_mentions_need_a_colon(
    raw: &str,
    r: Result<ReactionType, EmoticonConfigError>,
    head: Seq<char>,
    body: Seq<char>,
)
    requires
        call_ensures(parse_reaction, (raw,), r),
        text::trim(raw@) == "<"@ + head + body + ">"@,
        head == "a:"@ || head == ":"@ || head == ""@,
        !body.contains(':'),
    ensures
        r matches Err(EmoticonConfigError::InvalidEmoji { raw: quoted, reason }) && quoted@ == raw@
            && reason@ == "expected '<:name:id>' or '<a:name:id>'"@,
{
    reveal_strlit("<");
    reveal_strlit(">");
    reveal_strlit(":");
    reveal_strlit("a:");
    reveal_strlit("");
    let t = text::trim(raw@);
    let inner = head + body;
    assert(t[0] == '<' && t.last() == '>');
    assert(t.subrange(1, t.len() - 1) =~= inner);
    assert("a:"@.len() == 2 && ":"@.len() == 1 && ""@.len() == 0);
    if head == "a:"@ {
        assert("a:"@ =~= inner.subrange(0, 2));
        assert(mention_body(inner) =~= body);
    } else if head == ":"@ {
        assert(inner[0] == ':');
        assert(!is_animated(inner)) by {
            if is_animated(inner) {
                assert(inner.subrange(0, 2)[0] == inner[0]);
                assert("a:"@[0] == 'a');
            }
        }
        assert(":"@ =~= inner.subrange(0, 1));
        assert(mention_body(inner) =~= body);
    } else {
        assert(inner =~= body);
        assert(!is_animated(inner)) by {
            if is_animated(inner) {
                assert(inner.subrange(0, 2)[1] == inner[1]);
                assert("a:"@[1] == ':');
                assert(body.contains(':'));
            }
        }
        assert(!(":"@.is_prefix_of(inner))) by {
            if ":"@.is_prefix_of(inner) {
                assert(inner.subrange(0, 1)[0] == inner[0]);
                assert(body.contains(':'));
            }
        }
    }
    text::lemma_last_index(body, ':');
}

/// Where rules load, there are as many as were configured, each with its pattern
/// and the reaction that is written in it, and no pattern is wrong. Where they do
/// not, there is a first rule that is wrong, and the error is about it: about its
/// pattern, if that is wrong, and else about its emoji.
pub proof fn law_configured_rules_are_the_rules(
    raw: Vec<RawRule>,
    errors: Vec<Option<String>>,
    r: Result<EmoticonService, EmoticonConfigError>,
) -> (bad: int)
    requires
        raw@.len() == errors@.len(),
        call_ensures(EmoticonService::from_rules, (raw, &errors), r),
    ensures
        r matches Ok(service) ==> {
            &&& service.rules@.len() == raw@.len()
            &&& forall|i: int|
                0 <= i < raw@.len() ==> {
                    &&& errors@[i] is None
                    &&& (#[trigger] service.rules@[i]).pattern@ == raw@[i].pattern@
                    &&& reaction_of(raw@[i].emoji@) == Ok::<ReactionView, Seq<char>>(
                        service.rules@[i].reaction@,
                    )
                }
        },
        r matches Err(e) ==> {
            &&& 0 <= bad < raw@.len()
            &&& forall|i: int|
                0 <= i < bad ==> errors@[i] is None && reaction_of((#[trigger] raw@[i]).emoji@) is Ok
            &&& errors@[bad] is Some ==> {
                &&& e matches EmoticonConfigError::InvalidRegex { pattern, source }
                &&& pattern@ == raw@[bad].pattern@
                &&& source@ == errors@[bad]->0@
            }
            &&& errors@[bad] is None ==> {
                &&& e matches EmoticonConfigError::InvalidEmoji { raw: quoted, reason }
                &&& quoted@ == raw@[bad].emoji@
                &&& reaction_of(raw@[bad].emoji@) == Err::<ReactionView, Seq<char>>(reason@)
            }
        },
{
    let texts = optional_texts(errors@);
    law_rules_load_in_full(raw@, texts);
    match r {
        Ok(service) => {
            let views = rule_views(service.rules@);
            assert(views.len() == service.rules@.len());
            assert forall|i: int| 0 <= i < raw@.len() implies {
                &&& errors@[i] is None
                &&& (#[trigger] service.rules@[i]).pattern@ == raw@[i].pattern@
                &&& reaction_of(raw@[i].emoji@) == Ok::<ReactionView, Seq<char>>(
                    service.rules@[i].reaction@,
                )
            } by {
                assert(views[i] == service.rules@[i]@);
                assert(texts[i] == text::text_of(errors@[i]));
            }
            0
        },
        Err(_) => {
            let n = lemma_first_bad(raw@, texts);
            law_first_bad_rule_is_reported(raw@, texts, n);
            assert(texts[n] == text::text_of(errors@[n]));
            assert forall|i: int| 0 <= i < n implies errors@[i] is None && reaction_of(
                (#[trigger] raw@[i]).emoji@,
            ) is Ok by {
                assert(texts[i] == text::text_of(errors@[i]));
                assert(rule_of(raw@[i], texts[i]) is Ok);
            }
            n
        },
    }
}

proof fn lemma_first_bad(raw: Seq<RawRule>, errors: Seq<Option<Seq<char>>>) -> (n: int)
    requires
        raw.len() == errors.len(),
        rules_of(raw, errors) is Err,
    ensures
        0 <= n < raw.len(),
        rule_of(raw[n], errors[n]) is Err,
        forall|i: int| 0 <= i < n ==> rule_of(#[trigger] raw[i], errors[i]) is Ok,
    decreases raw.len(),
{
    let init = raw.drop_last();
    let init_errors = errors.drop_last();
    if rules_of(init, init_errors) is Err {
        let n = lemma_first_bad(init, init_errors);
        assert forall|i: int| 0 <= i < n implies rule_of(#[trigger] raw[i], errors[i]) is Ok by {
            assert(rule_of(init[i], init_errors[i]) is Ok);
        }
        n
    } else {
        law_rules_load_in_full(init, init_errors);
        assert forall|i: int| 0 <= i < raw.len() - 1 implies rule_of(
            #[trigger] raw[i],
            errors[i],
        ) is Ok by {
            assert(rule_of(init[i], init_errors[i]) is Ok);
        }
        raw.len() - 1
    }
}

/// A file that is not there gives a service without rules. One that cannot be read
/// or understood is reported. Otherwise the configured rules are the rules, where
/// every pattern is held to be wrong exactly as its regular expression is.
pub proof fn law_files_give_their_rules(
    path: &str,
    file: ConfigFile,
    r: Result<EmoticonService, EmoticonConfigError>,
    raw: Vec<RawRule>,
    errors: Vec<Option<String>>,
    built: Result<EmoticonService, EmoticonConfigError>,
)
    requires
        call_ensures(EmoticonService::load_from_path, (path, file), r),
        raw@.len() == errors@.len(),
        forall|i: int|
            0 <= i < raw@.len() ==> text::text_of(#[trigger] errors@[i]) == regex_error_text(
                raw@[i].pattern@,
            ),
        call_ensures(EmoticonService::from_rules, (raw, &errors), built),
    ensures
        file is Missing ==> r is Ok && r->Ok_0.rules@.len() == 0,
        file matches ConfigFile::Unreadable(reason) ==> {
            &&& r matches Err(EmoticonConfigError::Read { path: named, source })
            &&& named@ == path@
            &&& source@ == reason@
        },
        file matches ConfigFile::Unparsable(reason) ==> {
            &&& r matches Err(EmoticonConfigError::Parse { path: named, source })
            &&& named@ == path@
            &&& source@ == reason@
        },
        file == ConfigFile::Rules(raw) ==> {
            &&& r is Ok <==> built is Ok
            &&& r is Ok ==> rule_views(r->Ok_0.rules@) == rule_views(built->Ok_0.rules@)
            &&& r is Err ==> r->Err_0@ == built->Err_0@
        },
{
    if file is Missing {
        assert(rule_views(r->Ok_0.rules@).len() == r->Ok_0.rules@.len());
    }
    if file == ConfigFile::Rules(raw) {
        assert(optional_texts(errors@) =~= pattern_errors(raw@)) by {
            assert forall|i: int| 0 <= i < raw@.len() implies optional_texts(errors@)[i]
                == pattern_errors(raw@)[i] by {
                assert(text::text_of(errors@[i]) == regex_error_text(raw@[i].pattern@));
            }
        }
    }
}

/// An empty service has no rules.
pub proof fn law_empty_service_has_no_rules(r: EmoticonService)
    requires
        call_ensures(EmoticonService::empty, (), r),
    ensures
        r.rules@.len() == 0,
{
    assert(rule_views(r.rules@).len() == r.rules@.len());
}

/// Which reactions are given depends on which rules match alone: those of the
/// matching rules, each once, from the first rule that has it, in the order of the
/// rules.
pub proof fn law_matching_rules_give_their_reactions(
    service: EmoticonService,
    matched: Vec<bool>,
    r: Vec<ReactionType>,
    i: int,
)
    requires
        matched@.len() == service.rules@.len(),
        call_ensures(EmoticonService::pick_reactions, (&service, &matched), r),
        0 <= i < service.rules@.len(),
    ensures
        ({
            let first = forall|j: int|
                0 <= j < i && matched@[j] ==> (#[trigger] service.rules@[j]).reaction@.key()
                    != service.rules@[i].reaction@.key();
            matched@[i] && first ==> exists|k: int|
                0 <= k < r@.len() && (#[trigger] r@[k])@ == service.rules@[i].reaction@
        }),
        forall|k: int|
            0 <= k < r@.len() ==> exists|j: int|
                0 <= j < service.rules@.len() && matched@[j] && (
                #[trigger] service.rules@[j]).reaction@ == (#[trigger] r@[k])@,
        matched@[i] ==> exists|k: int|
            0 <= k < r@.len() && (#[trigger] r@[k])@.key() == service.rules@[i].reaction@.key(),
        forall|k: int, l: int|
            0 <= k < l < r@.len() ==> (#[trigger] r@[k])@.key() != (#[trigger] r@[l])@.key(),
{
    let rules = rule_views(service.rules@);
    let given = reaction_views(r@);
    assert(given.len() == r@.len());
    assert forall|k: int| 0 <= k < r@.len() implies given[k] == (#[trigger] r@[k])@ by {}
    assert forall|j: int| 0 <= j < rules.len() implies rules[j].reaction == (
    #[trigger] service.rules@[j]).reaction@ by {}
    let from = law_reactions_follow_the_rules(rules, matched@);
    assert forall|k: int| 0 <= k < r@.len() implies exists|j: int|
        0 <= j < service.rules@.len() && matched@[j] && (#[trigger] service.rules@[j]).reaction@ == (
        #[trigger] r@[k])@ by {
        let j = from[k];
        assert(rules[j].reaction == given[k]);
        assert(service.rules@[j].reaction@ == r@[k]@);
    }
    if matched@[i] {
        law_matching_rules_react(rules, matched@, i);
        let k = choose|k: int|
            0 <= k < given.len() && (#[trigger] given[k]).key() == rules[i].reaction.key();
        assert(r@[k]@.key() == service.rules@[i].reaction@.key());
        let j = from[k];
        assert(rules[j].reaction == given[k]);
        if j != i {
            if j < i {
                assert(service.rules@[j].reaction@.key() == service.rules@[i].reaction@.key());
            } else {
                assert(rules[i].reaction.key() != rules[from[k]].reaction.key());
            }
        }
    }
    assert forall|k: int, l: int| 0 <= k < l < r@.len() implies (#[trigger] r@[k])@.key() != (
    #[trigger] r@[l])@.key() by {
        law_reactions_are_given_once(rules, matched@, k, l);
    }
}

/// A rule counts as matching exactly where its regular expression matches the very
/// content of the message. The reactions that the message earns are those which
/// these matches give.
pub proof fn law_messages_are_matched_as_they_are(
    service: EmoticonService,
    content: &str,
    r: Vec<ReactionType>,
    matched: Vec<bool>,
    given: Vec<ReactionType>,
)
    requires
        call_ensures(EmoticonService::detect_reactions, (&service, content), r),
        matched@.len() == service.rules@.len(),
        forall|i: int|
            0 <= i < matched@.len() ==> (#[trigger] matched@[i]) == regex_matches(
                service.rules@[i].pattern@,
                content@,
            ),
        call_ensures(EmoticonService::pick_reactions, (&service, &matched), given),
    ensures
        r@.len() == given@.len(),
        forall|k: int| 0 <= k < r@.len() ==> (#[trigger] r@[k])@ == given@[k]@,
{
    let rules = rule_views(service.rules@);
    assert(matches_of(rules, content@) =~= matched@);
    assert(reaction_views(r@) == reaction_views(given@));
    assert(reaction_views(r@).len() == r@.len());
    assert(reaction_views(given@).len() == given@.len());
    assert forall|k: int| 0 <= k < r@.len() implies (#[trigger] r@[k])@ == given@[k]@ by {
        assert(reaction_views(r@)[k] == r@[k]@);
        assert(reaction_views(given@)[k] == given@[k]@);
    }
}

/// There is one match to each rule: whether its regular expression matches the
/// content as it is written.
pub proof fn law_matches_are_of_the_content(rules: Seq<RuleView>, content: Seq<char>)
    ensures
        matches_of(rules, content).len() == rules.len(),
        forall|i: int|
            0 <= i < rules.len() ==> #[trigger] matches_of(rules, content)[i] == regex_matches(
                rules[i].pattern,
                content,
            ),
{
}

} // verus!
