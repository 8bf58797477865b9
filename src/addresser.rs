use vstd::prelude::*;
use vstd::string::StringExecFns;

verus! {

/// What `regex::escape` makes of a text: a pattern that matches the text
/// literally.
pub uninterp spec fn regex_escaped(s: Seq<char>) -> Seq<char>;

/// Whether `regex::Regex::new` compiles a pattern. It depends on the pattern
/// alone: the builder's size and nesting limits are fixed defaults.
pub uninterp spec fn regex_accepts(pattern: Seq<char>) -> bool;

/// The pattern that recognises a message opening with a mention of the bot:
/// `^<@name>`, with the name escaped so that it is matched literally.
pub open spec fn addresser_pattern(bot_name: Seq<char>) -> Seq<char> {
    seq!['^', '<', '@'] + regex_escaped(bot_name) + seq!['>']
}

/// Relies on `regex::escape`: escapes every regex meta character of `s`.
#[verifier::external_body]
fn escape_literal(s: &str) -> (r: String)
    ensures
        r@ == regex_escaped(s@),
{
    regex::escape(s)
}

/// Builds the text of the addressing pattern for a bot name.
pub fn build_addresser_pattern(bot_name: &str) -> (r: String)
    ensures
        r@ == addresser_pattern(bot_name@),
{
    let escaped = escape_literal(bot_name);
    let mut r = String::from_str("^<@");
    r.append(escaped.as_str());
    r.append(">");
    proof {
        reveal_strlit("^<@");
        reveal_strlit(">");
        assert(r@ =~= addresser_pattern(bot_name@));
    }
    r
}

#[verifier::external_type_specification]
#[verifier::external_body]
pub struct ExRegex(regex::Regex);

#[verifier::external_type_specification]
#[verifier::external_body]
pub struct ExRegexError(regex::Error);

/// Relies on `regex::Regex::new`: compiles `pattern`, or reports why it cannot.
#[verifier::external_body]
fn compile_regex(pattern: &str) -> (r: Result<regex::Regex, regex::Error>)
    ensures
        r is Ok <==> regex_accepts(pattern@),
{
    regex::Regex::new(pattern)
}

/// The compiled matcher that tells whether a message opens with a mention of
/// the bot, with the pattern it was compiled from.
pub struct Addresser {
    pattern: String,
    regex: regex::Regex,
}

impl Addresser {
    pub closed spec fn pattern_spec(&self) -> Seq<char> {
        self.pattern@
    }

    /// The compiled matcher.
    pub closed spec fn regex_spec(&self) -> regex::Regex {
        self.regex
    }

    /// The matcher for the bot `bot_name`, compiled from `^<@bot_name>`;
    /// `None` where the regex engine refuses that pattern.
    pub fn new(bot_name: &str) -> (r: Option<Addresser>)
        ensures
            r is Some <==> regex_accepts(addresser_pattern(bot_name@)),
            r matches Some(a) ==> a.pattern_spec() == addresser_pattern(bot_name@),
    {
        let pattern = build_addresser_pattern(bot_name);
        match compile_regex(pattern.as_str()) {
            Ok(regex) => Some(Addresser { pattern, regex }),
            Err(_) => None,
        }
    }

    /// The text of the pattern.
    pub fn pattern(&self) -> (r: &str)
        ensures
            r@ == self.pattern_spec(),
    {
        self.pattern.as_str()
    }

    /// The compiled matcher.
    pub fn regex(&self) -> (r: &regex::Regex)
        ensures
            *r == self.regex_spec(),
    {
        &self.regex
    }
}

} // verus!
