//! The four text-case helpers and the word segmenter behind two of them.
//!
//! A helper takes one positional parameter. Called without one it fails; called
//! with a parameter that is not text it yields the empty string.

use crate::text::{first_lowercase, is_uppercase_char, lowercase_head};
use vstd::prelude::*;

verus! {

/// The lowercase form of a text, as `str::to_lowercase` computes it.
pub uninterp spec fn lowercase_text(s: Seq<char>) -> Seq<char>;

/// The uppercase form of a text, as `str::to_uppercase` computes it.
pub uninterp spec fn uppercase_text(s: Seq<char>) -> Seq<char>;

/// `str::to_lowercase` returns the lowercase equivalent of the slice as a new
/// string; the result depends on the characters alone.
pub assume_specification[ str::to_lowercase ](s: &str) -> (lowered: String)
    ensures
        lowered@ == lowercase_text(s@),
;

/// `str::to_uppercase` returns the uppercase equivalent of the slice as a new
/// string; the result depends on the characters alone.
pub assume_specification[ str::to_uppercase ](s: &str) -> (raised: String)
    ensures
        raised@ == uppercase_text(s@),
;

/// The characters that separate words in the input: dash, space and underscore.
pub open spec fn is_delimiter(c: char) -> bool {
    c == '-' || c == ' ' || c == '_'
}

/// Whether the character at `i` comes directly after a delimiter, so that no
/// further separator is written in front of it.
pub open spec fn follows_separator(s: Seq<char>, i: int) -> bool {
    i > 0 && !is_uppercase_char(s[i - 1]) && is_delimiter(s[i - 1])
}

/// What the character at index `i` of `s` contributes to the output.
///
/// An uppercase character gives its lowercase form, with `sep` in front unless
/// it is the first character or follows a delimiter. A delimiter gives `sep`,
/// unless it follows another delimiter. Every other character stays as it is.
pub open spec fn emitted_at(s: Seq<char>, i: int, sep: char) -> Seq<char> {
    let c = s[i];
    if is_uppercase_char(c) {
        let lead = if i > 0 && !follows_separator(s, i) {
            seq![sep]
        } else {
            Seq::<char>::empty()
        };
        lead.push(lowercase_head(c))
    } else if is_delimiter(c) {
        if follows_separator(s, i) {
            Seq::<char>::empty()
        } else {
            seq![sep]
        }
    } else {
        seq![c]
    }
}

/// The output for the first `n` characters of `s`.
pub open spec fn separated(s: Seq<char>, n: nat, sep: char) -> Seq<char>
    decreases n,
{
    if n == 0 {
        Seq::<char>::empty()
    } else {
        separated(s, (n - 1) as nat, sep) + emitted_at(s, n - 1, sep)
    }
}

/// `s` in snake_case.
pub open spec fn snake_case(s: Seq<char>) -> Seq<char> {
    separated(s, s.len(), '_')
}

/// `s` in kebab-case.
pub open spec fn kebab_case(s: Seq<char>) -> Seq<char> {
    separated(s, s.len(), '-')
}

fn separate_words(input: &str, sep: char) -> (result: String)
    ensures
        result@ == separated(input@, input@.len(), sep),
{
    let mut result = String::new();
    let mut prev_is_sep = false;
    let mut first = true;
    for c in it: input.chars()
        invariant
            it.seq() == input@,
            result@ == separated(input@, it.index() as nat, sep),
            first == (it.index() == 0),
            prev_is_sep == follows_separator(input@, it.index() as int),
    {
        if c.is_uppercase() {
            if !first && !prev_is_sep {
                result.push(sep);
            }
            result.push(first_lowercase(c));
            prev_is_sep = false;
        } else if c == '-' || c == ' ' || c == '_' {
            if !prev_is_sep {
                result.push(sep);
                prev_is_sep = true;
            }
        } else {
            result.push(c);
            prev_is_sep = false;
        }
        first = false;
    }
    result
}

/// Converts a string to snake_case.
pub fn to_snake_case(input: &str) -> (result: String)
    ensures
        result@ == snake_case(input@),
{
    separate_words(input, '_')
}

/// Converts a string to kebab-case.
pub fn to_kebab_case(input: &str) -> (result: String)
    ensures
        result@ == kebab_case(input@),
{
    separate_words(input, '-')
}

/// A text without uppercase characters and without delimiters converts to
/// itself: digits and punctuation pass through and bring no separator about.
pub proof fn lemma_plain_text_is_kept(s: Seq<char>, n: nat, sep: char)
    requires
        n <= s.len(),
        forall|i: int| 0 <= i < n ==> !is_uppercase_char(s[i]) && !is_delimiter(s[i]),
    ensures
        separated(s, n, sep) == s.take(n as int),
    decreases n,
{
    if n > 0 {
        lemma_plain_text_is_kept(s, (n - 1) as nat, sep);
        assert(s.take(n as int) =~= s.take(n - 1) + seq![s[n - 1]]);
    } else {
        assert(s.take(0) =~= Seq::<char>::empty());
    }
}

/// A delimiter that follows a delimiter adds nothing: a run of delimiters
/// gives one separator.
pub proof fn lemma_adjacent_delimiters_collapse(s: Seq<char>, i: int, sep: char)
    requires
        0 < i < s.len(),
        is_delimiter(s[i - 1]) && !is_uppercase_char(s[i - 1]),
        is_delimiter(s[i]) && !is_uppercase_char(s[i]),
    ensures
        emitted_at(s, i, sep) == Seq::<char>::empty(),
        emitted_at(s, i - 1, sep).len() <= 1,
{
}

/// A parameter as a helper receives it: a text, or a value of another kind.
#[derive(Debug, Clone, PartialEq, Eq)]
pub enum HelperParam {
    /// A string value.
    Text(String),
    /// A number, a boolean, a list, an object or nothing.
    Other,
}

/// Why a helper failed.
#[derive(Debug, Clone, Copy, PartialEq, Eq)]
pub enum HelperError {
    /// A character could not be converted to lowercase.
    LowercaseConversionError,
    /// The helper was called without the parameter at `index`.
    ParamNotFound {
        /// Name of the helper.
        helper: &'static str,
        /// Position of the missing parameter.
        index: usize,
    },
}

/// What a helper returns for its parameters: a failure that names the helper
/// when there is none, the empty text when the first is not a text, and the
/// transformed text otherwise.
pub open spec fn helper_outcome(
    name: &'static str,
    params: Seq<HelperParam>,
    transformed: Seq<char>,
    result: Result<String, HelperError>,
) -> bool {
    if params.len() == 0 {
        result == Err::<String, HelperError>(HelperError::ParamNotFound { helper: name, index: 0 })
    } else {
        match params[0] {
            HelperParam::Text(_) => result is Ok && result->Ok_0@ == transformed,
            HelperParam::Other => result is Ok && result->Ok_0@ == Seq::<char>::empty(),
        }
    }
}

/// The text of a parameter, empty for one that is not a text.
pub open spec fn param_text(p: HelperParam) -> Seq<char> {
    match p {
        HelperParam::Text(s) => s@,
        HelperParam::Other => Seq::<char>::empty(),
    }
}

/// A named text transform that a template can call with one parameter.
pub trait TemplateHelper {
    /// The name under which templates call the helper.
    spec fn helper_name(&self) -> &'static str;

    /// The transform that the helper applies to a text.
    spec fn transform(&self, text: Seq<char>) -> Seq<char>;

    /// The name under which templates call the helper.
    fn name(&self) -> (n: &'static str)
        ensures
            n == self.helper_name(),
    ;

    /// Applies the helper to the parameters of one call.
    fn apply(&self, params: &Vec<HelperParam>) -> (result: Result<String, HelperError>)
        ensures
            helper_outcome(
                self.helper_name(),
                params@,
                self.transform(param_text(params@[0])),
                result,
            ),
    ;
}

/// Helper that converts text to lowercase.
#[derive(Debug, Clone, Copy)]
pub struct LowercaseHelper;

/// Helper that converts text to uppercase.
#[derive(Debug, Clone, Copy)]
pub struct UppercaseHelper;

/// Helper that converts text to snake_case.
#[derive(Debug, Clone, Copy)]
pub struct SnakeCaseHelper;

/// Helper that converts text to kebab-case.
#[derive(Debug, Clone, Copy)]
pub struct KebabCaseHelper;

impl TemplateHelper for LowercaseHelper {
    open spec fn helper_name(&self) -> &'static str {
        "lowercase"
    }

    open spec fn transform(&self, text: Seq<char>) -> Seq<char> {
        lowercase_text(text)
    }

    fn name(&self) -> (n: &'static str) {
        "lowercase"
    }

    fn apply(&self, params: &Vec<HelperParam>) -> (result: Result<String, HelperError>) {
        if params.len() == 0 {
            return Err(HelperError::ParamNotFound { helper: "lowercase", index: 0 });
        }
        match &params[0] {
            HelperParam::Text(s) => Ok(s.as_str().to_lowercase()),
            HelperParam::Other => Ok(String::new()),
        }
    }
}

impl TemplateHelper for UppercaseHelper {
    open spec fn helper_name(&self) -> &'static str {
        "uppercase"
    }

    open spec fn transform(&self, text: Seq<char>) -> Seq<char> {
        uppercase_text(text)
    }

    fn name(&self) -> (n: &'static str) {
        "uppercase"
    }

    fn apply(&self, params: &Vec<HelperParam>) -> (result: Result<String, HelperError>) {
        if params.len() == 0 {
            return Err(HelperError::ParamNotFound { helper: "uppercase", index: 0 });
        }
        match &params[0] {
            HelperParam::Text(s) => Ok(s.as_str().to_uppercase()),
            HelperParam::Other => Ok(String::new()),
        }
    }
}

impl TemplateHelper for SnakeCaseHelper {
    open spec fn helper_name(&self) -> &'static str {
        "snake_case"
    }

    open spec fn transform(&self, text: Seq<char>) -> Seq<char> {
        snake_case(text)
    }

    fn name(&self) -> (n: &'static str) {
        "snake_case"
    }

    fn apply(&self, params: &Vec<HelperParam>) -> (result: Result<String, HelperError>) {
        if params.len() == 0 {
            return Err(HelperError::ParamNotFound { helper: "snake_case", index: 0 });
        }
        match &params[0] {
            HelperParam::Text(s) => Ok(to_snake_case(s.as_str())),
            HelperParam::Other => Ok(String::new()),
        }
    }
}

impl TemplateHelper for KebabCaseHelper {
    open spec fn helper_name(&self) -> &'static str {
        "kebab_case"
    }

    open spec fn transform(&self, text: Seq<char>) -> Seq<char> {
        kebab_case(text)
    }

    fn name(&self) -> (n: &'static str) {
        "kebab_case"
    }

    fn apply(&self, params: &Vec<HelperParam>) -> (result: Result<String, HelperError>) {
        if params.len() == 0 {
            return Err(HelperError::ParamNotFound { helper: "kebab_case", index: 0 });
        }
        match &params[0] {
            HelperParam::Text(s) => Ok(to_kebab_case(s.as_str())),
            HelperParam::Other => Ok(String::new()),
        }
    }
}

} // verus!
