use crate::strings::push_char;
use std::borrow::Cow;
use tree_sitter::StreamingIterator;
use vstd::prelude::*;
use vstd::string::{StrSliceExecFns, StringExecFns, StringSliceAdditionalSpecFns};

verus! {

/// The options of the `patch-includes` command.
#[derive(Debug, Clone)]
pub struct PatchIncludesOpts {
    /// The source file to read.
    pub input_path: String,
    /// The source file to write.
    pub output_path: String,
    /// The regular expression to find.
    pub find: String,
    /// What is put in its place; groups can be named in it.
    pub replace_with: String,
    /// The flags of the regular expression.
    pub flags: Option<String>,
}

/// The numbers that stand for a character.
pub open spec fn valid_scalar(u: nat) -> bool {
    u <= 0xD7FF || 0xE000 <= u <= 0x10FFFF
}

/// `char::from_u32`: the character that a number stands for, where it
/// stands for one; the surrogates and the numbers past the last code point
/// stand for none.
#[verifier::external_body]
fn char_from_u32(u: u32) -> (c: Option<char>)
    ensures
        c == (if valid_scalar(u as nat) {
            Some(u as char)
        } else {
            None
        }),
{
    char::from_u32(u)
}

/// The value of a hexadecimal digit.
pub open spec fn hex_digit_value(c: char) -> Option<nat> {
    if '0' <= c <= '9' {
        Some((c as u32 - '0' as u32) as nat)
    } else if 'a' <= c <= 'f' {
        Some((c as u32 - 'a' as u32 + 10) as nat)
    } else if 'A' <= c <= 'F' {
        Some((c as u32 - 'A' as u32 + 10) as nat)
    } else {
        None
    }
}

/// The value of a hexadecimal digit.
fn hex_digit(c: char) -> (v: Option<u32>)
    ensures
        match hex_digit_value(c) {
            Some(d) => v == Some(d as u32) && d < 16,
            None => v is None,
        },
{
    if '0' <= c && c <= '9' {
        Some(c as u32 - '0' as u32)
    } else if 'a' <= c && c <= 'f' {
        Some(c as u32 - 'a' as u32 + 10)
    } else if 'A' <= c && c <= 'F' {
        Some(c as u32 - 'A' as u32 + 10)
    } else {
        None
    }
}

/// The number that hexadecimal digits stand for, or `None` where one of
/// them is no such digit.
pub open spec fn hex_value(digits: Seq<char>) -> Option<nat>
    decreases digits.len(),
{
    if digits.len() == 0 {
        Some(0)
    } else {
        match (hex_value(digits.drop_last()), hex_digit_value(digits.last())) {
            (Some(v), Some(d)) => Some(16 * v + d),
            _ => None,
        }
    }
}

/// The number that a text stands for in base sixteen: one digit or more,
/// with or without a plus sign before them.
pub open spec fn parse_hex(s: Seq<char>) -> Option<nat> {
    let digits = if s.len() > 0 && s[0] == '+' {
        s.drop_first()
    } else {
        s
    };
    if digits.len() == 0 {
        None
    } else {
        hex_value(digits)
    }
}

/// The largest number that stands for a character.
pub const LAST_SCALAR: u32 = 0x10FFFF;

/// The number that `length` hexadecimal digits from `start` on stand for,
/// where it is no larger than the largest that stands for a character.
fn hex_number(chars: &Vec<char>, start: usize, length: usize) -> (v: Option<u32>)
    requires
        start + length <= chars.len(),
    ensures
        match hex_value(chars@.subrange(start as int, start + length)) {
            Some(n) => if n <= LAST_SCALAR {
                v == Some(n as u32)
            } else {
                v is None
            },
            None => v is None,
        },
{
    let mut value: u32 = 0;
    let mut k: usize = 0;
    let ghost whole = chars@.subrange(start as int, start + length);
    while k < length
        invariant
            k <= length,
            start + length <= chars.len(),
            whole == chars@.subrange(start as int, start + length),
            hex_value(chars@.subrange(start as int, start + k)) == Some(value as nat),
            value <= LAST_SCALAR,
        decreases length - k,
    {
        let ghost upto = chars@.subrange(start as int, start + k + 1);
        assert(upto.drop_last() =~= chars@.subrange(start as int, start + k));
        assert(whole.take(k + 1) =~= upto);
        match hex_digit(chars[start + k]) {
            Some(d) => {
                value = 16 * value + d;
                if value > LAST_SCALAR {
                    proof {
                        if hex_value(whole) is Some {
                            lemma_hex_value_grows(whole, (k + 1) as int);
                        }
                    }
                    return None;
                }
            },
            None => {
                proof {
                    lemma_hex_value_prefix(whole, (k + 1) as int);
                }
                return None;
            },
        }
        k += 1;
    }
    Some(value)
}

/// Digits at the front stand for no more than the whole does.
proof fn lemma_hex_value_grows(digits: Seq<char>, n: int)
    requires
        0 <= n <= digits.len(),
        hex_value(digits.take(n)) is Some,
        hex_value(digits) is Some,
    ensures
        hex_value(digits.take(n))->0 <= hex_value(digits)->0,
    decreases digits.len(),
{
    if n < digits.len() {
        assert(digits.drop_last().take(n) =~= digits.take(n));
        lemma_hex_value_grows(digits.drop_last(), n);
    } else {
        assert(digits.take(n) =~= digits);
    }
}

/// Where some digits at the front stand for no number, neither does the
/// whole.
proof fn lemma_hex_value_prefix(digits: Seq<char>, n: int)
    requires
        0 <= n <= digits.len(),
        hex_value(digits.take(n)) is None,
    ensures
        hex_value(digits) is None,
    decreases digits.len(),
{
    if n < digits.len() {
        assert(digits.drop_last().take(n) =~= digits.take(n));
        lemma_hex_value_prefix(digits.drop_last(), n);
    } else {
        assert(digits.take(n) =~= digits);
    }
}

/// The character that the first `length` characters of `rest` name by its
/// number in base sixteen, as in `\x41` or `\u0041`.
pub open spec fn escaped_char(rest: Seq<char>, length: nat) -> Option<char> {
    if rest.len() < length {
        None
    } else {
        match parse_hex(rest.take(length as int)) {
            Some(u) => if valid_scalar(u) {
                Some(u as char)
            } else {
                None
            },
            None => None,
        }
    }
}

/// Reads the character that the `length` characters from `start` on name by
/// its number in base sixteen; a number that stands for no character, however
/// large, gives none.
pub fn escape_n_chars(chars: &Vec<char>, start: usize, length: usize) -> (c: Option<char>)
    requires
        start <= chars.len(),
    ensures
        c == escaped_char(chars@.skip(start as int), length as nat),
{
    if chars.len() - start < length {
        return None;
    }
    let ghost rest = chars@.skip(start as int);
    assert(rest.take(length as int) =~= chars@.subrange(start as int, start + length));
    let signed = length > 0 && chars[start] == '+';
    let number = if signed {
        assert(rest.take(length as int).drop_first() =~= chars@.subrange(
            start + 1,
            start + 1 + (length - 1),
        ));
        if length == 1 {
            None
        } else {
            hex_number(chars, start + 1, length - 1)
        }
    } else {
        if length == 0 {
            None
        } else {
            hex_number(chars, start, length)
        }
    };
    match number {
        Some(u) => char_from_u32(u),
        None => None,
    }
}

/// The character that stands behind a backslash for another.
pub open spec fn simple_escape(c: char) -> Option<char> {
    if c == 'n' {
        Some('\n')
    } else if c == 'r' {
        Some('\r')
    } else if c == 't' {
        Some('\t')
    } else if c == '\'' {
        Some('\'')
    } else if c == '"' {
        Some('"')
    } else if c == '\\' {
        Some('\\')
    } else {
        None
    }
}

/// How many digits an escape by number has: four behind `u`, two behind
/// `x`.
pub open spec fn escape_length(c: char) -> Option<nat> {
    if c == 'u' {
        Some(4)
    } else if c == 'x' {
        Some(2)
    } else {
        None
    }
}

/// The text from position `i` on with its escapes resolved. A backslash
/// with a known letter behind it gives the character that the letter stands
/// for; `\u` and `\x` with a number behind them give the character of that
/// number, and the number and the character that follows it are passed
/// over; any other backslash stays as it is.
pub open spec fn unescaped(s: Seq<char>, i: int) -> Seq<char>
    decreases s.len() - i,
{
    if i < 0 || i >= s.len() {
        Seq::empty()
    } else if s[i] != '\\' {
        seq![s[i]] + unescaped(s, i + 1)
    } else if i + 1 >= s.len() {
        seq!['\\']
    } else {
        let c = s[i + 1];
        match simple_escape(c) {
            Some(e) => seq![e] + unescaped(s, i + 2),
            None => match escape_length(c) {
                Some(length) => match escaped_char(s.skip(i + 2), length) {
                    Some(ch) => seq![ch] + unescaped(
                        s,
                        if i + 2 + length + 1 <= s.len() {
                            i + 2 + length + 1
                        } else {
                            s.len() as int
                        },
                    ),
                    None => seq!['\\', c] + unescaped(s, i + 2),
                },
                None => seq!['\\', c] + unescaped(s, i + 2),
            },
        }
    }
}

/// The characters of a text.
fn chars_of(s: &str) -> (chars: Vec<char>)
    ensures
        chars@ == s@,
{
    let mut chars: Vec<char> = Vec::new();
    for c in it: s.chars()
        invariant
            it.seq() == s@,
            chars@ == s@.take(it.index() as int),
    {
        chars.push(c);
    }
    chars
}

/// Resolves the escapes of a text that was written with backslashes.
pub fn unescape(input: &str) -> (out: String)
    ensures
        out@ == unescaped(input@, 0),
{
    let chars = chars_of(input);
    let mut out = String::new();
    let mut i: usize = 0;
    while i < chars.len()
        invariant
            i <= chars.len(),
            chars@ == input@,
            out@ + unescaped(input@, i as int) == unescaped(input@, 0),
        decreases chars.len() - i,
    {
        let c = chars[i];
        if c != '\\' {
            push_char(&mut out, c);
            i += 1;
            continue ;
        }
        if i + 1 >= chars.len() {
            push_char(&mut out, '\\');
            i = chars.len();
            continue ;
        }
        let next = chars[i + 1];
        let escaped: Option<char> = if next == 'n' {
            Some('\n')
        } else if next == 'r' {
            Some('\r')
        } else if next == 't' {
            Some('\t')
        } else if next == '\'' {
            Some('\'')
        } else if next == '"' {
            Some('"')
        } else if next == '\\' {
            Some('\\')
        } else {
            None
        };
        let length: usize = if next == 'u' {
            4
        } else {
            2
        };
        if let Some(e) = escaped {
            push_char(&mut out, e);
            i += 2;
        } else if next == 'u' || next == 'x' {
            match escape_n_chars(&chars, i + 2, length) {
                Some(ch) => {
                    push_char(&mut out, ch);
                    i = if chars.len() - (i + 2) > length {
                        i + 2 + length + 1
                    } else {
                        chars.len()
                    };
                },
                None => {
                    push_char(&mut out, '\\');
                    push_char(&mut out, next);
                    i += 2;
                },
            }
        } else {
            push_char(&mut out, '\\');
            push_char(&mut out, next);
            i += 2;
        }
    }
    out
}

/// A compiled regular expression of the `regex` crate: opaque here.
#[verifier::external_type_specification]
#[verifier::external_body]
pub struct ExRegex(regex::bytes::Regex);

/// An error of the `regex` crate: opaque here.
#[verifier::external_type_specification]
#[verifier::external_body]
pub struct ExRegexError(regex::Error);

/// The switches of a regular expression.
#[derive(Debug, Clone, Copy, PartialEq, Eq, Structural)]
pub struct RegexFlags {
    pub case_insensitive: bool,
    pub multi_line: bool,
    pub dot_matches_new_line: bool,
}

/// A regular expression before it is compiled.
#[derive(Debug)]
pub struct RegexSettings {
    pub pattern: String,
    pub flags: RegexFlags,
}

/// The switches before any flag is read: only matching by line is on.
pub open spec fn default_flags() -> RegexFlags {
    RegexFlags { case_insensitive: false, multi_line: true, dot_matches_new_line: false }
}

/// The switches after one flag: `c` and `i` switch the case off and on, `m`
/// and `e` the matching by line on and off, `s` lets the dot match a line
/// break; any other letter changes nothing.
pub open spec fn apply_flag(flags: RegexFlags, c: char) -> RegexFlags {
    if c == 'c' {
        RegexFlags { case_insensitive: false, ..flags }
    } else if c == 'i' {
        RegexFlags { case_insensitive: true, ..flags }
    } else if c == 'm' {
        RegexFlags { multi_line: true, ..flags }
    } else if c == 'e' {
        RegexFlags { multi_line: false, ..flags }
    } else if c == 's' {
        RegexFlags { dot_matches_new_line: true, ..flags }
    } else {
        flags
    }
}

/// The switches after a series of flags, read from left to right.
pub open spec fn apply_flags(flags: RegexFlags, letters: Seq<char>) -> RegexFlags
    decreases letters.len(),
{
    if letters.len() == 0 {
        flags
    } else {
        apply_flag(apply_flags(flags, letters.drop_last()), letters.last())
    }
}

/// The letters of the flags, if any are given.
pub open spec fn letters_of(flags: Option<String>) -> Seq<char> {
    match flags {
        Some(letters) => letters@,
        None => Seq::empty(),
    }
}

/// The pattern that is compiled: under the flag `w` the one given between
/// two word boundaries, else the one given.
pub open spec fn pattern_for(find: Seq<char>, letters: Seq<char>) -> Seq<char> {
    if letters.contains('w') {
        "\\b"@ + find + "\\b"@
    } else {
        find
    }
}

/// Reads the flags and says what is to be compiled.
pub fn regex_settings(find: &str, flags: &Option<String>) -> (settings: RegexSettings)
    ensures
        settings.pattern@ == pattern_for(find@, letters_of(*flags)),
        settings.flags == apply_flags(default_flags(), letters_of(*flags)),
{
    let mut switches = RegexFlags {
        case_insensitive: false,
        multi_line: true,
        dot_matches_new_line: false,
    };
    let mut whole_words = false;
    match flags {
        Some(letters) => {
            let text = letters.as_str();
            for c in it: text.chars()
                invariant
                    it.seq() == text@,
                    switches == apply_flags(default_flags(), text@.take(it.index() as int)),
                    whole_words == text@.take(it.index() as int).contains('w'),
            {
                let ghost upto = text@.take(it.index() + 1);
                assert(upto.drop_last() =~= text@.take(it.index() as int));
                assert(upto.last() == c);
                if c == 'c' {
                    switches.case_insensitive = false;
                } else if c == 'i' {
                    switches.case_insensitive = true;
                } else if c == 'm' {
                    switches.multi_line = true;
                } else if c == 'e' {
                    switches.multi_line = false;
                } else if c == 's' {
                    switches.dot_matches_new_line = true;
                } else if c == 'w' {
                    whole_words = true;
                }
            }
            assert(text@.take(text@.len() as int) =~= text@);
        },
        None => {},
    }
    let pattern = if whole_words {
        let mut pattern = String::from_str("\\b");
        pattern.append(find);
        pattern.append("\\b");
        pattern
    } else {
        find.to_owned()
    };
    RegexSettings { pattern, flags: switches }
}

/// `regex::bytes::RegexBuilder`: `new` with the pattern, the three setters
/// of the switches, and `build`. Whether the pattern compiles is for the
/// crate to say, so nothing is claimed of the result.
#[verifier::external_body]
fn build_regex(settings: &RegexSettings) -> (r: Result<regex::bytes::Regex, regex::Error>) {
    regex::bytes::RegexBuilder::new(&settings.pattern)
        .case_insensitive(settings.flags.case_insensitive)
        .multi_line(settings.flags.multi_line)
        .dot_matches_new_line(settings.flags.dot_matches_new_line)
        .build()
}

/// The diagnostic of an error of the `regex` crate: the text that
/// `to_string` gives for it.
pub uninterp spec fn regex_diagnostic(error: regex::Error) -> Seq<char>;

/// `ToString::to_string` on a `regex::Error`: the text that its `Display`
/// gives, which is what the name above stands for.
#[verifier::external_body]
fn regex_error_text(error: &regex::Error) -> (text: String)
    ensures
        text@ == regex_diagnostic(*error),
{
    error.to_string()
}

/// `regex::bytes::Regex::replace_all` with a replacement in which groups may
/// be named: the new bytes where something was replaced, and `None` where
/// the content comes back as it was. Nothing is claimed of the bytes.
#[verifier::external_body]
fn replace_all(regex: &regex::bytes::Regex, content: &[u8], replacement: &Vec<u8>) -> (r: Option<
    Vec<u8>,
>) {
    match regex.replace_all(content, replacement) {
        Cow::Owned(bytes) => Some(bytes),
        Cow::Borrowed(_) => None,
    }
}

/// Finds a pattern and puts a replacement in its place.
pub struct Replacer {
    regex: regex::bytes::Regex,
    settings: RegexSettings,
    replace_with: Vec<u8>,
}

impl Replacer {
    /// The bytes that are put in place of a match.
    pub closed spec fn replacement(&self) -> Seq<u8> {
        self.replace_with@
    }

    /// The compiled pattern with which matches are found.
    pub closed spec fn compiled(&self) -> regex::bytes::Regex {
        self.regex
    }

    /// The pattern that was handed to the compiler.
    pub closed spec fn pattern(&self) -> Seq<char> {
        self.settings.pattern@
    }

    /// The switches that were handed to the compiler.
    pub closed spec fn flags(&self) -> RegexFlags {
        self.settings.flags
    }

    /// A replacer from what compiling `settings` gave: where a pattern was
    /// compiled, the replacer finds with it and puts `replace_with` in the
    /// place of a match; where none was, the diagnostic of the compiler
    /// comes back.
    pub fn from_compiled(
        compiled: Result<regex::bytes::Regex, regex::Error>,
        settings: RegexSettings,
        replace_with: Vec<u8>,
    ) -> (r: Result<Replacer, String>)
        ensures
            match compiled {
                Ok(regex) => r matches Ok(replacer) && replacer.compiled() == regex
                    && replacer.pattern() == settings.pattern@ && replacer.flags()
                    == settings.flags && replacer.replacement() == replace_with@,
                Err(error) => r matches Err(text) && text@ == regex_diagnostic(error),
            },
    {
        match compiled {
            Ok(regex) => Ok(Replacer { regex, settings, replace_with }),
            Err(error) => Err(regex_error_text(&error)),
        }
    }

    /// A replacer for the pattern `find` under the given flags. The
    /// replacement is written with backslash escapes, which are resolved
    /// here; the pattern that goes to the compiler is `find`, between word
    /// boundaries under the flag `w`, with the switches that the flags set.
    /// Whether the pattern compiles is for the compiler to say: where it does
    /// not, its diagnostic comes back.
    pub fn new(find: String, replace_with: String, flags: Option<String>) -> (r: Result<
        Replacer,
        String,
    >)
        ensures
            r matches Ok(replacer) ==> replacer.replacement() == vstd::utf8::encode_utf8(
                unescaped(replace_with@, 0),
            ) && replacer.pattern() == pattern_for(find@, letters_of(flags)) && replacer.flags()
                == apply_flags(default_flags(), letters_of(flags)),
    {
        let replacement = unescape(replace_with.as_str());
        let replace_with = replacement.as_str().as_bytes_vec();
        let settings = regex_settings(find.as_str(), &flags);
        let compiled = build_regex(&settings);
        Replacer::from_compiled(compiled, settings, replace_with)
    }

    /// Replaces every match in `content`: the new bytes, or `None` where
    /// nothing matched.
    pub fn replace(&self, content: &[u8]) -> (r: Option<Vec<u8>>) {
        replace_all(&self.regex, content, &self.replace_with)
    }
}

/// Where the string literals of a source stand: each from its opening quote
/// to just past its closing quote, one after the other, all within `len`
/// bytes.
pub open spec fn literals_fit(len: nat, literals: Seq<(usize, usize)>) -> bool {
    &&& forall|i: int|
        0 <= i < literals.len() ==> (#[trigger] literals[i]).0 + 2 <= literals[i].1
            && literals[i].1 <= len
    &&& forall|i: int, j: int|
        0 <= i < j < literals.len() ==> (#[trigger] literals[i]).1 <= (#[trigger] literals[j]).0
}

/// The new texts of a list of replacements, as plain values.
pub open spec fn replacements_of(replacements: Seq<Option<Vec<u8>>>) -> Seq<Option<Seq<u8>>> {
    replacements.map_values(
        |r: Option<Vec<u8>>|
            match r {
                Some(bytes) => Some(bytes@),
                None => None,
            },
    )
}

/// The source with what stands between the quotes of one literal replaced,
/// where there is a replacement.
pub open spec fn spliced(source: Seq<u8>, literal: (usize, usize), replacement: Option<Seq<u8>>) -> Seq<
    u8,
> {
    match replacement {
        Some(new) => source.subrange(0, literal.0 + 1) + new + source.subrange(
            literal.1 - 1,
            source.len() as int,
        ),
        None => source,
    }
}

/// The source with every literal spliced, the last one first, so that the
/// positions of those before it stay good.
pub open spec fn patched(
    source: Seq<u8>,
    literals: Seq<(usize, usize)>,
    replacements: Seq<Option<Seq<u8>>>,
) -> Seq<u8>
    decreases literals.len(),
{
    if literals.len() == 0 || replacements.len() != literals.len() {
        source
    } else {
        patched(
            spliced(source, literals.last(), replacements.last()),
            literals.drop_last(),
            replacements.drop_last(),
        )
    }
}

/// Appends the bytes of `source` from `from` up to `to`.
fn append_range(out: &mut Vec<u8>, source: &Vec<u8>, from: usize, to: usize)
    requires
        from <= to <= source.len(),
    ensures
        final(out)@ == old(out)@ + source@.subrange(from as int, to as int),
{
    let mut i = from;
    while i < to
        invariant
            from <= i <= to <= source.len(),
            out@ == old(out)@ + source@.subrange(from as int, i as int),
        decreases to - i,
    {
        out.push(source[i]);
        i += 1;
    }
}

/// Replaces what stands between the quotes of one literal.
pub fn splice(source: Vec<u8>, literal: (usize, usize), replacement: &Option<Vec<u8>>) -> (out: Vec<
    u8,
>)
    requires
        literal.0 + 2 <= literal.1 <= source.len(),
    ensures
        out@ == spliced(
            source@,
            literal,
            match *replacement {
                Some(bytes) => Some(bytes@),
                None => None,
            },
        ),
{
    match replacement {
        Some(new) => {
            let mut out: Vec<u8> = Vec::new();
            append_range(&mut out, &source, 0, literal.0 + 1);
            append_range(&mut out, new, 0, new.len());
            append_range(&mut out, &source, literal.1 - 1, source.len());
            out
        },
        None => source,
    }
}

/// Puts the replacements in the places of the literals of a source.
pub fn patch_literals(
    source: Vec<u8>,
    literals: &[(usize, usize)],
    replacements: &Vec<Option<Vec<u8>>>,
) -> (out: Vec<u8>)
    requires
        literals_fit(source.len() as nat, literals@),
        replacements.len() == literals.len(),
    ensures
        out@ == patched(source@, literals@, replacements_of(replacements@)),
{
    let mut current = source;
    let mut k = literals.len();
    assert(literals@.take(k as int) =~= literals@);
    assert(replacements_of(replacements@).take(k as int) =~= replacements_of(replacements@));
    while k > 0
        invariant
            k <= literals.len(),
            replacements.len() == literals.len(),
            literals_fit(current.len() as nat, literals@.take(k as int)),
            patched(
                current@,
                literals@.take(k as int),
                replacements_of(replacements@).take(k as int),
            ) == patched(source@, literals@, replacements_of(replacements@)),
        decreases k,
    {
        let ghost upto = literals@.take(k as int);
        let ghost given = replacements_of(replacements@).take(k as int);
        assert(upto.drop_last() =~= literals@.take(k - 1));
        assert(given.drop_last() =~= replacements_of(replacements@).take(k - 1));
        k -= 1;
        current = splice(current, literals[k], &replacements[k]);
        proof {
            let rest = literals@.take(k as int);
        }
    }
    current
}

/// Asks the replacer for the new text of every literal.
pub fn find_replacements(source: &Vec<u8>, literals: &[(usize, usize)], replacer: &Replacer) -> (found:
    Vec<Option<Vec<u8>>>)
    requires
        literals_fit(source.len() as nat, literals@),
    ensures
        found.len() == literals.len(),
{
    let mut found: Vec<Option<Vec<u8>>> = Vec::new();
    let mut i: usize = 0;
    while i < literals.len()
        invariant
            i <= literals.len(),
            found.len() == i,
            literals_fit(source.len() as nat, literals@),
        decreases literals.len() - i,
    {
        let (start, end) = literals[i];
        let mut inner: Vec<u8> = Vec::new();
        append_range(&mut inner, source, start + 1, end - 1);
        found.push(replacer.replace(inner.as_slice()));
        i += 1;
    }
    found
}

/// Rewrites the paths of the includes of a source: what stands between the
/// quotes of each literal is handed to the replacer, and what it changes is
/// put in its place. The rest of the source stays as it is.
pub fn patch_includes(source: Vec<u8>, literals: &[(usize, usize)], replacer: &Replacer) -> (out:
    Vec<u8>)
    requires
        literals_fit(source.len() as nat, literals@),
    ensures
        exists|replacements: Seq<Option<Seq<u8>>>|
            replacements.len() == literals.len() && out@ == patched(
                source@,
                literals@,
                replacements,
            ),
{
    let found = find_replacements(&source, literals, replacer);
    let out = patch_literals(source, literals, &found);
    out
}

/// A syntax tree of the `tree-sitter` crate: opaque here.
#[verifier::external_type_specification]
#[verifier::external_body]
pub struct ExTree(tree_sitter::Tree);

/// Why the includes of a source could not be patched.
#[derive(Debug, Clone, PartialEq, Eq)]
pub enum PatchError {
    /// The parser did not take the grammar, with its diagnostic.
    Language(String),
    /// The parser gave no tree for the source.
    Parse,
    /// The query did not compile, with its diagnostic.
    Query(String),
    /// The literals that were found do not stand one after the other within
    /// the source.
    Literals,
}

/// The query that finds the quoted paths of the includes of a source.
pub const INCLUDE_QUERY: &'static str = "(preproc_include path: (string_literal) @include_path)";

/// `tree_sitter::Parser::new`, `Parser::set_language` with the grammar of
/// `tree_sitter_cpp`, and `Parser::parse` on the source: the tree, or what
/// went wrong. The tree is opaque here, so nothing is claimed of it.
#[verifier::external_body]
fn parse_cpp(source: &[u8]) -> (r: Result<tree_sitter::Tree, PatchError>) {
    let mut parser = tree_sitter::Parser::new();
    parser
        .set_language(&tree_sitter_cpp::LANGUAGE.into())
        .map_err(|error| PatchError::Language(error.to_string()))?;
    parser.parse(source, None).ok_or(PatchError::Parse)
}

/// `tree_sitter::Query::new` with the grammar of `tree_sitter_cpp`, and
/// `QueryCursor::captures` on the root of the tree: for every match the
/// bytes at which its first captured node starts and ends, in the order in
/// which the matches come. Nothing is claimed of the positions.
#[verifier::external_body]
fn captured_spans(tree: &tree_sitter::Tree, source: &[u8], pattern: &str) -> (r: Result<
    Vec<(usize, usize)>,
    PatchError,
>) {
    let query = tree_sitter::Query::new(&tree_sitter_cpp::LANGUAGE.into(), pattern)
        .map_err(|error| PatchError::Query(error.to_string()))?;
    let mut cursor = tree_sitter::QueryCursor::new();
    let mut captures = cursor.captures(&query, tree.root_node(), source);
    let mut spans = Vec::new();
    while let Some(found) = captures.next() {
        let first = found.0.captures().first();
        spans.extend(first.map(|c| (c.node.start_byte(), c.node.end_byte())));
    }
    Ok(spans)
}

/// Whether the literals stand one after the other within `len` bytes, each
/// with room for its two quotes.
pub fn literals_are_fit(len: usize, literals: &[(usize, usize)]) -> (fit: bool)
    ensures
        fit == literals_fit(len as nat, literals@),
{
    let mut i: usize = 0;
    while i < literals.len()
        invariant
            i <= literals.len(),
            literals_fit(len as nat, literals@.take(i as int)),
            forall|k: int| 0 <= k < i ==> (#[trigger] literals[k]).1 <= literals[i - 1].1,
        decreases literals.len() - i,
    {
        let (start, end) = literals[i];
        let room = start <= end && end - start >= 2 && end <= len;
        let after = i == 0 || literals[i - 1].1 <= start;
        if !room || !after {
            assert(!literals_fit(len as nat, literals@)) by {
                if literals_fit(len as nat, literals@) {
                    assert(literals@[i as int].0 + 2 <= literals@[i as int].1);
                    if i > 0 {
                        assert(literals@[i - 1].1 <= literals@[i as int].0);
                    }
                }
            }
            return false;
        }
        proof {
            let upto = literals@.take(i + 1);
            assert forall|a: int, b: int| 0 <= a < b < upto.len() implies (#[trigger] upto[a]).1
                <= (#[trigger] upto[b]).0 by {}
            assert forall|a: int| 0 <= a < upto.len() implies (#[trigger] upto[a]).0 + 2
                <= upto[a].1 && upto[a].1 <= len by {}
        }
        i += 1;
    }
    assert(literals@.take(literals.len() as int) =~= literals@);
    true
}

/// What becomes of the positions that a search for literals gave: they are
/// handed on where they stand one after the other within `len` bytes, each
/// with room for its two quotes, and refused where they do not; a search
/// that failed stays the failure it was.
pub fn checked_literals(len: usize, found: Result<Vec<(usize, usize)>, PatchError>) -> (r: Result<
    Vec<(usize, usize)>,
    PatchError,
>)
    ensures
        match found {
            Ok(spans) => if literals_fit(len as nat, spans@) {
                r == Ok::<Vec<(usize, usize)>, PatchError>(spans)
            } else {
                r == Err::<Vec<(usize, usize)>, PatchError>(PatchError::Literals)
            },
            Err(error) => r == Err::<Vec<(usize, usize)>, PatchError>(error),
        },
{
    match found {
        Ok(spans) => {
            if literals_are_fit(len, spans.as_slice()) {
                Ok(spans)
            } else {
                Err(PatchError::Literals)
            }
        },
        Err(error) => Err(error),
    }
}

/// Finds the literals that hold the quoted paths of the includes of a
/// source, each from its opening quote to just past its closing quote. The
/// source is parsed and searched as the grammar of the language has it; what
/// comes back from there is checked, so that the literals that are handed
/// on stand one after the other within the source.
pub fn include_literals(source: &[u8]) -> (r: Result<Vec<(usize, usize)>, PatchError>)
    ensures
        r matches Ok(literals) ==> literals_fit(source.len() as nat, literals@),
{
    let found = match parse_cpp(source) {
        Ok(tree) => captured_spans(&tree, source, INCLUDE_QUERY),
        Err(error) => Err(error),
    };
    checked_literals(source.len(), found)
}

/// Rewrites the paths of the includes of a source: they are found as the
/// grammar of the language finds them, what stands between the quotes of
/// each is handed to the replacer, and what it changes is put in its place.
pub fn patch_source(source: Vec<u8>, replacer: &Replacer) -> (r: Result<Vec<u8>, PatchError>)
    ensures
        r matches Ok(out) ==> exists|literals: Seq<(usize, usize)>, replacements: Seq<Option<Seq<u8>>>|
            literals_fit(source.len() as nat, literals) && replacements.len() == literals.len()
                && out@ == #[trigger] patched(source@, literals, replacements),
{
    let literals = match include_literals(source.as_slice()) {
        Ok(literals) => literals,
        Err(error) => {
            return Err(error);
        },
    };
    Ok(patch_includes(source, literals.as_slice(), replacer))
}

} // verus!
