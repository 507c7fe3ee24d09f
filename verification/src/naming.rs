//! Identifier sanitization: from a name as Move writes it to a name that
//! TypeScript accepts.
//!
//! Three things can be wrong with a name. It may be a reserved word of the
//! target language; it may be a temporary that the compiler made up, which
//! starts with a marker of characters no identifier may hold; or it may hold
//! the separator by which the compiler tells shadowed variables apart. The
//! rules are tried in that order and the first that applies decides. A name
//! with none of these faults is kept as it is.

use crate::text::{chars_of, push_range, texts};
use vstd::prelude::*;
use vstd::string::to_string_from_display_ensures;

verus! {

/// What is appended to a reserved word.
pub const RESERVED_SUFFIX: &'static str = "__";

/// What stands in place of the marker of a temporary.
pub const TEMPORARY_PREFIX: &'static str = "temp$";

/// What stands in place of each shadow separator.
pub const SEPARATOR_REPLACEMENT: &'static str = "__";

/// The marker with which the Move compiler starts the name of a temporary.
pub const TEMPORARY_MARKER: &'static str = "%#";

/// The character by which the Move compiler tells shadowed variables apart.
pub const SHADOW_SEPARATOR: char = '#';

pub const WORD_NEW: &'static str = "new";

pub const WORD_DEFAULT: &'static str = "default";

pub const WORD_FOR: &'static str = "for";

/// The naming conventions of a source and a target language.
pub struct NamingRules {
    /// The words that the target language keeps for itself.
    pub reserved: Vec<String>,
    /// The marker with which the names of temporaries begin.
    pub temporary_marker: String,
    /// The separator inside the names of shadowed variables.
    pub shadow_separator: char,
}

/// [`NamingRules`] as mathematics: the reserved words form a set.
pub struct Naming {
    pub reserved: Set<Seq<char>>,
    pub temporary_marker: Seq<char>,
    pub shadow_separator: char,
}

impl View for NamingRules {
    type V = Naming;

    open spec fn view(&self) -> Naming {
        Naming {
            reserved: texts(self.reserved@).to_set(),
            temporary_marker: self.temporary_marker@,
            shadow_separator: self.shadow_separator,
        }
    }
}

/// The rules for TypeScript bindings of Move code.
pub open spec fn typescript_naming() -> Naming {
    Naming {
        reserved: set![WORD_NEW@, WORD_DEFAULT@, WORD_FOR@],
        temporary_marker: TEMPORARY_MARKER@,
        shadow_separator: SHADOW_SEPARATOR,
    }
}

/// What one character of a name becomes when separators are replaced.
pub open spec fn piece(c: char, separator: char, replacement: Seq<char>) -> Seq<char> {
    if c == separator {
        replacement
    } else {
        seq![c]
    }
}

/// `name` with `replacement` in place of every `separator`, and every other
/// character where it was.
pub open spec fn replaced(name: Seq<char>, separator: char, replacement: Seq<char>) -> Seq<char> {
    name.map_values(|c: char| piece(c, separator, replacement)).flatten()
}

/// The sanitized form of `name` under `rules`.
pub open spec fn sanitized(rules: Naming, name: Seq<char>) -> Seq<char> {
    if rules.reserved.contains(name) {
        name + RESERVED_SUFFIX@
    } else if rules.temporary_marker.is_prefix_of(name) {
        TEMPORARY_PREFIX@ + name.skip(rules.temporary_marker.len() as int)
    } else if name.contains(rules.shadow_separator) {
        replaced(name, rules.shadow_separator, SEPARATOR_REPLACEMENT@)
    } else {
        name
    }
}

/// Replacing one more character appends its piece.
proof fn lemma_replaced_push(name: Seq<char>, c: char, separator: char, replacement: Seq<char>)
    ensures
        replaced(name.push(c), separator, replacement) == replaced(name, separator, replacement)
            + piece(c, separator, replacement),
{
    let pieces = name.map_values(|c: char| piece(c, separator, replacement));
    assert(name.push(c).map_values(|c: char| piece(c, separator, replacement)) =~= pieces.push(
        piece(c, separator, replacement),
    ));
    pieces.lemma_flatten_push(piece(c, separator, replacement));
}

/// Where there is no separator there is nothing to replace.
pub proof fn lemma_replaced_without_separator(
    name: Seq<char>,
    separator: char,
    replacement: Seq<char>,
)
    requires
        !name.contains(separator),
    ensures
        replaced(name, separator, replacement) == name,
    decreases name.len(),
{
    if name.len() > 0 {
        let front = name.drop_last();
        assert(name =~= front.push(name.last()));
        assert(!front.contains(separator));
        lemma_replaced_without_separator(front, separator, replacement);
        lemma_replaced_push(front, name.last(), separator, replacement);
    }
}

/// After the replacement no separator is left, unless the replacement itself
/// holds one.
pub proof fn lemma_replaced_holds_no_separator(
    name: Seq<char>,
    separator: char,
    replacement: Seq<char>,
)
    requires
        !replacement.contains(separator),
    ensures
        !replaced(name, separator, replacement).contains(separator),
    decreases name.len(),
{
    if name.len() > 0 {
        let front = name.drop_last();
        assert(name =~= front.push(name.last()));
        lemma_replaced_holds_no_separator(front, separator, replacement);
        lemma_replaced_push(front, name.last(), separator, replacement);
        let head = replaced(front, separator, replacement);
        let tail = piece(name.last(), separator, replacement);
        assert forall|i: int| 0 <= i < (head + tail).len() implies (head + tail)[i]
            != separator by {
            if i >= head.len() {
                assert((head + tail)[i] == tail[i - head.len()]);
            }
        }
    }
}

/// Replacing the characters of a name gives the piece of the first, then the
/// rest replaced.
proof fn lemma_replaced_unfolds(name: Seq<char>, separator: char, replacement: Seq<char>)
    requires
        name.len() > 0,
    ensures
        replaced(name, separator, replacement) == piece(name[0], separator, replacement)
            + replaced(name.drop_first(), separator, replacement),
{
    let pieces = name.map_values(|c: char| piece(c, separator, replacement));
    assert(pieces.drop_first() =~= name.drop_first().map_values(
        |c: char| piece(c, separator, replacement),
    ));
}

/// Two names without underscores that come out the same after their
/// separators were replaced by `__` went in the same.
pub proof fn lemma_replaced_tells_names_apart(a: Seq<char>, b: Seq<char>, separator: char)
    requires
        separator != '_',
        !a.contains('_'),
        !b.contains('_'),
        replaced(a, separator, SEPARATOR_REPLACEMENT@) == replaced(
            b,
            separator,
            SEPARATOR_REPLACEMENT@,
        ),
    ensures
        a == b,
    decreases a.len() + b.len(),
{
    reveal_strlit("__");
    let filler = SEPARATOR_REPLACEMENT@;
    let out_a = replaced(a, separator, filler);
    let out_b = replaced(b, separator, filler);
    if a.len() == 0 && b.len() == 0 {
        assert(a =~= b);
    } else if a.len() == 0 {
        // An empty name comes out empty, and no other does.
        lemma_replaced_unfolds(b, separator, filler);
    } else if b.len() == 0 {
        lemma_replaced_unfolds(a, separator, filler);
    } else {
        // The first character of the result tells whether the name began
        // with a separator, and with what if not.
        lemma_replaced_unfolds(a, separator, filler);
        lemma_replaced_unfolds(b, separator, filler);
        let head_a = piece(a[0], separator, filler);
        let head_b = piece(b[0], separator, filler);
        assert(out_a[0] == head_a[0]);
        assert(out_b[0] == head_b[0]);
        assert(a[0] == b[0]);
        // What follows the first piece is the rest of the name, replaced.
        let rest_a = replaced(a.drop_first(), separator, filler);
        let rest_b = replaced(b.drop_first(), separator, filler);
        assert(rest_a =~= out_a.skip(head_a.len() as int));
        assert(rest_b =~= out_b.skip(head_b.len() as int));
        assert(!a.drop_first().contains('_'));
        assert(!b.drop_first().contains('_'));
        lemma_replaced_tells_names_apart(a.drop_first(), b.drop_first(), separator);
        assert(a =~= seq![a[0]] + a.drop_first());
        assert(b =~= seq![b[0]] + b.drop_first());
    }
}

impl NamingRules {
    /// Rules with the given reserved words, marker and separator.
    pub fn new(reserved: Vec<String>, temporary_marker: String, shadow_separator: char) -> (rules:
        Self)
        ensures
            rules.reserved == reserved,
            rules.temporary_marker == temporary_marker,
            rules.shadow_separator == shadow_separator,
    {
        NamingRules { reserved, temporary_marker, shadow_separator }
    }

    /// The rules for TypeScript: `new`, `default` and `for` are reserved,
    /// temporaries begin with `%#`, and `#` separates shadowed names.
    pub fn typescript() -> (rules: Self)
        ensures
            rules@ == typescript_naming(),
    {
        let mut reserved: Vec<String> = Vec::new();
        reserved.push(WORD_NEW.to_string());
        reserved.push(WORD_DEFAULT.to_string());
        reserved.push(WORD_FOR.to_string());
        let rules = NamingRules {
            reserved,
            temporary_marker: TEMPORARY_MARKER.to_string(),
            shadow_separator: SHADOW_SEPARATOR,
        };
        proof {
            let words = texts(rules.reserved@);
            assert(words[0] == WORD_NEW@);
            assert(words[1] == WORD_DEFAULT@);
            assert(words[2] == WORD_FOR@);
            assert(words.to_set() =~= set![WORD_NEW@, WORD_DEFAULT@, WORD_FOR@]);
        }
        rules
    }

    /// Whether `name` is one of the reserved words, letter for letter.
    pub fn is_reserved(&self, name: &str) -> (reserved: bool)
        ensures
            reserved == self@.reserved.contains(name@),
    {
        let wanted = name.to_owned();
        let ghost words = texts(self.reserved@);
        let mut i: usize = 0;
        while i < self.reserved.len()
            invariant
                i <= self.reserved.len(),
                words == texts(self.reserved@),
                wanted@ == name@,
                forall|j: int| 0 <= j < i ==> words[j] != name@,
            decreases self.reserved.len() - i,
        {
            if self.reserved[i] == wanted {
                assert(words[i as int] == name@);
                return true;
            }
            i += 1;
        }
        false
    }

    /// The sanitized form of `name`: a reserved word gets `__` appended; a
    /// temporary has its marker replaced by `temp$`; in any other name every
    /// separator is replaced by `__`.
    pub fn sanitize(&self, name: &str) -> (out: String)
        ensures
            out@ == sanitized(self@, name@),
    {
        if self.is_reserved(name) {
            let mut out = name.to_owned();
            out.append(RESERVED_SUFFIX);
            return out;
        }
        let chars = chars_of(name);
        let marker = chars_of(self.temporary_marker.as_str());
        if starts_with(&chars, &marker) {
            let mut out = TEMPORARY_PREFIX.to_string();
            push_range(&mut out, &chars, marker.len(), chars.len());
            out
        } else {
            proof {
                if !name@.contains(self.shadow_separator) {
                    lemma_replaced_without_separator(
                        name@,
                        self.shadow_separator,
                        SEPARATOR_REPLACEMENT@,
                    );
                }
            }
            replace_each(&chars, self.shadow_separator, SEPARATOR_REPLACEMENT)
        }
    }
}

/// Whether `chars` begins with `prefix`.
fn starts_with(chars: &Vec<char>, prefix: &Vec<char>) -> (found: bool)
    ensures
        found == prefix@.is_prefix_of(chars@),
{
    if prefix.len() > chars.len() {
        return false;
    }
    let mut i: usize = 0;
    while i < prefix.len()
        invariant
            i <= prefix.len() <= chars.len(),
            forall|j: int| 0 <= j < i ==> prefix@[j] == chars@[j],
        decreases prefix.len() - i,
    {
        if prefix[i] != chars[i] {
            return false;
        }
        i += 1;
    }
    true
}

/// `chars` as a string, with `replacement` in place of every `separator`.
fn replace_each(chars: &Vec<char>, separator: char, replacement: &str) -> (out: String)
    ensures
        out@ == replaced(chars@, separator, replacement@),
{
    let mut out = String::new();
    let mut i: usize = 0;
    while i < chars.len()
        invariant
            i <= chars.len(),
            out@ == replaced(chars@.take(i as int), separator, replacement@),
        decreases chars.len() - i,
    {
        let c = chars[i];
        if c == separator {
            out.append(replacement);
        } else {
            out.push(c);
        }
        proof {
            let done = chars@.take(i as int);
            assert(chars@.take(i + 1) =~= done.push(c));
            lemma_replaced_push(done, c, separator, replacement@);
        }
        i += 1;
    }
    assert(chars@.take(chars.len() as int) =~= chars@);
    out
}

/// The name that `name` is written as, made fit for TypeScript: what
/// [`NamingRules::sanitize`] gives under [`NamingRules::typescript`].
pub fn rename<T: core::fmt::Display + ?Sized>(name: &T) -> (out: String)
    ensures
        exists|written: String| #[trigger]
            to_string_from_display_ensures::<T>(name, written) && out@ == sanitized(
                typescript_naming(),
                written@,
            ),
{
    let written = name.to_string();
    NamingRules::typescript().sanitize(written.as_str())
}

/// A name with none of the three faults is kept as it is.
pub proof fn lemma_ordinary_name_is_kept(rules: Naming, name: Seq<char>)
    requires
        !rules.reserved.contains(name),
        !rules.temporary_marker.is_prefix_of(name),
        !name.contains(rules.shadow_separator),
    ensures
        sanitized(rules, name) == name,
{
}

/// Every reserved word comes out with `__` appended, whatever else it holds.
pub proof fn lemma_reserved_word_gets_suffix(rules: Naming, word: Seq<char>)
    requires
        rules.reserved.contains(word),
    ensures
        sanitized(rules, word) == word + RESERVED_SUFFIX@,
{
}

/// The marker followed by any suffix comes out as `temp$` followed by that
/// suffix, separators in it included, unless the whole name is reserved.
pub proof fn lemma_temporary_keeps_suffix(rules: Naming, suffix: Seq<char>)
    requires
        !rules.reserved.contains(rules.temporary_marker + suffix),
    ensures
        sanitized(rules, rules.temporary_marker + suffix) == TEMPORARY_PREFIX@ + suffix,
{
    let name = rules.temporary_marker + suffix;
    assert(name.skip(rules.temporary_marker.len() as int) =~= suffix);
}

/// In a name that is neither reserved nor a temporary, every separator
/// gives way to `__` and every other character stays where it was. Unless
/// the separator is itself an underscore, none is left.
pub proof fn lemma_separators_are_replaced(rules: Naming, name: Seq<char>)
    requires
        !rules.reserved.contains(name),
        !rules.temporary_marker.is_prefix_of(name),
        name.contains(rules.shadow_separator),
    ensures
        sanitized(rules, name) == replaced(name, rules.shadow_separator, SEPARATOR_REPLACEMENT@),
        rules.shadow_separator != '_' ==> !sanitized(rules, name).contains(
            rules.shadow_separator,
        ),
{
    reveal_strlit("__");
    if rules.shadow_separator != '_' {
        lemma_replaced_holds_no_separator(name, rules.shadow_separator, SEPARATOR_REPLACEMENT@);
    }
}

/// Two names that are neither reserved nor temporaries and hold no
/// underscore keep apart: if they come out the same, they went in the same.
/// The underscore is left out because it is what separators turn into: `a#b`
/// and `a__b` both come out as `a__b`.
pub proof fn lemma_plain_names_keep_apart(rules: Naming, a: Seq<char>, b: Seq<char>)
    requires
        rules.shadow_separator != '_',
        !rules.reserved.contains(a),
        !rules.reserved.contains(b),
        !rules.temporary_marker.is_prefix_of(a),
        !rules.temporary_marker.is_prefix_of(b),
        !a.contains('_'),
        !b.contains('_'),
        sanitized(rules, a) == sanitized(rules, b),
    ensures
        a == b,
{
    if !a.contains(rules.shadow_separator) {
        lemma_replaced_without_separator(a, rules.shadow_separator, SEPARATOR_REPLACEMENT@);
    }
    if !b.contains(rules.shadow_separator) {
        lemma_replaced_without_separator(b, rules.shadow_separator, SEPARATOR_REPLACEMENT@);
    }
    lemma_replaced_tells_names_apart(a, b, rules.shadow_separator);
}

/// Two temporaries keep apart: if they come out the same, they went in the
/// same.
pub proof fn lemma_temporaries_keep_apart(rules: Naming, a: Seq<char>, b: Seq<char>)
    requires
        !rules.reserved.contains(a),
        !rules.reserved.contains(b),
        rules.temporary_marker.is_prefix_of(a),
        rules.temporary_marker.is_prefix_of(b),
        sanitized(rules, a) == sanitized(rules, b),
    ensures
        a == b,
{
    // Both results begin with the same prefix, so what follows it is the
    // same; both names begin with the marker, so they are the same.
    let m = rules.temporary_marker.len() as int;
    let prefix = TEMPORARY_PREFIX@;
    assert(a.skip(m) =~= (prefix + a.skip(m)).skip(prefix.len() as int));
    assert(b.skip(m) =~= (prefix + b.skip(m)).skip(prefix.len() as int));
    assert(a =~= a.subrange(0, m) + a.skip(m));
    assert(b =~= b.subrange(0, m) + b.skip(m));
}

/// The reserved words of TypeScript, as far as Move names run into them,
/// are `new`, `default` and `for`: each gets `__` appended.
pub proof fn lemma_typescript_reserved_words()
    ensures
        sanitized(typescript_naming(), WORD_NEW@) == WORD_NEW@ + RESERVED_SUFFIX@,
        sanitized(typescript_naming(), WORD_DEFAULT@) == WORD_DEFAULT@ + RESERVED_SUFFIX@,
        sanitized(typescript_naming(), WORD_FOR@) == WORD_FOR@ + RESERVED_SUFFIX@,
{
}

/// No reserved word of TypeScript holds `#` or `%`.
proof fn lemma_typescript_words_are_plain(name: Seq<char>)
    requires
        typescript_naming().reserved.contains(name),
    ensures
        !name.contains('#'),
        name.len() > 0 && name[0] != '%',
{
    reveal_strlit("new");
    reveal_strlit("default");
    reveal_strlit("for");
}

/// Under the TypeScript rules `%#` followed by any suffix comes out as
/// `temp$` followed by that suffix.
pub proof fn lemma_typescript_temporary(suffix: Seq<char>)
    ensures
        sanitized(typescript_naming(), TEMPORARY_MARKER@ + suffix) == TEMPORARY_PREFIX@ + suffix,
{
    reveal_strlit("%#");
    let name = TEMPORARY_MARKER@ + suffix;
    if typescript_naming().reserved.contains(name) {
        lemma_typescript_words_are_plain(name);
    }
    lemma_temporary_keeps_suffix(typescript_naming(), suffix);
}

/// Under the TypeScript rules a name that holds `#` and does not begin with
/// `%#` has `__` in place of every `#`, and no `#` is left in it.
pub proof fn lemma_typescript_shadowed(name: Seq<char>)
    requires
        name.contains('#'),
        !TEMPORARY_MARKER@.is_prefix_of(name),
    ensures
        sanitized(typescript_naming(), name) == replaced(name, '#', SEPARATOR_REPLACEMENT@),
        !sanitized(typescript_naming(), name).contains('#'),
{
    if typescript_naming().reserved.contains(name) {
        lemma_typescript_words_are_plain(name);
    }
    lemma_separators_are_replaced(typescript_naming(), name);
}

/// Under the TypeScript rules a name that is none of the three reserved
/// words, does not begin with `%#` and holds no `#` is kept as it is.
pub proof fn lemma_typescript_ordinary(name: Seq<char>)
    requires
        name != WORD_NEW@,
        name != WORD_DEFAULT@,
        name != WORD_FOR@,
        !TEMPORARY_MARKER@.is_prefix_of(name),
        !name.contains('#'),
    ensures
        sanitized(typescript_naming(), name) == name,
{
}

} // verus!
