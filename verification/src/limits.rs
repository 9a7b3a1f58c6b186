//! The limits of reading a text as a URL.
//!
//! What stands in front of the path of a URL is counted in integers of 32 bits when it is read. A
//! text can be read if these counts fit.

use crate::address::chars_of;
use vstd::prelude::*;

verus! {

/// The kinds of characters that are counted.
#[derive(Clone, Copy, Debug, PartialEq, Eq, Structural)]
pub enum Class {
    /// Control characters and the space, which are left out at both ends of a text.
    Control,
    /// What the name of a scheme is made of.
    Scheme,
    /// What stands in front of the authority of a special scheme.
    Slash,
    /// What the authority of a special scheme is made of.
    SpecialAuthority,
    /// What the authority of another scheme is made of.
    Authority,
}

/// Whether a character is an ASCII letter.
pub open spec fn is_letter(c: char) -> bool {
    'a' <= c <= 'z' || 'A' <= c <= 'Z'
}

impl Class {
    /// Whether a character is of this kind.
    pub open spec fn has(self, c: char) -> bool {
        match self {
            Class::Control => c <= ' ',
            Class::Scheme => is_letter(c) || '0' <= c <= '9' || c == '+' || c == '-' || c == '.',
            Class::Slash => c == '/' || c == '\\',
            Class::SpecialAuthority => c != '/' && c != '?' && c != '#' && c != '\\',
            Class::Authority => c != '/' && c != '?' && c != '#',
        }
    }

    fn contains(self, c: char) -> (yes: bool)
        ensures
            yes == self.has(c),
    {
        match self {
            Class::Control => c <= ' ',
            Class::Scheme => letter(c) || ('0' <= c && c <= '9') || c == '+' || c == '-' || c
                == '.',
            Class::Slash => c == '/' || c == '\\',
            Class::SpecialAuthority => c != '/' && c != '?' && c != '#' && c != '\\',
            Class::Authority => c != '/' && c != '?' && c != '#',
        }
    }
}

fn letter(c: char) -> (yes: bool)
    ensures
        yes == is_letter(c),
{
    ('a' <= c && c <= 'z') || ('A' <= c && c <= 'Z')
}

/// How many characters of one kind `text` starts with.
pub open spec fn run(text: Seq<char>, class: Class) -> nat
    decreases text.len(),
{
    if text.len() > 0 && class.has(text[0]) {
        1 + run(text.drop_first(), class)
    } else {
        0
    }
}

/// Whether a character is left out wherever it stands: a tab or the end of a line.
pub open spec fn is_skipped(c: char) -> bool {
    c == '\t' || c == '\n' || c == '\r'
}

/// `text` without tabs and ends of lines.
pub open spec fn visible(text: Seq<char>) -> Seq<char>
    decreases text.len(),
{
    if text.len() == 0 {
        text
    } else if is_skipped(text.last()) {
        visible(text.drop_last())
    } else {
        visible(text.drop_last()).push(text.last())
    }
}

/// `text` without the control characters and spaces that it ends with.
pub open spec fn without_trailing_controls(text: Seq<char>) -> Seq<char>
    decreases text.len(),
{
    if text.len() > 0 && Class::Control.has(text.last()) {
        without_trailing_controls(text.drop_last())
    } else {
        text
    }
}

/// The characters of `text` that a URL is read from.
pub open spec fn as_read(text: Seq<char>) -> Seq<char> {
    let shown = visible(text);
    without_trailing_controls(shown.skip(run(shown, Class::Control) as int))
}

/// Whether `text` starts with the name of a scheme and a colon.
pub open spec fn has_scheme(text: Seq<char>) -> bool {
    &&& run(text, Class::Scheme) < text.len()
    &&& is_letter(text[0])
    &&& text[run(text, Class::Scheme) as int] == ':'
}

/// The name of the scheme that `text` starts with.
pub open spec fn scheme_of(text: Seq<char>) -> Seq<char> {
    text.take(run(text, Class::Scheme) as int)
}

/// What follows the name of the scheme and the colon.
pub open spec fn after_scheme(text: Seq<char>) -> Seq<char> {
    text.skip(run(text, Class::Scheme) as int + 1)
}

/// Whether `c` is the lower case letter `lower`, in either case.
pub open spec fn is_same_letter(c: char, lower: char) -> bool {
    c == lower || ('A' <= c <= 'Z' && c as int + 32 == lower as int)
}

/// Whether a scheme goes by `name`, whatever the case of its letters.
pub open spec fn goes_by(scheme: Seq<char>, name: Seq<char>) -> bool {
    &&& scheme.len() == name.len()
    &&& forall|i: int| 0 <= i < name.len() ==> is_same_letter(#[trigger] scheme[i], name[i])
}

/// Whether the URLs of a scheme have an authority, however many slashes stand in front of it.
pub open spec fn is_special(scheme: Seq<char>) -> bool {
    ||| goes_by(scheme, "http"@)
    ||| goes_by(scheme, "https"@)
    ||| goes_by(scheme, "ws"@)
    ||| goes_by(scheme, "wss"@)
    ||| goes_by(scheme, "ftp"@)
}

/// Whether `text` starts with two slashes.
pub open spec fn has_double_slash(text: Seq<char>) -> bool {
    text.len() >= 2 && text[0] == '/' && text[1] == '/'
}

/// What is counted of a text that a URL is read from.
pub struct CountsView {
    /// The characters of the scheme, if a path that starts with a slash follows it.
    pub scheme: nat,
    /// The slashes in front of the authority of a special scheme.
    pub slashes: nat,
    /// The characters of the authority.
    pub authority: nat,
}

/// The longest scheme that a URL can have. A text with a longer one is rejected before anything is
/// counted.
pub const LONGEST_SCHEME: usize = 0xffff_ffff;

/// What is counted of `text`, where the characters are left out that no URL is read from. The
/// authority of a local file is not counted.
pub open spec fn counts_of(text: Seq<char>) -> CountsView {
    let scheme = scheme_of(text);
    let rest = after_scheme(text);
    if !has_scheme(text) || scheme.len() > LONGEST_SCHEME || goes_by(scheme, "file"@) {
        CountsView { scheme: 0, slashes: 0, authority: 0 }
    } else if is_special(scheme) {
        let slashes = run(rest, Class::Slash);
        CountsView {
            scheme: 0,
            slashes,
            authority: run(rest.skip(slashes as int), Class::SpecialAuthority),
        }
    } else if has_double_slash(rest) {
        CountsView { scheme: 0, slashes: 0, authority: run(rest.skip(2), Class::Authority) }
    } else if rest.len() > 0 && rest[0] == '/' && scheme.len() < LONGEST_SCHEME {
        CountsView { scheme: scheme.len(), slashes: 0, authority: 0 }
    } else {
        CountsView { scheme: 0, slashes: 0, authority: 0 }
    }
}

/// The most characters of an authority that can be counted.
pub const MOST_OF_AUTHORITY: usize = 0x7fff_ffff;

/// The most slashes that can be counted.
pub const MOST_SLASHES: usize = 0xffff_ffff;

/// The most characters of a scheme that can be counted, if a path that starts with a slash follows
/// it.
pub const MOST_OF_SCHEME: usize = 0xffff_fffc;

/// Whether the counts of `text` fit.
pub open spec fn fits(text: Seq<char>) -> bool {
    let counts = counts_of(as_read(text));
    &&& counts.scheme <= MOST_OF_SCHEME
    &&& counts.slashes <= MOST_SLASHES
    &&& counts.authority <= MOST_OF_AUTHORITY
}

/// What is counted of a text that a URL is read from.
#[derive(Clone, Copy, Debug, PartialEq, Eq, Structural)]
pub struct Counts {
    /// The characters of the scheme, if a path that starts with a slash follows it.
    pub scheme: usize,
    /// The slashes in front of the authority of a special scheme.
    pub slashes: usize,
    /// The characters of the authority.
    pub authority: usize,
}

impl View for Counts {
    type V = CountsView;

    open spec fn view(&self) -> CountsView {
        CountsView {
            scheme: self.scheme as nat,
            slashes: self.slashes as nat,
            authority: self.authority as nat,
        }
    }
}

proof fn lemma_run_is_short(text: Seq<char>, class: Class)
    ensures
        run(text, class) <= text.len(),
    decreases text.len(),
{
    if text.len() > 0 && class.has(text[0]) {
        lemma_run_is_short(text.drop_first(), class);
    }
}

proof fn lemma_visible_is_short(text: Seq<char>)
    ensures
        visible(text).len() <= text.len(),
    decreases text.len(),
{
    if text.len() > 0 {
        lemma_visible_is_short(text.drop_last());
    }
}

proof fn lemma_trailing_is_short(text: Seq<char>)
    ensures
        without_trailing_controls(text).len() <= text.len(),
    decreases text.len(),
{
    if text.len() > 0 && Class::Control.has(text.last()) {
        lemma_trailing_is_short(text.drop_last());
    }
}

/// The counts of a short text fit.
pub proof fn lemma_short_text_fits(text: Seq<char>)
    requires
        text.len() <= MOST_OF_AUTHORITY,
    ensures
        fits(text),
{
    let shown = visible(text);
    lemma_visible_is_short(text);
    lemma_run_is_short(shown, Class::Control);
    lemma_trailing_is_short(shown.skip(run(shown, Class::Control) as int));
    let read = as_read(text);
    lemma_run_is_short(read, Class::Scheme);
    if has_scheme(read) {
        let rest = after_scheme(read);
        lemma_run_is_short(rest, Class::Slash);
        lemma_run_is_short(
            rest.skip(run(rest, Class::Slash) as int),
            Class::SpecialAuthority,
        );
        if has_double_slash(rest) {
            lemma_run_is_short(rest.skip(2), Class::Authority);
        }
    }
}

fn visible_chars(text: &str) -> (shown: Vec<char>)
    ensures
        shown@ == visible(text@),
{
    let chars = chars_of(text);
    let mut shown: Vec<char> = Vec::new();
    let mut i: usize = 0;
    while i < chars.len()
        invariant
            i <= chars.len(),
            chars@ == text@,
            shown@ == visible(text@.take(i as int)),
        decreases chars.len() - i,
    {
        let c = chars[i];
        assert(text@.take(i + 1).drop_last() =~= text@.take(i as int));
        if !(c == '\t' || c == '\n' || c == '\r') {
            shown.push(c);
        }
        i += 1;
    }
    assert(text@.take(i as int) =~= text@);
    shown
}

/// How many characters of one kind stand at `from`, in front of `to`.
fn run_at(chars: &Vec<char>, from: usize, to: usize, class: Class) -> (count: usize)
    requires
        from <= to <= chars.len(),
    ensures
        count == run(chars@.subrange(from as int, to as int), class),
        count <= to - from,
{
    let mut i: usize = from;
    while i < to && class.contains(chars[i])
        invariant
            from <= i <= to <= chars.len(),
            run(chars@.subrange(from as int, to as int), class) == (i - from) + run(
                chars@.subrange(i as int, to as int),
                class,
            ),
        decreases to - i,
    {
        assert(chars@.subrange(i as int, to as int).drop_first() =~= chars@.subrange(
            i + 1,
            to as int,
        ));
        i += 1;
    }
    i - from
}

fn is_named(chars: &Vec<char>, from: usize, to: usize, name: &str) -> (yes: bool)
    requires
        from <= to <= chars.len(),
    ensures
        yes == goes_by(chars@.subrange(from as int, to as int), name@),
{
    let letters = chars_of(name);
    let ghost scheme = chars@.subrange(from as int, to as int);
    if to - from != letters.len() {
        return false;
    }
    let mut i: usize = 0;
    while i < letters.len()
        invariant
            i <= letters.len(),
            letters@ == name@,
            from <= to <= chars.len(),
            to - from == letters.len(),
            scheme == chars@.subrange(from as int, to as int),
            forall|j: int| 0 <= j < i ==> is_same_letter(#[trigger] scheme[j], name@[j]),
        decreases letters.len() - i,
    {
        let c = chars[from + i];
        let lower = letters[i];
        let is_upper = 'A' <= c && c <= 'Z' && 'a' <= lower && lower <= 'z';
        if !(c == lower || (is_upper && c as u32 + 32 == lower as u32)) {
            assert(!is_same_letter(scheme[i as int], name@[i as int]));
            return false;
        }
        assert(is_same_letter(scheme[i as int], name@[i as int]));
        i += 1;
    }
    true
}

/// What is counted of a text when a URL is read from it.
pub fn count(text: &str) -> (counts: Counts)
    ensures
        counts@ == counts_of(as_read(text@)),
{
    let chars = visible_chars(text);
    let all: usize = chars.len();
    assert(chars@.subrange(0, all as int) =~= chars@);
    let from: usize = run_at(&chars, 0, all, Class::Control);
    let mut to: usize = all;
    assert(chars@.subrange(from as int, to as int) =~= chars@.skip(from as int));
    while from < to && Class::Control.contains(chars[to - 1])
        invariant
            from <= to <= chars.len(),
            without_trailing_controls(chars@.skip(from as int)) == without_trailing_controls(
                chars@.subrange(from as int, to as int),
            ),
        decreases to,
    {
        assert(chars@.subrange(from as int, to as int).drop_last() =~= chars@.subrange(
            from as int,
            to - 1,
        ));
        to -= 1;
    }
    let ghost read = chars@.subrange(from as int, to as int);
    assert(read == as_read(text@));
    let none = Counts { scheme: 0, slashes: 0, authority: 0 };
    let scheme: usize = run_at(&chars, from, to, Class::Scheme);
    if from + scheme == to || !letter(chars[from]) || chars[from + scheme] != ':' {
        return none;
    }
    let colon: usize = from + scheme;
    let start: usize = colon + 1;
    assert(chars@.subrange(from as int, colon as int) =~= scheme_of(read));
    assert(chars@.subrange(start as int, to as int) =~= after_scheme(read));
    if scheme > LONGEST_SCHEME || is_named(&chars, from, colon, "file") {
        none
    } else if is_named(&chars, from, colon, "http") || is_named(&chars, from, colon, "https")
        || is_named(&chars, from, colon, "ws") || is_named(&chars, from, colon, "wss") || is_named(
        &chars,
        from,
        colon,
        "ftp",
    ) {
        let slashes: usize = run_at(&chars, start, to, Class::Slash);
        assert(chars@.subrange(start + slashes, to as int) =~= after_scheme(read).skip(
            slashes as int,
        ));
        let authority: usize = run_at(&chars, start + slashes, to, Class::SpecialAuthority);
        Counts { scheme: 0, slashes, authority }
    } else if to - start >= 2 && chars[start] == '/' && chars[start + 1] == '/' {
        assert(chars@.subrange(start + 2, to as int) =~= after_scheme(read).skip(2));
        let authority: usize = run_at(&chars, start + 2, to, Class::Authority);
        Counts { scheme: 0, slashes: 0, authority }
    } else if start < to && chars[start] == '/' && scheme < LONGEST_SCHEME {
        Counts { scheme, slashes: 0, authority: 0 }
    } else {
        none
    }
}

/// Whether the counts of a text fit.
pub fn can_be_counted(text: &str) -> (yes: bool)
    ensures
        yes == fits(text@),
{
    if text.unicode_len() <= MOST_OF_AUTHORITY {
        proof {
            lemma_short_text_fits(text@);
        }
        return true;
    }
    let counts = count(text);
    counts.scheme <= MOST_OF_SCHEME && counts.slashes <= MOST_SLASHES && counts.authority
        <= MOST_OF_AUTHORITY
}

} // verus!
