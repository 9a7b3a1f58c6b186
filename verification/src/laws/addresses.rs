//! What is loaded for what was typed, and what can be read.

use crate::address::{can_be_sanitized, candidates, parsed_url, search_url, trimmed};
use crate::limits::{as_read, counts_of, fits, run, visible, Class};
use vstd::prelude::*;

verus! {

/// Whether a character is white space.
pub open spec fn is_space(c: char) -> bool {
    let n = c as int;
    ||| 0x9 <= n <= 0xd
    ||| 0x2000 <= n <= 0x200a
    ||| n == 0x20 || n == 0x85 || n == 0xa0 || n == 0x1680 || n == 0x2028 || n == 0x2029
    ||| n == 0x202f || n == 0x205f || n == 0x3000
}

/// Whether `from` and `to` are where a text starts and ends without the white space around it.
pub open spec fn bounds_of_text(text: Seq<char>, from: int, to: int) -> bool {
    &&& 0 <= from <= to <= text.len()
    &&& forall|i: int| 0 <= i < from ==> is_space(#[trigger] text[i])
    &&& forall|i: int| to <= i < text.len() ==> is_space(#[trigger] text[i])
    &&& from < to ==> !is_space(text[from]) && !is_space(text[to - 1])
}

/// A request is judged by the part of it that has white space around it and none at its ends.
pub proof fn request_is_judged_without_white_space(request: Seq<char>, from: int, to: int)
    requires
        bounds_of_text(request, from, to),
    ensures
        trimmed(request) == request.subrange(from, to),
{
    lemma_leading_space(request, from, to);
    let start = crate::address::without_leading_space(request);
    if from == to {
        assert(start =~= seq![]);
        assert(request.subrange(from, to) =~= seq![]);
    } else {
        assert(start =~= request.skip(from));
        lemma_trailing_space(start, to - from);
        assert(start.take(to - from) =~= request.subrange(from, to));
    }
}

proof fn lemma_leading_space(text: Seq<char>, from: int, to: int)
    requires
        bounds_of_text(text, from, to),
    ensures
        crate::address::without_leading_space(text) == if from < to {
            text.skip(from)
        } else {
            seq![]
        },
    decreases text.len(),
{
    if text.len() == 0 {
        assert(text =~= seq![]);
    } else if from > 0 || to == 0 {
        let rest = text.drop_first();
        assert(is_space(text[0]));
        assert forall|i: int| 0 <= i < from - 1 implies is_space(#[trigger] rest[i]) by {
            assert(rest[i] == text[i + 1]);
        }
        assert forall|i: int| to - 1 <= i < rest.len() && i >= 0 implies is_space(
            #[trigger] rest[i],
        ) by {
            assert(rest[i] == text[i + 1]);
        }
        if from > 0 {
            lemma_leading_space(rest, from - 1, to - 1);
            if from < to {
                assert(rest.skip(from - 1) =~= text.skip(from));
            }
        } else {
            lemma_leading_space(rest, 0, 0);
        }
    } else if from == to {
        assert(is_space(text[0]));
    } else {
        assert(text.skip(0) =~= text);
    }
}

proof fn lemma_trailing_space(text: Seq<char>, to: int)
    requires
        0 < to <= text.len(),
        !is_space(text[to - 1]),
        forall|i: int| to <= i < text.len() ==> is_space(#[trigger] text[i]),
    ensures
        crate::address::without_trailing_space(text) == text.take(to),
    decreases text.len(),
{
    if to < text.len() {
        assert(is_space(text[text.len() - 1]));
        lemma_trailing_space(text.drop_last(), to);
        assert(text.drop_last().take(to) =~= text.take(to));
    } else {
        assert(text.take(to) =~= text);
    }
}

/// What is tried for a request, in order: the request without the white space around it; if it has
/// a slash or is a registrable domain, the same as an `http` address; and, if there is a search
/// page, a search for it.
pub proof fn request_is_tried_as_address_and_search(
    request: Seq<char>,
    is_reg_domain: bool,
    page: Seq<char>,
)
    ensures
        ({
            let text = trimmed(request);
            let address = "http://"@ + text;
            let search = search_url(page, text);
            let is_address = is_reg_domain || exists|i: int|
                0 <= i < text.len() && #[trigger] text[i] == '/';
            &&& candidates(request, is_reg_domain, None) == if is_address {
                seq![text, address]
            } else {
                seq![text]
            }
            &&& candidates(request, is_reg_domain, Some(page)) == if is_address {
                seq![text, address, search]
            } else {
                seq![text, search]
            }
        }),
{
    let text = trimmed(request);
    if exists|i: int| 0 <= i < text.len() && #[trigger] text[i] == '/' {
        let i = choose|i: int| 0 <= i < text.len() && #[trigger] text[i] == '/';
        assert(text.contains('/'));
    }
    let alone = candidates(request, is_reg_domain, None);
    let searched = candidates(request, is_reg_domain, Some(page));
    if text.contains('/') || is_reg_domain {
        assert(alone =~= seq![text, "http://"@ + text]);
        assert(searched =~= seq![text, "http://"@ + text, search_url(page, text)]);
    } else {
        assert(alone =~= seq![text]);
        assert(searched =~= seq![text, search_url(page, text)]);
    }
}

/// The request takes the place of the first placeholder of the search page, and of those after it.
pub proof fn placeholders_give_way_to_the_request(
    before: Seq<char>,
    after: Seq<char>,
    request: Seq<char>,
)
    requires
        forall|i: int|
            0 <= i < before.len() - 1 ==> !(#[trigger] before[i] == '%' && before[i + 1] == 's'),
    ensures
        search_url(before + seq!['%', 's'] + after, request) == before + request + search_url(
            after,
            request,
        ),
    decreases before.len(),
{
    let page = before + seq!['%', 's'] + after;
    if before.len() == 0 {
        assert(page.skip(2) =~= after);
        assert(request + search_url(after, request) =~= before + request + search_url(
            after,
            request,
        ));
    } else {
        let rest = before.drop_first();
        assert(page[0] == before[0]);
        assert(page[1] == if before.len() > 1 {
            before[1]
        } else {
            '%'
        });
        assert(page.drop_first() =~= rest + seq!['%', 's'] + after);
        assert forall|i: int| 0 <= i < rest.len() - 1 implies !(#[trigger] rest[i] == '%' && rest[i
            + 1] == 's') by {
            assert(rest[i] == before[i + 1]);
        }
        placeholders_give_way_to_the_request(rest, after, request);
        assert(seq![before[0]] + (rest + request + search_url(after, request)) =~= before + request
            + search_url(after, request));
    }
}

/// A request can be read exactly if each text that is tried for it can be, up to and with the first
/// that is a URL.
pub proof fn requests_are_read_up_to_the_first_url(
    request: Seq<char>,
    is_reg_domain: bool,
    search_page: Option<Seq<char>>,
)
    ensures
        ({
            let texts = candidates(request, is_reg_domain, search_page);
            can_be_sanitized(request, is_reg_domain, search_page) <==> forall|i: int|
                #![trigger texts[i]]
                0 <= i < texts.len() && (forall|j: int|
                    0 <= j < i ==> parsed_url(#[trigger] texts[j]) is None) ==> fits(texts[i])
        }),
{
    lemma_read_up_to_the_first_url(candidates(request, is_reg_domain, search_page));
}

spec fn are_read(texts: Seq<Seq<char>>) -> bool {
    forall|i: int|
        #![trigger texts[i]]
        0 <= i < texts.len() && (forall|j: int|
            0 <= j < i ==> parsed_url(#[trigger] texts[j]) is None) ==> fits(texts[i])
}

proof fn lemma_read_up_to_the_first_url(texts: Seq<Seq<char>>)
    ensures
        crate::address::can_read(texts) <==> are_read(texts),
    decreases texts.len(),
{
    if texts.len() > 0 {
        lemma_read_up_to_the_first_url(texts.drop_first());
        if are_read(texts) {
            lemma_rest_is_read(texts);
        }
        if crate::address::can_read(texts) {
            lemma_all_are_read(texts);
        }
    }
}

proof fn lemma_rest_is_read(texts: Seq<Seq<char>>)
    requires
        texts.len() > 0,
        are_read(texts),
    ensures
        fits(texts[0]),
        parsed_url(texts[0]) is None ==> are_read(texts.drop_first()),
{
    let rest = texts.drop_first();
    assert(fits(texts[0]));
    if parsed_url(texts[0]) is None {
        assert forall|i: int|
            #![trigger rest[i]]
            0 <= i < rest.len() && (forall|j: int|
                0 <= j < i ==> parsed_url(#[trigger] rest[j]) is None) implies fits(rest[i]) by {
            assert forall|j: int| 0 <= j < i + 1 implies parsed_url(
                #[trigger] texts[j],
            ) is None by {
                if j > 0 {
                    assert(rest[j - 1] == texts[j]);
                }
            }
            assert(rest[i] == texts[i + 1]);
        }
    }
}

proof fn lemma_all_are_read(texts: Seq<Seq<char>>)
    requires
        texts.len() > 0,
        fits(texts[0]),
        parsed_url(texts[0]) is None ==> are_read(texts.drop_first()),
    ensures
        are_read(texts),
{
    let rest = texts.drop_first();
    assert forall|i: int|
        #![trigger texts[i]]
        0 <= i < texts.len() && (forall|j: int|
            0 <= j < i ==> parsed_url(#[trigger] texts[j]) is None) implies fits(texts[i]) by {
        if i > 0 {
            assert(parsed_url(texts[0]) is None);
            assert forall|j: int| 0 <= j < i - 1 implies parsed_url(#[trigger] rest[j]) is None by {
                assert(rest[j] == texts[j + 1]);
            }
            assert(rest[i - 1] == texts[i]);
        }
    }
}

proof fn lemma_run(part: Seq<char>, rest: Seq<char>, class: Class)
    requires
        forall|i: int| 0 <= i < part.len() ==> class.has(#[trigger] part[i]),
        rest.len() > 0 ==> !class.has(rest[0]),
    ensures
        run(part + rest, class) == part.len(),
    decreases part.len(),
{
    let text = part + rest;
    if part.len() == 0 {
        assert(text =~= rest);
    } else {
        assert(text[0] == part[0]);
        assert(text.drop_first() =~= part.drop_first() + rest);
        assert forall|i: int| 0 <= i < part.drop_first().len() implies class.has(
            #[trigger] part.drop_first()[i],
        ) by {
            assert(part.drop_first()[i] == part[i + 1]);
        }
        lemma_run(part.drop_first(), rest, class);
    }
}

/// Whether a text is the name of a scheme: an ASCII letter, and then letters, digits, `+`, `-` and
/// `.`.
pub open spec fn is_scheme(name: Seq<char>) -> bool {
    &&& name.len() > 0
    &&& 'a' <= name[0] <= 'z' || 'A' <= name[0] <= 'Z'
    &&& forall|i: int|
        0 <= i < name.len() ==> {
            let c = #[trigger] name[i];
            'a' <= c <= 'z' || 'A' <= c <= 'Z' || '0' <= c <= '9' || c == '+' || c == '-' || c
                == '.'
        }
}

/// Whether a scheme goes by a name in lower case letters, whichever case its own letters are in.
pub open spec fn is_named(scheme: Seq<char>, name: Seq<char>) -> bool {
    &&& scheme.len() == name.len()
    &&& forall|i: int|
        0 <= i < name.len() ==> {
            let c = #[trigger] scheme[i];
            c == name[i] || ('A' <= c <= 'Z' && c as int + 32 == name[i] as int)
        }
}

/// The authority of a web address is what stands between the slashes after the scheme and the next
/// slash, backslash, question mark or number sign. Its characters are counted, and the slashes in
/// front of it.
pub proof fn authority_of_an_address_is_counted(
    scheme: Seq<char>,
    slashes: Seq<char>,
    authority: Seq<char>,
    rest: Seq<char>,
)
    requires
        is_named(scheme, "http"@) || is_named(scheme, "https"@) || is_named(scheme, "ws"@)
            || is_named(scheme, "wss"@) || is_named(scheme, "ftp"@),
        forall|i: int|
            0 <= i < slashes.len() ==> (#[trigger] slashes[i] == '/' || slashes[i] == '\\'),
        forall|i: int|
            0 <= i < authority.len() ==> (#[trigger] authority[i]) != '/' && authority[i] != '\\'
                && authority[i] != '?' && authority[i] != '#',
        authority.len() == 0 ==> rest.len() == 0 || (rest[0] != '/' && rest[0] != '\\'),
        rest.len() > 0 ==> rest[0] == '/' || rest[0] == '\\' || rest[0] == '?' || rest[0] == '#',
    ensures
        ({
            let counts = counts_of(scheme + seq![':'] + (slashes + (authority + rest)));
            &&& counts.authority == authority.len()
            &&& counts.slashes == slashes.len()
            &&& counts.scheme == 0
        }),
{
    let tail = slashes + (authority + rest);
    lemma_special_names(scheme);
    lemma_parts(scheme, tail);
    lemma_run(slashes, authority + rest, Class::Slash);
    assert(tail.skip(slashes.len() as int) =~= authority + rest);
    lemma_run(authority, rest, Class::SpecialAuthority);
}

/// Of any other scheme, the authority is what stands between two slashes after the scheme and the
/// next slash, question mark or number sign. Its characters are counted. Without two slashes there
/// is no authority, and the characters of the scheme are counted if a slash follows.
pub proof fn authority_of_other_schemes_is_counted(
    scheme: Seq<char>,
    authority: Seq<char>,
    rest: Seq<char>,
    path: Seq<char>,
)
    requires
        is_scheme(scheme),
        5 < scheme.len() < u32::MAX,
        forall|i: int|
            0 <= i < authority.len() ==> (#[trigger] authority[i]) != '/' && authority[i] != '?'
                && authority[i] != '#',
        rest.len() > 0 ==> rest[0] == '/' || rest[0] == '?' || rest[0] == '#',
        !(path.len() >= 2 && path[0] == '/' && path[1] == '/'),
    ensures
        ({
            let counts = counts_of(scheme + seq![':'] + (seq!['/', '/'] + (authority + rest)));
            &&& counts.authority == authority.len()
            &&& counts.slashes == 0
            &&& counts.scheme == 0
        }),
        ({
            let counts = counts_of(scheme + seq![':'] + path);
            &&& counts.authority == 0
            &&& counts.slashes == 0
            &&& counts.scheme == if path.len() > 0 && path[0] == '/' {
                scheme.len()
            } else {
                0
            }
        }),
{
    lemma_long_names(scheme);
    let tail = seq!['/', '/'] + (authority + rest);
    lemma_parts(scheme, tail);
    assert(tail.skip(2) =~= authority + rest);
    lemma_run(authority, rest, Class::Authority);
    lemma_parts(scheme, path);
}

proof fn lemma_parts(scheme: Seq<char>, tail: Seq<char>)
    requires
        is_scheme(scheme),
    ensures
        ({
            let text = scheme + seq![':'] + tail;
            &&& crate::limits::has_scheme(text)
            &&& crate::limits::scheme_of(text) == scheme
            &&& crate::limits::after_scheme(text) == tail
        }),
{
    let text = scheme + seq![':'] + tail;
    assert forall|i: int| 0 <= i < scheme.len() implies Class::Scheme.has(#[trigger] scheme[i]) by {
        let c = scheme[i];
    }
    assert(text =~= scheme + (seq![':'] + tail));
    lemma_run(scheme, seq![':'] + tail, Class::Scheme);
    assert(text.take(scheme.len() as int) =~= scheme);
    assert(text.skip(scheme.len() as int + 1) =~= tail);
}

proof fn lemma_long_names(scheme: Seq<char>)
    requires
        scheme.len() > 5,
    ensures
        !crate::limits::is_special(scheme),
        !crate::limits::goes_by(scheme, "file"@),
{
    reveal_strlit("http");
    reveal_strlit("https");
    reveal_strlit("ws");
    reveal_strlit("wss");
    reveal_strlit("ftp");
    reveal_strlit("file");
}

proof fn lemma_special_names(scheme: Seq<char>)
    requires
        is_named(scheme, "http"@) || is_named(scheme, "https"@) || is_named(scheme, "ws"@)
            || is_named(scheme, "wss"@) || is_named(scheme, "ftp"@),
    ensures
        0 < scheme.len() <= 5,
        crate::limits::is_special(scheme),
        !crate::limits::goes_by(scheme, "file"@),
        is_scheme(scheme),
{
    reveal_strlit("http");
    reveal_strlit("https");
    reveal_strlit("ws");
    reveal_strlit("wss");
    reveal_strlit("ftp");
    reveal_strlit("file");
    if is_named(scheme, "http"@) {
        lemma_named(scheme, "http"@);
    } else if is_named(scheme, "https"@) {
        lemma_named(scheme, "https"@);
    } else if is_named(scheme, "ws"@) {
        lemma_named(scheme, "ws"@);
    } else if is_named(scheme, "wss"@) {
        lemma_named(scheme, "wss"@);
    } else {
        lemma_named(scheme, "ftp"@);
    }
    assert(!crate::limits::goes_by(scheme, "file"@)) by {
        if crate::limits::goes_by(scheme, "file"@) {
            assert(crate::limits::is_same_letter(scheme[0], "file"@[0]));
        }
    }
}

proof fn lemma_named(scheme: Seq<char>, name: Seq<char>)
    requires
        is_named(scheme, name),
        name.len() > 0,
        forall|i: int| 0 <= i < name.len() ==> 'a' <= #[trigger] name[i] <= 'z',
    ensures
        is_scheme(scheme),
        crate::limits::goes_by(scheme, name),
        scheme[0] == name[0] || scheme[0] as int + 32 == name[0] as int,
{
    assert forall|i: int| 0 <= i < name.len() implies crate::limits::is_same_letter(
        #[trigger] scheme[i],
        name[i],
    ) by {}
    assert forall|i: int| 0 <= i < scheme.len() implies {
        let c = #[trigger] scheme[i];
        'a' <= c <= 'z' || 'A' <= c <= 'Z'
    } by {
        let c = name[i];
    }
    let c = scheme[0];
}

/// Nothing is counted of the address of a local file, nor of a text without a scheme and a colon.
pub proof fn files_and_other_texts_are_not_counted(scheme: Seq<char>, rest: Seq<char>)
    requires
        is_named(scheme, "file"@) || !is_scheme(scheme),
        forall|i: int| 0 <= i < scheme.len() ==> (#[trigger] scheme[i]) != ':',
    ensures
        ({
            let counts = counts_of(scheme + seq![':'] + rest);
            counts.authority == 0 && counts.slashes == 0 && counts.scheme == 0
        }),
{
    let text = scheme + seq![':'] + rest;
    if is_named(scheme, "file"@) {
        reveal_strlit("file");
        lemma_named(scheme, "file"@);
        lemma_parts(scheme, rest);
    } else if crate::limits::has_scheme(text) {
        let n = run(text, Class::Scheme);
        lemma_run_is_of_its_class(text, Class::Scheme);
        assert(text[n as int] == ':');
        assert(n >= scheme.len()) by {
            if n < scheme.len() {
                assert(text[n as int] == scheme[n as int]);
            }
        }
        assert(n <= scheme.len()) by {
            if n > scheme.len() {
                assert(text[scheme.len() as int] == ':');
                assert(Class::Scheme.has(text[scheme.len() as int]));
            }
        }
        assert(n > 0) by {
            assert(text[0] != ':');
        }
        assert forall|i: int| 0 <= i < scheme.len() implies Class::Scheme.has(
            #[trigger] scheme[i],
        ) by {
            assert(text[i] == scheme[i]);
        }
        assert(text[0] == scheme[0]);
        assert(is_scheme(scheme));
    }
}

proof fn lemma_run_is_of_its_class(text: Seq<char>, class: Class)
    ensures
        run(text, class) <= text.len(),
        forall|i: int| 0 <= i < run(text, class) ==> class.has(#[trigger] text[i]),
    decreases text.len(),
{
    if text.len() > 0 && class.has(text[0]) {
        let rest = text.drop_first();
        lemma_run_is_of_its_class(rest, class);
        assert forall|i: int| 0 <= i < run(text, class) implies class.has(#[trigger] text[i]) by {
            if i > 0 {
                assert(rest[i - 1] == text[i]);
            }
        }
    }
}

/// Tabs and ends of lines are left out wherever they stand, and nothing else is.
pub proof fn tabs_and_ends_of_lines_are_left_out(text: Seq<char>, c: char)
    ensures
        visible(text.push(c)) == if c == '\t' || c == '\n' || c == '\r' {
            visible(text)
        } else {
            visible(text).push(c)
        },
        visible(seq![]) == Seq::<char>::empty(),
{
    assert(text.push(c).drop_last() =~= text);
}

/// A text is read without the control characters and spaces around it.
pub proof fn controls_around_a_text_are_left_out(text: Seq<char>, from: int, to: int)
    requires
        0 <= from < to <= text.len(),
        forall|i: int| 0 <= i < from ==> (#[trigger] text[i]) <= ' ',
        forall|i: int| to <= i < text.len() ==> (#[trigger] text[i]) <= ' ',
        text[from] > ' ',
        text[to - 1] > ' ',
        forall|i: int|
            0 <= i < text.len() ==> (#[trigger] text[i]) != '\t' && text[i] != '\n' && text[i]
                != '\r',
    ensures
        as_read(text) == text.subrange(from, to),
{
    lemma_nothing_to_leave_out(text);
    assert(text =~= text.take(from) + text.skip(from));
    lemma_run(text.take(from), text.skip(from), Class::Control);
    lemma_trailing_controls(text.skip(from), to - from);
    assert(text.skip(from).take(to - from) =~= text.subrange(from, to));
}

proof fn lemma_nothing_to_leave_out(text: Seq<char>)
    requires
        forall|i: int| 0 <= i < text.len() ==> !crate::limits::is_skipped(#[trigger] text[i]),
    ensures
        visible(text) == text,
    decreases text.len(),
{
    if text.len() > 0 {
        lemma_nothing_to_leave_out(text.drop_last());
        assert(text.drop_last().push(text.last()) =~= text);
    }
}

proof fn lemma_trailing_controls(text: Seq<char>, to: int)
    requires
        0 < to <= text.len(),
        text[to - 1] > ' ',
        forall|i: int| to <= i < text.len() ==> (#[trigger] text[i]) <= ' ',
    ensures
        crate::limits::without_trailing_controls(text) == text.take(to),
    decreases text.len(),
{
    if to < text.len() {
        assert(text[text.len() - 1] <= ' ');
        lemma_trailing_controls(text.drop_last(), to);
        assert(text.drop_last().take(to) =~= text.take(to));
    } else {
        assert(text.take(to) =~= text);
    }
}

/// The limits of what is counted: 2 to the power 31 less one characters of an authority, 2 to the
/// power 32 less one slashes, and 2 to the power 32 less four characters of a scheme.
pub proof fn counts_have_their_limits(text: Seq<char>)
    ensures
        ({
            let counts = counts_of(as_read(text));
            fits(text) <==> counts.authority <= i32::MAX && counts.slashes <= u32::MAX
                && counts.scheme <= u32::MAX - 3
        }),
{
}

} // verus!
