//! Turning what is typed into the address prompt into a URL to load.

use crate::limits::can_be_counted;
use vstd::prelude::*;

verus! {

/// The serialization of the URL that `url::Url::parse` reads from `text`, or `None` where it
/// rejects `text`.
pub uninterp spec fn parsed_url(text: Seq<char>) -> Option<Seq<char>>;

/// Calls `url::Url::parse` and keeps the serialization of the URL it returns.
///
/// Trusted: the call depends on `text` alone, so its outcome is named `parsed_url`. It counts the
/// characters of the authority in a signed and the slashes in front of it in an unsigned 32-bit
/// integer, and may move the start of a path without authority two places up in such an integer.
/// So no text is handed to it whose counts do not fit.
#[verifier::external_body]
fn parse_url(text: &str) -> (url: Option<String>)
    requires
        crate::limits::fits(text@),
    ensures
        text_of(url) == parsed_url(text@),
{
    match url::Url::parse(text) {
        Ok(url) => Some(String::from(url)),
        Err(_) => None,
    }
}

/// The characters of an optional string.
pub open spec fn text_of(text: Option<String>) -> Option<Seq<char>> {
    match text {
        Some(text) => Some(text@),
        None => None,
    }
}

/// The characters with the Unicode property `White_Space`.
pub open spec fn is_white_space(c: char) -> bool {
    ||| '\u{9}' <= c <= '\u{d}'
    ||| c == '\u{20}'
    ||| c == '\u{85}'
    ||| c == '\u{a0}'
    ||| c == '\u{1680}'
    ||| '\u{2000}' <= c <= '\u{200a}'
    ||| c == '\u{2028}'
    ||| c == '\u{2029}'
    ||| c == '\u{202f}'
    ||| c == '\u{205f}'
    ||| c == '\u{3000}'
}

/// `text` without the white space that it starts with.
pub open spec fn without_leading_space(text: Seq<char>) -> Seq<char>
    decreases text.len(),
{
    if text.len() > 0 && is_white_space(text[0]) {
        without_leading_space(text.drop_first())
    } else {
        text
    }
}

/// `text` without the white space that it ends with.
pub open spec fn without_trailing_space(text: Seq<char>) -> Seq<char>
    decreases text.len(),
{
    if text.len() > 0 && is_white_space(text.last()) {
        without_trailing_space(text.drop_last())
    } else {
        text
    }
}

/// `text` without white space at either end.
pub open spec fn trimmed(text: Seq<char>) -> Seq<char> {
    without_trailing_space(without_leading_space(text))
}

/// Whether `page` starts with the placeholder `%s`.
pub open spec fn starts_with_placeholder(page: Seq<char>) -> bool {
    page.len() >= 2 && page[0] == '%' && page[1] == 's'
}

/// `page` with `request` in place of each placeholder `%s`.
pub open spec fn search_url(page: Seq<char>, request: Seq<char>) -> Seq<char>
    decreases page.len(),
{
    if page.len() == 0 {
        page
    } else if starts_with_placeholder(page) {
        request + search_url(page.skip(2), request)
    } else {
        seq![page[0]] + search_url(page.drop_first(), request)
    }
}

/// The texts that are tried as a URL, in order: the request itself, the request as an `http`
/// address if it looks like one, and a search for it.
pub open spec fn candidates(
    request: Seq<char>,
    is_reg_domain: bool,
    search_page: Option<Seq<char>>,
) -> Seq<Seq<char>> {
    let request = trimmed(request);
    let as_typed = seq![request];
    let as_address = if request.contains('/') || is_reg_domain {
        seq!["http://"@ + request]
    } else {
        seq![]
    };
    let as_search = match search_page {
        Some(page) => seq![search_url(page, request)],
        None => seq![],
    };
    as_typed + as_address + as_search
}

/// The first result that is a URL.
pub open spec fn first_some(results: Seq<Option<Seq<char>>>) -> Option<Seq<char>>
    decreases results.len(),
{
    if results.len() == 0 {
        None
    } else if results[0] is Some {
        results[0]
    } else {
        first_some(results.drop_first())
    }
}

/// The URL that is loaded for `request`.
pub open spec fn sanitized(
    request: Seq<char>,
    is_reg_domain: bool,
    search_page: Option<Seq<char>>,
) -> Option<Seq<char>> {
    first_some(
        candidates(request, is_reg_domain, search_page).map_values(
            |text: Seq<char>| parsed_url(text),
        ),
    )
}

/// Whether `texts` can be read one after another up to the first that is a URL.
pub open spec fn can_read(texts: Seq<Seq<char>>) -> bool
    decreases texts.len(),
{
    texts.len() > 0 ==> {
        &&& crate::limits::fits(texts[0])
        &&& parsed_url(texts[0]) is None ==> can_read(texts.drop_first())
    }
}

/// Whether the texts that are tried for `request` can be read up to the first that is a URL.
pub open spec fn can_be_sanitized(
    request: Seq<char>,
    is_reg_domain: bool,
    search_page: Option<Seq<char>>,
) -> bool {
    can_read(candidates(request, is_reg_domain, search_page))
}

/// The characters of an optional string slice.
pub open spec fn slice_of(text: Option<&str>) -> Option<Seq<char>> {
    match text {
        Some(text) => Some(text@),
        None => None,
    }
}

pub(crate) fn chars_of(text: &str) -> (chars: Vec<char>)
    ensures
        chars@ == text@,
{
    let mut chars: Vec<char> = Vec::new();
    for c in it: text.chars()
        invariant
            chars@ == it.seq().take(it.index() as int),
            it.seq() == text@,
    {
        chars.push(c);
    }
    chars
}

fn white_space(c: char) -> (yes: bool)
    ensures
        yes == is_white_space(c),
{
    ('\u{9}' <= c && c <= '\u{d}') || c == '\u{20}' || c == '\u{85}' || c == '\u{a0}' || c
        == '\u{1680}' || ('\u{2000}' <= c && c <= '\u{200a}') || c == '\u{2028}' || c == '\u{2029}'
        || c == '\u{202f}' || c == '\u{205f}' || c == '\u{3000}'
}

/// What a request is judged by: `request` without white space at either end.
pub fn trim(request: &str) -> (text: &str)
    ensures
        text@ == trimmed(request@),
{
    let chars = chars_of(request);
    let mut from: usize = 0;
    assert(chars@.skip(0) =~= chars@);
    while from < chars.len() && white_space(chars[from])
        invariant
            from <= chars.len(),
            chars@ == request@,
            without_leading_space(chars@) == without_leading_space(chars@.skip(from as int)),
        decreases chars.len() - from,
    {
        assert(chars@.skip(from as int).drop_first() =~= chars@.skip(from + 1));
        from += 1;
    }
    let ghost tail = chars@.skip(from as int);
    assert(without_leading_space(chars@) == tail);
    let mut to: usize = chars.len();
    assert(tail.take(to - from) =~= tail);
    while from < to && white_space(chars[to - 1])
        invariant
            from <= to <= chars.len(),
            chars@ == request@,
            tail == chars@.skip(from as int),
            without_trailing_space(tail) == without_trailing_space(tail.take(to - from)),
        decreases to,
    {
        assert(tail.take(to - from).drop_last() =~= tail.take(to - 1 - from));
        to -= 1;
    }
    assert(tail.take(to - from) =~= request@.subrange(from as int, to as int));
    request.substring_char(from, to)
}

fn has_slash(text: &str) -> (yes: bool)
    ensures
        yes == text@.contains('/'),
{
    let chars = chars_of(text);
    let mut i: usize = 0;
    while i < chars.len()
        invariant
            i <= chars.len(),
            chars@ == text@,
            forall|j: int| 0 <= j < i ==> text@[j] != '/',
        decreases chars.len() - i,
    {
        if chars[i] == '/' {
            assert(text@[i as int] == '/');
            return true;
        }
        i += 1;
    }
    false
}

fn fill_placeholders(page: &str, request: &str) -> (url: String)
    ensures
        url@ == search_url(page@, request@),
{
    let chars = chars_of(page);
    let mut url = String::new();
    // What stands between `from` and `i` has been read and not yet copied.
    let mut from: usize = 0;
    let mut i: usize = 0;
    proof {
        assert(page@.skip(0) =~= page@);
        assert(url@ + page@.subrange(0, 0) + search_url(page@, request@) =~= search_url(
            page@,
            request@,
        ));
    }
    while i < chars.len()
        invariant
            from <= i <= chars.len(),
            chars@ == page@,
            url@ + page@.subrange(from as int, i as int) + search_url(
                page@.skip(i as int),
                request@,
            ) == search_url(page@, request@),
        decreases chars.len() - i,
    {
        let ghost rest = page@.skip(i as int);
        let ghost read = page@.subrange(from as int, i as int);
        if chars.len() - i >= 2 && chars[i] == '%' && chars[i + 1] == 's' {
            let ghost before = url@;
            url.append(page.substring_char(from, i));
            url.append(request);
            proof {
                assert(starts_with_placeholder(rest));
                assert(rest.skip(2) =~= page@.skip(i + 2));
                assert(url@ + page@.subrange(i + 2, i + 2) + search_url(page@.skip(i + 2), request@)
                    =~= before + read + (request@ + search_url(page@.skip(i + 2), request@)));
            }
            i += 2;
            from = i;
        } else {
            proof {
                assert(!starts_with_placeholder(rest));
                assert(rest.drop_first() =~= page@.skip(i + 1));
                assert(url@ + page@.subrange(from as int, i + 1) + search_url(
                    page@.skip(i + 1),
                    request@,
                ) =~= url@ + read + (seq![rest[0]] + search_url(page@.skip(i + 1), request@)));
            }
            i += 1;
        }
    }
    let ghost before = url@;
    url.append(page.substring_char(from, i));
    assert(url@ =~= before + page@.subrange(from as int, i as int) + search_url(
        page@.skip(i as int),
        request@,
    ));
    url
}

/// The texts to try as a URL for `request`. `is_reg_domain` says whether the trimmed request is
/// a registrable domain, and `search_page` is the URL of the search page, with `%s` where the
/// request goes.
pub fn url_candidates(
    request: &str,
    is_reg_domain: bool,
    search_page: Option<&str>,
) -> (texts: Vec<String>)
    ensures
        texts@.map_values(|text: String| text@) == candidates(
            request@,
            is_reg_domain,
            slice_of(search_page),
        ),
{
    let request = trim(request);
    let mut texts: Vec<String> = Vec::new();
    texts.push(request.to_owned());
    if has_slash(request) || is_reg_domain {
        let mut address = "http://".to_owned();
        address.append(request);
        texts.push(address);
    }
    if let Some(page) = search_page {
        texts.push(fill_placeholders(page, request));
    }
    texts
}

/// The first of `results` that is a URL.
pub fn first_url(results: Vec<Option<String>>) -> (url: Option<String>)
    ensures
        text_of(url) == first_some(results@.map_values(|result: Option<String>| text_of(result))),
{
    let ghost all = results@.map_values(|result: Option<String>| text_of(result));
    let mut i: usize = 0;
    assert(all.skip(0) =~= all);
    while i < results.len()
        invariant
            i <= results.len(),
            all == results@.map_values(|result: Option<String>| text_of(result)),
            first_some(all) == first_some(all.skip(i as int)),
        decreases results.len() - i,
    {
        if let Some(url) = &results[i] {
            assert(all.skip(i as int)[0] == Some(url@));
            return Some(url.clone());
        }
        assert(all.skip(i as int)[0] is None);
        assert(all.skip(i as int).drop_first() =~= all.skip(i + 1));
        i += 1;
    }
    None
}

/// Reads `texts` up to the first that is a URL. `None` if they cannot be read that far.
fn read_in_order(texts: &Vec<String>) -> (results: Option<Vec<Option<String>>>)
    ensures
        results is Some <==> can_read(texts@.map_values(|text: String| text@)),
        results matches Some(results) ==> first_some(
            results@.map_values(|result: Option<String>| text_of(result)),
        ) == first_some(
            texts@.map_values(|text: String| text@).map_values(|text: Seq<char>| parsed_url(text)),
        ),
{
    let ghost views = texts@.map_values(|text: String| text@);
    let ghost all = views.map_values(|text: Seq<char>| parsed_url(text));
    let mut results: Vec<Option<String>> = Vec::new();
    let mut found = false;
    assert(views.skip(0) =~= views);
    while !found && results.len() < texts.len()
        invariant
            results.len() <= texts.len(),
            views == texts@.map_values(|text: String| text@),
            all == views.map_values(|text: Seq<char>| parsed_url(text)),
            results@.map_values(|result: Option<String>| text_of(result)) == all.take(
                results.len() as int,
            ),
            !found ==> can_read(views) == can_read(views.skip(results.len() as int)),
            found ==> can_read(views) && results.len() > 0 && all[results.len() - 1] is Some,
        decreases texts.len() - results.len(),
    {
        let i: usize = results.len();
        let text = texts[i].as_str();
        assert(views.skip(i as int)[0] == text@);
        if !can_be_counted(text) {
            return None;
        }
        let result = parse_url(text);
        found = result.is_some();
        assert(text_of(result) == all[i as int]);
        assert(views.skip(i as int).drop_first() =~= views.skip(i + 1));
        results.push(result);
        assert(results@.map_values(|result: Option<String>| text_of(result)) =~= all.take(i + 1));
    }
    proof {
        lemma_first_is_in_the_start(all, results.len() as int);
    }
    Some(results)
}

/// What follows the first result that is a URL makes no difference.
proof fn lemma_first_is_in_the_start(results: Seq<Option<Seq<char>>>, n: int)
    requires
        0 <= n <= results.len(),
        n == results.len() || (n > 0 && results[n - 1] is Some),
    ensures
        first_some(results.take(n)) == first_some(results),
    decreases n,
{
    if n > 0 && results[0] is None {
        lemma_first_is_in_the_start(results.drop_first(), n - 1);
        assert(results.take(n).drop_first() =~= results.drop_first().take(n - 1));
    }
}

/// Whether the texts that are tried for `request` can be read up to the first that is a URL. They
/// can unless one of them has more than two thousand million characters in front of its path.
pub fn can_sanitize(request: &str, is_reg_domain: bool, search_page: Option<&str>) -> (yes: bool)
    ensures
        yes == can_be_sanitized(request@, is_reg_domain, slice_of(search_page)),
{
    read_in_order(&url_candidates(request, is_reg_domain, search_page)).is_some()
}

/// The URL to load for what was typed: the request itself if it is a URL, else the request as an
/// `http` address if it has a slash or is a registrable domain, else a search for it. `None` if
/// none of these is a URL. No text is read after one that is a URL.
pub fn sanitize_url(request: &str, is_reg_domain: bool, search_page: Option<&str>) -> (url: Option<
    String,
>)
    requires
        can_be_sanitized(request@, is_reg_domain, slice_of(search_page)),
    ensures
        text_of(url) == sanitized(request@, is_reg_domain, slice_of(search_page)),
{
    match read_in_order(&url_candidates(request, is_reg_domain, search_page)) {
        Some(results) => first_url(results),
        None => None,
    }
}

} // verus!
