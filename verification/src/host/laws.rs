//! Laws of where the host of a URL stands, and of which hosts can be encoded.

use vstd::prelude::*;

use super::{
    after_user, before_port, cleaned, ends_authority, find, highest, host_range, is_ignored,
    is_literal, is_low, is_padding, is_slash, label_fits, labels_fit, readable, starts_as,
    total_weight, unpadded, weight, without_ignored,
};

verus! {

/// The kinds of characters, by their code points.
pub proof fn characters_have_kinds(c: char)
    ensures
        is_padding(c) <==> c as int <= 0x20,
        is_ignored(c) <==> c as int == 9 || c as int == 10 || c as int == 13,
        is_slash(c) <==> c as int == 0x2f || c as int == 0x5c,
        ends_authority(c) <==> c as int == 0x2f || c as int == 0x5c || c as int == 0x3f || c as int
            == 0x23,
        is_literal(c) <==> (c as int) < 0x80 && c as int != 0x25,
        is_low(c) <==> (c as int) < 0xd800 && c as int != 0x25 && c as int != 0x2d,
{
}

/// Every character becomes at least one and at most eighteen. The characters of ASCII become
/// one, but for the percent sign.
pub proof fn characters_have_weights(c: char)
    ensures
        c as int == 0xfdfa ==> weight(c) == 18,
        c as int == 0xfdfb ==> weight(c) == 8,
        0x3200 <= c as int <= 0x33ff ==> weight(c) == 7,
        (c as int) < 0x80 && c as int != 0x25 ==> weight(c) == 1,
        c as int == 0x25 ==> weight(c) == 4,
        0x80 <= c as int && c as int != 0xfdfa && c as int != 0xfdfb && !(0x3200 <= c as int
            <= 0x33ff) ==> weight(c) == 4,
{
}

/// Whether the place is the first one from `from` on where `stop` holds, or the end.
pub open spec fn is_first(
    text: Seq<char>,
    from: int,
    stop: spec_fn(char) -> bool,
    at: int,
) -> bool {
    &&& from <= at <= text.len()
    &&& at < text.len() ==> stop(text[at])
    &&& forall|k: int| from <= k < at ==> !stop(#[trigger] text[k])
}

/// What is found is the first place where the search stops, and there is only one such place.
pub proof fn found_place_is_first(
    text: Seq<char>,
    from: int,
    stop: spec_fn(char) -> bool,
    at: int,
)
    requires
        0 <= from <= text.len(),
    ensures
        find(text, from, stop) == at <==> is_first(text, from, stop, at),
    decreases text.len() - from,
{
    if from < text.len() && !stop(text[from]) {
        found_place_is_first(text, from + 1, stop, at);
        if is_first(text, from, stop, at) {
            assert(at != from);
        }
    } else if is_first(text, from, stop, at) && at > from {
        assert(!stop(text[from]));
    }
}

/// Where the text without its padding stands in the text: from the first to the last character
/// that is no padding.
pub proof fn padding_is_taken_away(text: Seq<char>) -> (range: (int, int))
    ensures
        0 <= range.0 <= range.1 <= text.len(),
        unpadded(text) == text.subrange(range.0, range.1),
        forall|k: int|
            0 <= k < text.len() && !(range.0 <= k < range.1) ==> (#[trigger] text[k]) as int
                <= 0x20,
        range.0 < range.1 ==> text[range.0] as int > 0x20 && text[range.1 - 1] as int > 0x20,
    decreases text.len(),
{
    if text.len() == 0 {
        (0, 0)
    } else if is_padding(text.first()) {
        let rest = text.drop_first();
        let (i, j) = padding_is_taken_away(rest);
        assert(rest.subrange(i, j) =~= text.subrange(i + 1, j + 1));
        assert forall|k: int| 0 <= k < text.len() && !(i + 1 <= k < j + 1) implies (
        #[trigger] text[k]) as int <= 0x20 by {
            if k > 0 {
                assert(rest[k - 1] == text[k]);
            }
        }
        (i + 1, j + 1)
    } else if is_padding(text.last()) {
        let rest = text.drop_last();
        let (i, j) = padding_is_taken_away(rest);
        assert(rest.subrange(i, j) =~= text.subrange(i, j));
        assert forall|k: int| 0 <= k < text.len() && !(i <= k < j) implies (#[trigger] text[k]) as int <= 0x20 by {
            if k < rest.len() {
                assert(rest[k] == text[k]);
            }
        }
        (i, j)
    } else {
        assert(text.subrange(0, text.len() as int) =~= text);
        (0, text.len() as int)
    }
}

/// Tabs and line breaks are left out, and every other character stays, in its place.
pub proof fn ignored_characters_are_left_out(text: Seq<char>, c: char)
    ensures
        without_ignored(Seq::empty()).len() == 0,
        without_ignored(text.push(c)) == if c as int == 9 || c as int == 10 || c as int == 13 {
            without_ignored(text)
        } else {
            without_ignored(text).push(c)
        },
{
    assert(text.push(c).drop_last() =~= text);
}

/// A text is cleaned by taking away its padding and then leaving out what is ignored.
pub proof fn texts_are_cleaned(url: Seq<char>) -> (range: (int, int))
    ensures
        0 <= range.0 <= range.1 <= url.len(),
        cleaned(url) == without_ignored(url.subrange(range.0, range.1)),
        forall|k: int|
            0 <= k < url.len() && !(range.0 <= k < range.1) ==> (#[trigger] url[k]) as int <= 0x20,
        range.0 < range.1 ==> url[range.0] as int > 0x20 && url[range.1 - 1] as int > 0x20,
{
    padding_is_taken_away(url)
}

/// The lower case of the character, if it is a letter of ASCII.
pub open spec fn lower_case(c: char) -> int {
    if 0x41 <= c as int <= 0x5a {
        c as int + 0x20
    } else {
        c as int
    }
}

/// Whether two are the same letter does not depend on the case of the first one.
pub proof fn case_does_not_matter(c: char, lower: char)
    requires
        0x61 <= lower as int <= 0x7a,
    ensures
        super::same_letter(c, lower) <==> lower_case(c) == lower as int,
{
}

/// Whether the first `n` characters spell the word, in whatever case.
pub open spec fn spells(text: Seq<char>, n: int, word: Seq<char>) -> bool {
    &&& n == word.len()
    &&& forall|i: int| 0 <= i < n ==> lower_case(#[trigger] text[i]) == word[i] as int
}

/// The names of schemes are read in whatever case.
pub proof fn schemes_are_read_in_any_case(text: Seq<char>, n: int, name: Seq<char>)
    requires
        forall|i: int| 0 <= i < name.len() ==> 0x61 <= (#[trigger] name[i]) as int <= 0x7a,
    ensures
        starts_as(text, n, name) <==> spells(text, n, name),
{
    if spells(text, n, name) {
        assert forall|i: int| 0 <= i < n implies super::same_letter(#[trigger] text[i], name[i]) by {
            assert(lower_case(text[i]) == name[i] as int);
            case_does_not_matter(text[i], name[i]);
        }
    }
    if starts_as(text, n, name) {
        assert forall|i: int| 0 <= i < n implies lower_case(#[trigger] text[i]) == name[i] as int by {
            assert(0x61 <= name[i] as int <= 0x7a);
            case_does_not_matter(text[i], name[i]);
        }
    }
}

/// Whether a scheme that takes the first `n` characters is one of those whose URLs have a server.
pub open spec fn is_server_scheme(text: Seq<char>, n: int) -> bool {
    ||| spells(text, n, "wss"@)
    ||| spells(text, n, "ws"@)
    ||| spells(text, n, "https"@)
    ||| spells(text, n, "http"@)
    ||| spells(text, n, "ftp"@)
    ||| spells(text, n, "gopher"@)
}

/// The schemes that are known consist of lower-case letters.
proof fn schemes_are_lower_case(text: Seq<char>, n: int)
    ensures
        super::has_server(text, n) <==> is_server_scheme(text, n),
        starts_as(text, n, "file"@) <==> spells(text, n, "file"@),
{
    reveal_strlit("wss");
    reveal_strlit("ws");
    reveal_strlit("https");
    reveal_strlit("http");
    reveal_strlit("ftp");
    reveal_strlit("gopher");
    reveal_strlit("file");
    schemes_are_read_in_any_case(text, n, "wss"@);
    schemes_are_read_in_any_case(text, n, "ws"@);
    schemes_are_read_in_any_case(text, n, "https"@);
    schemes_are_read_in_any_case(text, n, "http"@);
    schemes_are_read_in_any_case(text, n, "ftp"@);
    schemes_are_read_in_any_case(text, n, "gopher"@);
    schemes_are_read_in_any_case(text, n, "file"@);
}

/// What follows a user is what follows the last `@`.
pub proof fn user_ends_at_last_at_sign(text: Seq<char>, start: int, end: int, at: int)
    requires
        0 <= start <= end <= text.len(),
    ensures
        after_user(text, start, end) == at <==> {
            &&& start <= at <= end
            &&& at == start || text[at - 1] == '@'
            &&& forall|k: int| at <= k < end ==> #[trigger] text[k] != '@'
        },
    decreases end - start,
{
    if start < end && text[end - 1] != '@' {
        user_ends_at_last_at_sign(text, start, end - 1, at);
    }
}

/// Whether the last square bracket between `start` and `k` is an opening one. Before the first
/// bracket it is so if `open` says so.
pub open spec fn in_brackets(text: Seq<char>, start: int, k: int, open: bool) -> bool {
    ||| exists|b: int|
        {
            &&& start <= b < k
            &&& #[trigger] text[b] == '['
            &&& forall|j: int| b < j < k ==> #[trigger] text[j] != ']'
        }
    ||| open && forall|j: int| start <= j < k ==> #[trigger] text[j] != ']'
}

/// The place after one character is in brackets if that character opens one, or was in one and
/// does not close it.
proof fn brackets_after_one(text: Seq<char>, start: int, k: int, open: bool)
    requires
        start < k,
    ensures
        in_brackets(text, start, k, open) == in_brackets(
            text,
            start + 1,
            k,
            text[start] == '[' || open && text[start] != ']',
        ),
{
    let next = text[start] == '[' || open && text[start] != ']';
    if in_brackets(text, start, k, open) {
        if exists|b: int|
            {
                &&& start <= b < k
                &&& #[trigger] text[b] == '['
                &&& forall|j: int| b < j < k ==> #[trigger] text[j] != ']'
            } {
            let b = choose|b: int|
                {
                    &&& start <= b < k
                    &&& #[trigger] text[b] == '['
                    &&& forall|j: int| b < j < k ==> #[trigger] text[j] != ']'
                };
            if b > start {
                assert(text[b] == '[');
            }
        }
        assert(in_brackets(text, start + 1, k, next));
    }
    if in_brackets(text, start + 1, k, next) {
        if next && forall|j: int| start + 1 <= j < k ==> #[trigger] text[j] != ']' {
            if text[start] == '[' {
                assert(start <= start < k);
            }
        }
        assert(in_brackets(text, start, k, open));
    }
}

/// The host ends at the first colon that does not stand in square brackets.
pub proof fn host_ends_at_first_free_colon(
    text: Seq<char>,
    start: int,
    end: int,
    open: bool,
    at: int,
)
    requires
        0 <= start <= end <= text.len(),
    ensures
        before_port(text, start, end, open) == at <==> {
            &&& start <= at <= end
            &&& at < end ==> text[at] == ':' && !in_brackets(text, start, at, open)
            &&& forall|k: int|
                start <= k < at ==> #[trigger] text[k] != ':' || in_brackets(text, start, k, open)
        },
    decreases end - start,
{
    let next = start < end && (text[start] == '[' || open && text[start] != ']');
    assert(in_brackets(text, start, start, open) == open);
    if start < end && !(text[start] == ':' && !open) {
        host_ends_at_first_free_colon(text, start + 1, end, next, at);
        assert forall|k: int| start < k implies in_brackets(text, start, k, open) == in_brackets(
            text,
            start + 1,
            k,
            next,
        ) by {
            brackets_after_one(text, start, k, open);
        }
    } else if start < end && at > start {
        assert(text[start] == ':');
    }
}

/// Where the host stands in a URL with a server: after the scheme, any number of slashes and
/// the user, and before the port, the path, the query and the fragment.
pub proof fn host_follows_scheme_and_user(
    text: Seq<char>,
    colon: int,
    start: int,
    end: int,
    host: int,
    port: int,
)
    requires
        is_first(text, 0, |c: char| c == ':', colon),
        colon < text.len(),
        is_server_scheme(text, colon),
        is_first(text, colon + 1, |c: char| c != '/' && c != '\\', start),
        is_first(text, start, |c: char| c == '/' || c == '\\' || c == '?' || c == '#', end),
        start <= host <= end,
        host == start || text[host - 1] == '@',
        forall|k: int| host <= k < end ==> #[trigger] text[k] != '@',
        host <= port <= end,
        port < end ==> text[port] == ':' && !in_brackets(text, host, port, false),
        forall|k: int|
            host <= k < port ==> #[trigger] text[k] != ':' || in_brackets(text, host, k, false),
    ensures
        host_range(text) == (host, port),
{
    schemes_are_lower_case(text, colon);
    found_place_is_first(text, 0, |c: char| c == ':', colon);
    let no_slash = |c: char| !is_slash(c);
    assert(is_first(text, colon + 1, no_slash, start)) by {
        let plain = |c: char| c != '/' && c != '\\';
        assert forall|k: int| colon + 1 <= k < start implies !no_slash(#[trigger] text[k]) by {
            assert(!plain(text[k]));
        }
    }
    found_place_is_first(text, colon + 1, no_slash, start);
    let ends = |c: char| ends_authority(c);
    assert(is_first(text, start, ends, end)) by {
        let plain = |c: char| c == '/' || c == '\\' || c == '?' || c == '#';
        assert forall|k: int| start <= k < end implies !ends(#[trigger] text[k]) by {
            assert(!plain(text[k]));
        }
    }
    found_place_is_first(text, start, ends, end);
    user_ends_at_last_at_sign(text, start, end, host);
    host_ends_at_first_free_colon(text, host, end, false, port);
}

/// Where the host stands in the URL of a file: after two slashes, up to the path.
pub proof fn file_host_follows_two_slashes(text: Seq<char>, colon: int, end: int)
    requires
        is_first(text, 0, |c: char| c == ':', colon),
        colon + 2 < text.len(),
        spells(text, colon, "file"@),
        text[colon + 1] == '/' || text[colon + 1] == '\\',
        text[colon + 2] == '/' || text[colon + 2] == '\\',
        is_first(text, colon + 3, |c: char| c == '/' || c == '\\' || c == '?' || c == '#', end),
    ensures
        host_range(text) == (colon + 3, end),
{
    schemes_are_lower_case(text, colon);
    found_place_is_first(text, 0, |c: char| c == ':', colon);
    reveal_strlit("wss");
    reveal_strlit("ws");
    reveal_strlit("https");
    reveal_strlit("http");
    reveal_strlit("ftp");
    reveal_strlit("gopher");
    reveal_strlit("file");
    assert(lower_case(text[0]) == "file"@[0] as int);
    assert(!spells(text, colon, "http"@)) by {
        if spells(text, colon, "http"@) {
            assert(lower_case(text[0]) == "http"@[0] as int);
        }
    }
    let ends = |c: char| ends_authority(c);
    assert(is_first(text, colon + 3, ends, end)) by {
        let plain = |c: char| c == '/' || c == '\\' || c == '?' || c == '#';
        assert forall|k: int| colon + 3 <= k < end implies !ends(#[trigger] text[k]) by {
            assert(!plain(text[k]));
        }
    }
    found_place_is_first(text, colon + 3, ends, end);
}

/// There is no host to be encoded without a scheme, with one that has no server, and in the URL
/// of a file without two slashes.
pub proof fn other_urls_have_no_host(text: Seq<char>, colon: int)
    requires
        is_first(text, 0, |c: char| c == ':', colon),
        colon == text.len() || {
            &&& !is_server_scheme(text, colon)
            &&& spells(text, colon, "file"@) ==> {
                ||| colon + 2 >= text.len()
                ||| text[colon + 1] != '/' && text[colon + 1] != '\\'
                ||| text[colon + 2] != '/' && text[colon + 2] != '\\'
            }
        },
    ensures
        host_range(text).0 == host_range(text).1,
{
    schemes_are_lower_case(text, colon);
    found_place_is_first(text, 0, |c: char| c == ':', colon);
}

/// The weights of two parts of a text add up, and that of a part that is one character is the
/// weight of that character.
pub proof fn weights_add_up(text: Seq<char>, i: int, k: int, j: int)
    requires
        i <= k <= j,
    ensures
        total_weight(text, i, j) == total_weight(text, i, k) + total_weight(text, k, j),
        total_weight(text, i, i) == 0,
        total_weight(text, i, i + 1) == weight(text[i]),
    decreases j - k,
{
    assert(total_weight(text, i, i + 1) == total_weight(text, i, i) + weight(text[i]));
    if k < j {
        weights_add_up(text, i, k, j - 1);
    }
}

/// When a label can be encoded: if all its characters stand for themselves, and otherwise if it
/// is short enough for the code points that may come up in it.
pub proof fn short_labels_can_be_encoded(text: Seq<char>, i: int, j: int)
    ensures
        (forall|k: int|
            i <= k < j ==> (#[trigger] text[k] as int) < 0x80 && text[k] as int != 0x25)
            ==> label_fits(text, i, j),
        (forall|k: int| i <= k < j ==> is_low(#[trigger] text[k])) ==> highest(text, i, j)
            == 0xffff,
        !(forall|k: int| i <= k < j ==> is_low(#[trigger] text[k])) ==> highest(text, i, j)
            == 0x10ffff,
        !(forall|k: int|
            i <= k < j ==> (#[trigger] text[k] as int) < 0x80 && text[k] as int != 0x25) ==> (
        label_fits(text, i, j) <==> total_weight(text, i, j) * (highest(text, i, j) + 2) + 2
            <= 0xffff_ffff),
{
    assert forall|k: int| is_literal(#[trigger] text[k]) <==> (text[k] as int) < 0x80
        && text[k] as int != 0x25 by {}
    if forall|k: int| i <= k < j ==> is_literal(#[trigger] text[k]) {
        assert forall|k: int| i <= k < j implies (#[trigger] text[k] as int) < 0x80
            && text[k] as int != 0x25 by {
            assert(is_literal(text[k]));
        }
    }
}

/// Whether a label of the host between `start` and `end` stands from `i` to `j`: there is no dot
/// in it, and a dot or an end of the host on both sides.
pub open spec fn is_label(text: Seq<char>, start: int, end: int, i: int, j: int) -> bool {
    &&& start <= i <= j <= end
    &&& i == start || text[i - 1] == '.'
    &&& j == end || text[j] == '.'
    &&& forall|k: int| i <= k < j ==> #[trigger] text[k] != '.'
}

/// A host can be encoded exactly if every one of its labels can.
pub proof fn host_is_encoded_label_by_label(text: Seq<char>, start: int, end: int)
    requires
        0 <= start <= end <= text.len(),
    ensures
        labels_fit(text, start, end) <==> forall|i: int, j: int| #[trigger]
            is_label(text, start, end, i, j) ==> label_fits(text, i, j),
    decreases end - start,
{
    let host = text.take(end);
    let is_dot = |c: char| c == '.';
    let dot = find(host, start, is_dot);
    found_place_is_first(host, start, is_dot, dot);
    assert forall|k: int| start <= k < dot implies #[trigger] text[k] != '.' by {
        assert(!is_dot(host[k]));
    }
    if dot < end {
        assert(is_dot(host[dot]));
        assert(text[dot] == '.');
    }
    assert(is_label(text, start, end, start, dot));
    assert forall|i: int, j: int| #[trigger] is_label(text, start, end, i, j) implies (i == start
        && j == dot) || (dot < end && is_label(text, dot + 1, end, i, j)) by {
        if i == start {
            if j < dot {
                assert(text[j] != '.');
            }
            if j > dot {
                assert(text[dot] != '.');
            }
        } else if i <= dot {
            assert(text[i - 1] != '.');
        }
    }
    if dot < end {
        host_is_encoded_label_by_label(text, dot + 1, end);
        assert forall|i: int, j: int| #[trigger] is_label(text, dot + 1, end, i, j) implies
            is_label(text, start, end, i, j) by {}
        if forall|i: int, j: int| #[trigger]
            is_label(text, start, end, i, j) ==> label_fits(text, i, j) {
            assert forall|i: int, j: int| #[trigger] is_label(text, dot + 1, end, i, j) implies
                label_fits(text, i, j) by {
                assert(is_label(text, start, end, i, j));
            }
        }
    }
}

/// Which texts a URL can be read from: they are not too long, and every label of their host can
/// be encoded, unless the host stands in square brackets.
pub proof fn texts_are_readable_exactly_if(url: Seq<char>)
    ensures
        ({
            let text = cleaned(url);
            let (start, end) = host_range(text);
            readable(url) <==> {
                &&& url.len() <= 0x7fff_ffff
                &&& start < end && text[start] != '[' ==> forall|i: int, j: int| #[trigger]
                    is_label(text, start, end, i, j) ==> label_fits(text, i, j)
            }
        }),
{
    let text = cleaned(url);
    let (start, end) = host_range(text);
    if start < end {
        host_stands_in_text(text);
        host_is_encoded_label_by_label(text, start, end);
    }
}

/// The host stands in the text.
pub proof fn host_stands_in_text(text: Seq<char>)
    ensures
        0 <= host_range(text).0 <= host_range(text).1 <= text.len(),
{
    let is_colon = |c: char| c == ':';
    let colon = find(text, 0, is_colon);
    found_place_is_first(text, 0, is_colon, colon);
    if colon < text.len() {
        let no_slash = |c: char| !is_slash(c);
        let ends = |c: char| ends_authority(c);
        let start = find(text, colon + 1, no_slash);
        found_place_is_first(text, colon + 1, no_slash, start);
        let end = find(text, start, ends);
        found_place_is_first(text, start, ends, end);
        let host = after_user(text, start, end);
        user_ends_at_last_at_sign(text, start, end, host);
        let port = before_port(text, host, end, false);
        host_ends_at_first_free_colon(text, host, end, false, port);
        if colon + 3 <= text.len() {
            found_place_is_first(text, colon + 3, ends, find(text, colon + 3, ends));
        }
    }
}

} // verus!
