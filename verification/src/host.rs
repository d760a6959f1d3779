//! The host that a URL names, and whether its name can be turned into ASCII.

use vstd::prelude::*;

pub mod laws;

verus! {

/// The longest text that a URL is read from, in characters. More of them cannot be counted in
/// a signed number of 32 bits.
pub const MAX_URL: usize = 0x7fff_ffff;

/// Whether the character is left out at the start and at the end of a URL: it is a space or a
/// control character.
pub open spec fn is_padding(c: char) -> bool {
    c <= ' '
}

/// Whether the character is left out everywhere in a URL.
pub open spec fn is_ignored(c: char) -> bool {
    c == '\t' || c == '\n' || c == '\r'
}

/// Whether the character separates the scheme from the host, or directories.
pub open spec fn is_slash(c: char) -> bool {
    c == '/' || c == '\\'
}

/// Whether the character ends the authority, which holds user, host and port.
pub open spec fn ends_authority(c: char) -> bool {
    is_slash(c) || c == '?' || c == '#'
}

/// The text without padding around it.
pub open spec fn unpadded(text: Seq<char>) -> Seq<char>
    decreases text.len(),
{
    if text.len() == 0 {
        text
    } else if is_padding(text.first()) {
        unpadded(text.drop_first())
    } else if is_padding(text.last()) {
        unpadded(text.drop_last())
    } else {
        text
    }
}

/// The text without ignored characters.
pub open spec fn without_ignored(text: Seq<char>) -> Seq<char>
    decreases text.len(),
{
    if text.len() == 0 {
        text
    } else if is_ignored(text.last()) {
        without_ignored(text.drop_last())
    } else {
        without_ignored(text.drop_last()).push(text.last())
    }
}

/// What counts of a text that a URL is read from.
pub open spec fn cleaned(url: Seq<char>) -> Seq<char> {
    without_ignored(unpadded(url))
}

/// The first place from `from` on where `stop` holds, or the end of the text.
pub open spec fn find(text: Seq<char>, from: int, stop: spec_fn(char) -> bool) -> int
    decreases text.len() - from,
{
    if from < text.len() && !stop(text[from]) {
        find(text, from + 1, stop)
    } else {
        from
    }
}

/// Whether the two are the same letter, the second one in lower case.
pub open spec fn same_letter(c: char, lower: char) -> bool {
    c == lower || 'A' <= c <= 'Z' && c as u32 + 32 == lower as u32
}

/// Whether the first `n` characters are the name, in whatever case.
pub open spec fn starts_as(text: Seq<char>, n: int, name: Seq<char>) -> bool {
    n == name.len() && forall|i: int| 0 <= i < n ==> same_letter(#[trigger] text[i], name[i])
}

/// Whether a URL whose scheme takes the first `n` characters names a host that is a domain name
/// or an address, and may name a user and a port.
pub open spec fn has_server(text: Seq<char>, n: int) -> bool {
    ||| starts_as(text, n, "wss"@)
    ||| starts_as(text, n, "ws"@)
    ||| starts_as(text, n, "https"@)
    ||| starts_as(text, n, "http"@)
    ||| starts_as(text, n, "ftp"@)
    ||| starts_as(text, n, "gopher"@)
}

/// The place after the last `@` between `start` and `end`, or `start`.
pub open spec fn after_user(text: Seq<char>, start: int, end: int) -> int
    decreases end - start,
{
    if end <= start {
        start
    } else if text[end - 1] == '@' {
        end
    } else {
        after_user(text, start, end - 1)
    }
}

/// The place of the first colon between `start` and `end` that does not stand in square
/// brackets, or `end`.
pub open spec fn before_port(text: Seq<char>, start: int, end: int, bracket: bool) -> int
    decreases end - start,
{
    if start >= end {
        end
    } else if text[start] == ':' && !bracket {
        start
    } else {
        before_port(
            text,
            start + 1,
            end,
            text[start] == '[' || bracket && text[start] != ']',
        )
    }
}

/// Where the host starts and ends in what counts of a URL. Without a host both are the same.
pub open spec fn host_range(text: Seq<char>) -> (int, int) {
    let colon = find(text, 0, |c: char| c == ':');
    if colon == text.len() {
        (0, 0)
    } else if has_server(text, colon) {
        let start = find(text, colon + 1, |c: char| !is_slash(c));
        let end = find(text, start, |c: char| ends_authority(c));
        let host = after_user(text, start, end);
        (host, before_port(text, host, end, false))
    } else if starts_as(text, colon, "file"@) && colon + 2 < text.len() && is_slash(
        text[colon + 1],
    ) && is_slash(text[colon + 2]) {
        (colon + 3, find(text, colon + 3, |c: char| ends_authority(c)))
    } else {
        (0, 0)
    }
}

/// Whether the character stands for itself in a host name: it is in ASCII and starts no
/// percent-encoded byte.
pub open spec fn is_literal(c: char) -> bool {
    c <= '\x7f' && c != '%'
}

/// Whether the character becomes characters below U+10000 that are no hyphens, so that nothing
/// above comes into a label with it.
pub open spec fn is_low(c: char) -> bool {
    c <= '\u{d7ff}' && c != '%' && c != '-'
}

/// How many characters the character becomes at most before a label is encoded, by mapping and
/// canonical decomposition. For `%` it is the share of a percent-encoded byte, without its two
/// digits: three of them can encode the character that becomes the most.
pub open spec fn weight(c: char) -> nat {
    if c == '%' {
        4
    } else if c <= '\x7f' {
        1
    } else if c == '\u{fdfa}' {
        18
    } else if c == '\u{fdfb}' {
        8
    } else if '\u{3200}' <= c <= '\u{33ff}' {
        7
    } else {
        4
    }
}

/// How many characters the text from `i` to `j` becomes at most.
pub open spec fn total_weight(text: Seq<char>, i: int, j: int) -> nat
    decreases j - i,
{
    if j <= i {
        0
    } else {
        total_weight(text, i, j - 1) + weight(text[j - 1])
    }
}

/// A bound on the code points that a label which stands from `i` to `j` is encoded from.
pub open spec fn highest(text: Seq<char>, i: int, j: int) -> nat {
    if forall|k: int| i <= k < j ==> is_low(#[trigger] text[k]) {
        0xffff
    } else {
        0x10ffff
    }
}

/// Whether the label that stands from `i` to `j` can be encoded. One whose characters all stand
/// for themselves always can. For any other the encoder counts up to the highest code point once
/// for each character, and twice through all of them, in 32 bits.
pub open spec fn label_fits(text: Seq<char>, i: int, j: int) -> bool {
    ||| forall|k: int| i <= k < j ==> is_literal(#[trigger] text[k])
    ||| total_weight(text, i, j) * (highest(text, i, j) + 2) + 2 <= u32::MAX
}

/// Whether all labels between `start` and `end` can be encoded. A dot ends a label.
pub open spec fn labels_fit(text: Seq<char>, start: int, end: int) -> bool
    decreases end - start,
{
    let dot = find(text.take(end), start, |c: char| c == '.');
    &&& label_fits(text, start, dot)
    &&& start <= dot < end ==> labels_fit(text, dot + 1, end)
}

/// Whether a URL can be read from the text: it is not too long, and the name of its host can be
/// turned into ASCII without counting too far. A host in square brackets is an address.
pub open spec fn readable(url: Seq<char>) -> bool {
    let text = cleaned(url);
    let (start, end) = host_range(text);
    &&& url.len() <= MAX_URL
    &&& start < end && text[start] != '[' ==> labels_fit(text, start, end)
}

/// What counts of the text.
fn clean(url: &str) -> (text: Vec<char>)
    ensures
        text@ == cleaned(url@),
        text@.len() <= url@.len(),
{
    let mut chars: Vec<char> = Vec::new();
    for c in iter: url.chars()
        invariant
            iter.seq() == url@,
            chars@ == url@.take(iter.index() as int),
    {
        assert(url@.take(iter.index() as int).push(c) =~= url@.take(iter.index() + 1));
        chars.push(c);
    }
    assert(chars@ =~= url@);
    let len: usize = chars.len();
    let mut start: usize = 0;
    assert(chars@.subrange(0, len as int) =~= chars@);
    while start < len && chars[start] <= ' '
        invariant
            start <= len == chars@.len(),
            unpadded(chars@) == unpadded(chars@.subrange(start as int, len as int)),
        decreases len - start,
    {
        assert(chars@.subrange(start as int, len as int).drop_first() =~= chars@.subrange(
            start + 1,
            len as int,
        ));
        start = start + 1;
    }
    let mut end: usize = len;
    while start < end && chars[end - 1] <= ' '
        invariant
            start <= end <= len == chars@.len(),
            start < len ==> !is_padding(chars@[start as int]),
            unpadded(chars@) == unpadded(chars@.subrange(start as int, end as int)),
        decreases end - start,
    {
        assert(chars@.subrange(start as int, end as int).drop_last() =~= chars@.subrange(
            start as int,
            end - 1,
        ));
        end = end - 1;
    }
    let ghost middle = chars@.subrange(start as int, end as int);
    assert(unpadded(chars@) == middle);
    let mut text: Vec<char> = Vec::new();
    let mut i: usize = start;
    assert(middle.take(0) =~= Seq::<char>::empty());
    while i < end
        invariant
            start <= i <= end <= chars@.len(),
            middle == chars@.subrange(start as int, end as int),
            text@ == without_ignored(middle.take(i - start)),
            text@.len() <= i - start,
        decreases end - i,
    {
        let c = chars[i];
        proof {
            let taken = middle.take(i + 1 - start);
            assert(taken.drop_last() =~= middle.take(i - start));
            assert(taken.last() == c);
        }
        if c != '\t' && c != '\n' && c != '\r' {
            text.push(c);
        }
        i = i + 1;
    }
    assert(middle.take(end - start) =~= middle);
    text
}

/// Whether the first `n` characters are the name, in whatever case.
fn is_scheme(text: &Vec<char>, n: usize, name: &str) -> (r: bool)
    requires
        n <= text@.len(),
    ensures
        r == starts_as(text@, n as int, name@),
{
    let mut i: usize = 0;
    for lower in iter: name.chars()
        invariant
            iter.seq() == name@,
            i == iter.index(),
            i <= n <= text@.len(),
            forall|j: int| 0 <= j < i ==> same_letter(#[trigger] text@[j], name@[j]),
    {
        assert(name@[i as int] == lower);
        if i == n {
            return false;
        }
        let c = text[i];
        if c != lower && !('A' <= c && c <= 'Z' && c as u32 + 32 == lower as u32) {
            assert(!same_letter(text@[i as int], name@[i as int]));
            return false;
        }
        i = i + 1;
    }
    i == n
}

/// Where the host starts and ends.
fn find_host(text: &Vec<char>) -> (range: (usize, usize))
    ensures
        (range.0 as int, range.1 as int) == host_range(text@),
        range.0 <= range.1 <= text@.len(),
{
    let len: usize = text.len();
    let ghost is_colon = |c: char| c == ':';
    let mut colon: usize = 0;
    while colon < len && text[colon] != ':'
        invariant
            colon <= len == text@.len(),
            is_colon == (|c: char| c == ':'),
            find(text@, 0, is_colon) == find(text@, colon as int, is_colon),
        decreases len - colon,
    {
        colon = colon + 1;
    }
    assert(find(text@, 0, is_colon) == colon);
    if colon == len {
        return (0, 0);
    }
    if is_scheme(text, colon, "wss") || is_scheme(text, colon, "ws") || is_scheme(
        text,
        colon,
        "https",
    ) || is_scheme(text, colon, "http") || is_scheme(text, colon, "ftp") || is_scheme(
        text,
        colon,
        "gopher",
    ) {
        let ghost no_slash = |c: char| !is_slash(c);
        let mut start: usize = colon + 1;
        while start < len && (text[start] == '/' || text[start] == '\\')
            invariant
                colon + 1 <= start <= len == text@.len(),
                no_slash == (|c: char| !is_slash(c)),
                find(text@, colon + 1, no_slash) == find(text@, start as int, no_slash),
            decreases len - start,
        {
            start = start + 1;
        }
        assert(find(text@, colon + 1, no_slash) == start);
        let end: usize = find_end(text, start);
        let mut host: usize = end;
        while start < host && text[host - 1] != '@'
            invariant
                start <= host <= end <= text@.len(),
                after_user(text@, start as int, end as int) == after_user(
                    text@,
                    start as int,
                    host as int,
                ),
            decreases host - start,
        {
            host = host - 1;
        }
        assert(after_user(text@, start as int, end as int) == host);
        let mut port: usize = host;
        let mut bracket = false;
        while port < end && (text[port] != ':' || bracket)
            invariant
                host <= port <= end <= text@.len(),
                before_port(text@, host as int, end as int, false) == before_port(
                    text@,
                    port as int,
                    end as int,
                    bracket,
                ),
            decreases end - port,
        {
            bracket = text[port] == '[' || bracket && text[port] != ']';
            port = port + 1;
        }
        (host, port)
    } else if is_scheme(text, colon, "file") && len - colon > 2 && (text[colon + 1] == '/'
        || text[colon + 1] == '\\') && (text[colon + 2] == '/' || text[colon + 2] == '\\') {
        (colon + 3, find_end(text, colon + 3))
    } else {
        (0, 0)
    }
}

/// Where the authority ends that starts at the place.
fn find_end(text: &Vec<char>, start: usize) -> (end: usize)
    requires
        start <= text@.len(),
    ensures
        end == find(text@, start as int, |c: char| ends_authority(c)),
        start <= end <= text@.len(),
{
    let ghost ends = |c: char| ends_authority(c);
    let mut end: usize = start;
    while end < text.len() && text[end] != '/' && text[end] != '\\' && text[end] != '?' && text[end]
        != '#'
        invariant
            start <= end <= text@.len(),
            ends == (|c: char| ends_authority(c)),
            find(text@, start as int, ends) == find(text@, end as int, ends),
        decreases text@.len() - end,
    {
        end = end + 1;
    }
    end
}

/// How many characters the character becomes at most.
fn char_weight(c: char) -> (n: u64)
    ensures
        n == weight(c),
        n <= 18,
{
    if c == '%' {
        4
    } else if c <= '\x7f' {
        1
    } else if c == '\u{fdfa}' {
        18
    } else if c == '\u{fdfb}' {
        8
    } else if '\u{3200}' <= c && c <= '\u{33ff}' {
        7
    } else {
        4
    }
}

/// Whether all labels between the two places can be encoded.
fn check_labels(text: &Vec<char>, start: usize, end: usize) -> (r: bool)
    requires
        start <= end <= text@.len() <= MAX_URL,
    ensures
        r == labels_fit(text@, start as int, end as int),
{
    let ghost is_dot = |c: char| c == '.';
    let ghost host = text@.take(end as int);
    // The label that is being read starts here
    let mut label: usize = start;
    loop
        invariant
            start <= label <= end <= text@.len() <= MAX_URL,
            is_dot == (|c: char| c == '.'),
            host == text@.take(end as int),
            labels_fit(text@, start as int, end as int) == labels_fit(
                text@,
                label as int,
                end as int,
            ),
        decreases end - label,
    {
        let mut i: usize = label;
        let mut total: u64 = 0;
        let mut literal = true;
        let mut low = true;
        while i < end && text[i] != '.'
            invariant
                label <= i <= end <= text@.len() <= MAX_URL,
                is_dot == (|c: char| c == '.'),
                host == text@.take(end as int),
                find(host, label as int, is_dot) == find(host, i as int, is_dot),
                total == total_weight(text@, label as int, i as int),
                total <= 18 * (i - label),
                literal == (forall|k: int| label <= k < i ==> is_literal(#[trigger] text@[k])),
                low == (forall|k: int| label <= k < i ==> is_low(#[trigger] text@[k])),
            decreases end - i,
        {
            let c = text[i];
            assert(host[i as int] == c);
            total = total + char_weight(c);
            let ghost before = i as int;
            assert((forall|k: int| label <= k < before + 1 ==> is_literal(#[trigger] text@[k])) == (
            literal && is_literal(text@[before])));
            assert((forall|k: int| label <= k < before + 1 ==> is_low(#[trigger] text@[k])) == (low
                && is_low(text@[before])));
            literal = literal && c <= '\x7f' && c != '%';
            low = low && c <= '\u{d7ff}' && c != '%' && c != '-';
            i = i + 1;
        }
        if i < end {
            assert(host[i as int] == text@[i as int]);
        }
        assert(find(host, label as int, is_dot) == i);
        let times: u64 = if low {
            0x1_0001
        } else {
            0x11_0001
        };
        assert(total * times <= 0xf_ffff_ffff * 0x11_0001) by (nonlinear_arith)
            requires
                total <= 0xf_ffff_ffff,
                times <= 0x11_0001,
        ;
        if !literal && total * times + 2 > 0xffff_ffff {
            return false;
        }
        if i == end {
            return true;
        }
        label = i + 1;
    }
}

/// Whether a URL can be read from the text.
pub fn is_readable(url: &str) -> (r: bool)
    ensures
        r == readable(url@),
{
    if url.unicode_len() > MAX_URL {
        return false;
    }
    let text = clean(url);
    let (start, end) = find_host(&text);
    start >= end || text[start] == '[' || check_labels(&text, start, end)
}

} // verus!
