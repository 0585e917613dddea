//! HLS playlists, read as bytes: which stream of a master playlist to take,
//! and which segments a media playlist lists.
//!
//! A playlist is a text of lines. In a master playlist a line that starts
//! with `#EXT-X-STREAM-INF` describes a stream and the line after it names
//! it; the stream with the greatest `BANDWIDTH` is taken. In a media playlist
//! every line that is neither a tag nor blank names a segment. Names that do
//! not start with `http` are relative to the playlist they stand in.

use vstd::prelude::*;
use vstd::slice::*;
use vstd::string::*;
use crate::error::AppError;
use crate::text::{blank_from, is_blank};

verus! {

/// The tag of a line that describes a stream.
pub open spec fn stream_tag() -> Seq<u8> {
    "#EXT-X-STREAM-INF".spec_bytes()
}

/// The attribute that gives the bandwidth of a stream.
pub open spec fn bandwidth_key() -> Seq<u8> {
    "BANDWIDTH=".spec_bytes()
}

/// What an absolute address starts with.
pub open spec fn http_prefix() -> Seq<u8> {
    "http".spec_bytes()
}

/// Whether `word` stands in `text` at `at`.
pub open spec fn matches_at(text: Seq<u8>, at: int, word: Seq<u8>) -> bool {
    0 <= at && at + word.len() <= text.len() && text.subrange(at, at + word.len()) == word
}

/// The first place from `from` on where `word` stands without reaching
/// beyond `to`.
pub open spec fn first_match(text: Seq<u8>, word: Seq<u8>, from: int, to: int) -> Option<int>
    decreases to - from,
{
    if from < 0 || from + word.len() > to || to > text.len() {
        None
    } else if matches_at(text, from, word) {
        Some(from)
    } else if from >= to {
        None
    } else {
        first_match(text, word, from + 1, to)
    }
}

/// The first place in `from..to` that holds `byte`, or `to` if none does.
pub open spec fn first_byte(text: Seq<u8>, byte: u8, from: int, to: int) -> int
    decreases to - from,
{
    if from < 0 || from >= to || to > text.len() {
        to
    } else if text[from] == byte {
        from
    } else {
        first_byte(text, byte, from + 1, to)
    }
}

/// The place of the last `byte` before `end`, or -1 if there is none.
pub open spec fn last_byte(text: Seq<u8>, byte: u8, end: int) -> int
    decreases end,
{
    if end <= 0 || end > text.len() {
        -1
    } else if text[end - 1] == byte {
        end - 1
    } else {
        last_byte(text, byte, end - 1)
    }
}

/// Tells whether `word` stands in `text` at `at`.
pub fn has_word_at(text: &[u8], at: usize, word: &[u8]) -> (found: bool)
    ensures
        found == matches_at(text@, at as int, word@),
{
    if at > text.len() || word.len() > text.len() - at {
        return false;
    }
    let mut i: usize = 0;
    while i < word.len()
        invariant
            at + word@.len() <= text@.len() <= usize::MAX,
            i <= word@.len(),
            forall|k: int| 0 <= k < i ==> text@[at + k] == word@[k],
        decreases word@.len() - i,
    {
        if text[at + i] != word[i] {
            assert(text@.subrange(at as int, at + word@.len())[i as int] != word@[i as int]);
            return false;
        }
        i = i + 1;
    }
    assert(text@.subrange(at as int, at + word@.len()) =~= word@);
    true
}

/// Finds the first place from `from` on where `word` stands without
/// reaching beyond `to`.
pub fn find_word(text: &[u8], word: &[u8], from: usize, to: usize) -> (found: Option<usize>)
    ensures
        match found {
            Some(at) => first_match(text@, word@, from as int, to as int) == Some(at as int) && from
                <= at && at + word@.len() <= to <= text@.len(),
            None => first_match(text@, word@, from as int, to as int) is None,
        },
{
    if from > to || to > text.len() {
        return None;
    }
    if word.len() == 0 {
        assert(text@.subrange(from as int, from as int) =~= word@);
        return Some(from);
    }
    let mut at: usize = from;
    while word.len() <= to - at
        invariant
            from <= at <= to <= text@.len(),
            word@.len() > 0,
            first_match(text@, word@, from as int, to as int) == first_match(
                text@,
                word@,
                at as int,
                to as int,
            ),
        decreases to - at,
    {
        if has_word_at(text, at, word) {
            return Some(at);
        }
        at = at + 1;
    }
    None
}

/// Finds the first place in `from..to` that holds `byte`; `to` if none does.
pub fn find_byte(text: &[u8], byte: u8, from: usize, to: usize) -> (at: usize)
    ensures
        at == first_byte(text@, byte, from as int, to as int),
        from <= to <= text@.len() ==> from <= at <= to,
{
    if from >= to || to > text.len() {
        return to;
    }
    let mut at: usize = from;
    while at < to
        invariant
            from <= at <= to <= text@.len(),
            first_byte(text@, byte, from as int, to as int) == first_byte(
                text@,
                byte,
                at as int,
                to as int,
            ),
        decreases to - at,
    {
        if text[at] == byte {
            return at;
        }
        at = at + 1;
    }
    at
}

/// Finds the last place that holds `byte`.
pub fn find_last_byte(text: &[u8], byte: u8) -> (found: Option<usize>)
    ensures
        match found {
            Some(at) => at == last_byte(text@, byte, text@.len() as int) && at < text@.len(),
            None => last_byte(text@, byte, text@.len() as int) == -1,
        },
{
    let mut end: usize = text.len();
    while end > 0
        invariant
            end <= text@.len(),
            last_byte(text@, byte, text@.len() as int) == last_byte(text@, byte, end as int),
        decreases end,
    {
        if text[end - 1] == byte {
            return Some(end - 1);
        }
        end = end - 1;
    }
    None
}

/// Whether every byte is a decimal digit.
pub open spec fn all_digits(digits: Seq<u8>) -> bool {
    forall|i: int| 0 <= i < digits.len() ==> 48 <= #[trigger] digits[i] <= 57
}

/// The number that decimal digits write.
pub open spec fn digits_value(digits: Seq<u8>) -> int
    decreases digits.len(),
{
    if digits.len() == 0 {
        0
    } else {
        digits_value(digits.drop_last()) * 10 + (digits.last() - 48)
    }
}

/// The digits of a number text: the text without one plus sign in front.
pub open spec fn unsigned_part(text: Seq<u8>) -> Seq<u8> {
    if text.len() > 0 && text[0] == 43 {
        text.subrange(1, text.len() as int)
    } else {
        text
    }
}

/// The number that a text writes in decimal: at least one digit, nothing
/// but digits after an optional plus sign, and no more than 64 bits hold.
pub open spec fn decimal_value(text: Seq<u8>) -> Option<u64> {
    let digits = unsigned_part(text);
    if digits.len() > 0 && all_digits(digits) && digits_value(digits) <= u64::MAX {
        Some(digits_value(digits) as u64)
    } else {
        None
    }
}

proof fn lemma_digits_value_grows(digits: Seq<u8>, n: int)
    requires
        all_digits(digits),
        0 <= n <= digits.len(),
    ensures
        0 <= digits_value(digits.subrange(0, n)) <= digits_value(digits),
    decreases digits.len() - n,
{
    if n < digits.len() {
        lemma_digits_value_grows(digits, n + 1);
        assert(digits.subrange(0, n + 1).drop_last() =~= digits.subrange(0, n));
        lemma_digits_value_nonneg(digits.subrange(0, n));
    } else {
        assert(digits.subrange(0, n) =~= digits);
        lemma_digits_value_nonneg(digits);
    }
}

proof fn lemma_digits_value_nonneg(digits: Seq<u8>)
    requires
        all_digits(digits),
    ensures
        0 <= digits_value(digits),
    decreases digits.len(),
{
    if digits.len() > 0 {
        lemma_digits_value_nonneg(digits.drop_last());
    }
}

/// Reads a number written in decimal.
pub fn parse_decimal(text: &[u8]) -> (value: Option<u64>)
    ensures
        value == decimal_value(text@),
{
    let start: usize = if text.len() > 0 && text[0] == 43 {
        1
    } else {
        0
    };
    let ghost digits = unsigned_part(text@);
    assert(digits =~= text@.subrange(start as int, text@.len() as int));
    if start == text.len() {
        return None;
    }
    let mut value: u64 = 0;
    let mut i: usize = start;
    while i < text.len()
        invariant
            start <= i <= text@.len(),
            digits == unsigned_part(text@),
            digits == text@.subrange(start as int, text@.len() as int),
            forall|k: int| 0 <= k < i - start ==> 48 <= #[trigger] digits[k] <= 57,
            value == digits_value(digits.subrange(0, i - start)),
        decreases text@.len() - i,
    {
        let byte = text[i];
        assert(digits[i - start] == byte);
        if byte < 48 || byte > 57 {
            assert(!(48 <= digits[i - start] <= 57));
            return None;
        }
        let digit: u64 = (byte - 48) as u64;
        assert(digits.subrange(0, i - start + 1).drop_last() =~= digits.subrange(0, i - start));
        if value > (u64::MAX - digit) / 10 {
            proof {
                assert(value * 10 + digit > u64::MAX);
                assert(digits_value(digits.subrange(0, i - start + 1)) == value * 10 + digit);
                if all_digits(digits) {
                    lemma_digits_value_grows(digits, i - start + 1);
                }
            }
            return None;
        }
        value = value * 10 + digit;
        i = i + 1;
    }
    assert(digits.subrange(0, i - start) =~= digits);
    Some(value)
}

/// Where the content of a line ends that started at `start` and is closed
/// by the line feed at `feed`: a carriage return before the line feed is not
/// part of the line.
pub open spec fn content_end(text: Seq<u8>, start: int, feed: int) -> int {
    if start < feed && text[feed - 1] == 13 {
        feed - 1
    } else {
        feed
    }
}

/// The lines of `text` from `pos` on, as pairs of start and end, where the
/// line that `pos` is in started at `start`. A line ends before a line feed
/// or at the end of the text; after the last line feed no empty line follows.
pub open spec fn lines_scan(text: Seq<u8>, start: int, pos: int) -> Seq<(int, int)>
    decreases text.len() - pos,
{
    if pos < 0 || pos >= text.len() {
        if 0 <= start < text.len() {
            seq![(start, text.len() as int)]
        } else {
            Seq::empty()
        }
    } else if text[pos] == 10 {
        seq![(start, content_end(text, start, pos))] + lines_scan(text, pos + 1, pos + 1)
    } else {
        lines_scan(text, start, pos + 1)
    }
}

/// The lines of `text`, as pairs of start and end.
pub open spec fn lines_of(text: Seq<u8>) -> Seq<(int, int)> {
    lines_scan(text, 0, 0)
}

/// The `i`-th of the `lines` of `text`.
pub open spec fn line_at(text: Seq<u8>, lines: Seq<(int, int)>, i: int) -> Seq<u8> {
    text.subrange(lines[i].0, lines[i].1)
}

/// Pairs of places as mathematical integers.
pub open spec fn ranges_of(lines: Seq<(usize, usize)>) -> Seq<(int, int)> {
    Seq::new(lines.len(), |i: int| (lines[i].0 as int, lines[i].1 as int))
}

/// Splits a text into its lines.
pub fn split_lines(text: &[u8]) -> (lines: Vec<(usize, usize)>)
    ensures
        ranges_of(lines@) == lines_of(text@),
        forall|i: int| 0 <= i < lines@.len() ==> (#[trigger] lines@[i]).0 <= lines@[i].1 <= text@.len(),
{
    let mut lines: Vec<(usize, usize)> = Vec::new();
    let mut start: usize = 0;
    let mut pos: usize = 0;
    assert(ranges_of(lines@) + lines_scan(text@, 0, 0) =~= lines_of(text@));
    while pos < text.len()
        invariant
            start <= pos <= text@.len(),
            ranges_of(lines@) + lines_scan(text@, start as int, pos as int) == lines_of(text@),
            forall|i: int|
                0 <= i < lines@.len() ==> (#[trigger] lines@[i]).0 <= lines@[i].1 <= text@.len(),
        decreases text@.len() - pos,
    {
        if text[pos] == 10 {
            let end: usize = if start < pos && text[pos - 1] == 13 {
                pos - 1
            } else {
                pos
            };
            let ghost before = lines@;
            lines.push((start, end));
            proof {
                let rest = lines_scan(text@, pos + 1, pos + 1);
                assert(ranges_of(lines@) =~= ranges_of(before).push((start as int, end as int)));
                assert(ranges_of(lines@) + rest =~= ranges_of(before) + (seq![
                    (start as int, end as int),
                ] + rest));
            }
            start = pos + 1;
        }
        pos = pos + 1;
    }
    if start < text.len() {
        let ghost before = lines@;
        lines.push((start, text.len()));
        proof {
            assert(ranges_of(lines@) =~= ranges_of(before) + seq![
                (start as int, text@.len() as int),
            ]);
        }
    } else {
        assert(ranges_of(lines@) + Seq::<(int, int)>::empty() =~= ranges_of(lines@));
    }
    lines
}

proof fn lemma_words()
    ensures
        stream_tag().len() == 17,
        bandwidth_key().len() == 10,
        http_prefix().len() == 4,
{
    reveal_strlit("#EXT-X-STREAM-INF");
    reveal_strlit("BANDWIDTH=");
    reveal_strlit("http");
    is_ascii_spec_bytes("#EXT-X-STREAM-INF");
    is_ascii_spec_bytes("BANDWIDTH=");
    is_ascii_spec_bytes("http");
}

/// The bandwidth that a line gives for a stream, if it describes one: the
/// line starts with the stream tag, and what follows the first `BANDWIDTH=`,
/// up to the next comma or the next `BANDWIDTH=`, is a number.
pub open spec fn stream_bandwidth(line: Seq<u8>) -> Option<u64> {
    if !matches_at(line, 0, stream_tag()) {
        None
    } else {
        match first_match(line, bandwidth_key(), 0, line.len() as int) {
            None => None,
            Some(at) => {
                let start = at + bandwidth_key().len();
                let stop = match first_match(line, bandwidth_key(), start, line.len() as int) {
                    Some(next) => next,
                    None => line.len() as int,
                };
                decimal_value(line.subrange(start, first_byte(line, 44, start, stop)))
            },
        }
    }
}

/// Reads the bandwidth that a line gives for a stream.
pub fn bandwidth_of(line: &[u8]) -> (bandwidth: Option<u64>)
    ensures
        bandwidth == stream_bandwidth(line@),
{
    proof {
        lemma_words();
    }
    let key = "BANDWIDTH=".as_bytes();
    if !has_word_at(line, 0, "#EXT-X-STREAM-INF".as_bytes()) {
        return None;
    }
    match find_word(line, key, 0, line.len()) {
        None => None,
        Some(at) => {
            let start = at + key.len();
            let stop = match find_word(line, key, start, line.len()) {
                Some(next) => next,
                None => line.len(),
            };
            let end = find_byte(line, 44, start, stop);
            parse_decimal(slice_subrange(line, start, end))
        },
    }
}

/// The address that `name` stands for in a playlist found under `base`: the
/// name itself where it starts with `http`, else the base, a slash and the
/// name.
pub open spec fn absolute(base: Seq<u8>, name: Seq<u8>) -> Seq<u8> {
    if matches_at(name, 0, http_prefix()) {
        name
    } else {
        base + seq![47u8] + name
    }
}

/// Copies `part` to the end of `out`.
fn append(out: &mut Vec<u8>, part: &[u8])
    ensures
        final(out)@ == old(out)@ + part@,
{
    let mut i: usize = 0;
    while i < part.len()
        invariant
            i <= part@.len(),
            out@ == old(out)@ + part@.subrange(0, i as int),
        decreases part@.len() - i,
    {
        out.push(part[i]);
        assert(out@ =~= old(out)@ + part@.subrange(0, i + 1));
        i = i + 1;
    }
    assert(part@.subrange(0, i as int) =~= part@);
}

/// Resolves a name found in a playlist.
pub fn resolve(base: &[u8], name: &[u8]) -> (address: Vec<u8>)
    ensures
        address@ == absolute(base@, name@),
{
    let mut address: Vec<u8> = Vec::new();
    if !has_word_at(name, 0, "http".as_bytes()) {
        append(&mut address, base);
        address.push(47);
    }
    append(&mut address, name);
    assert(address@ =~= absolute(base@, name@));
    address
}

/// What stands before the last slash of an address; `None` where it has no
/// slash.
pub open spec fn parent_of(address: Seq<u8>) -> Option<Seq<u8>> {
    if last_byte(address, 47, address.len() as int) < 0 {
        None
    } else {
        Some(address.subrange(0, last_byte(address, 47, address.len() as int)))
    }
}

/// The base of the names in a playlist found at `address`: what stands
/// before its last slash, or `fallback` where it has none.
pub open spec fn base_text(address: Seq<u8>, fallback: Seq<u8>) -> Seq<u8> {
    match parent_of(address) {
        Some(parent) => parent,
        None => fallback,
    }
}

/// Finds the base of the names in a playlist.
pub fn base_of<'a>(address: &'a [u8], fallback: &'a [u8]) -> (base: &'a [u8])
    ensures
        base@ == base_text(address@, fallback@),
{
    match find_last_byte(address, 47) {
        Some(at) => slice_subrange(address, 0, at),
        None => fallback,
    }
}

/// The stream taken from the first `n` lines of a master playlist, as its
/// bandwidth and its address: each line that gives a bandwidth greater than
/// any before it makes the line after it the stream taken. A bandwidth of
/// nothing, or a stream line that is the last line, takes no stream.
pub open spec fn best_stream(text: Seq<u8>, base: Seq<u8>, lines: Seq<(int, int)>, n: int) -> (
    u64,
    Seq<u8>,
)
    decreases n,
{
    if n <= 0 {
        (0u64, Seq::empty())
    } else {
        let earlier = best_stream(text, base, lines, n - 1);
        match stream_bandwidth(line_at(text, lines, n - 1)) {
            Some(bandwidth) => if bandwidth > earlier.0 {
                (
                    bandwidth,
                    if n < lines.len() {
                        absolute(base, line_at(text, lines, n))
                    } else {
                        earlier.1
                    },
                )
            } else {
                earlier
            },
            None => earlier,
        }
    }
}

/// The address of the stream to fetch for the playlist found at `address`:
/// the playlist itself where it names no stream at all, else the stream of
/// the greatest bandwidth; `None` where streams are named but none can be
/// taken.
pub open spec fn chosen_stream(address: Seq<u8>, playlist: Seq<u8>) -> Option<Seq<u8>> {
    if first_match(playlist, stream_tag(), 0, playlist.len() as int) is None {
        Some(address)
    } else {
        let best = best_stream(
            playlist,
            base_text(address, Seq::empty()),
            lines_of(playlist),
            lines_of(playlist).len() as int,
        ).1;
        if best.len() == 0 {
            None
        } else {
            Some(best)
        }
    }
}

/// The text of the error for a master playlist without a stream to take.
pub open spec fn no_stream_text() -> Seq<char> {
    "No valid stream found in playlist"@
}

/// The text of the error for a media playlist without segments.
pub open spec fn no_segments_text() -> Seq<char> {
    "No segments found in playlist"@
}

/// Chooses the stream to fetch for the playlist found at `address`.
pub fn stream_url(address: &[u8], playlist: &[u8]) -> (chosen: Result<Vec<u8>, AppError>)
    ensures
        match chosen_stream(address@, playlist@) {
            Some(stream) => chosen matches Ok(found) && found@ == stream,
            None => chosen matches Err(AppError::InternalError(text)) && text@ == no_stream_text(),
        },
{
    proof {
        lemma_words();
    }
    if find_word(playlist, "#EXT-X-STREAM-INF".as_bytes(), 0, playlist.len()).is_none() {
        return Ok(slice_to_vec(address));
    }
    let base = base_of(address, slice_subrange(address, 0, 0));
    assert(base@ == base_text(address@, Seq::empty())) by {
        assert(address@.subrange(0, 0) =~= Seq::<u8>::empty());
    }
    let lines = split_lines(playlist);
    let mut best_bandwidth: u64 = 0;
    let mut best: Vec<u8> = Vec::new();
    let mut i: usize = 0;
    while i < lines.len()
        invariant
            i <= lines@.len(),
            ranges_of(lines@) == lines_of(playlist@),
            forall|k: int|
                0 <= k < lines@.len() ==> (#[trigger] lines@[k]).0 <= lines@[k].1 <= playlist@.len(),
            (best_bandwidth, best@) == best_stream(playlist@, base@, lines_of(playlist@), i as int),
        decreases lines@.len() - i,
    {
        let (start, end) = lines[i];
        assert(ranges_of(lines@)[i as int] == (start as int, end as int));
        let line = slice_subrange(playlist, start, end);
        assert(line@ == line_at(playlist@, lines_of(playlist@), i as int));
        match bandwidth_of(line) {
            Some(bandwidth) => {
                if bandwidth > best_bandwidth {
                    best_bandwidth = bandwidth;
                    if i + 1 < lines.len() {
                        let (next_start, next_end) = lines[i + 1];
                        assert(ranges_of(lines@)[i + 1] == (next_start as int, next_end as int));
                        best = resolve(base, slice_subrange(playlist, next_start, next_end));
                    }
                }
            },
            None => {},
        }
        i = i + 1;
    }
    if best.len() == 0 {
        Err(AppError::InternalError(String::from_str("No valid stream found in playlist")))
    } else {
        Ok(best)
    }
}

/// Whether a line of a media playlist names a segment: it is no tag, which
/// would start with `#`, and not blank.
pub open spec fn names_segment(line: Seq<u8>) -> bool {
    !(line.len() > 0 && line[0] == 35) && !blank_from(line, 0)
}

/// The addresses of the segments that the first `n` lines name, in order.
pub open spec fn segments_upto(
    text: Seq<u8>,
    base: Seq<u8>,
    lines: Seq<(int, int)>,
    n: int,
) -> Seq<Seq<u8>>
    decreases n,
{
    if n <= 0 {
        Seq::empty()
    } else if names_segment(line_at(text, lines, n - 1)) {
        segments_upto(text, base, lines, n - 1).push(absolute(base, line_at(text, lines, n - 1)))
    } else {
        segments_upto(text, base, lines, n - 1)
    }
}

/// The addresses of the segments that a media playlist lists. The playlist
/// was found at `stream`, which was itself named by the playlist at
/// `origin`; names are relative to what stands before the last slash of
/// `stream`, or of `origin` where `stream` has none.
pub open spec fn listed_segments(stream: Seq<u8>, origin: Seq<u8>, playlist: Seq<u8>) -> Seq<
    Seq<u8>,
> {
    segments_upto(
        playlist,
        base_text(stream, base_text(origin, Seq::empty())),
        lines_of(playlist),
        lines_of(playlist).len() as int,
    )
}

/// Lists the segments of a media playlist. A playlist without segments is
/// an error.
pub fn segment_urls(stream: &[u8], origin: &[u8], playlist: &[u8]) -> (listed: Result<
    Vec<Vec<u8>>,
    AppError,
>)
    ensures
        listed_segments(stream@, origin@, playlist@).len() > 0 ==> {
            &&& listed matches Ok(segments)
            &&& segments@.len() == listed_segments(stream@, origin@, playlist@).len()
            &&& forall|i: int|
                0 <= i < segments@.len() ==> (#[trigger] segments@[i])@ == listed_segments(
                    stream@,
                    origin@,
                    playlist@,
                )[i]
        },
        listed_segments(stream@, origin@, playlist@).len() == 0 ==> {
            &&& listed matches Err(AppError::InternalError(text))
            &&& text@ == no_segments_text()
        },
{
    let fallback = base_of(origin, slice_subrange(origin, 0, 0));
    assert(fallback@ == base_text(origin@, Seq::empty())) by {
        assert(origin@.subrange(0, 0) =~= Seq::<u8>::empty());
    }
    let base = base_of(stream, fallback);
    let lines = split_lines(playlist);
    let mut segments: Vec<Vec<u8>> = Vec::new();
    let mut i: usize = 0;
    while i < lines.len()
        invariant
            i <= lines@.len(),
            ranges_of(lines@) == lines_of(playlist@),
            forall|k: int|
                0 <= k < lines@.len() ==> (#[trigger] lines@[k]).0 <= lines@[k].1 <= playlist@.len(),
            segments@.len() == segments_upto(playlist@, base@, lines_of(playlist@), i as int).len(),
            forall|k: int|
                0 <= k < segments@.len() ==> (#[trigger] segments@[k])@ == segments_upto(
                    playlist@,
                    base@,
                    lines_of(playlist@),
                    i as int,
                )[k],
        decreases lines@.len() - i,
    {
        let (start, end) = lines[i];
        assert(ranges_of(lines@)[i as int] == (start as int, end as int));
        let line = slice_subrange(playlist, start, end);
        assert(line@ == line_at(playlist@, lines_of(playlist@), i as int));
        let tag = line.len() > 0 && line[0] == 35;
        if !tag && !is_blank(line) {
            segments.push(resolve(base, line));
        }
        i = i + 1;
    }
    if segments.len() == 0 {
        Err(AppError::InternalError(String::from_str("No segments found in playlist")))
    } else {
        Ok(segments)
    }
}

} // verus!
