//! Portable output file names for batch results, slice tiles and AI results.
//!
//! A name is built only from a sanitized source stem, a stable sequence number and the
//! format's extension; no directory text ever enters it.

use vstd::prelude::*;

use crate::format::{spec_extension, OutputFormat};
use crate::slice::{spec_tile_suffix, Tile};
use crate::text::{
    char_is_ascii_alphanumeric, char_to_ascii_lowercase, chars_of, decimal, decimal_padded2,
    is_ascii_alphanumeric, is_digit_char, lemma_decimal, lemma_decimal_injective, push_chars,
    push_decimal, push_decimal_padded2, push_str, seq_ascii_lower, string_from_chars,
};

verus! {

/// Control characters (Unicode general category Cc: U+0000–U+001F and U+007F–U+009F).
pub open spec fn is_control_char(c: char) -> bool {
    (c as u32) <= 0x1f || (0x7f <= (c as u32) && (c as u32) <= 0x9f)
}

/// Characters that Windows, macOS or Linux refuse or treat specially in file names.
pub open spec fn is_reserved_char(c: char) -> bool {
    c == '<' || c == '>' || c == ':' || c == '"' || c == '/' || c == '\\' || c == '|' || c
        == '?' || c == '*'
}

/// A character as it appears in a sanitized stem.
pub open spec fn sanitize_char(c: char) -> char {
    if is_control_char(c) || is_reserved_char(c) {
        '_'
    } else {
        c
    }
}

/// Characters trimmed from both ends of a stem.
pub open spec fn is_trim_char(c: char) -> bool {
    c == ' ' || c == '.'
}

/// `s` without its leading spaces and dots.
pub open spec fn trim_start(s: Seq<char>) -> Seq<char>
    decreases s.len(),
{
    if s.len() > 0 && is_trim_char(s[0]) {
        trim_start(s.drop_first())
    } else {
        s
    }
}

/// `s` without its trailing spaces and dots.
pub open spec fn trim_end(s: Seq<char>) -> Seq<char>
    decreases s.len(),
{
    if s.len() > 0 && is_trim_char(s.last()) {
        trim_end(s.drop_last())
    } else {
        s
    }
}

/// The fallback stem.
pub open spec fn default_stem() -> Seq<char> {
    seq!['i', 'm', 'a', 'g', 'e']
}

/// The sanitized form of a stem: unsafe characters become `_`, spaces and dots are trimmed
/// from both ends, and an empty result becomes `image`.
pub open spec fn spec_sanitize_stem(stem: Seq<char>) -> Seq<char> {
    let trimmed = trim_end(trim_start(stem.map_values(|c: char| sanitize_char(c))));
    if trimmed.len() == 0 {
        default_stem()
    } else {
        trimmed
    }
}

/// The infix between a stem and the sequence number of a batch output.
pub open spec fn batch_infix() -> Seq<char> {
    seq!['-', 'i', 'm', 'p', 'r', 'e', 's', 's', 'y', '-']
}

/// `{stem}-impressy-{index + 1}.{extension}`.
pub open spec fn spec_batch_filename(stem: Seq<char>, index: nat, format: OutputFormat) -> Seq<
    char,
> {
    spec_sanitize_stem(stem) + batch_infix() + decimal(index + 1) + seq!['.'] + spec_extension(
        format,
    )
}

/// `tile{suffix}.png`.
pub open spec fn spec_tile_filename(index: nat, row: nat, column: nat) -> Seq<char> {
    seq!['t', 'i', 'l', 'e'] + spec_tile_suffix(index, row, column) + seq!['.', 'p', 'n', 'g']
}

/// `s` without its leading dots.
pub open spec fn trim_leading_dots(s: Seq<char>) -> Seq<char>
    decreases s.len(),
{
    if s.len() > 0 && s[0] == '.' {
        trim_leading_dots(s.drop_first())
    } else {
        s
    }
}

/// The ASCII letters and digits of `s`, in order.
pub open spec fn keep_alphanumeric(s: Seq<char>) -> Seq<char>
    decreases s.len(),
{
    if s.len() == 0 {
        s
    } else if is_ascii_alphanumeric(s.last()) {
        keep_alphanumeric(s.drop_last()).push(s.last())
    } else {
        keep_alphanumeric(s.drop_last())
    }
}

/// The extension of an AI output: leading dots removed, only ASCII letters and digits kept,
/// lower-cased; `png` when nothing is left.
pub open spec fn spec_ai_extension(extension: Seq<char>) -> Seq<char> {
    let kept = seq_ascii_lower(keep_alphanumeric(trim_leading_dots(extension)));
    if kept.len() == 0 {
        seq!['p', 'n', 'g']
    } else {
        kept
    }
}

/// The prefix of AI output names.
pub open spec fn ai_prefix() -> Seq<char> {
    seq!['i', 'm', 'p', 'r', 'e', 's', 's', 'y', '-', 'a', 'i', '-']
}

/// `impressy-ai-{created_at_unix_ms}-{index:02}.{extension}`.
pub open spec fn spec_ai_filename(created_at_unix_ms: nat, index: nat, extension: Seq<char>) -> Seq<
    char,
> {
    ai_prefix() + decimal(created_at_unix_ms) + seq!['-'] + decimal_padded2(index) + seq!['.']
        + spec_ai_extension(extension)
}

proof fn lemma_trim_start_skip(s: Seq<char>, k: int)
    requires
        0 <= k <= s.len(),
        forall|i: int| 0 <= i < k ==> is_trim_char(#[trigger] s[i]),
        k == s.len() || !is_trim_char(s[k]),
    ensures
        trim_start(s) == s.skip(k),
    decreases k,
{
    if k == 0 {
        assert(s.skip(0) =~= s);
    } else {
        assert forall|i: int| 0 <= i < k - 1 implies is_trim_char(#[trigger] s.drop_first()[i]) by {
            assert(s.drop_first()[i] == s[i + 1]);
        }
        lemma_trim_start_skip(s.drop_first(), k - 1);
        assert(s.drop_first().skip(k - 1) =~= s.skip(k));
    }
}

proof fn lemma_trim_end_take(s: Seq<char>, m: int)
    requires
        0 <= m <= s.len(),
        forall|i: int| m <= i < s.len() ==> is_trim_char(#[trigger] s[i]),
        m == 0 || !is_trim_char(s[m - 1]),
    ensures
        trim_end(s) == s.take(m),
    decreases s.len() - m,
{
    if m == s.len() {
        assert(s.take(m) =~= s);
    } else {
        assert forall|i: int| m <= i < s.drop_last().len() implies is_trim_char(
            #[trigger] s.drop_last()[i],
        ) by {
            assert(s.drop_last()[i] == s[i]);
        }
        lemma_trim_end_take(s.drop_last(), m);
        assert(s.drop_last().take(m) =~= s.take(m));
    }
}

/// Replaces unsafe characters with `_`, trims spaces and dots from both ends, and falls back
/// to `image` when nothing is left.
pub fn sanitize_stem(stem: &str) -> (sanitized: String)
    ensures
        sanitized@ == spec_sanitize_stem(stem@),
{
    let chars = chars_of(stem);
    let mut mapped: Vec<char> = Vec::new();
    let mut i: usize = 0;
    while i < chars.len()
        invariant
            i <= chars.len(),
            chars@ == stem@,
            mapped@ == chars@.take(i as int).map_values(|c: char| sanitize_char(c)),
        decreases chars.len() - i,
    {
        let c = chars[i];
        let code = c as u32;
        let replaced = code <= 0x1f || (0x7f <= code && code <= 0x9f) || c == '<' || c == '>' || c
            == ':' || c == '"' || c == '/' || c == '\\' || c == '|' || c == '?' || c == '*';
        if replaced {
            mapped.push('_');
        } else {
            mapped.push(c);
        }
        i = i + 1;
        assert(mapped@ =~= chars@.take(i as int).map_values(|c: char| sanitize_char(c)));
    }
    let ghost all = chars@.map_values(|c: char| sanitize_char(c));
    assert(mapped@ =~= all) by {
        assert(chars@.take(i as int) =~= chars@);
    }
    let n = mapped.len();
    let mut start: usize = 0;
    while start < n && (mapped[start] == ' ' || mapped[start] == '.')
        invariant
            start <= n,
            n == mapped.len(),
            forall|j: int| 0 <= j < start ==> is_trim_char(#[trigger] mapped@[j]),
        decreases n - start,
    {
        start = start + 1;
    }
    proof {
        lemma_trim_start_skip(mapped@, start as int);
    }
    let ghost front = mapped@.skip(start as int);
    let mut end: usize = n;
    while end > start && (mapped[end - 1] == ' ' || mapped[end - 1] == '.')
        invariant
            start <= end <= n,
            n == mapped.len(),
            forall|j: int| end <= j < n ==> is_trim_char(#[trigger] mapped@[j]),
        decreases end - start,
    {
        end = end - 1;
    }
    proof {
        assert forall|j: int| (end - start) <= j < front.len() implies is_trim_char(
            #[trigger] front[j],
        ) by {
            assert(front[j] == mapped@[start + j]);
        }
        if end > start {
            assert(front[end - start - 1] == mapped@[end - 1]);
        }
        lemma_trim_end_take(front, end - start);
    }
    if end == start {
        proof {
            reveal_strlit("image");
        }
        let s = String::from_str("image");
        assert(s@ =~= default_stem());
        return s;
    }
    let mut kept: Vec<char> = Vec::new();
    let mut k: usize = start;
    while k < end
        invariant
            start <= k <= end,
            end <= mapped.len(),
            kept@ == mapped@.subrange(start as int, k as int),
        decreases end - k,
    {
        kept.push(mapped[k]);
        k = k + 1;
        assert(kept@ =~= mapped@.subrange(start as int, k as int));
    }
    assert(kept@ =~= front.take(end - start));
    string_from_chars(&kept)
}

/// The name of the `index`-th (0-based) batch output: `{stem}-impressy-{index + 1}.{ext}`.
pub fn batch_filename(source_stem: &str, index: usize, format: OutputFormat) -> (name: String)
    requires
        index < usize::MAX,
    ensures
        name@ == spec_batch_filename(source_stem@, index as nat, format),
{
    let mut name = sanitize_stem(source_stem);
    proof {
        reveal_strlit("-impressy-");
        reveal_strlit(".");
    }
    push_str(&mut name, "-impressy-");
    push_decimal(&mut name, (index + 1) as u64);
    push_str(&mut name, ".");
    push_str(&mut name, format.extension());
    assert(name@ =~= spec_batch_filename(source_stem@, index as nat, format));
    name
}

/// The file name of a slice tile: `tile_{index + 1}_r{row}c{column}.png`.
pub fn tile_filename(tile: &Tile) -> (name: String)
    requires
        tile.index < u32::MAX,
    ensures
        name@ == spec_tile_filename(tile.index as nat, tile.row as nat, tile.column as nat),
{
    proof {
        reveal_strlit("tile");
        reveal_strlit(".png");
    }
    let mut name = String::from_str("tile");
    let suffix = tile.filename_suffix();
    push_str(&mut name, suffix.as_str());
    push_str(&mut name, ".png");
    assert(name@ =~= spec_tile_filename(tile.index as nat, tile.row as nat, tile.column as nat));
    name
}

/// The name of the `index`-th AI result created at `created_at_unix_ms`:
/// `impressy-ai-{ms}-{index:02}.{ext}` with the extension cleaned up.
pub fn ai_filename(created_at_unix_ms: u64, index: usize, extension: &str) -> (name: String)
    ensures
        name@ == spec_ai_filename(created_at_unix_ms as nat, index as nat, extension@),
{
    let chars = chars_of(extension);
    let mut start: usize = 0;
    assert(chars@.skip(0) =~= chars@);
    while start < chars.len() && chars[start] == '.'
        invariant
            start <= chars.len(),
            trim_leading_dots(chars@) == trim_leading_dots(chars@.skip(start as int)),
        decreases chars.len() - start,
    {
        proof {
            let rest = chars@.skip(start as int);
            assert(rest.drop_first() =~= chars@.skip(start + 1));
        }
        start = start + 1;
    }
    let ghost trimmed = chars@.skip(start as int);
    assert(trim_leading_dots(chars@) == trimmed) by {
        assert(trim_leading_dots(chars@) == trim_leading_dots(trimmed));
    }
    let mut kept: Vec<char> = Vec::new();
    let mut k: usize = start;
    while k < chars.len()
        invariant
            start <= k <= chars.len(),
            trimmed == chars@.skip(start as int),
            kept@ == seq_ascii_lower(keep_alphanumeric(trimmed.take(k - start))),
        decreases chars.len() - k,
    {
        let c = chars[k];
        let ghost prefix = trimmed.take(k - start);
        assert(trimmed.take(k + 1 - start).drop_last() =~= prefix);
        assert(trimmed.take(k + 1 - start).last() == c);
        if char_is_ascii_alphanumeric(c) {
            kept.push(char_to_ascii_lowercase(c));
            assert(kept@ =~= seq_ascii_lower(keep_alphanumeric(prefix).push(c)));
        }
        k = k + 1;
    }
    assert(trimmed.take(chars.len() - start) =~= trimmed);
    let mut name = String::from_str("impressy-ai-");
    proof {
        reveal_strlit("impressy-ai-");
        reveal_strlit("-");
        reveal_strlit(".");
        reveal_strlit("png");
    }
    push_decimal(&mut name, created_at_unix_ms);
    push_str(&mut name, "-");
    push_decimal_padded2(&mut name, index as u64);
    push_str(&mut name, ".");
    if kept.len() == 0 {
        push_str(&mut name, "png");
    } else {
        push_chars(&mut name, &kept);
    }
    assert(name@ =~= spec_ai_filename(created_at_unix_ms as nat, index as nat, extension@));
    name
}

proof fn lemma_sanitized_chars(stem: Seq<char>)
    ensures
        spec_sanitize_stem(stem).len() > 0,
        forall|i: int|
            0 <= i < spec_sanitize_stem(stem).len() ==> !is_reserved_char(
                #[trigger] spec_sanitize_stem(stem)[i],
            ) && !is_control_char(spec_sanitize_stem(stem)[i]),
{
    let mapped = stem.map_values(|c: char| sanitize_char(c));
    let k = lemma_trim_start_is_suffix(mapped);
    let front = trim_start(mapped);
    let m = lemma_trim_end_is_prefix(front);
    let t = trim_end(front);
    assert forall|i: int| 0 <= i < t.len() implies !is_reserved_char(#[trigger] t[i])
        && !is_control_char(t[i]) by {
        assert(t[i] == front[i]);
        assert(front[i] == mapped[i + k]);
        assert(mapped[i + k] == sanitize_char(stem[i + k]));
    }
    if t.len() == 0 {
        assert(spec_sanitize_stem(stem) == default_stem());
    }
}

proof fn lemma_trim_start_is_suffix(s: Seq<char>) -> (k: int)
    ensures
        0 <= k <= s.len(),
        trim_start(s) == s.skip(k),
    decreases s.len(),
{
    if s.len() > 0 && is_trim_char(s[0]) {
        let k1 = lemma_trim_start_is_suffix(s.drop_first());
        assert(s.drop_first().skip(k1) =~= s.skip(k1 + 1));
        k1 + 1
    } else {
        assert(s.skip(0) =~= s);
        0
    }
}

proof fn lemma_trim_end_is_prefix(s: Seq<char>) -> (m: int)
    ensures
        0 <= m <= s.len(),
        trim_end(s) == s.take(m),
    decreases s.len(),
{
    if s.len() > 0 && is_trim_char(s.last()) {
        let m1 = lemma_trim_end_is_prefix(s.drop_last());
        assert(s.drop_last().take(m1) =~= s.take(m1));
        m1
    } else {
        assert(s.take(s.len() as int) =~= s);
        s.len() as int
    }
}

/// A sanitized stem is never empty and holds no path separator, reserved or control
/// character, so a name built from it stays inside the chosen directory.
pub proof fn law_sanitized_stem_is_portable(stem: Seq<char>)
    ensures
        spec_sanitize_stem(stem).len() > 0,
        !spec_sanitize_stem(stem).contains('/'),
        !spec_sanitize_stem(stem).contains('\\'),
        forall|i: int|
            0 <= i < spec_sanitize_stem(stem).len() ==> !is_reserved_char(
                #[trigger] spec_sanitize_stem(stem)[i],
            ) && !is_control_char(spec_sanitize_stem(stem)[i]),
{
    lemma_sanitized_chars(stem);
}

/// A non-empty result of trimming the front starts with neither a space nor a dot.
proof fn lemma_trim_start_first(s: Seq<char>)
    ensures
        trim_start(s).len() > 0 ==> !is_trim_char(trim_start(s)[0]),
    decreases s.len(),
{
    if s.len() > 0 && is_trim_char(s[0]) {
        lemma_trim_start_first(s.drop_first());
    }
}

/// A non-empty result of trimming the end ends with neither a space nor a dot.
proof fn lemma_trim_end_last(s: Seq<char>)
    ensures
        trim_end(s).len() > 0 ==> !is_trim_char(trim_end(s).last()),
    decreases s.len(),
{
    if s.len() > 0 && is_trim_char(s.last()) {
        lemma_trim_end_last(s.drop_last());
    }
}

/// A sanitized stem neither starts nor ends with a space or a dot, and sanitizing it again
/// changes nothing.
pub proof fn law_sanitize_stem_idempotent(stem: Seq<char>)
    ensures
        !is_trim_char(spec_sanitize_stem(stem)[0]),
        !is_trim_char(spec_sanitize_stem(stem).last()),
        spec_sanitize_stem(spec_sanitize_stem(stem)) == spec_sanitize_stem(stem),
{
    let r = spec_sanitize_stem(stem);
    lemma_sanitized_chars(stem);
    let mapped = stem.map_values(|c: char| sanitize_char(c));
    let front = trim_start(mapped);
    lemma_trim_start_first(mapped);
    let m = lemma_trim_end_is_prefix(front);
    lemma_trim_end_last(front);
    let t = trim_end(front);
    if t.len() > 0 {
        assert(t[0] == front[0]);
    }
    assert(r.map_values(|c: char| sanitize_char(c)) =~= r);
    assert(trim_start(r) == r);
    assert(trim_end(r) == r);
}

proof fn lemma_digit_suffix_unique(a1: Seq<char>, d1: Seq<char>, a2: Seq<char>, d2: Seq<char>)
    requires
        a1.len() > 0,
        a2.len() > 0,
        !is_digit_char(a1.last()),
        !is_digit_char(a2.last()),
        forall|i: int| 0 <= i < d1.len() ==> is_digit_char(#[trigger] d1[i]),
        forall|i: int| 0 <= i < d2.len() ==> is_digit_char(#[trigger] d2[i]),
        a1 + d1 == a2 + d2,
    ensures
        d1 == d2,
{
    let x = a1 + d1;
    if d1.len() < d2.len() {
        let p = x.len() - d1.len() - 1;
        assert(x[p] == a1.last());
        assert(x[p] == (a2 + d2)[p]);
        assert((a2 + d2)[p] == d2[p - a2.len()]);
    } else if d2.len() < d1.len() {
        let p = x.len() - d2.len() - 1;
        assert((a2 + d2)[p] == a2.last());
        assert(x[p] == d1[p - a1.len()]);
    } else {
        assert(d1 =~= x.skip(a1.len() as int));
        assert(d2 =~= (a2 + d2).skip(a2.len() as int));
    }
}

/// Batch output names are unique within a task: different positions always give different
/// names, whatever the source stems.
pub proof fn law_batch_filenames_unique(
    stem1: Seq<char>,
    index1: nat,
    stem2: Seq<char>,
    index2: nat,
    format: OutputFormat,
)
    requires
        index1 != index2,
    ensures
        spec_batch_filename(stem1, index1, format) != spec_batch_filename(stem2, index2, format),
{
    if spec_batch_filename(stem1, index1, format) == spec_batch_filename(stem2, index2, format) {
        let tail = seq!['.'] + spec_extension(format);
        let a1 = spec_sanitize_stem(stem1) + batch_infix();
        let a2 = spec_sanitize_stem(stem2) + batch_infix();
        let d1 = decimal(index1 + 1);
        let d2 = decimal(index2 + 1);
        assert(spec_batch_filename(stem1, index1, format) =~= (a1 + d1) + tail);
        assert(spec_batch_filename(stem2, index2, format) =~= (a2 + d2) + tail);
        assert((a1 + d1) =~= ((a1 + d1) + tail).take((a1 + d1).len() as int));
        assert((a2 + d2) =~= ((a2 + d2) + tail).take((a2 + d2).len() as int));
        assert((a1 + d1).len() == (a2 + d2).len());
        assert(a1 + d1 == a2 + d2);
        lemma_decimal(index1 + 1);
        lemma_decimal(index2 + 1);
        assert(a1.last() == '-');
        assert(a2.last() == '-');
        lemma_digit_suffix_unique(a1, d1, a2, d2);
        lemma_decimal_injective(index1 + 1, index2 + 1);
    }
}

/// Batch output names never contain a path separator, end with the format's extension and
/// carry the 1-based sequence number.
pub proof fn law_batch_filename_shape(stem: Seq<char>, index: nat, format: OutputFormat)
    ensures
        !spec_batch_filename(stem, index, format).contains('/'),
        !spec_batch_filename(stem, index, format).contains('\\'),
        spec_batch_filename(stem, index, format).len() >= spec_extension(format).len(),
        spec_batch_filename(stem, index, format).skip(
            spec_batch_filename(stem, index, format).len() - spec_extension(format).len(),
        ) == spec_extension(format),
{
    let name = spec_batch_filename(stem, index, format);
    lemma_sanitized_chars(stem);
    lemma_decimal(index + 1);
    let s = spec_sanitize_stem(stem);
    let rest = batch_infix() + decimal(index + 1) + seq!['.'] + spec_extension(format);
    assert(name =~= s + rest);
    assert forall|i: int| 0 <= i < name.len() implies name[i] != '/' && name[i] != '\\' by {
        if i < s.len() {
            assert(name[i] == s[i]);
        } else {
            let j = i - s.len();
            assert(name[i] == rest[j]);
            let d = decimal(index + 1);
            if j >= 10 && j < 10 + d.len() {
                assert(rest[j] == d[j - 10]);
            }
        }
    }
    assert(name.skip(name.len() - spec_extension(format).len()) =~= spec_extension(format));
}

} // verus!
