use vstd::prelude::*;

use crate::strings::{chars_of, is_white, decimal, digit, digit_char, push_char, to_decimal, trim, trim_of};

verus! {

/// What `char::to_uppercase` makes of a character.
pub uninterp spec fn upper_char_of(c: char) -> Seq<char>;

/// The words found so far in `s`, and the word being read at its end.
pub open spec fn words_state(s: Seq<char>) -> (Seq<Seq<char>>, Seq<char>)
    decreases s.len(),
{
    if s.len() == 0 {
        (Seq::empty(), Seq::empty())
    } else {
        let (ws, cur) = words_state(s.drop_last());
        if is_white(s.last()) {
            if cur.len() > 0 { (ws.push(cur), Seq::empty()) } else { (ws, Seq::empty()) }
        } else {
            (ws, cur.push(s.last()))
        }
    }
}

/// The words that `str::split_whitespace` finds in a string: the non-empty
/// runs of characters that are not white space, in order.
pub open spec fn words_of(s: Seq<char>) -> Seq<Seq<char>> {
    let (ws, cur) = words_state(s);
    if cur.len() > 0 { ws.push(cur) } else { ws }
}

/// Whether `c` separates pieces: a sentence mark for sentences, a line
/// feed for lines.
pub open spec fn separates(c: char, sentences: bool) -> bool {
    if sentences {
        c == '.' || c == '!' || c == '?'
    } else {
        c == '\n'
    }
}

/// The pieces between separators, as `str::split` cuts them: one more than
/// there are separators, empty ones included.
pub open spec fn split_pieces(s: Seq<char>, sentences: bool) -> Seq<Seq<char>>
    decreases s.len(),
{
    if s.len() == 0 {
        seq![Seq::empty()]
    } else {
        let p = split_pieces(s.drop_last(), sentences);
        if separates(s.last(), sentences) {
            p.push(Seq::empty())
        } else {
            p.update(p.len() - 1, p.last().push(s.last()))
        }
    }
}

proof fn lemma_split_pieces_len(s: Seq<char>, sentences: bool)
    ensures
        split_pieces(s, sentences).len() >= 1,
    decreases s.len(),
{
    if s.len() > 0 {
        lemma_split_pieces_len(s.drop_last(), sentences);
    }
}

/// The pieces that `str::split` on '.', '!' and '?' cuts a string into.
pub open spec fn sentence_pieces_of(s: Seq<char>) -> Seq<Seq<char>> {
    split_pieces(s, true)
}

pub open spec fn strings_view(v: Seq<String>) -> Seq<Seq<char>> {
    v.map_values(|x: String| x@)
}

/// Cuts a string into the pieces between its separators.
fn split_chars(s: &str, sentences: bool) -> (r: Vec<String>)
    ensures
        strings_view(r@) == split_pieces(s@, sentences),
{
    let cs = chars_of(s);
    let mut out: Vec<String> = Vec::new();
    let mut cur = String::new();
    let mut i: usize = 0;
    while i < cs.len()
        invariant
            0 <= i <= cs@.len(),
            cs@ == s@,
            strings_view(out@).push(cur@) == split_pieces(cs@.subrange(0, i as int), sentences),
        decreases cs@.len() - i,
    {
        let ghost pre = cs@.subrange(0, i as int);
        let ghost next = cs@.subrange(0, i + 1);
        assert(next.drop_last() =~= pre);
        assert(next.last() == cs@[i as int]);
        proof {
            lemma_split_pieces_len(pre, sentences);
        }
        let c = cs[i];
        let sep = if sentences { c == '.' || c == '!' || c == '?' } else { c == '\n' };
        if sep {
            let ghost old_out = out@;
            let ghost old_cur = cur@;
            out.push(cur);
            cur = String::new();
            assert(strings_view(out@) =~= strings_view(old_out).push(old_cur));
            assert(strings_view(out@).push(cur@) =~= split_pieces(next, sentences));
        } else {
            let ghost old_cur = cur@;
            push_char(&mut cur, c);
            assert(strings_view(out@).push(cur@) =~= strings_view(out@).push(old_cur).update(
                strings_view(out@).len() as int,
                old_cur.push(c),
            ));
        }
        i = i + 1;
    }
    assert(cs@.subrange(0, cs@.len() as int) =~= cs@);
    let ghost before = out@;
    out.push(cur);
    assert(strings_view(out@) =~= strings_view(before).push(out@[before.len() as int]@));
    out
}

/// Relies on char::to_uppercase: the upper-case form of a character, which
/// depends on the character alone.
#[verifier::external_body]
fn upper_char(c: char) -> (r: String)
    ensures
        r@ == upper_char_of(c),
{
    c.to_uppercase().collect::<String>()
}

fn split_words(s: &str) -> (r: Vec<String>)
    ensures
        r@.len() == words_of(s@).len(),
        forall|i: int| 0 <= i < r@.len() ==> (#[trigger] r@[i])@ == words_of(s@)[i],
{
    let cs = chars_of(s);
    let mut out: Vec<String> = Vec::new();
    let mut cur = String::new();
    let mut i: usize = 0;
    while i < cs.len()
        invariant
            0 <= i <= cs@.len(),
            cs@ == s@,
            (strings_view(out@), cur@) == words_state(cs@.subrange(0, i as int)),
        decreases cs@.len() - i,
    {
        let ghost pre = cs@.subrange(0, i as int);
        let ghost next = cs@.subrange(0, i + 1);
        assert(next.drop_last() =~= pre);
        assert(next.last() == cs@[i as int]);
        let c = cs[i];
        if crate::strings::white(c) {
            if !cur.as_str().is_empty() {
                let ghost old_out = out@;
                let ghost old_cur = cur@;
                out.push(cur);
                cur = String::new();
                assert(strings_view(out@) =~= strings_view(old_out).push(old_cur));
            }
        } else {
            push_char(&mut cur, c);
        }
        i = i + 1;
    }
    assert(cs@.subrange(0, cs@.len() as int) =~= cs@);
    if !cur.as_str().is_empty() {
        let ghost before = out@;
        out.push(cur);
        assert(strings_view(out@) =~= strings_view(before).push(out@[before.len() as int]@));
    }
    assert forall|i: int| 0 <= i < out@.len() implies (#[trigger] out@[i])@ == words_of(s@)[i] by {
        assert(strings_view(out@)[i] == out@[i]@);
    }
    out
}

/// The words of a string, in order.
pub fn words(s: &str) -> (r: Vec<String>)
    ensures
        r@.len() == words_of(s@).len(),
        forall|i: int| 0 <= i < r@.len() ==> (#[trigger] r@[i])@ == words_of(s@)[i],
{
    split_words(s)
}

/// The pieces between '.', '!' and '?', in order.
fn split_sentences(s: &str) -> (r: Vec<String>)
    ensures
        r@.len() == sentence_pieces_of(s@).len(),
        forall|i: int| 0 <= i < r@.len() ==> (#[trigger] r@[i])@ == sentence_pieces_of(s@)[i],
{
    let r = split_chars(s, true);
    assert forall|i: int| 0 <= i < r@.len() implies (#[trigger] r@[i])@ == sentence_pieces_of(s@)[i] by {
        assert(strings_view(r@)[i] == r@[i]@);
    }
    r
}

pub open spec fn is_terminal(c: char) -> bool {
    c == '.' || c == '!' || c == '?'
}

pub open spec fn ends_terminal(s: Seq<char>) -> bool {
    s.len() > 0 && is_terminal(s.last())
}

/// The string with its first character in upper case.
pub open spec fn capitalized(s: Seq<char>) -> Seq<char> {
    if s.len() == 0 {
        s
    } else {
        upper_char_of(s[0]) + s.drop_first()
    }
}

/// A period goes after the word at `index` of `total` when it has no
/// sentence-ending mark and it closes a run of twelve words or the text.
pub open spec fn punctuation_due(word: Seq<char>, index: int, total: int) -> bool {
    !ends_terminal(word) && ((index > 0 && index % 12 == 0) || index == total - 1)
}

/// The first `n` words cleaned: joined by single spaces, the first one
/// capitalized, with periods added where they are due.
pub open spec fn cleaned_prefix(ws: Seq<Seq<char>>, n: nat) -> Seq<char>
    decreases n,
{
    if n == 0 {
        Seq::empty()
    } else {
        let prev = cleaned_prefix(ws, (n - 1) as nat);
        let spaced = if prev.len() > 0 { prev.push(' ') } else { prev };
        let i = n - 1;
        let added = if i == 0 { spaced + capitalized(ws[i]) } else { spaced + ws[i] };
        if punctuation_due(ws[i], i, ws.len() as int) { added.push('.') } else { added }
    }
}

pub open spec fn cleaned(text: Seq<char>) -> Seq<char> {
    cleaned_prefix(words_of(text), words_of(text).len())
}

/// The state of paragraph grouping: the finished text, the paragraph being
/// filled, and the number of sentences in it.
pub struct Grouping {
    pub done: Seq<char>,
    pub current: Seq<char>,
    pub count: nat,
}

/// `a` joined to `b` with a blank line, when `a` is not empty.
pub open spec fn join_paragraph(a: Seq<char>, b: Seq<char>) -> Seq<char> {
    if a.len() > 0 { a + "\n\n"@ + b } else { b }
}

/// Grouping after one more piece: a blank piece changes nothing; otherwise
/// the sentence joins the paragraph, which is finished once full.
pub open spec fn group_step(g: Grouping, piece: Seq<char>, per: nat) -> Grouping {
    let t = trim_of(piece);
    if t.len() == 0 {
        g
    } else {
        let spaced = if g.current.len() > 0 { g.current.push(' ') } else { g.current };
        let cur = (spaced + capitalized(t)).push('.');
        if g.count + 1 >= per {
            Grouping { done: join_paragraph(g.done, cur), current: Seq::empty(), count: 0 }
        } else {
            Grouping { done: g.done, current: cur, count: g.count + 1 }
        }
    }
}

/// Grouping after the first `n` pieces, `per` sentences to a paragraph.
pub open spec fn grouped_prefix(ps: Seq<Seq<char>>, per: nat, n: nat) -> Grouping
    decreases n,
{
    if n == 0 {
        Grouping { done: Seq::empty(), current: Seq::empty(), count: 0 }
    } else {
        group_step(grouped_prefix(ps, per, (n - 1) as nat), ps[n - 1], per)
    }
}

/// The text's sentences, each trimmed, capitalized and closed by a period,
/// `per` to a paragraph, paragraphs separated by blank lines.
pub open spec fn paragraphs(text: Seq<char>, per: nat) -> Seq<char> {
    let ps = sentence_pieces_of(text);
    let g = grouped_prefix(ps, per, ps.len());
    if g.current.len() > 0 { join_paragraph(g.done, g.current) } else { g.done }
}

/// The transcript formatted: compact mode groups its sentences as they are;
/// otherwise it is cleaned first.
pub open spec fn formatted(text: Seq<char>, compact: bool, per: nat) -> Seq<char> {
    if compact { paragraphs(text, per) } else { paragraphs(cleaned(text), per) }
}

fn append(s: &mut String, t: &str)
    ensures
        final(s)@ == old(s)@ + t@,
{
    s.append(t);
}

/// The string with its first character in upper case.
pub fn capitalize_first_letter(s: &str) -> (r: String)
    ensures
        r@ == capitalized(s@),
{
    if s.is_empty() {
        return String::new();
    }
    let n = s.unicode_len();
    let mut r = upper_char(s.get_char(0));
    let rest = s.substring_char(1, n);
    append(&mut r, rest);
    assert(rest@ =~= s@.drop_first());
    r
}

/// Whether a period goes after the word at `index` of `total_words`.
pub fn should_add_punctuation(word: &str, index: usize, total_words: usize) -> (r: bool)
    requires
        index < total_words,
    ensures
        r == punctuation_due(word@, index as int, total_words as int),
{
    if !word.is_empty() {
        let n = word.unicode_len();
        let c = word.get_char(n - 1);
        if c == '.' || c == '!' || c == '?' {
            return false;
        }
    }
    let is_long_phrase = index > 0 && index % 12 == 0;
    let is_near_end = index == total_words - 1;
    is_long_phrase || is_near_end
}

/// Joins the words of a transcript by single spaces, capitalizes the first,
/// and adds periods every twelve words and at the end where none is.
pub fn clean_transcript(text: &str) -> (r: String)
    ensures
        r@ == cleaned(text@),
{
    let words = split_words(text);
    let ghost ws = words_of(text@);
    let mut result = String::new();
    let mut i: usize = 0;
    while i < words.len()
        invariant
            0 <= i <= words@.len(),
            words@.len() == ws.len(),
            forall|j: int| 0 <= j < words@.len() ==> (#[trigger] words@[j])@ == ws[j],
            result@ == cleaned_prefix(ws, i as nat),
        decreases words@.len() - i,
    {
        if !result.as_str().is_empty() {
            push_char(&mut result, ' ');
        }
        let w = &words[i];
        if i == 0 {
            let c = capitalize_first_letter(w.as_str());
            append(&mut result, c.as_str());
        } else {
            append(&mut result, w.as_str());
        }
        if should_add_punctuation(w.as_str(), i, words.len()) {
            push_char(&mut result, '.');
        }
        i = i + 1;
    }
    result
}

/// Groups the sentences of a text into paragraphs of
/// `sentences_per_paragraph` sentences.
pub fn format_paragraphs(text: &str, sentences_per_paragraph: usize) -> (r: String)
    ensures
        r@ == paragraphs(text@, sentences_per_paragraph as nat),
{
    let pieces = split_sentences(text);
    let ghost ps = sentence_pieces_of(text@);
    let ghost per = sentences_per_paragraph as nat;
    let mut result = String::new();
    let mut current = String::new();
    let mut count: usize = 0;
    let mut i: usize = 0;
    while i < pieces.len()
        invariant
            0 <= i <= pieces@.len(),
            pieces@.len() == ps.len(),
            ps == sentence_pieces_of(text@),
            per == sentences_per_paragraph as nat,
            forall|j: int| 0 <= j < pieces@.len() ==> (#[trigger] pieces@[j])@ == ps[j],
            result@ == grouped_prefix(ps, per, i as nat).done,
            current@ == grouped_prefix(ps, per, i as nat).current,
            count as nat == grouped_prefix(ps, per, i as nat).count,
            count <= i,
        decreases pieces@.len() - i,
    {
        let ghost g = grouped_prefix(ps, per, i as nat);
        let trimmed = trim(pieces[i].as_str());
        assert(trimmed@ == trim_of(ps[i as int]));
        if !trimmed.as_str().is_empty() {
            if !current.as_str().is_empty() {
                push_char(&mut current, ' ');
            }
            let c = capitalize_first_letter(trimmed.as_str());
            append(&mut current, c.as_str());
            push_char(&mut current, '.');
            count = count + 1;
            if count >= sentences_per_paragraph {
                if !result.as_str().is_empty() {
                    append(&mut result, "\n\n");
                }
                append(&mut result, current.as_str());
                current = String::new();
                count = 0;
            }
        }
        assert(grouped_prefix(ps, per, (i + 1) as nat) == group_step(g, ps[i as int], per));
        i = i + 1;
    }
    if !current.as_str().is_empty() {
        if !result.as_str().is_empty() {
            append(&mut result, "\n\n");
        }
        append(&mut result, current.as_str());
    }
    result
}

/// Formats a transcript for reading: compact mode groups its sentences as
/// they are; otherwise the transcript is cleaned first.
pub fn format_transcript(transcript: &str, compact: bool, paragraph_length: usize) -> (r: String)
    ensures
        r@ == formatted(transcript@, compact, paragraph_length as nat),
{
    if compact {
        return format_paragraphs(transcript, paragraph_length);
    }
    let cleaned = clean_transcript(transcript);
    format_paragraphs(cleaned.as_str(), paragraph_length)
}

/// The characters that Markdown escaping prefixes with a backslash.
pub open spec fn is_markdown_special(c: char) -> bool {
    c == '*' || c == '_' || c == '`' || c == '[' || c == ']' || c == '(' || c == ')' || c == '#' || c
        == '+' || c == '-' || c == '.' || c == '!'
}

/// The first `n` characters of `s`, each special one after a backslash.
pub open spec fn escaped_prefix(s: Seq<char>, n: nat) -> Seq<char>
    decreases n,
{
    if n == 0 {
        Seq::empty()
    } else {
        let p = escaped_prefix(s, (n - 1) as nat);
        let c = s[n - 1];
        if is_markdown_special(c) { p.push('\\').push(c) } else { p.push(c) }
    }
}

pub open spec fn escaped(s: Seq<char>) -> Seq<char> {
    escaped_prefix(s, s.len())
}

/// Escapes the characters that Markdown reads as markup.
pub fn escape_markdown(text: &str) -> (r: String)
    ensures
        r@ == escaped(text@),
{
    let n = text.unicode_len();
    let mut r = String::new();
    let mut i: usize = 0;
    while i < n
        invariant
            0 <= i <= n,
            n == text@.len(),
            r@ == escaped_prefix(text@, i as nat),
        decreases n - i,
    {
        let c = text.get_char(i);
        if c == '*' || c == '_' || c == '`' || c == '[' || c == ']' || c == '(' || c == ')' || c == '#'
            || c == '+' || c == '-' || c == '.' || c == '!' {
            push_char(&mut r, '\\');
        }
        push_char(&mut r, c);
        i = i + 1;
    }
    r
}

/// Two decimal digits of a value below one hundred.
pub open spec fn two_digits(n: nat) -> Seq<char> {
    seq![digit_char(n / 10), digit_char(n % 10)]
}

/// A duration in seconds as `HH:MM:SS`, or `MM:SS` under an hour; hours
/// take as many digits as they need, at least two.
pub open spec fn duration_text(total: nat) -> Seq<char> {
    let h = total / 3600;
    let m = (total % 3600) / 60;
    let s = total % 60;
    if h > 0 {
        (if h < 10 { seq!['0'] + decimal(h) } else { decimal(h) }) + seq![':'] + two_digits(m) + seq![':']
            + two_digits(s)
    } else {
        two_digits(m) + seq![':'] + two_digits(s)
    }
}

fn push_two_digits(r: &mut String, n: u64)
    requires
        n < 100,
    ensures
        final(r)@ == old(r)@ + two_digits(n as nat),
{
    push_char(r, digit(n / 10));
    push_char(r, digit(n % 10));
}

/// Formats a duration in whole seconds as `HH:MM:SS`, or `MM:SS` under an hour.
pub fn format_duration(total_seconds: u64) -> (r: String)
    ensures
        r@ == duration_text(total_seconds as nat),
{
    let hours = total_seconds / 3600;
    let minutes = (total_seconds % 3600) / 60;
    let seconds = total_seconds % 60;
    let mut r = String::new();
    if hours > 0 {
        if hours < 10 {
            push_char(&mut r, '0');
        }
        let h = to_decimal(hours);
        append(&mut r, h.as_str());
        push_char(&mut r, ':');
    }
    push_two_digits(&mut r, minutes);
    push_char(&mut r, ':');
    push_two_digits(&mut r, seconds);
    r
}

/// A line without the carriage return that ends it, if one does.
pub open spec fn strip_cr(p: Seq<char>) -> Seq<char> {
    if p.len() > 0 && p.last() == '\r' {
        p.drop_last()
    } else {
        p
    }
}

/// The number of lines: the pieces between line feeds, less a final empty one.
pub open spec fn line_count(s: Seq<char>) -> int {
    let l = split_pieces(s, false);
    if l.last().len() == 0 { l.len() - 1 } else { l.len() as int }
}

/// The lines that `str::lines` finds in a string: the pieces between line
/// feeds, without a final empty piece, each that a line feed ends without
/// one carriage return before it.
pub open spec fn lines_of(s: Seq<char>) -> Seq<Seq<char>> {
    let l = split_pieces(s, false);
    Seq::new(line_count(s) as nat, |i: int| if i < l.len() - 1 { strip_cr(l[i]) } else { l[i] })
}

/// What `char::is_numeric` says of a character.
pub uninterp spec fn numeric_of(c: char) -> bool;

fn split_lines(s: &str) -> (r: Vec<String>)
    ensures
        r@.len() == lines_of(s@).len(),
        forall|i: int| 0 <= i < r@.len() ==> (#[trigger] r@[i])@ == lines_of(s@)[i],
{
    let pieces = split_chars(s, false);
    let ghost l = split_pieces(s@, false);
    proof {
        lemma_split_pieces_len(s@, false);
    }
    assert(pieces@.len() == l.len());
    let last_empty = pieces[pieces.len() - 1].as_str().is_empty();
    assert(strings_view(pieces@)[pieces@.len() - 1] == pieces@[pieces@.len() - 1]@);
    let n = if last_empty { pieces.len() - 1 } else { pieces.len() };
    assert(n == line_count(s@));
    let mut out: Vec<String> = Vec::new();
    let mut i: usize = 0;
    while i < n
        invariant
            0 <= i <= n,
            n <= pieces@.len(),
            n == line_count(s@),
            l == split_pieces(s@, false),
            strings_view(pieces@) == l,
            out@.len() == i,
            forall|k: int| 0 <= k < i ==> (#[trigger] out@[k])@ == lines_of(s@)[k],
        decreases n - i,
    {
        let p = pieces[i].as_str();
        assert(strings_view(pieces@)[i as int] == pieces@[i as int]@);
        let line = if i + 1 < pieces.len() {
            let m = p.unicode_len();
            if m > 0 && p.get_char(m - 1) == '\r' {
                let t = p.substring_char(0, m - 1).to_owned();
                assert(t@ =~= p@.drop_last());
                t
            } else {
                p.to_owned()
            }
        } else {
            p.to_owned()
        };
        assert(line@ == lines_of(s@)[i as int]);
        out.push(line);
        i = i + 1;
    }
    out
}

/// The lines of a string, in order.
pub fn lines(s: &str) -> (r: Vec<String>)
    ensures
        r@.len() == lines_of(s@).len(),
        forall|i: int| 0 <= i < r@.len() ==> (#[trigger] r@[i])@ == lines_of(s@)[i],
{
    split_lines(s)
}

/// Relies on char::is_numeric, which depends on the character alone.
#[verifier::external_body]
fn is_numeric(c: char) -> (r: bool)
    ensures
        r == numeric_of(c),
{
    c.is_numeric()
}

/// `needle` occurs in `hay` at position `i`.
pub open spec fn occurs_at(hay: Seq<char>, needle: Seq<char>, i: int) -> bool {
    0 <= i && i + needle.len() <= hay.len() && hay.subrange(i, i + needle.len()) == needle
}

/// `needle` occurs somewhere in `hay`.
pub open spec fn contains_seq(hay: Seq<char>, needle: Seq<char>) -> bool {
    exists|i: int| occurs_at(hay, needle, i)
}

/// The first position at which `needle` occurs in `hay`.
pub fn find_str(hay: &str, needle: &str) -> (r: Option<usize>)
    ensures
        match r {
            Some(i) => occurs_at(hay@, needle@, i as int) && forall|k: int| 0 <= k < i ==> !occurs_at(
                hay@,
                needle@,
                k,
            ),
            None => !contains_seq(hay@, needle@),
        },
{
    let n = hay.unicode_len();
    let m = needle.unicode_len();
    if m > n {
        assert forall|i: int| !occurs_at(hay@, needle@, i) by {}
        return None;
    }
    let mut i: usize = 0;
    while i <= n - m
        invariant
            n == hay@.len(),
            m == needle@.len(),
            m <= n,
            0 <= i <= n - m + 1,
            forall|k: int| 0 <= k < i ==> !occurs_at(hay@, needle@, k),
        decreases n - m + 1 - i,
    {
        let mut j: usize = 0;
        let mut same = true;
        while j < m
            invariant
                n == hay@.len(),
                m == needle@.len(),
                i + m <= n,
                0 <= j <= m,
                same == (forall|k: int| 0 <= k < j ==> hay@[i + k] == needle@[k]),
            decreases m - j,
        {
            if hay.get_char(i + j) != needle.get_char(j) {
                same = false;
            }
            j = j + 1;
        }
        if same {
            assert(hay@.subrange(i as int, i + m) =~= needle@);
            return Some(i);
        }
        assert(!occurs_at(hay@, needle@, i as int)) by {
            if hay@.subrange(i as int, i + m) == needle@ {
                assert forall|k: int| 0 <= k < m implies hay@[i + k] == needle@[k] by {
                    assert(hay@.subrange(i as int, i + m)[k] == hay@[i + k]);
                }
            }
        }
        i = i + 1;
    }
    assert forall|k: int| !occurs_at(hay@, needle@, k) by {
        if k >= i {
            assert(k + m > n);
        }
    }
    None
}

/// Whether `needle` occurs in `hay`.
pub fn contains_str(hay: &str, needle: &str) -> (r: bool)
    ensures
        r == contains_seq(hay@, needle@),
{
    find_str(hay, needle).is_some()
}

/// The text gathered after the first `n` subtitle lines, and whether the
/// last of them was subtitle text.
pub open spec fn subtitle_prefix(ls: Seq<Seq<char>>, n: nat) -> (Seq<char>, bool)
    decreases n,
{
    if n == 0 {
        (Seq::empty(), false)
    } else {
        let (text, in_block) = subtitle_prefix(ls, (n - 1) as nat);
        let line = ls[n - 1];
        let t = trim_of(line);
        if t.len() == 0 {
            (text, false)
        } else if numeric_of(t[0]) || contains_seq(line, "-->"@) {
            (text, in_block)
        } else {
            let opened = if !in_block && text.len() > 0 { text.push(' ') } else { text };
            ((opened + t).push(' '), true)
        }
    }
}

/// The plain text of a subtitle file: its text lines, trimmed, with the
/// cue numbers and timestamp lines left out, joined by spaces, and the
/// whole trimmed.
pub open spec fn subtitle_text(srt: Seq<char>) -> Seq<char> {
    trim_of(subtitle_prefix(lines_of(srt), lines_of(srt).len()).0)
}

/// Converts SubRip subtitles to plain text.
pub fn srt_to_plain_text(srt_content: &str) -> (r: String)
    ensures
        r@ == subtitle_text(srt_content@),
{
    let lines = split_lines(srt_content);
    let ghost ls = lines_of(srt_content@);
    let mut plain = String::new();
    let mut in_text_block = false;
    let mut i: usize = 0;
    while i < lines.len()
        invariant
            0 <= i <= lines@.len(),
            lines@.len() == ls.len(),
            ls == lines_of(srt_content@),
            forall|j: int| 0 <= j < lines@.len() ==> (#[trigger] lines@[j])@ == ls[j],
            (plain@, in_text_block) == subtitle_prefix(ls, i as nat),
        decreases lines@.len() - i,
    {
        let line = &lines[i];
        let t = trim(line.as_str());
        if t.as_str().is_empty() {
            in_text_block = false;
        } else if is_numeric(t.as_str().get_char(0)) || contains_str(line.as_str(), "-->") {
        } else {
            if !in_text_block && !plain.as_str().is_empty() {
                push_char(&mut plain, ' ');
            }
            in_text_block = true;
            append(&mut plain, t.as_str());
            push_char(&mut plain, ' ');
        }
        i = i + 1;
    }
    trim(plain.as_str())
}

/// The text of captions: formatted as a transcript, unless it holds music
/// notes or bracketed cues and formatting is not forced.
pub open spec fn caption_text(raw: Seq<char>, force_formatting: bool) -> Seq<char> {
    if !force_formatting && (contains_seq(raw, "\u{266a}"@) || contains_seq(raw, "["@)) {
        raw
    } else {
        formatted(raw, false, 4)
    }
}

/// Formats caption text, keeping it as it is when it holds music notes or
/// bracketed cues (unless formatting is forced).
pub fn format_captions(raw_text: &str, force_formatting: bool) -> (r: String)
    ensures
        r@ == caption_text(raw_text@, force_formatting),
{
    if !force_formatting && (contains_str(raw_text, "\u{266a}") || contains_str(raw_text, "[")) {
        raw_text.to_owned()
    } else {
        format_transcript(raw_text, false, 4)
    }
}

} // verus!
