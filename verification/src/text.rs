//! Scanning text: line ends, white space and words, by position.

use vstd::prelude::*;

verus! {

/// Whether a character is white space, as Unicode defines it.
pub open spec fn is_whitespace(c: char) -> bool {
    let code = c as u32;
    ||| 0x0009 <= code <= 0x000D
    ||| code == 0x0020
    ||| code == 0x0085
    ||| code == 0x00A0
    ||| code == 0x1680
    ||| 0x2000 <= code <= 0x200A
    ||| code == 0x2028
    ||| code == 0x2029
    ||| code == 0x202F
    ||| code == 0x205F
    ||| code == 0x3000
}

/// The position of the first line feed at or after `from`; the length of
/// the text if there is none.
pub open spec fn line_end(text: Seq<char>, from: int) -> int
    decreases text.len() - from,
{
    if from >= text.len() {
        from
    } else if text[from] == '\n' {
        from
    } else {
        line_end(text, from + 1)
    }
}

/// The position of the first character in `from..to` that is not white
/// space; `to` if there is none.
pub open spec fn skip_whitespace(text: Seq<char>, from: int, to: int) -> int
    decreases to - from,
{
    if from >= to {
        from
    } else if !is_whitespace(text[from]) {
        from
    } else {
        skip_whitespace(text, from + 1, to)
    }
}

/// The position of the first white space in `from..to`; `to` if there is
/// none.
pub open spec fn word_end(text: Seq<char>, from: int, to: int) -> int
    decreases to - from,
{
    if from >= to {
        from
    } else if is_whitespace(text[from]) {
        from
    } else {
        word_end(text, from + 1, to)
    }
}

/// The position after the last character in `from..to` that is not white
/// space; `from` if there is none.
pub open spec fn content_end(text: Seq<char>, from: int, to: int) -> int
    decreases to - from,
{
    if to <= from {
        to
    } else if !is_whitespace(text[to - 1]) {
        to
    } else {
        content_end(text, from, to - 1)
    }
}

/// The part `from..to` of a text without the white space at its ends.
pub open spec fn trimmed(text: Seq<char>, from: int, to: int) -> Seq<char> {
    let first = skip_whitespace(text, from, to);
    text.subrange(first, content_end(text, first, to))
}

/// The first word in the part `from..to` of a text, if that part holds
/// anything but white space.
pub open spec fn first_word(text: Seq<char>, from: int, to: int) -> Option<Seq<char>> {
    let first = skip_whitespace(text, from, to);
    if first < to {
        Some(text.subrange(first, word_end(text, first, to)))
    } else {
        None
    }
}

/// What `line_end` finds: no line feed lies before it, and it is a line
/// feed unless it is the end of the text.
pub proof fn lemma_line_end(text: Seq<char>, from: int)
    requires
        0 <= from <= text.len(),
    ensures
        from <= line_end(text, from) <= text.len(),
        forall|i: int| from <= i < line_end(text, from) ==> text[i] != '\n',
        line_end(text, from) < text.len() ==> text[line_end(text, from)] == '\n',
    decreases text.len() - from,
{
    if from < text.len() && text[from] != '\n' {
        lemma_line_end(text, from + 1);
    }
}

/// What `skip_whitespace` finds: only white space lies before it, and it
/// is no white space unless it is `to`.
pub proof fn lemma_skip_whitespace(text: Seq<char>, from: int, to: int)
    requires
        from <= to,
    ensures
        from <= skip_whitespace(text, from, to) <= to,
        forall|i: int| from <= i < skip_whitespace(text, from, to) ==> is_whitespace(text[i]),
        skip_whitespace(text, from, to) < to ==> !is_whitespace(
            text[skip_whitespace(text, from, to)],
        ),
    decreases to - from,
{
    if from < to && is_whitespace(text[from]) {
        lemma_skip_whitespace(text, from + 1, to);
    }
}

/// What `word_end` finds: no white space lies before it, and it is white
/// space unless it is `to`.
pub proof fn lemma_word_end(text: Seq<char>, from: int, to: int)
    requires
        from <= to,
    ensures
        from <= word_end(text, from, to) <= to,
        forall|i: int| from <= i < word_end(text, from, to) ==> !is_whitespace(text[i]),
        word_end(text, from, to) < to ==> is_whitespace(text[word_end(text, from, to)]),
    decreases to - from,
{
    if from < to && !is_whitespace(text[from]) {
        lemma_word_end(text, from + 1, to);
    }
}

/// What `content_end` finds: only white space lies at or after it, and the
/// character before it is no white space unless it is `from`.
pub proof fn lemma_content_end(text: Seq<char>, from: int, to: int)
    requires
        from <= to,
    ensures
        from <= content_end(text, from, to) <= to,
        forall|i: int| content_end(text, from, to) <= i < to ==> is_whitespace(text[i]),
        from < content_end(text, from, to) ==> !is_whitespace(
            text[content_end(text, from, to) - 1],
        ),
    decreases to - from,
{
    if from < to && is_whitespace(text[to - 1]) {
        lemma_content_end(text, from, to - 1);
    }
}

/// Whether a character is white space.
pub fn is_space(c: char) -> (space: bool)
    ensures
        space == is_whitespace(c),
{
    let code: u32 = c as u32;
    (0x0009 <= code && code <= 0x000D) || code == 0x0020 || code == 0x0085 || code == 0x00A0
        || code == 0x1680 || (0x2000 <= code && code <= 0x200A) || code == 0x2028 || code
        == 0x2029 || code == 0x202F || code == 0x205F || code == 0x3000
}

/// The characters of a string.
pub fn chars_of(text: &str) -> (chars: Vec<char>)
    ensures
        chars@ == text@,
{
    let mut chars: Vec<char> = Vec::new();
    for c in it: text.chars()
        invariant
            chars@ == it.seq().take(it.index() as int),
    {
        chars.push(c);
    }
    chars
}

/// Finds the end of the line that `from` lies in.
pub fn find_line_end(text: &Vec<char>, from: usize) -> (end: usize)
    requires
        from <= text.len(),
    ensures
        end == line_end(text@, from as int),
        from <= end <= text.len(),
{
    let mut at: usize = from;
    while at < text.len() && text[at] != '\n'
        invariant
            from <= at <= text.len(),
            line_end(text@, at as int) == line_end(text@, from as int),
        decreases text.len() - at,
    {
        at += 1;
    }
    at
}

/// Finds the first character in `from..to` that is not white space.
pub fn find_content(text: &Vec<char>, from: usize, to: usize) -> (first: usize)
    requires
        from <= to <= text.len(),
    ensures
        first == skip_whitespace(text@, from as int, to as int),
        from <= first <= to,
{
    let mut at: usize = from;
    while at < to && is_space(text[at])
        invariant
            from <= at <= to <= text.len(),
            skip_whitespace(text@, at as int, to as int) == skip_whitespace(
                text@,
                from as int,
                to as int,
            ),
        decreases to - at,
    {
        at += 1;
    }
    at
}

/// Finds the first white space in `from..to`.
pub fn find_word_end(text: &Vec<char>, from: usize, to: usize) -> (end: usize)
    requires
        from <= to <= text.len(),
    ensures
        end == word_end(text@, from as int, to as int),
        from <= end <= to,
{
    let mut at: usize = from;
    while at < to && !is_space(text[at])
        invariant
            from <= at <= to <= text.len(),
            word_end(text@, at as int, to as int) == word_end(text@, from as int, to as int),
        decreases to - at,
    {
        at += 1;
    }
    at
}

/// Finds the end of what `from..to` holds before its trailing white space.
pub fn find_content_end(text: &Vec<char>, from: usize, to: usize) -> (end: usize)
    requires
        from <= to <= text.len(),
    ensures
        end == content_end(text@, from as int, to as int),
        from <= end <= to,
{
    let mut at: usize = to;
    while at > from && is_space(text[at - 1])
        invariant
            from <= at <= to <= text.len(),
            content_end(text@, from as int, at as int) == content_end(
                text@,
                from as int,
                to as int,
            ),
        decreases at - from,
    {
        at -= 1;
    }
    at
}

/// Whether the part `from..to` of a text begins with `prefix`.
pub fn begins_with(text: &Vec<char>, from: usize, to: usize, prefix: &Vec<char>) -> (begins: bool)
    requires
        from <= to <= text.len(),
    ensures
        begins == prefix@.is_prefix_of(text@.subrange(from as int, to as int)),
{
    if to - from < prefix.len() {
        return false;
    }
    let ghost part = text@.subrange(from as int, to as int);
    let mut k: usize = 0;
    while k < prefix.len()
        invariant
            from <= to <= text.len(),
            prefix.len() <= to - from,
            k <= prefix.len(),
            part == text@.subrange(from as int, to as int),
            forall|i: int| 0 <= i < k ==> prefix@[i] == part[i],
        decreases prefix.len() - k,
    {
        if text[from + k] != prefix[k] {
            assert(part[k as int] != prefix@[k as int]);
            assert(part.subrange(0, prefix@.len() as int)[k as int] == part[k as int]);
            return false;
        }
        k += 1;
    }
    assert(part.subrange(0, prefix@.len() as int) =~= prefix@);
    true
}

/// `head` followed by `tail`.
pub fn prefixed(head: &str, tail: &str) -> (text: String)
    ensures
        text@ == head@ + tail@,
{
    let mut text = String::from_str(head);
    text.append(tail);
    text
}

/// `head`, `name`, `link` and `tail` in one string.
pub fn joined(head: &str, name: &str, link: &str, tail: &str) -> (text: String)
    ensures
        text@ == head@ + name@ + link@ + tail@,
{
    let mut text = String::from_str(head);
    text.append(name);
    text.append(link);
    text.append(tail);
    text
}

} // verus!
