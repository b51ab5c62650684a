//! Capturing the layout of the active window, so that it can be asked for
//! again later as the layout of a workspace.
//!
//! The multiplexer lists one window per line, as an activity flag, white
//! space and the layout descriptor. The descriptor of the first line whose
//! flag is `1` is the one captured.
use crate::addressing::is_white_space;
use vstd::prelude::*;
use vstd::string::*;

verus! {

/// Why no layout was captured.
#[derive(Debug, Clone, Copy, PartialEq, Eq, Structural)]
pub enum LayoutError {
    /// The multiplexer gave no listing.
    Unavailable,
    /// No line of the listing is flagged as the active window.
    NoActiveWindow,
}

impl LayoutError {
    /// A line for the user.
    pub fn message(&self) -> (res: String)
        ensures
            res@ == match *self {
                LayoutError::Unavailable => "Couldn't get layouts"@,
                LayoutError::NoActiveWindow => "No active tmux window"@,
            },
    {
        match self {
            LayoutError::Unavailable => String::from_str("Couldn't get layouts"),
            LayoutError::NoActiveWindow => String::from_str("No active tmux window"),
        }
    }
}

/// A line begins at the start of the text and after every line feed.
pub open spec fn is_line_start(text: Seq<char>, at: int) -> bool {
    at == 0 || (0 < at <= text.len() && text[at - 1] == '\n')
}

/// A line of an active window begins with the flag `1`.
pub open spec fn is_active_line(text: Seq<char>, at: int) -> bool {
    is_line_start(text, at) && 0 <= at < text.len() && text[at] == '1'
}

/// Start of the first active line at or after `from`.
pub open spec fn active_line_from(text: Seq<char>, from: int) -> Option<int>
    decreases text.len() - from,
{
    if from < 0 || from >= text.len() {
        None
    } else if is_active_line(text, from) {
        Some(from)
    } else {
        active_line_from(text, from + 1)
    }
}

/// End of the line that holds position `from`: the next line feed, or the
/// end of the text.
pub open spec fn line_end(text: Seq<char>, from: int) -> int
    decreases text.len() - from,
{
    if from < 0 || from >= text.len() {
        text.len() as int
    } else if text[from] == '\n' {
        from
    } else {
        line_end(text, from + 1)
    }
}

/// End of what is left of `text[start..end]` without its trailing white space.
pub open spec fn trimmed_end(text: Seq<char>, start: int, end: int) -> int
    decreases end - start,
{
    if end <= start || end > text.len() || start < 0 {
        start
    } else if !is_white_space(text[end - 1]) {
        end
    } else {
        trimmed_end(text, start, end - 1)
    }
}

/// Start of the run of characters other than white space that ends at `end`,
/// looking back no further than `start`.
pub open spec fn token_start(text: Seq<char>, start: int, end: int) -> int
    decreases end - start,
{
    if end <= start || end > text.len() || start < 0 {
        end
    } else if is_white_space(text[end - 1]) {
        end
    } else {
        token_start(text, start, end - 1)
    }
}

/// The last white-space separated word of the first active line.
pub open spec fn active_layout(text: Seq<char>) -> Option<Seq<char>> {
    match active_line_from(text, 0) {
        Some(start) => {
            let end = trimmed_end(text, start, line_end(text, start));
            Some(text.subrange(token_start(text, start, end), end))
        },
        None => None,
    }
}

/// What `generate_layout` owes for a listing.
pub open spec fn captured(listing: Option<Seq<char>>) -> Result<Seq<char>, LayoutError> {
    match listing {
        None => Err(LayoutError::Unavailable),
        Some(text) => match active_layout(text) {
            Some(layout) => Ok(layout),
            None => Err(LayoutError::NoActiveWindow),
        },
    }
}

/// A captured layout is a single word: it is not empty and holds no white
/// space, and it comes from a line whose flag is `1`.
pub proof fn lemma_active_layout_is_word(text: Seq<char>)
    ensures
        match active_layout(text) {
            Some(layout) => layout.len() > 0 && forall|i: int|
                0 <= i < layout.len() ==> !is_white_space(#[trigger] layout[i]),
            None => forall|at: int| !is_active_line(text, at),
        },
{
    lemma_active_line_from(text, 0);
    match active_line_from(text, 0) {
        Some(start) => {
            let stop = line_end(text, start);
            lemma_line_end(text, start + 1);
            assert(stop == line_end(text, start + 1));
            assert(!is_white_space('1'));
            lemma_trimmed_end(text, start, stop);
            let end = trimmed_end(text, start, stop);
            lemma_token_start(text, start, end);
            let first = token_start(text, start, end);
            let layout = text.subrange(first, end);
            assert forall|i: int| 0 <= i < layout.len() implies !is_white_space(
                #[trigger] layout[i],
            ) by {
                assert(layout[i] == text[first + i]);
            }
        },
        None => {},
    }
}

proof fn lemma_active_line_from(text: Seq<char>, from: int)
    requires
        0 <= from,
    ensures
        match active_line_from(text, from) {
            Some(at) => from <= at && is_active_line(text, at),
            None => forall|at: int| from <= at ==> !is_active_line(text, at),
        },
    decreases text.len() - from,
{
    if from < text.len() && !is_active_line(text, from) {
        lemma_active_line_from(text, from + 1);
    }
}

proof fn lemma_line_end(text: Seq<char>, from: int)
    requires
        0 <= from <= text.len(),
    ensures
        from <= line_end(text, from) <= text.len(),
        forall|i: int| from <= i < line_end(text, from) ==> text[i] != '\n',
    decreases text.len() - from,
{
    if from < text.len() && text[from] != '\n' {
        lemma_line_end(text, from + 1);
    }
}

proof fn lemma_trimmed_end(text: Seq<char>, start: int, end: int)
    requires
        0 <= start <= end <= text.len(),
    ensures
        start <= trimmed_end(text, start, end) <= end,
        start < end && !is_white_space(text[start]) ==> start < trimmed_end(text, start, end),
        start < trimmed_end(text, start, end) ==> !is_white_space(
            text[trimmed_end(text, start, end) - 1],
        ),
    decreases end - start,
{
    if start < end && is_white_space(text[end - 1]) {
        lemma_trimmed_end(text, start, end - 1);
    }
}

proof fn lemma_token_start(text: Seq<char>, start: int, end: int)
    requires
        0 <= start <= end <= text.len(),
    ensures
        start <= token_start(text, start, end) <= end,
        start < end && !is_white_space(text[end - 1]) ==> token_start(text, start, end) < end,
        forall|i: int| token_start(text, start, end) <= i < end ==> !is_white_space(text[i]),
    decreases end - start,
{
    if start < end && !is_white_space(text[end - 1]) {
        lemma_token_start(text, start, end - 1);
    }
}

fn white_space(c: char) -> (res: bool)
    ensures
        res == is_white_space(c),
{
    let n = c as u32;
    (0x09 <= n && n <= 0x0d) || n == 0x20 || n == 0x85 || n == 0xa0 || n == 0x1680 || (0x2000 <= n
        && n <= 0x200a) || n == 0x2028 || n == 0x2029 || n == 0x202f || n == 0x205f || n == 0x3000
}

fn chars_of(text: &str) -> (res: Vec<char>)
    ensures
        res@ == text@,
{
    let mut res: Vec<char> = Vec::new();
    let len = text.unicode_len();
    let mut i: usize = 0;
    while i < len
        invariant
            len == text@.len(),
            i <= len,
            res@ == text@.subrange(0, i as int),
        decreases len - i,
    {
        res.push(text.get_char(i));
        assert(res@ =~= text@.subrange(0, i + 1));
        i = i + 1;
    }
    assert(res@ =~= text@);
    res
}

/// Captures the layout descriptor of the active window from the listing
/// of windows, or says why there is none. `None` stands for a listing that
/// could not be had.
pub fn generate_layout(listing: Option<&str>) -> (res: Result<String, LayoutError>)
    ensures
        match res {
            Ok(layout) => captured(
                match listing {
                    Some(text) => Some(text@),
                    None => None,
                },
            ) == Ok::<Seq<char>, LayoutError>(layout@),
            Err(error) => captured(
                match listing {
                    Some(text) => Some(text@),
                    None => None,
                },
            ) == Err::<Seq<char>, LayoutError>(error),
        },
{
    let text = match listing {
        Some(text) => text,
        None => {
            return Err(LayoutError::Unavailable);
        },
    };
    let chars = chars_of(text);
    let len = chars.len();
    let mut start: usize = 0;
    let mut found = false;
    while start < len
        invariant_except_break
            !found,
        invariant
            len == chars.len(),
            chars@ == text@,
            start <= len,
            active_line_from(text@, 0) == active_line_from(text@, start as int),
        ensures
            found ==> start < len && active_line_from(text@, 0) == Some(start as int),
            !found ==> active_line_from(text@, 0) is None,
        decreases len - start,
    {
        if chars[start] == '1' && (start == 0 || chars[start - 1] == '\n') {
            found = true;
            break ;
        }
        start = start + 1;
    }
    if !found {
        return Err(LayoutError::NoActiveWindow);
    }
    let mut stop: usize = start;
    while stop < len && chars[stop] != '\n'
        invariant
            len == chars.len(),
            chars@ == text@,
            start <= stop <= len,
            line_end(text@, start as int) == line_end(text@, stop as int),
        decreases len - stop,
    {
        stop = stop + 1;
    }
    let mut end: usize = stop;
    while end > start && white_space(chars[end - 1])
        invariant
            len == chars.len(),
            chars@ == text@,
            start <= end <= stop <= len,
            trimmed_end(text@, start as int, stop as int) == trimmed_end(
                text@,
                start as int,
                end as int,
            ),
        decreases end - start,
    {
        end = end - 1;
    }
    let mut first: usize = end;
    while first > start && !white_space(chars[first - 1])
        invariant
            len == chars.len(),
            chars@ == text@,
            start <= first <= end <= len,
            token_start(text@, start as int, end as int) == token_start(
                text@,
                start as int,
                first as int,
            ),
        decreases first - start,
    {
        first = first - 1;
    }
    Ok(String::from_str(text.substring_char(first, end)))
}

} // verus!
