//! The kernel's list of input devices, line by line: finding the event device
//! of the gamepad.
//!
//! The gamepad is the first device with a line that mentions `gamepad`, in
//! any letter case. Its handlers stand four lines further down, between the
//! first `=` of that line and the next; the event device is the first of
//! them, divided by blanks, that mentions `event`.

use vstd::prelude::*;
use vstd::slice::{slice_subrange, slice_to_vec};

verus! {

/// The byte `=`.
pub const EQUALS: u8 = 61;

/// The blank.
pub const BLANK: u8 = 32;

/// How many lines below the gamepad's line its handlers stand.
pub const HANDLERS_BELOW: usize = 4;

/// The word `gamepad`.
pub open spec fn gamepad_word() -> Seq<u8> {
    seq![103u8, 97u8, 109u8, 101u8, 112u8, 97u8, 100u8]
}

/// The word `event`.
pub open spec fn event_word() -> Seq<u8> {
    seq![101u8, 118u8, 101u8, 110u8, 116u8]
}

/// The byte `b`, a capital letter made small where `fold` is set.
pub open spec fn folded(b: u8, fold: bool) -> u8 {
    if fold && 65 <= b && b <= 90 {
        (b + 32) as u8
    } else {
        b
    }
}

/// `needle` stands in `hay` from place `at` on; where `fold` is set, the
/// capital letters of `hay` count as small ones.
pub open spec fn occurs_at(hay: Seq<u8>, needle: Seq<u8>, at: int, fold: bool) -> bool {
    &&& 0 <= at
    &&& at + needle.len() <= hay.len()
    &&& forall|k: int| 0 <= k < needle.len() ==> folded(hay[at + k], fold) == #[trigger] needle[k]
}

/// `needle` stands somewhere in `hay`.
pub open spec fn mentions(hay: Seq<u8>, needle: Seq<u8>, fold: bool) -> bool {
    exists|at: int| occurs_at(hay, needle, at, fold)
}

/// `at` is the first place at which `needle` stands in `hay`.
pub open spec fn is_first_occurrence(hay: Seq<u8>, needle: Seq<u8>, at: int, fold: bool) -> bool {
    &&& occurs_at(hay, needle, at, fold)
    &&& forall|p: int| 0 <= p < at ==> !occurs_at(hay, needle, p, fold)
}

/// `at` is the place of the first `byte` in `hay` from `from` on, or the
/// length of `hay` where there is none.
pub open spec fn is_first_byte(hay: Seq<u8>, from: int, byte: u8, at: int) -> bool {
    &&& from <= at <= hay.len()
    &&& at < hay.len() ==> hay[at] == byte
    &&& forall|k: int| from <= k < at ==> #[trigger] hay[k] != byte
}

/// The handlers of `line` stand from `start` up to `end`: after the first
/// `=`, up to the next one or to the end of the line.
pub open spec fn is_handlers_part(line: Seq<u8>, start: int, end: int) -> bool {
    &&& 1 <= start <= end <= line.len()
    &&& line[start - 1] == EQUALS
    &&& is_first_byte(line, 0, EQUALS, start - 1)
    &&& is_first_byte(line, start, EQUALS, end)
}

/// Among the handlers `part`, divided by blanks, the one from `start` up to
/// `end` is the first that mentions `event`: it holds the first place at
/// which the word stands.
pub open spec fn is_event_token(part: Seq<u8>, start: int, end: int) -> bool {
    exists|q: int|
        {
            &&& is_first_occurrence(part, event_word(), q, false)
            &&& 0 <= start <= q < end <= part.len()
            &&& start == 0 || part[start - 1] == BLANK
            &&& end == part.len() || part[end] == BLANK
            &&& forall|k: int| start <= k < end ==> #[trigger] part[k] != BLANK
        }
}

/// `name` is the event handler named in the handlers line `line`.
pub open spec fn is_handler_in_line(line: Seq<u8>, name: Seq<u8>) -> bool {
    exists|a: int, b: int, s: int, e: int|
        {
            &&& is_handlers_part(line, a, b)
            &&& #[trigger] is_event_token(line.subrange(a, b), s, e)
            &&& name == line.subrange(a, b).subrange(s, e)
        }
}

/// The handlers line `line` names no event handler.
pub open spec fn names_no_handler(line: Seq<u8>) -> bool {
    forall|n: Seq<u8>| !is_handler_in_line(line, n)
}

/// `i` is the place of the first line that mentions `gamepad`.
pub open spec fn is_first_gamepad_line(lines: Seq<Vec<u8>>, i: int) -> bool {
    &&& 0 <= i < lines.len()
    &&& mentions(lines[i]@, gamepad_word(), true)
    &&& forall|j: int| 0 <= j < i ==> !mentions(#[trigger] lines[j]@, gamepad_word(), true)
}

/// The handlers of a line stand in one place only.
pub proof fn lemma_handlers_part_is_unique(line: Seq<u8>, a1: int, b1: int, a2: int, b2: int)
    requires
        is_handlers_part(line, a1, b1),
        is_handlers_part(line, a2, b2),
    ensures
        a1 == a2,
        b1 == b2,
{
    if a1 < a2 {
        assert(line[a1 - 1] != EQUALS);
    }
    if a2 < a1 {
        assert(line[a2 - 1] != EQUALS);
    }
    if b1 < b2 {
        assert(line[b1] != EQUALS);
    }
    if b2 < b1 {
        assert(line[b2] != EQUALS);
    }
}

/// Among the handlers, the first that mentions `event` is one handler only.
pub proof fn lemma_event_token_is_unique(part: Seq<u8>, s1: int, e1: int, s2: int, e2: int)
    requires
        is_event_token(part, s1, e1),
        is_event_token(part, s2, e2),
    ensures
        s1 == s2,
        e1 == e2,
{
    let q1 = choose|q: int|
        {
            &&& is_first_occurrence(part, event_word(), q, false)
            &&& 0 <= s1 <= q < e1 <= part.len()
            &&& s1 == 0 || part[s1 - 1] == BLANK
            &&& e1 == part.len() || part[e1] == BLANK
            &&& forall|k: int| s1 <= k < e1 ==> #[trigger] part[k] != BLANK
        };
    let q2 = choose|q: int|
        {
            &&& is_first_occurrence(part, event_word(), q, false)
            &&& 0 <= s2 <= q < e2 <= part.len()
            &&& s2 == 0 || part[s2 - 1] == BLANK
            &&& e2 == part.len() || part[e2] == BLANK
            &&& forall|k: int| s2 <= k < e2 ==> #[trigger] part[k] != BLANK
        };
    assert(q1 == q2);
    if s1 < s2 {
        assert(part[s2 - 1] != BLANK);
    }
    if s2 < s1 {
        assert(part[s1 - 1] != BLANK);
    }
    if e1 < e2 {
        assert(part[e1] != BLANK);
    }
    if e2 < e1 {
        assert(part[e2] != BLANK);
    }
}

/// A handlers line names at most one event handler: what the search returns
/// is the only name that fits.
pub proof fn lemma_handler_is_unique(line: Seq<u8>, first: Seq<u8>, second: Seq<u8>)
    requires
        is_handler_in_line(line, first),
        is_handler_in_line(line, second),
    ensures
        first == second,
{
    let (a1, b1, s1, e1) = choose|a: int, b: int, s: int, e: int|
        {
            &&& is_handlers_part(line, a, b)
            &&& #[trigger] is_event_token(line.subrange(a, b), s, e)
            &&& first == line.subrange(a, b).subrange(s, e)
        };
    let (a2, b2, s2, e2) = choose|a: int, b: int, s: int, e: int|
        {
            &&& is_handlers_part(line, a, b)
            &&& #[trigger] is_event_token(line.subrange(a, b), s, e)
            &&& second == line.subrange(a, b).subrange(s, e)
        };
    lemma_handlers_part_is_unique(line, a1, b1, a2, b2);
    lemma_event_token_is_unique(line.subrange(a1, b1), s1, e1, s2, e2);
}

/// The gamepad's line is one line only.
pub proof fn lemma_gamepad_line_is_unique(lines: Seq<Vec<u8>>, i: int, j: int)
    requires
        is_first_gamepad_line(lines, i),
        is_first_gamepad_line(lines, j),
    ensures
        i == j,
{
    if i < j {
        assert(mentions(lines[i]@, gamepad_word(), true));
    }
    if j < i {
        assert(mentions(lines[j]@, gamepad_word(), true));
    }
}

/// Whether `needle` stands in `hay` at `at`.
fn matches_at(hay: &[u8], needle: &[u8], at: usize, fold: bool) -> (found: bool)
    requires
        at + needle@.len() <= hay@.len(),
    ensures
        found == occurs_at(hay@, needle@, at as int, fold),
{
    let length: usize = hay.len();
    let mut k: usize = 0;
    while k < needle.len()
        invariant
            k <= needle@.len(),
            at + needle@.len() <= hay@.len(),
            hay@.len() == length,
            forall|j: int| 0 <= j < k ==> folded(hay@[at + j], fold) == #[trigger] needle@[j],
        decreases needle@.len() - k,
    {
        let b: u8 = hay[at + k];
        let c: u8 = if fold && 65 <= b && b <= 90 {
            b + 32
        } else {
            b
        };
        if c != needle[k] {
            return false;
        }
        k = k + 1;
    }
    true
}

/// The first place at which `needle` stands in `hay`, if it stands there at
/// all.
pub fn find(hay: &[u8], needle: &[u8], fold: bool) -> (found: Option<usize>)
    ensures
        match found {
            Some(at) => is_first_occurrence(hay@, needle@, at as int, fold),
            None => !mentions(hay@, needle@, fold),
        },
{
    if needle.len() > hay.len() {
        return None;
    }
    let last: usize = hay.len() - needle.len();
    let mut at: usize = 0;
    while at < last
        invariant
            at <= last,
            last == hay@.len() - needle@.len(),
            forall|p: int| 0 <= p < at ==> !occurs_at(hay@, needle@, p, fold),
        decreases last - at,
    {
        if matches_at(hay, needle, at, fold) {
            return Some(at);
        }
        at = at + 1;
    }
    if matches_at(hay, needle, last, fold) {
        Some(last)
    } else {
        None
    }
}

/// The place of the first `byte` in `hay` from `from` on, or the length of
/// `hay`.
pub fn find_byte(hay: &[u8], from: usize, byte: u8) -> (at: usize)
    requires
        from <= hay@.len(),
    ensures
        is_first_byte(hay@, from as int, byte, at as int),
{
    let mut at: usize = from;
    while at < hay.len() && hay[at] != byte
        invariant
            from <= at <= hay@.len(),
            forall|k: int| from <= k < at ==> #[trigger] hay@[k] != byte,
        decreases hay@.len() - at,
    {
        at = at + 1;
    }
    at
}

/// The word `gamepad`, as bytes.
fn gamepad_needle() -> (word: Vec<u8>)
    ensures
        word@ == gamepad_word(),
{
    let word: Vec<u8> = vec![103u8, 97u8, 109u8, 101u8, 112u8, 97u8, 100u8];
    assert(word@ =~= gamepad_word());
    word
}

/// The word `event`, as bytes.
fn event_needle() -> (word: Vec<u8>)
    ensures
        word@ == event_word(),
{
    let word: Vec<u8> = vec![101u8, 118u8, 101u8, 110u8, 116u8];
    assert(word@ =~= event_word());
    word
}

/// The first of the handlers `part` that mentions `event`, as the places
/// where it starts and ends.
pub fn event_token(part: &[u8]) -> (token: Option<(usize, usize)>)
    ensures
        match token {
            Some((start, end)) => is_event_token(part@, start as int, end as int),
            None => !mentions(part@, event_word(), false),
        },
{
    let needle: Vec<u8> = event_needle();
    match find(part, needle.as_slice(), false) {
        None => None,
        Some(q) => {
            let length: usize = part.len();
            assert(q + event_word().len() <= length);
            assert(event_word()[0] == 101u8);
            assert(part@[q + 0] == 101u8);
            let mut start: usize = q;
            while start > 0 && part[start - 1] != BLANK
                invariant
                    start <= q < part@.len(),
                    forall|k: int| start <= k <= q ==> #[trigger] part@[k] != BLANK,
                decreases start,
            {
                start = start - 1;
            }
            let mut end: usize = q + 1;
            while end < length && part[end] != BLANK
                invariant
                    q < end <= length,
                    length == part@.len(),
                    forall|k: int| start <= k < end ==> #[trigger] part@[k] != BLANK,
                decreases part@.len() - end,
            {
                end = end + 1;
            }
            Some((start, end))
        },
    }
}

/// The event handler named in the handlers line `line`, if it names one.
pub fn handler_in_line(line: &[u8]) -> (name: Option<Vec<u8>>)
    ensures
        match name {
            Some(n) => is_handler_in_line(line@, n@),
            None => names_no_handler(line@),
        },
{
    let eq: usize = find_byte(line, 0, EQUALS);
    if eq >= line.len() {
        assert forall|n: Seq<u8>| !is_handler_in_line(line@, n) by {
            assert forall|a: int, b: int| !is_handlers_part(line@, a, b) by {
                if is_handlers_part(line@, a, b) {
                    assert(line@[a - 1] != EQUALS);
                }
            }
        }
        return None;
    }
    let start: usize = eq + 1;
    let end: usize = find_byte(line, start, EQUALS);
    let part: &[u8] = slice_subrange(line, start, end);
    assert(is_handlers_part(line@, start as int, end as int));
    assert forall|a: int, b: int| is_handlers_part(line@, a, b) implies a == start && b == end by {
        lemma_handlers_part_is_unique(line@, a, b, start as int, end as int);
    }
    match event_token(part) {
        None => {
            assert forall|n: Seq<u8>| !is_handler_in_line(line@, n) by {
                assert forall|a: int, b: int, s: int, e: int|
                    is_handlers_part(line@, a, b) implies !#[trigger] is_event_token(
                    line@.subrange(a, b),
                    s,
                    e,
                ) by {
                    assert(line@.subrange(a, b) == part@);
                }
            }
            None
        },
        Some((s, e)) => {
            let name: Vec<u8> = slice_to_vec(slice_subrange(part, s, e));
            Some(name)
        },
    }
}

/// The place of the first line that mentions `gamepad`, if there is one.
pub fn gamepad_line(lines: &Vec<Vec<u8>>) -> (place: Option<usize>)
    ensures
        match place {
            Some(i) => is_first_gamepad_line(lines@, i as int),
            None => forall|i: int| !is_first_gamepad_line(lines@, i),
        },
{
    let needle: Vec<u8> = gamepad_needle();
    let mut i: usize = 0;
    while i < lines.len()
        invariant
            i <= lines@.len(),
            needle@ == gamepad_word(),
            forall|j: int| 0 <= j < i ==> !mentions(#[trigger] lines@[j]@, gamepad_word(), true),
        decreases lines@.len() - i,
    {
        if find(lines[i].as_slice(), needle.as_slice(), true).is_some() {
            return Some(i);
        }
        i = i + 1;
    }
    None
}

/// The event handler of the gamepad in the device list `lines`: none where no
/// line mentions a gamepad, where the list ends before the handlers line, or
/// where that line names no event handler.
pub fn gamepad_handler(lines: &Vec<Vec<u8>>) -> (name: Option<Vec<u8>>)
    ensures
        match name {
            Some(n) => exists|i: int|
                {
                    &&& #[trigger] is_first_gamepad_line(lines@, i)
                    &&& i + HANDLERS_BELOW < lines@.len()
                    &&& is_handler_in_line(lines@[i + HANDLERS_BELOW]@, n@)
                },
            None => forall|i: int| #[trigger]
                is_first_gamepad_line(lines@, i) ==> {
                    ||| i + HANDLERS_BELOW >= lines@.len()
                    ||| names_no_handler(lines@[i + HANDLERS_BELOW]@)
                },
        },
{
    match gamepad_line(lines) {
        None => None,
        Some(i) => {
            assert forall|j: int| is_first_gamepad_line(lines@, j) implies j == i by {
                lemma_gamepad_line_is_unique(lines@, i as int, j);
            }
            if lines.len() - i <= HANDLERS_BELOW {
                return None;
            }
            handler_in_line(lines[i + HANDLERS_BELOW].as_slice())
        },
    }
}

} // verus!
