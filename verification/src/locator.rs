//! Finding the effect endpoint in the audio server's object listing, and
//! pacing the search for it.
//!
//! The listing is read line by line. A line whose first word starts with
//! `id` declares an object, and its second word, without the commas around
//! it, is the object's identifier. A line that holds both the attribute name
//! `node.name` and the effect's name names the effect. The first such line
//! that stands with or after a declaration ends the search: the identifier
//! declared last is the endpoint. A naming line before any declaration has
//! no identifier to give and is passed over.

use crate::units::DISCOVERY_INTERVAL_NS;
use vstd::prelude::*;
use vstd::string::*;

verus! {

/// The attribute that names a node.
pub open spec fn name_attribute() -> Seq<char> {
    "node.name"@
}

/// The name of the effect's node.
pub open spec fn effect_name() -> Seq<char> {
    "effect_input.spatializer"@
}

/// White space: the characters that separate words and that trimming takes
/// off a line.
pub open spec fn is_space(c: char) -> bool {
    let code = c as u32;
    ||| 0x09 <= code <= 0x0d
    ||| code == 0x20
    ||| code == 0x85
    ||| code == 0xa0
    ||| code == 0x1680
    ||| 0x2000 <= code <= 0x200a
    ||| code == 0x2028
    ||| code == 0x2029
    ||| code == 0x202f
    ||| code == 0x205f
    ||| code == 0x3000
}

/// The first position at or after `from` that holds no white space, or the
/// length of the line.
pub open spec fn after_spaces(line: Seq<char>, from: int) -> int
    decreases line.len() - from,
{
    if 0 <= from < line.len() && is_space(line[from]) {
        after_spaces(line, from + 1)
    } else {
        from
    }
}

/// The first position at or after `from` that holds white space, or the
/// length of the line.
pub open spec fn after_word(line: Seq<char>, from: int) -> int
    decreases line.len() - from,
{
    if 0 <= from < line.len() && !is_space(line[from]) {
        after_word(line, from + 1)
    } else {
        from
    }
}

/// The first position at or after `from` that holds no comma, or `to`.
pub open spec fn after_commas(word: Seq<char>, from: int, to: int) -> int
    decreases to - from,
{
    if 0 <= from < to <= word.len() && word[from] == ',' {
        after_commas(word, from + 1, to)
    } else {
        from
    }
}

/// The position after the last character before `to` that is no comma, or
/// `from`.
pub open spec fn before_commas(word: Seq<char>, from: int, to: int) -> int
    decreases to - from,
{
    if 0 <= from < to <= word.len() && word[to - 1] == ',' {
        before_commas(word, from, to - 1)
    } else {
        to
    }
}

/// Whether `needle` occurs in `line` at position `at`.
pub open spec fn occurs_at(line: Seq<char>, needle: Seq<char>, at: int) -> bool {
    &&& 0 <= at
    &&& at + needle.len() <= line.len()
    &&& line.subrange(at, at + needle.len()) == needle
}

/// Whether `needle` occurs anywhere in `line`.
pub open spec fn contains(line: Seq<char>, needle: Seq<char>) -> bool {
    exists|at: int| occurs_at(line, needle, at)
}

/// Where in a line the identifier that it declares stands, as a pair of
/// positions, if the line declares one: the line's first word starts with
/// `id`, a second word follows, and the pair bounds that word without the
/// commas at its ends.
pub open spec fn declared_span(line: Seq<char>) -> Option<(int, int)> {
    let first = after_spaces(line, 0);
    if first + 2 <= line.len() && line[first] == 'i' && line[first + 1] == 'd' {
        let second = after_spaces(line, after_word(line, first));
        if second < line.len() {
            let end = after_word(line, second);
            let from = after_commas(line, second, end);
            Some((from, before_commas(line, from, end)))
        } else {
            None
        }
    } else {
        None
    }
}

/// The identifier that a line declares, if it declares one.
pub open spec fn declared_id(line: Seq<char>) -> Option<Seq<char>> {
    match declared_span(line) {
        Some((from, to)) => Some(line.subrange(from, to)),
        None => None,
    }
}

/// Whether a line names the effect's node.
pub open spec fn names_effect(line: Seq<char>) -> bool {
    contains(line, name_attribute()) && contains(line, effect_name())
}

/// The number of characters from position `from` up to the next line feed
/// or the end of the text.
pub open spec fn line_len(text: Seq<char>, from: int) -> nat
    decreases text.len() - from,
{
    if 0 <= from < text.len() && text[from] != '\n' {
        1 + line_len(text, from + 1)
    } else {
        0
    }
}

/// The position of the first line feed at or after `from`, or the length of
/// the text.
pub open spec fn line_end(text: Seq<char>, from: int) -> int {
    from + line_len(text, from)
}

/// The identifier in force after a line: the one that the line declares,
/// or else the one that was in force before it, if any.
pub open spec fn in_force(line: Seq<char>, current: Option<Seq<char>>) -> Option<Seq<char>> {
    match declared_id(line) {
        Some(id) => Some(id),
        None => current,
    }
}

/// The endpoint that the lines from position `from` on give, where
/// `current` is the identifier declared last before them, if any was.
pub open spec fn scan(text: Seq<char>, from: int, current: Option<Seq<char>>) -> Option<
    Seq<char>,
>
    decreases text.len() - from,
{
    if 0 <= from < text.len() {
        let end = line_end(text, from);
        let line = text.subrange(from, end);
        let id = in_force(line, current);
        if names_effect(line) && id is Some {
            id
        } else if end < text.len() {
            scan(text, end + 1, id)
        } else {
            None
        }
    } else {
        None
    }
}

/// The identifier of the effect endpoint in a listing: the identifier
/// declared last up to the first line that names the effect and has a
/// declaration with or before it. There is none where no such line exists.
pub open spec fn located(text: Seq<char>) -> Option<Seq<char>> {
    scan(text, 0, None)
}

/// A line end lies between its starting point and the end of the text, and
/// no line feed lies before it.
pub proof fn lemma_line_end(text: Seq<char>, from: int)
    requires
        0 <= from <= text.len(),
    ensures
        from <= line_end(text, from) <= text.len(),
        line_end(text, from) < text.len() ==> text[line_end(text, from)] == '\n',
        forall|i: int| from <= i < line_end(text, from) ==> text[i] != '\n',
    decreases text.len() - from,
{
    if from < text.len() && text[from] != '\n' {
        lemma_line_end(text, from + 1);
    }
}

/// A listing without the effect's name anywhere holds no endpoint.
pub proof fn lemma_unnamed_is_not_located(
    text: Seq<char>,
    from: int,
    current: Option<Seq<char>>,
)
    requires
        !contains(text, effect_name()),
    ensures
        scan(text, from, current) is None,
    decreases text.len() - from,
{
    if 0 <= from < text.len() {
        lemma_line_end(text, from);
        let end = line_end(text, from);
        let line = text.subrange(from, end);
        if contains(line, effect_name()) {
            let at = choose|at: int| occurs_at(line, effect_name(), at);
            assert(text.subrange(from + at, from + at + effect_name().len()) =~= line.subrange(
                at,
                at + effect_name().len(),
            ));
            assert(occurs_at(text, effect_name(), from + at));
        }
        if end < text.len() {
            lemma_unnamed_is_not_located(text, end + 1, in_force(line, current));
        }
    }
}

/// White space is skipped forward, not past the end of the line.
pub proof fn lemma_after_spaces(line: Seq<char>, from: int)
    requires
        0 <= from <= line.len(),
    ensures
        from <= after_spaces(line, from) <= line.len(),
    decreases line.len() - from,
{
    if from < line.len() && is_space(line[from]) {
        lemma_after_spaces(line, from + 1);
    }
}

/// A line that declares an identifier holds the letters `id`.
pub proof fn lemma_declaration_holds_id(line: Seq<char>)
    requires
        declared_id(line) is Some,
    ensures
        contains(line, "id"@),
{
    reveal_strlit("id");
    lemma_after_spaces(line, 0);
    let first = after_spaces(line, 0);
    assert(line.subrange(first, first + 2) =~= "id"@);
    assert(occurs_at(line, "id"@, first));
}

/// While no identifier has been declared, lines without the letters `id`
/// give no endpoint, whatever they name.
pub proof fn lemma_undeclared_gives_nothing(text: Seq<char>, from: int)
    requires
        !contains(text, "id"@),
    ensures
        scan(text, from, None) is None,
    decreases text.len() - from,
{
    if 0 <= from < text.len() {
        lemma_line_end(text, from);
        let end = line_end(text, from);
        let line = text.subrange(from, end);
        if declared_id(line) is Some {
            lemma_declaration_holds_id(line);
            let at = choose|at: int| occurs_at(line, "id"@, at);
            assert(text.subrange(from + at, from + at + "id"@.len()) =~= line.subrange(
                at,
                at + "id"@.len(),
            ));
            assert(occurs_at(text, "id"@, from + at));
        }
        if end < text.len() {
            lemma_undeclared_gives_nothing(text, end + 1);
        }
    }
}

/// A listing that declares no identifier holds no endpoint, even where it
/// names the effect.
pub proof fn lemma_undeclared_is_not_located(text: Seq<char>)
    requires
        !contains(text, "id"@),
    ensures
        located(text) is None,
{
    lemma_undeclared_gives_nothing(text, 0);
}

/// The text between a pair of positions, if there is a pair.
pub open spec fn span_text(text: Seq<char>, span: Option<(usize, usize)>) -> Option<Seq<char>> {
    match span {
        Some((from, to)) => Some(text.subrange(from as int, to as int)),
        None => None,
    }
}

/// The characters of a text.
pub fn chars_of(text: &str) -> (chars: Vec<char>)
    ensures
        chars@ == text@,
{
    let mut chars: Vec<char> = Vec::new();
    for c in it: text.chars()
        invariant
            chars@ == it.seq().take(it.index() as int),
            it.seq() == text@,
    {
        chars.push(c);
    }
    chars
}

/// Whether a character is white space.
pub fn is_whitespace(c: char) -> (space: bool)
    ensures
        space == is_space(c),
{
    let code: u32 = c as u32;
    (0x09 <= code && code <= 0x0d) || code == 0x20 || code == 0x85 || code == 0xa0 || code
        == 0x1680 || (0x2000 <= code && code <= 0x200a) || code == 0x2028 || code == 0x2029
        || code == 0x202f || code == 0x205f || code == 0x3000
}

/// Skips white space.
fn skip_spaces(line: &Vec<char>, from: usize) -> (at: usize)
    requires
        from <= line@.len(),
    ensures
        at == after_spaces(line@, from as int),
        from <= at <= line@.len(),
{
    let mut at: usize = from;
    while at < line.len() && is_whitespace(line[at])
        invariant
            from <= at <= line@.len(),
            after_spaces(line@, from as int) == after_spaces(line@, at as int),
        decreases line@.len() - at,
    {
        at = at + 1;
    }
    at
}

/// Skips a word.
fn skip_word(line: &Vec<char>, from: usize) -> (at: usize)
    requires
        from <= line@.len(),
    ensures
        at == after_word(line@, from as int),
        from <= at <= line@.len(),
{
    let mut at: usize = from;
    while at < line.len() && !is_whitespace(line[at])
        invariant
            from <= at <= line@.len(),
            after_word(line@, from as int) == after_word(line@, at as int),
        decreases line@.len() - at,
    {
        at = at + 1;
    }
    at
}

/// Skips commas at the front of a word.
fn skip_commas(line: &Vec<char>, from: usize, to: usize) -> (at: usize)
    requires
        from <= to <= line@.len(),
    ensures
        at == after_commas(line@, from as int, to as int),
        from <= at <= to,
{
    let mut at: usize = from;
    while at < to && line[at] == ','
        invariant
            from <= at <= to <= line@.len(),
            after_commas(line@, from as int, to as int) == after_commas(
                line@,
                at as int,
                to as int,
            ),
        decreases to - at,
    {
        at = at + 1;
    }
    at
}

/// Drops commas at the back of a word.
fn drop_commas(line: &Vec<char>, from: usize, to: usize) -> (at: usize)
    requires
        from <= to <= line@.len(),
    ensures
        at == before_commas(line@, from as int, to as int),
        from <= at <= to,
{
    let mut at: usize = to;
    while from < at && line[at - 1] == ','
        invariant
            from <= at <= to <= line@.len(),
            before_commas(line@, from as int, to as int) == before_commas(
                line@,
                from as int,
                at as int,
            ),
        decreases at - from,
    {
        at = at - 1;
    }
    at
}

/// Where in a line the identifier that it declares stands.
fn find_declared(line: &Vec<char>) -> (span: Option<(usize, usize)>)
    ensures
        span is Some <==> declared_span(line@) is Some,
        span matches Some((from, to)) ==> {
            &&& declared_span(line@) == Some((from as int, to as int))
            &&& from <= to <= line@.len()
        },
{
    let first: usize = skip_spaces(line, 0);
    if line.len() - first >= 2 && line[first] == 'i' && line[first + 1] == 'd' {
        let second: usize = skip_spaces(line, skip_word(line, first));
        if second < line.len() {
            let end: usize = skip_word(line, second);
            let from: usize = skip_commas(line, second, end);
            let to: usize = drop_commas(line, from, end);
            Some((from, to))
        } else {
            None
        }
    } else {
        None
    }
}

/// Whether `needle` occurs in `line` at position `at`.
fn matches_at(line: &Vec<char>, needle: &Vec<char>, at: usize) -> (hit: bool)
    requires
        at + needle@.len() <= line@.len(),
    ensures
        hit == occurs_at(line@, needle@, at as int),
{
    let length: usize = line.len();
    let mut k: usize = 0;
    while k < needle.len()
        invariant
            k <= needle@.len(),
            at + needle@.len() <= line@.len() == length,
            forall|j: int| 0 <= j < k ==> line@[at + j] == needle@[j],
        decreases needle@.len() - k,
    {
        if line[at + k] != needle[k] {
            return false;
        }
        k = k + 1;
    }
    assert(line@.subrange(at as int, at + needle@.len()) =~= needle@);
    true
}

/// Whether `needle` occurs anywhere in `line`.
pub fn line_contains(line: &Vec<char>, needle: &Vec<char>) -> (found: bool)
    ensures
        found == contains(line@, needle@),
{
    if needle.len() == 0 {
        assert(line@.subrange(0, 0) =~= needle@);
        assert(occurs_at(line@, needle@, 0));
        return true;
    }
    let length: usize = line.len();
    let mut at: usize = 0;
    while at < length && length - at >= needle.len()
        invariant
            at <= line@.len() == length,
            0 < needle@.len(),
            forall|i: int| 0 <= i < at ==> !occurs_at(line@, needle@, i),
        decreases line@.len() - at,
    {
        if matches_at(line, needle, at) {
            return true;
        }
        at = at + 1;
    }
    false
}

/// Finds the identifier of the effect endpoint in a listing of the audio
/// server's objects.
pub fn find_spatializer_node(listing: &str) -> (id: Option<String>)
    ensures
        id is Some <==> located(listing@) is Some,
        id matches Some(found) ==> located(listing@) == Some(found@),
{
    let text: Vec<char> = chars_of(listing);
    let attribute: Vec<char> = chars_of("node.name");
    let effect: Vec<char> = chars_of("effect_input.spatializer");
    let mut from: usize = 0;
    let mut current: Option<(usize, usize)> = None;
    while from < text.len()
        invariant
            text@ == listing@,
            attribute@ == name_attribute(),
            effect@ == effect_name(),
            current matches Some((lo, hi)) ==> lo <= hi <= text@.len(),
            located(text@) == scan(text@, from as int, span_text(text@, current)),
        decreases text@.len() - from,
    {
        let mut end: usize = from;
        while end < text.len() && text[end] != '\n'
            invariant
                from <= end <= text@.len(),
                line_end(text@, from as int) == line_end(text@, end as int),
            decreases text@.len() - end,
        {
            end = end + 1;
        }
        let mut line: Vec<char> = Vec::new();
        let mut at: usize = from;
        while at < end
            invariant
                from <= at <= end <= text@.len(),
                line@ == text@.subrange(from as int, at as int),
            decreases end - at,
        {
            line.push(text[at]);
            at = at + 1;
        }
        match find_declared(&line) {
            Some((lo, hi)) => {
                assert(line@.subrange(lo as int, hi as int) =~= text@.subrange(
                    from + lo,
                    from + hi,
                ));
                current = Some((from + lo, from + hi));
            },
            None => {},
        }
        if line_contains(&line, &attribute) && line_contains(&line, &effect) {
            if let Some((lo, hi)) = current {
                let found: String = String::from_str(listing.substring_char(lo, hi));
                return Some(found);
            }
        }
        if end == text.len() {
            from = end;
        } else {
            from = end + 1;
        }
    }
    None
}

/// What the control loop knows of the effect endpoint: its identifier once
/// found, and when it was last searched for, in nanoseconds.
#[derive(Debug)]
pub struct EndpointState {
    pub identifier: Option<String>,
    pub last_attempt: u64,
}

/// Whether a search is due: nothing is found yet, and the discovery interval
/// has passed since the last attempt.
pub open spec fn search_is_due(found: bool, last_attempt: int, now: int) -> bool {
    !found && now - last_attempt >= DISCOVERY_INTERVAL_NS
}

impl EndpointState {
    /// The state at time `now`, before any search.
    pub fn new(now: u64) -> (state: Self)
        ensures
            state.identifier is None,
            state.last_attempt == now,
    {
        EndpointState { identifier: None, last_attempt: now }
    }

    /// Whether the endpoint has been found.
    pub fn is_found(&self) -> (found: bool)
        ensures
            found == self.identifier is Some,
    {
        self.identifier.is_some()
    }

    /// Whether a search is due at time `now`.
    pub fn search_due(&self, now: u64) -> (due: bool)
        ensures
            due == search_is_due(self.identifier is Some, self.last_attempt as int, now as int),
    {
        self.identifier.is_none() && now >= self.last_attempt && now - self.last_attempt
            >= DISCOVERY_INTERVAL_NS
    }

    /// Takes in what a search at time `now` gave. An endpoint that was found
    /// before stays, and the time of the last attempt with it.
    pub fn record(&mut self, found: Option<String>, now: u64)
        ensures
            old(self).identifier is Some ==> *final(self) == *old(self),
            old(self).identifier is None ==> final(self).identifier == found,
            old(self).identifier is None ==> final(self).last_attempt == now,
    {
        if self.identifier.is_none() {
            self.identifier = found;
            self.last_attempt = now;
        }
    }
}

/// Once the endpoint is found no search is due, at any time.
pub proof fn lemma_found_never_searches(last_attempt: int, now: int)
    ensures
        !search_is_due(true, last_attempt, now),
{
}

/// Within the discovery interval after an attempt no search is due.
pub proof fn lemma_search_is_paced(found: bool, last_attempt: int, now: int)
    requires
        now - last_attempt < DISCOVERY_INTERVAL_NS,
    ensures
        !search_is_due(found, last_attempt, now),
{
}

} // verus!
