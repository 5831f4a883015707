//! The progress protocol between a running script and its driver: marker
//! lines on the wire, how they are recovered from terminal output, and how
//! they drive a one-at-a-time progress indicator.

use crate::text::{
    chars_of, decimal, decimal_string, find_char, find_from, matches_at, occurs_at, parse_number,
    push_char, read_number, string_of,
};
use vstd::prelude::*;
use vstd::string::*;

verus! {

/// What a marker reports about a step.
#[derive(Debug, Clone, Copy, PartialEq, Eq, Structural)]
pub enum MarkerAction {
    /// The step begins.
    Start,
    /// The step's commands ran and succeeded.
    Done,
    /// The step's guard held; nothing ran.
    Skip,
    /// The step's commands failed.
    Fail,
    /// The whole sequence is through; the index is the number of steps.
    Complete,
}

/// Mathematical model of a progress event.
pub ghost struct EventView {
    pub action: MarkerAction,
    pub index: nat,
    pub description: Seq<char>,
}

/// A parsed unit of the progress stream: an action with the 1-based index
/// of its step and the step's description.
#[derive(Debug, Clone, PartialEq, Eq)]
pub struct ProgressEvent {
    pub action: MarkerAction,
    pub index: usize,
    pub description: String,
}

impl View for ProgressEvent {
    type V = EventView;

    open spec fn view(&self) -> EventView {
        EventView {
            action: self.action,
            index: self.index as nat,
            description: self.description@,
        }
    }
}

/// View of an optional event.
pub open spec fn opt_event_view(e: Option<ProgressEvent>) -> Option<EventView> {
    match e {
        Some(event) => Some(event@),
        None => None,
    }
}

/// The word that stands for an action on the wire.
pub open spec fn action_name(action: MarkerAction) -> Seq<char> {
    match action {
        MarkerAction::Start => "START"@,
        MarkerAction::Done => "DONE"@,
        MarkerAction::Skip => "SKIP"@,
        MarkerAction::Fail => "FAIL"@,
        MarkerAction::Complete => "COMPLETE"@,
    }
}

/// The action that a word stands for, if any.
pub open spec fn action_named(word: Seq<char>) -> Option<MarkerAction> {
    if word == "START"@ {
        Some(MarkerAction::Start)
    } else if word == "DONE"@ {
        Some(MarkerAction::Done)
    } else if word == "SKIP"@ {
        Some(MarkerAction::Skip)
    } else if word == "FAIL"@ {
        Some(MarkerAction::Fail)
    } else if word == "COMPLETE"@ {
        Some(MarkerAction::Complete)
    } else {
        None
    }
}

/// What every marker line begins with.
pub open spec fn marker_prefix() -> Seq<char> {
    "TENGU_STEP:"@
}

/// A marker on the wire: `TENGU_STEP:<ACTION>:<index>:<description>`.
pub open spec fn marker_wire(e: EventView) -> Seq<char> {
    marker_prefix() + action_name(e.action) + ":"@ + decimal(e.index) + ":"@ + e.description
}

impl MarkerAction {
    /// The word that stands for this action on the wire.
    pub fn name(&self) -> (r: &'static str)
        ensures
            r@ == action_name(*self),
    {
        match self {
            MarkerAction::Start => "START",
            MarkerAction::Done => "DONE",
            MarkerAction::Skip => "SKIP",
            MarkerAction::Fail => "FAIL",
            MarkerAction::Complete => "COMPLETE",
        }
    }
}

impl ProgressEvent {
    /// The marker line that reports this event.
    pub fn wire_text(&self) -> (r: String)
        ensures
            r@ == marker_wire(self@),
    {
        let mut out = String::from_str("TENGU_STEP:");
        out.append(self.action.name());
        out.append(":");
        out.append(decimal_string(self.index).as_str());
        out.append(":");
        out.append(self.description.as_str());
        out
    }
}

/// Where the scan of a line stands with respect to escape sequences.
#[derive(Debug, Clone, Copy, PartialEq, Eq, Structural)]
pub enum ScanMode {
    /// In ordinary text.
    Text,
    /// Directly behind an escape character.
    Escape,
    /// Inside an escape sequence, behind its opening bracket.
    Sequence,
}

/// The escape character.
pub open spec fn escape_char() -> char {
    '\x1b'
}

/// Whether a character is an ASCII letter, which ends an escape sequence.
pub open spec fn is_ascii_letter(c: char) -> bool {
    ('a' <= c <= 'z') || ('A' <= c <= 'Z')
}

/// One step of the scan: the next mode, and the character that is kept, if
/// it is. An escape character followed by `[` opens a sequence that runs up
/// to its first ASCII letter; all of it is dropped. An escape character
/// followed by anything else is dropped alone.
pub open spec fn scan_step(mode: ScanMode, c: char) -> (ScanMode, Option<char>) {
    match mode {
        ScanMode::Sequence => if is_ascii_letter(c) {
            (ScanMode::Text, None)
        } else {
            (ScanMode::Sequence, None)
        },
        ScanMode::Escape => if c == '[' {
            (ScanMode::Sequence, None)
        } else if c == escape_char() {
            (ScanMode::Escape, None)
        } else {
            (ScanMode::Text, Some(c))
        },
        ScanMode::Text => if c == escape_char() {
            (ScanMode::Escape, None)
        } else {
            (ScanMode::Text, Some(c))
        },
    }
}

/// The scan of a whole text from left to right: what is kept, and the mode
/// at the end.
pub open spec fn scan(s: Seq<char>) -> (Seq<char>, ScanMode)
    decreases s.len(),
{
    if s.len() == 0 {
        (Seq::empty(), ScanMode::Text)
    } else {
        let (kept, mode) = scan(s.drop_last());
        let (next, emitted) = scan_step(mode, s.last());
        match emitted {
            Some(c) => (kept.push(c), next),
            None => (kept, next),
        }
    }
}

/// The text without its ANSI escape sequences.
pub open spec fn ansi_stripped(s: Seq<char>) -> Seq<char> {
    scan(s).0
}

/// Strips ANSI escape sequences from a text.
pub fn strip_ansi_codes(s: &str) -> (r: String)
    ensures
        r@ == ansi_stripped(s@),
{
    let chars = chars_of(s);
    let mut out = String::new();
    let mut mode = ScanMode::Text;
    let mut i: usize = 0;
    while i < chars.len()
        invariant
            i <= chars.len(),
            (out@, mode) == scan(chars@.take(i as int)),
        decreases chars.len() - i,
    {
        let c = chars[i];
        proof {
            assert(chars@.take(i + 1).drop_last() =~= chars@.take(i as int));
            assert(chars@.take(i + 1).last() == c);
        }
        match mode {
            ScanMode::Sequence => {
                if ('a' <= c && c <= 'z') || ('A' <= c && c <= 'Z') {
                    mode = ScanMode::Text;
                }
            },
            ScanMode::Escape => {
                if c == '[' {
                    mode = ScanMode::Sequence;
                } else if c == '\x1b' {
                    mode = ScanMode::Escape;
                } else {
                    push_char(&mut out, c);
                    mode = ScanMode::Text;
                }
            },
            ScanMode::Text => {
                if c == '\x1b' {
                    mode = ScanMode::Escape;
                } else {
                    push_char(&mut out, c);
                }
            },
        }
        i += 1;
    }
    assert(chars@.take(chars.len() as int) =~= chars@);
    out
}

/// A text without escape characters is left as it is.
pub proof fn lemma_strip_plain(s: Seq<char>)
    requires
        forall|i: int| 0 <= i < s.len() ==> s[i] != escape_char(),
    ensures
        scan(s) == (s, ScanMode::Text),
    decreases s.len(),
{
    if s.len() > 0 {
        lemma_strip_plain(s.drop_last());
        assert(s.drop_last().push(s.last()) =~= s);
    }
}

/// Whether a character is white space, by the Unicode property of that
/// name.
pub open spec fn is_whitespace(c: char) -> bool {
    let code = c as u32;
    ||| 0x09 <= code <= 0x0d
    ||| code == 0x20
    ||| code == 0x85
    ||| code == 0xa0
    ||| code == 0x1680
    ||| 0x2000 <= code <= 0x200a
    ||| code == 0x2028
    ||| code == 0x2029
    ||| code == 0x202f
    ||| code == 0x205f
    ||| code == 0x3000
}

/// Position of the first character at or after `from` that is no white
/// space, or the length of `s`.
pub open spec fn text_start(s: Seq<char>, from: int) -> int
    decreases s.len() - from,
{
    if from >= s.len() {
        s.len() as int
    } else if !is_whitespace(s[from]) {
        from
    } else {
        text_start(s, from + 1)
    }
}

/// The end of the text in `s[from..to]`: the position behind its last
/// character that is no white space, or `from`.
pub open spec fn text_end(s: Seq<char>, from: int, to: int) -> int
    decreases to - from,
{
    if to <= from {
        from
    } else if !is_whitespace(s[to - 1]) {
        to
    } else {
        text_end(s, from, to - 1)
    }
}

/// The text without the white space before and behind it.
pub open spec fn trimmed(s: Seq<char>) -> Seq<char> {
    let start = text_start(s, 0);
    s.subrange(start, text_end(s, start, s.len() as int))
}

fn whitespace(c: char) -> (r: bool)
    ensures
        r == is_whitespace(c),
{
    let code: u32 = c as u32;
    (0x09 <= code && code <= 0x0d) || code == 0x20 || code == 0x85 || code == 0xa0 || code
        == 0x1680 || (0x2000 <= code && code <= 0x200a) || code == 0x2028 || code == 0x2029
        || code == 0x202f || code == 0x205f || code == 0x3000
}

/// Removes the white space before and behind a text.
pub fn trim(s: &str) -> (r: String)
    ensures
        r@ == trimmed(s@),
{
    let chars = chars_of(s);
    let mut start: usize = 0;
    while start < chars.len() && whitespace(chars[start])
        invariant
            start <= chars.len(),
            text_start(chars@, 0) == text_start(chars@, start as int),
        decreases chars.len() - start,
    {
        start += 1;
    }
    let mut end: usize = chars.len();
    while end > start && whitespace(chars[end - 1])
        invariant
            start <= end <= chars.len(),
            text_end(chars@, start as int, chars.len() as int) == text_end(
                chars@,
                start as int,
                end as int,
            ),
        decreases end - start,
    {
        end -= 1;
    }
    string_of(&chars, start, end)
}

/// What a line says as a marker, by the marker grammar: the prefix, the
/// action up to the next colon, the index up to the colon after that, and
/// the description, which is all the rest and may be missing together with
/// its colon. A line that does not fit says nothing.
pub open spec fn marker_parsed(t: Seq<char>) -> Option<EventView> {
    let p = marker_prefix().len() as int;
    if !occurs_at(t, marker_prefix(), 0) {
        None
    } else {
        let a = find_from(t, ':', p);
        if a >= t.len() {
            None
        } else {
            let b = find_from(t, ':', a + 1);
            let description = if b >= t.len() {
                Seq::empty()
            } else {
                t.subrange(b + 1, t.len() as int)
            };
            match (action_named(t.subrange(p, a)), parse_number(t.subrange(a + 1, b))) {
                (Some(action), Some(index)) => Some(EventView { action, index, description }),
                _ => None,
            }
        }
    }
}

/// What a line of terminal output says as a marker: the line is trimmed,
/// stripped of escape sequences, and then held against the marker grammar.
pub open spec fn line_parsed(line: Seq<char>) -> Option<EventView> {
    marker_parsed(ansi_stripped(trimmed(line)))
}

fn action_of(word: &str) -> (r: Option<MarkerAction>)
    ensures
        r == action_named(word@),
{
    let w = String::from_str(word);
    if w == String::from_str("START") {
        Some(MarkerAction::Start)
    } else if w == String::from_str("DONE") {
        Some(MarkerAction::Done)
    } else if w == String::from_str("SKIP") {
        Some(MarkerAction::Skip)
    } else if w == String::from_str("FAIL") {
        Some(MarkerAction::Fail)
    } else if w == String::from_str("COMPLETE") {
        Some(MarkerAction::Complete)
    } else {
        None
    }
}

/// Holds a clean line against the marker grammar.
pub fn parse_marker(text: &str) -> (r: Option<ProgressEvent>)
    ensures
        opt_event_view(r) == marker_parsed(text@),
{
    let t = chars_of(text);
    let prefix = chars_of("TENGU_STEP:");
    let p = prefix.len();
    if p > t.len() || !matches_at(&t, &prefix, 0) {
        return None;
    }
    let a = find_char(&t, ':', p);
    if a >= t.len() {
        return None;
    }
    let b = find_char(&t, ':', a + 1);
    let action = action_of(string_of(&t, p, a).as_str());
    let index = read_number(&t, a + 1, b);
    let description = if b >= t.len() {
        String::new()
    } else {
        string_of(&t, b + 1, t.len())
    };
    match (action, index) {
        (Some(action), Some(index)) => Some(ProgressEvent { action, index, description }),
        _ => None,
    }
}

/// Reads a progress marker from a line of terminal output. Lines that are
/// no markers give `None`.
pub fn parse_progress_marker(line: &str) -> (r: Option<ProgressEvent>)
    ensures
        opt_event_view(r) == line_parsed(line@),
{
    let clean = strip_ansi_codes(trim(line).as_str());
    parse_marker(clean.as_str())
}

/// Mathematical model of a request to the progress display.
pub ghost enum IndicatorView {
    /// Show an indicator for a running step.
    Open { step: nat, total: nat, description: Seq<char> },
    /// Take the open indicator away.
    Close,
    /// Print the permanent one-line summary of a step that ended.
    Summary { step: nat, total: nat, outcome: MarkerAction, description: Seq<char> },
}

/// A request to the progress display.
#[derive(Debug, Clone, PartialEq, Eq)]
pub enum IndicatorAction {
    /// Show an indicator for a running step.
    Open { step: usize, total: usize, description: String },
    /// Take the open indicator away.
    Close,
    /// Print the permanent one-line summary of a step that ended.
    Summary { step: usize, total: usize, outcome: MarkerAction, description: String },
}

impl View for IndicatorAction {
    type V = IndicatorView;

    open spec fn view(&self) -> IndicatorView {
        match self {
            IndicatorAction::Open { step, total, description } => IndicatorView::Open {
                step: *step as nat,
                total: *total as nat,
                description: description@,
            },
            IndicatorAction::Close => IndicatorView::Close,
            IndicatorAction::Summary { step, total, outcome, description } => IndicatorView::Summary {
                step: *step as nat,
                total: *total as nat,
                outcome: *outcome,
                description: description@,
            },
        }
    }
}

/// Models of a list of requests, in order.
pub open spec fn actions_view(actions: Seq<IndicatorAction>) -> Seq<IndicatorView> {
    Seq::new(actions.len(), |i: int| actions[i]@)
}

/// Closes the indicator where one is open.
pub open spec fn closing(open: bool) -> Seq<IndicatorView> {
    if open {
        seq![IndicatorView::Close]
    } else {
        Seq::empty()
    }
}

/// What the display is asked to do for an event. Every event closes the
/// indicator that is still open. A start then opens one for its step; an
/// end of a step (done, skipped, failed) prints that step's summary;
/// completion asks for nothing more.
pub open spec fn event_actions(open: bool, total: nat, e: EventView) -> Seq<IndicatorView> {
    closing(open) + match e.action {
        MarkerAction::Start => seq![
            IndicatorView::Open { step: e.index, total, description: e.description },
        ],
        MarkerAction::Complete => Seq::empty(),
        outcome => seq![
            IndicatorView::Summary { step: e.index, total, outcome, description: e.description },
        ],
    }
}

/// What the display is asked to do for a line of output: for a marker what
/// its event asks, for any other line nothing.
pub open spec fn line_actions(open: bool, total: nat, line: Seq<char>) -> Seq<IndicatorView> {
    match line_parsed(line) {
        Some(e) => event_actions(open, total, e),
        None => Seq::empty(),
    }
}

/// Whether an indicator is open after a line of output.
pub open spec fn open_after_line(open: bool, line: Seq<char>) -> bool {
    match line_parsed(line) {
        Some(e) => e.action is Start,
        None => open,
    }
}

/// The position of a step among all steps, as it is shown: `[3/43]`.
pub open spec fn progress_label(step: nat, total: nat) -> Seq<char> {
    "["@ + decimal(step) + "/"@ + decimal(total) + "]"@
}

/// The sign that a summary shows for an outcome.
pub open spec fn outcome_sign(outcome: MarkerAction) -> Seq<char> {
    match outcome {
        MarkerAction::Skip => "o"@,
        MarkerAction::Fail => "x"@,
        _ => "v"@,
    }
}

/// The one-line summary of a step that ended.
pub open spec fn summary_text(
    step: nat,
    total: nat,
    outcome: MarkerAction,
    description: Seq<char>,
) -> Seq<char> {
    let line = progress_label(step, total) + " "@ + outcome_sign(outcome) + " "@ + description;
    if outcome is Skip {
        line + " (skipped)"@
    } else {
        line
    }
}

/// Writes the position of a step among all steps.
pub fn label(step: usize, total: usize) -> (r: String)
    ensures
        r@ == progress_label(step as nat, total as nat),
{
    let mut out = String::from_str("[");
    out.append(decimal_string(step).as_str());
    out.append("/");
    out.append(decimal_string(total).as_str());
    out.append("]");
    out
}

/// Writes the one-line summary of a step that ended.
pub fn summary(step: usize, total: usize, outcome: MarkerAction, description: &str) -> (r: String)
    ensures
        r@ == summary_text(step as nat, total as nat, outcome, description@),
{
    let mut out = label(step, total);
    out.append(" ");
    out.append(
        match outcome {
            MarkerAction::Skip => "o",
            MarkerAction::Fail => "x",
            _ => "v",
        },
    );
    out.append(" ");
    out.append(description);
    match outcome {
        MarkerAction::Skip => {
            out.append(" (skipped)");
        },
        _ => {},
    }
    out
}

/// Follows the progress stream and keeps at most one indicator open.
#[derive(Debug, Clone, Copy, PartialEq, Eq, Structural)]
pub struct ProgressTracker {
    /// The number of steps that are expected.
    pub total: usize,
    /// Whether an indicator is open.
    pub open: bool,
}

impl ProgressTracker {
    /// A tracker without an open indicator.
    pub fn new(total: usize) -> (r: Self)
        ensures
            r == (ProgressTracker { total, open: false }),
    {
        ProgressTracker { total, open: false }
    }

    /// Takes an event and says what the display is to do.
    pub fn on_event(&mut self, event: ProgressEvent) -> (r: Vec<IndicatorAction>)
        ensures
            actions_view(r@) == event_actions(old(self).open, old(self).total as nat, event@),
            final(self).total == old(self).total,
            final(self).open == (event.action is Start),
    {
        let mut actions: Vec<IndicatorAction> = Vec::new();
        if self.open {
            actions.push(IndicatorAction::Close);
        }
        assert(actions_view(actions@) =~= closing(self.open));
        match event.action {
            MarkerAction::Start => {
                actions.push(
                    IndicatorAction::Open {
                        step: event.index,
                        total: self.total,
                        description: event.description,
                    },
                );
                self.open = true;
            },
            MarkerAction::Complete => {
                self.open = false;
            },
            outcome => {
                actions.push(
                    IndicatorAction::Summary {
                        step: event.index,
                        total: self.total,
                        outcome,
                        description: event.description,
                    },
                );
                self.open = false;
            },
        }
        assert(actions_view(actions@) =~= event_actions(
            old(self).open,
            old(self).total as nat,
            event@,
        ));
        actions
    }

    /// Takes a line of output and says what the display is to do. Lines
    /// that are no markers ask for nothing and change nothing.
    pub fn on_line(&mut self, line: &str) -> (r: Vec<IndicatorAction>)
        ensures
            actions_view(r@) == line_actions(old(self).open, old(self).total as nat, line@),
            final(self).total == old(self).total,
            final(self).open == open_after_line(old(self).open, line@),
    {
        match parse_progress_marker(line) {
            Some(event) => self.on_event(event),
            None => {
                let actions: Vec<IndicatorAction> = Vec::new();
                assert(actions_view(actions@) =~= Seq::empty());
                actions
            },
        }
    }

    /// Ends the stream: the indicator that is still open is closed.
    pub fn finish(&mut self) -> (r: Vec<IndicatorAction>)
        ensures
            actions_view(r@) == closing(old(self).open),
            final(self).total == old(self).total,
            !final(self).open,
    {
        let mut actions: Vec<IndicatorAction> = Vec::new();
        if self.open {
            actions.push(IndicatorAction::Close);
        }
        assert(actions_view(actions@) =~= closing(self.open));
        self.open = false;
        actions
    }
}

/// No character is the escape character.
pub open spec fn escape_free(s: Seq<char>) -> bool {
    forall|i: int| 0 <= i < s.len() ==> s[i] != escape_char()
}

/// No character is a colon.
pub open spec fn colon_free(s: Seq<char>) -> bool {
    forall|i: int| 0 <= i < s.len() ==> s[i] != ':'
}

proof fn lemma_action_names(action: MarkerAction)
    ensures
        escape_free(action_name(action)),
        colon_free(action_name(action)),
        action_named(action_name(action)) == Some(action),
{
    reveal_strlit("START");
    reveal_strlit("DONE");
    reveal_strlit("SKIP");
    reveal_strlit("FAIL");
    reveal_strlit("COMPLETE");
    let name = action_name(action);
    assert("START"@.len() == 5 && "DONE"@.len() == 4 && "SKIP"@.len() == 4 && "FAIL"@.len() == 4
        && "COMPLETE"@.len() == 8);
    assert("DONE"@[0] == 'D' && "SKIP"@[0] == 'S' && "FAIL"@[0] == 'F');
    assert forall|i: int| 0 <= i < name.len() implies name[i] != escape_char() && name[i]
        != ':' by {
        if i == 0 {
        } else if i == 1 {
        } else if i == 2 {
        } else if i == 3 {
        } else if i == 4 {
        } else if i == 5 {
        } else if i == 6 {
        } else {
            assert(i == 7);
        }
    }
}

proof fn lemma_marker_prefix()
    ensures
        marker_prefix().len() == 11,
        escape_free(marker_prefix()),
        marker_prefix()[0] == 'T',
        ":"@.len() == 1,
        ":"@[0] == ':',
{
    reveal_strlit("TENGU_STEP:");
    reveal_strlit(":");
    let p = marker_prefix();
    assert forall|i: int| 0 <= i < p.len() implies p[i] != escape_char() by {
        if i == 0 {
        } else if i == 1 {
        } else if i == 2 {
        } else if i == 3 {
        } else if i == 4 {
        } else if i == 5 {
        } else if i == 6 {
        } else if i == 7 {
        } else if i == 8 {
        } else if i == 9 {
        } else {
            assert(i == 10);
        }
    }
}

/// Whether an event survives the way from the script to the driver: its
/// index fits the machine word, and its description holds no escape
/// character and does not end in white space.
pub open spec fn wire_safe(e: EventView) -> bool {
    &&& e.index <= usize::MAX
    &&& escape_free(e.description)
    &&& e.description.len() > 0 ==> !is_whitespace(e.description.last())
}

/// The marker grammar reads a marker as the event that it was written for.
pub proof fn lemma_marker_parsed(e: EventView)
    requires
        e.index <= usize::MAX,
    ensures
        marker_parsed(marker_wire(e)) == Some(e),
{
    let p = marker_prefix();
    let name = action_name(e.action);
    let number = decimal(e.index);
    let w = marker_wire(e);
    lemma_marker_prefix();
    lemma_action_names(e.action);
    crate::text::lemma_decimal_denotes(e.index);
    crate::text::lemma_decimal_round_trip(e.index);
    let a: int = 11 + name.len() as int;
    let b: int = a + 1 + number.len();
    assert(w.len() == b + 1 + e.description.len());
    assert(w.subrange(0, 11) =~= p);
    assert(w.subrange(11, a) =~= name);
    assert(w.subrange(a + 1, b) =~= number);
    assert(w.subrange(b + 1, w.len() as int) =~= e.description);
    assert(w[a] == ':' && w[b] == ':');
    assert forall|i: int| 11 <= i < a implies w[i] != ':' by {
        assert(w[i] == name[i - 11]);
    }
    assert forall|i: int| a + 1 <= i < b implies w[i] != ':' by {
        assert(w[i] == number[i - a - 1]);
        assert(crate::text::is_digit(number[i - a - 1]));
    }
    crate::text::lemma_find_from(w, ':', 11, a);
    crate::text::lemma_find_from(w, ':', a + 1, b);
}

proof fn lemma_text_end(s: Seq<char>, from: int, to: int)
    requires
        0 <= from < to <= s.len(),
        !is_whitespace(s[to - 1]),
    ensures
        text_end(s, from, to) == to,
{
}

/// A marker that a script prints for an event is read from a line that
/// holds it, and nothing else, as that event: trimming and stripping
/// leave the marker as it is, and the grammar reads it back.
pub proof fn lemma_marker_round_trip(e: EventView)
    requires
        wire_safe(e),
    ensures
        trimmed(marker_wire(e)) == marker_wire(e),
        scan(marker_wire(e)) == (marker_wire(e), ScanMode::Text),
        line_parsed(marker_wire(e)) == Some(e),
{
    let p = marker_prefix();
    let name = action_name(e.action);
    let number = decimal(e.index);
    let w = marker_wire(e);
    lemma_marker_prefix();
    lemma_action_names(e.action);
    crate::text::lemma_decimal_denotes(e.index);
    let a: int = 11 + name.len() as int;
    let b: int = a + 1 + number.len();
    assert(w.len() == b + 1 + e.description.len());
    assert(w[0] == 'T');
    assert(w[b] == ':');
    if e.description.len() > 0 {
        assert(w[w.len() - 1] == e.description.last());
    }
    lemma_text_end(w, 0, w.len() as int);
    assert(w.subrange(0, w.len() as int) =~= w);
    assert(trimmed(w) == w);
    assert forall|i: int| 0 <= i < w.len() implies w[i] != escape_char() by {
        if i < 11 {
            assert(w[i] == p[i]);
        } else if i < a {
            assert(w[i] == name[i - 11]);
        } else if i == a {
        } else if i < b {
            assert(w[i] == number[i - a - 1]);
            assert(crate::text::is_digit(number[i - a - 1]));
        } else if i == b {
        } else {
            assert(w[i] == e.description[i - b - 1]);
        }
    }
    lemma_strip_plain(w);
    lemma_marker_parsed(e);
}

/// Whether a text is one escape sequence: the escape character, an
/// opening bracket, any characters that are no ASCII letters, and one
/// ASCII letter that ends it.
pub open spec fn is_escape_sequence(s: Seq<char>) -> bool {
    &&& s.len() >= 3
    &&& s[0] == escape_char()
    &&& s[1] == '['
    &&& is_ascii_letter(s.last())
    &&& forall|i: int| 2 <= i < s.len() - 1 ==> !is_ascii_letter(#[trigger] s[i])
}

/// Whether a text is what stands beside a colored marker: nothing, or one
/// escape sequence.
pub open spec fn is_color_code(s: Seq<char>) -> bool {
    s.len() == 0 || is_escape_sequence(s)
}

proof fn lemma_scan_inside_sequence(s: Seq<char>, k: int)
    requires
        2 <= k <= s.len(),
        s[0] == escape_char(),
        s[1] == '[',
        forall|i: int| 2 <= i < k ==> !is_ascii_letter(#[trigger] s[i]),
    ensures
        scan(s.take(k)) == (Seq::<char>::empty(), ScanMode::Sequence),
    decreases k,
{
    if k == 2 {
        assert(s.take(2).drop_last() =~= s.take(1));
        assert(s.take(1).drop_last() =~= s.take(0));
        assert(scan(s.take(0)) == (Seq::<char>::empty(), ScanMode::Text));
        assert(s.take(1).last() == s[0]);
        assert(scan(s.take(1)) == (Seq::<char>::empty(), ScanMode::Escape));
        assert(s.take(2).last() == s[1]);
    } else {
        lemma_scan_inside_sequence(s, k - 1);
        assert(s.take(k).drop_last() =~= s.take(k - 1));
        assert(s.take(k).last() == s[k - 1]);
    }
}

/// The scan drops a color code whole and stands in ordinary text behind
/// it.
pub proof fn lemma_scan_color_code(s: Seq<char>)
    requires
        is_color_code(s),
    ensures
        scan(s) == (Seq::<char>::empty(), ScanMode::Text),
{
    if s.len() > 0 {
        lemma_scan_inside_sequence(s, s.len() - 1);
        assert(s.drop_last() =~= s.take(s.len() - 1));
    }
}

/// Behind a text that the scan leaves in ordinary text, the scan of what
/// follows goes as if it stood alone.
pub proof fn lemma_scan_both(first: Seq<char>, second: Seq<char>)
    requires
        scan(first).1 == ScanMode::Text,
    ensures
        scan(first + second) == (scan(first).0 + scan(second).0, scan(second).1),
    decreases second.len(),
{
    if second.len() == 0 {
        assert(first + second =~= first);
        assert(scan(first).0 + scan(second).0 =~= scan(first).0);
    } else {
        lemma_scan_both(first, second.drop_last());
        assert((first + second).drop_last() =~= first + second.drop_last());
        assert((first + second).last() == second.last());
        let (kept, mode) = scan(second.drop_last());
        match scan_step(mode, second.last()).1 {
            Some(c) => {
                assert((scan(first).0 + kept).push(c) =~= scan(first).0 + kept.push(c));
            },
            None => {},
        }
    }
}

/// A marker that a script prints in color is read from the script's
/// output as the event that it was written for: with a color code before
/// the marker, behind it, or both, the line is read as the bare marker
/// is. So the driver reconstructs what the renderer wrote.
pub proof fn lemma_colored_marker_round_trip(before: Seq<char>, e: EventView, behind: Seq<char>)
    requires
        wire_safe(e),
        is_color_code(before),
        is_color_code(behind),
    ensures
        ansi_stripped(before + marker_wire(e) + behind) == marker_wire(e),
        line_parsed(before + marker_wire(e) + behind) == Some(e),
{
    let w = marker_wire(e);
    let line = before + w + behind;
    lemma_marker_round_trip(e);
    lemma_marker_prefix();
    assert(w.len() >= 11);
    assert(w[0] == 'T') by {
        assert(w.subrange(0, 11) =~= marker_prefix()) by {
            assert(occurs_at(w, marker_prefix(), 0)) by {
                lemma_marker_parsed(e);
            }
        }
        assert(w.subrange(0, 11)[0] == w[0]);
    }
    assert(!is_whitespace(line[0])) by {
        if before.len() > 0 {
            assert(line[0] == before[0]);
        } else {
            assert(line[0] == w[0]);
        }
    }
    assert(!is_whitespace(line[line.len() - 1])) by {
        if behind.len() > 0 {
            assert(line[line.len() - 1] == behind.last());
        } else {
            assert(line[line.len() - 1] == w[w.len() - 1]);
            assert(text_end(w, 0, w.len() as int) == w.len()) by {
                assert(trimmed(w) == w);
                assert(text_start(w, 0) == 0);
                assert(w.subrange(0, text_end(w, 0, w.len() as int)).len() == w.len());
            }
        }
    }
    lemma_text_end(line, 0, line.len() as int);
    assert(line.subrange(0, line.len() as int) =~= line);
    assert(trimmed(line) == line);
    lemma_scan_color_code(before);
    lemma_scan_color_code(behind);
    lemma_scan_both(before, w);
    lemma_scan_both(before + w, behind);
    assert(Seq::<char>::empty() + w + Seq::<char>::empty() =~= w);
}

/// What the display is asked to do for the lines of a stream, in order.
pub open spec fn stream_actions(open: bool, total: nat, lines: Seq<Seq<char>>) -> Seq<
    IndicatorView,
>
    decreases lines.len(),
{
    if lines.len() == 0 {
        Seq::empty()
    } else {
        stream_actions(open, total, lines.drop_last()) + line_actions(
            stream_open(open, lines.drop_last()),
            total,
            lines.last(),
        )
    }
}

/// Whether an indicator is open after the lines of a stream.
pub open spec fn stream_open(open: bool, lines: Seq<Seq<char>>) -> bool
    decreases lines.len(),
{
    if lines.len() == 0 {
        open
    } else {
        open_after_line(stream_open(open, lines.drop_last()), lines.last())
    }
}

/// What becomes of the display under a list of requests: whether an
/// indicator is open at the end, or nothing where a request cannot be
/// followed (an indicator is opened, or a summary printed, while one is
/// open; or one is closed while none is open).
pub open spec fn display_after(open: bool, actions: Seq<IndicatorView>) -> Option<bool>
    decreases actions.len(),
{
    if actions.len() == 0 {
        Some(open)
    } else {
        match display_after(open, actions.drop_last()) {
            None => None,
            Some(before) => match actions.last() {
                IndicatorView::Close => if before {
                    Some(false)
                } else {
                    None
                },
                IndicatorView::Open { .. } => if before {
                    None
                } else {
                    Some(true)
                },
                IndicatorView::Summary { .. } => if before {
                    None
                } else {
                    Some(false)
                },
            },
        }
    }
}

proof fn lemma_display_after_both(open: bool, first: Seq<IndicatorView>, second: Seq<IndicatorView>)
    ensures
        display_after(open, first + second) == match display_after(open, first) {
            Some(between) => display_after(between, second),
            None => None,
        },
    decreases second.len(),
{
    if second.len() == 0 {
        assert(first + second =~= first);
    } else {
        assert((first + second).drop_last() =~= first + second.drop_last());
        assert((first + second).last() == second.last());
        lemma_display_after_both(open, first, second.drop_last());
    }
}

proof fn lemma_display_after_event(open: bool, total: nat, e: EventView)
    ensures
        display_after(open, event_actions(open, total, e)) == Some(e.action is Start),
{
    let close = closing(open);
    let rest = event_actions(false, total, e);
    assert(event_actions(open, total, e) =~= close + rest);
    assert(display_after(open, close) == Some(false)) by {
        reveal_with_fuel(display_after, 2);
    }
    assert(display_after(false, rest) == Some(e.action is Start)) by {
        reveal_with_fuel(display_after, 2);
    }
    lemma_display_after_both(open, close, rest);
}

/// The display can follow every stream: whatever lines arrive, in whatever
/// order, each request finds the display in the state that it needs. So at
/// most one indicator is open at any time, and each summary is printed
/// while none is.
pub proof fn lemma_one_indicator_at_a_time(open: bool, total: nat, lines: Seq<Seq<char>>)
    ensures
        display_after(open, stream_actions(open, total, lines)) == Some(stream_open(open, lines)),
    decreases lines.len(),
{
    if lines.len() > 0 {
        let before = lines.drop_last();
        lemma_one_indicator_at_a_time(open, total, before);
        let between = stream_open(open, before);
        match line_parsed(lines.last()) {
            Some(e) => {
                lemma_display_after_event(between, total, e);
            },
            None => {},
        }
        lemma_display_after_both(
            open,
            stream_actions(open, total, before),
            line_actions(between, total, lines.last()),
        );
    }
}

} // verus!
