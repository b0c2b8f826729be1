//! Evaluation of journal output and reporting.

use crate::rules::{LoadError, Retrieved, Rules, Severity};
use crate::text::{decode_lossy, split_once, starts_with, utf8_lossy};
use crate::Opt;
use vstd::prelude::*;
use vstd::string::*;
use vstd::utf8::*;

verus! {

/// Return status according to Nagios guidelines.
#[derive(Debug, Clone, PartialEq, Eq)]
pub enum Status {
    /// Success with general message
    Okay(String),
    /// Line counts of messages matching warning patterns
    Warning(usize),
    /// Line counts of messages matching critical and warning patterns
    Critical(usize, usize),
}

/// A status as contracts see it.
pub enum StatusView {
    Okay(Seq<char>),
    Warning(nat),
    Critical(nat, nat),
}

impl View for Status {
    type V = StatusView;

    open spec fn view(&self) -> StatusView {
        match *self {
            Status::Okay(summary) => StatusView::Okay(summary@),
            Status::Warning(w) => StatusView::Warning(w as nat),
            Status::Critical(c, w) => StatusView::Critical(c as nat, w as nat),
        }
    }
}

impl Default for Status {
    /// Success without a summary.
    fn default() -> (made: Self)
        ensures
            made@ == StatusView::Okay(Seq::empty()),
    {
        Status::Okay(String::new())
    }
}

/// Overall status and collection of messages which match rule patterns.
#[derive(Debug)]
pub struct Outcome {
    pub status: Status,
    pub message: String,
}

/// An outcome as contracts see it.
pub struct OutcomeView {
    pub status: StatusView,
    pub message: Seq<char>,
}

impl View for Outcome {
    type V = OutcomeView;

    open spec fn view(&self) -> OutcomeView {
        OutcomeView { status: self.status@, message: self.message@ }
    }
}

impl Default for Outcome {
    /// Success without a summary and without a message.
    fn default() -> (made: Self)
        ensures
            made@ == (OutcomeView { status: StatusView::Okay(Seq::empty()), message: Seq::empty() }),
    {
        Outcome { status: Status::Okay(String::new()), message: String::new() }
    }
}

/// The pieces of `text` between its line feeds, the last one included even
/// when it is empty.
pub open spec fn lines_of(text: Seq<char>) -> Seq<Seq<char>>
    decreases text.len(),
{
    match text.index_of_first('\n') {
        Some(i) => if 0 <= i < text.len() {
            seq![text.take(i)] + lines_of(text.skip(i + 1))
        } else {
            seq![text]
        },
        None => seq![text],
    }
}

/// A line that the journal reader prints about the journal itself starts
/// like this.
pub open spec fn preamble() -> Seq<char> {
    "-- Logs begin "@
}

/// The line is not empty and is no preamble of the journal reader.
pub open spec fn reportable(line: Seq<char>) -> bool {
    line.len() > 0 && !preamble().is_prefix_of(line)
}

/// Where a line of the journal goes: lines that are not reportable are
/// ignored whatever the rules say.
pub open spec fn assigned(rules: Rules, line: Seq<char>) -> Severity {
    if reportable(line) {
        rules.severity_of(line)
    } else {
        Severity::Ignored
    }
}

/// The test that picks the lines that go to `severity`.
pub open spec fn goes_to(rules: Rules, severity: Severity) -> spec_fn(Seq<char>) -> bool {
    |line: Seq<char>| assigned(rules, line) == severity
}

/// The lines that go to `severity`, in their order.
pub open spec fn selected(rules: Rules, lines: Seq<Seq<char>>, severity: Severity) -> Seq<
    Seq<char>,
> {
    lines.filter(goes_to(rules, severity))
}

/// The texts of borrowed lines.
pub open spec fn line_texts(lines: Seq<&str>) -> Seq<Seq<char>> {
    lines.map_values(|line: &str| line@)
}

/// Log lines grouped into critical and warning after applying rule sets.
#[derive(Debug)]
pub struct Collection<'a> {
    rules: &'a Rules,
    critical: Vec<&'a str>,
    warning: Vec<&'a str>,
}

impl<'a> Collection<'a> {
    /// The rules that lines are held against.
    pub closed spec fn rules(&self) -> Rules {
        *self.rules
    }

    /// The critical lines collected so far.
    pub closed spec fn critical_lines(&self) -> Seq<Seq<char>> {
        line_texts(self.critical@)
    }

    /// The warning lines collected so far.
    pub closed spec fn warning_lines(&self) -> Seq<Seq<char>> {
        line_texts(self.warning@)
    }

    /// The collection holds what `lines` amount to under its rules.
    pub open spec fn holds(&self, lines: Seq<Seq<char>>) -> bool {
        &&& self.critical_lines() == selected(self.rules(), lines, Severity::Critical)
        &&& self.warning_lines() == selected(self.rules(), lines, Severity::Warning)
    }

    /// An empty collection for lines that are held against `rules`.
    pub fn new(rules: &'a Rules) -> (made: Self)
        ensures
            made.rules() == *rules,
            made.critical_lines() == Seq::<Seq<char>>::empty(),
            made.warning_lines() == Seq::<Seq<char>>::empty(),
    {
        Collection { rules, critical: Vec::new(), warning: Vec::new() }
    }

    /// Files the line under critical or warning, or drops it.
    pub fn push(&mut self, line: &'a str)
        ensures
            final(self).rules() == old(self).rules(),
            final(self).critical_lines() == if assigned(old(self).rules(), line@)
                == Severity::Critical {
                old(self).critical_lines().push(line@)
            } else {
                old(self).critical_lines()
            },
            final(self).warning_lines() == if assigned(old(self).rules(), line@)
                == Severity::Warning {
                old(self).warning_lines().push(line@)
            } else {
                old(self).warning_lines()
            },
    {
        if line.is_empty() || starts_with(line, "-- Logs begin ") {
            return;
        }
        match self.rules.classify(line) {
            Severity::Critical => {
                self.critical.push(line);
                assert(line_texts(self.critical@) =~= line_texts(old(self).critical@).push(line@));
            },
            Severity::Warning => {
                self.warning.push(line);
                assert(line_texts(self.warning@) =~= line_texts(old(self).warning@).push(line@));
            },
            Severity::Ignored => {},
        }
    }

    /// The critical lines collected so far.
    pub fn critical(&self) -> (lines: &Vec<&'a str>)
        ensures
            line_texts(lines@) == self.critical_lines(),
    {
        &self.critical
    }

    /// The warning lines collected so far.
    pub fn warning(&self) -> (lines: &Vec<&'a str>)
        ensures
            line_texts(lines@) == self.warning_lines(),
    {
        &self.warning
    }
}

/// The lines of a section, each closed by a line feed.
pub open spec fn listing(lines: Seq<Seq<char>>) -> Seq<char>
    decreases lines.len(),
{
    if lines.len() == 0 {
        Seq::empty()
    } else {
        listing(lines.drop_last()) + lines.last() + seq!['\n']
    }
}

/// There are more lines than the limit lets through.
pub open spec fn over_limit(lines: Seq<Seq<char>>, limit: Option<nat>) -> bool {
    match limit {
        Some(k) => lines.len() > k,
        None => false,
    }
}

/// The lines that the limit lets through: the first ones, in their order.
pub open spec fn shown(lines: Seq<Seq<char>>, limit: Option<nat>) -> Seq<Seq<char>> {
    match limit {
        Some(k) => if lines.len() > k {
            lines.take(k as int)
        } else {
            lines
        },
        None => lines,
    }
}

/// The line that opens a section, and the empty line after it.
pub open spec fn heading(title: Seq<char>, truncated: bool) -> Seq<char> {
    "*** "@ + title + (if truncated {
        " (truncated)"@
    } else {
        Seq::empty()
    }) + " ***\n\n"@
}

/// A section of the report: nothing without lines, else the heading and
/// the lines that the limit lets through.
pub open spec fn section(title: Seq<char>, lines: Seq<Seq<char>>, limit: Option<nat>) -> Seq<
    char,
> {
    if lines.len() == 0 {
        Seq::empty()
    } else {
        heading(title, over_limit(lines, limit)) + listing(shown(lines, limit))
    }
}

/// The report before the byte budget: the critical section, then the
/// warning section, with an empty line between them where both are there.
pub open spec fn report(critical: Seq<Seq<char>>, warning: Seq<Seq<char>>, limit: Option<nat>) -> Seq<
    char,
> {
    let first = section("CRITICAL MATCHES"@, critical, limit);
    let second = section("WARNING MATCHES"@, warning, limit);
    if critical.len() > 0 && warning.len() > 0 {
        first + seq!['\n'] + second
    } else {
        first + second
    }
}

/// What closes a report that was cut to the byte budget.
pub open spec fn cut_marker() -> Seq<char> {
    "\n[output truncated]\n"@
}

/// The greatest character boundary of `bytes` that is not beyond `budget`.
pub open spec fn cut_point(bytes: Seq<u8>, budget: int) -> int
    decreases budget,
{
    if budget <= 0 {
        0
    } else if is_char_boundary(bytes, budget) {
        budget
    } else {
        cut_point(bytes, budget - 1)
    }
}

/// The message under a byte budget. A message whose UTF-8 form fits is kept
/// as it is; a longer one is cut at the last character that still fits, and
/// the marker is put behind it.
pub open spec fn bounded(message: Seq<char>, budget: Option<usize>) -> Seq<char> {
    let bytes = encode_utf8(message);
    match budget {
        Some(b) => if bytes.len() > b {
            decode_utf8(bytes.subrange(0, cut_point(bytes, b as int))) + cut_marker()
        } else {
            message
        },
        None => message,
    }
}

/// The status for the given numbers of critical and warning lines.
pub open spec fn status_of(critical: nat, warning: nat) -> StatusView {
    if critical > 0 {
        StatusView::Critical(critical, warning)
    } else if warning > 0 {
        StatusView::Warning(warning)
    } else {
        StatusView::Okay("no matches"@)
    }
}

/// The outcome of a run in which the journal reader printed nothing.
pub open spec fn no_output() -> OutcomeView {
    OutcomeView { status: StatusView::Okay("no output"@), message: Seq::empty() }
}

proof fn lemma_listing_push(lines: Seq<Seq<char>>, line: Seq<char>)
    ensures
        listing(lines.push(line)) == listing(lines) + line + seq!['\n'],
{
    assert(lines.push(line).drop_last() =~= lines);
}

proof fn lemma_lines_split(text: Seq<char>, head: Seq<char>, tail: Seq<char>)
    requires
        text == head + seq!['\n'] + tail,
        !head.contains('\n'),
    ensures
        lines_of(text) == seq![head] + lines_of(tail),
{
    text.index_of_first_ensures('\n');
    let at = head.len() as int;
    assert(text[at] == '\n');
    let i = text.index_of_first('\n').unwrap();
    if i < at {
        assert(head[i] == text[i]);
    }
    assert(i == at);
    assert(text.take(i) =~= head);
    assert(text.skip(i + 1) =~= tail);
}

proof fn lemma_lines_last(text: Seq<char>)
    requires
        !text.contains('\n'),
    ensures
        lines_of(text) == seq![text],
{
    text.index_of_first_ensures('\n');
}

proof fn lemma_selected_none(rules: Rules, severity: Severity)
    ensures
        selected(rules, Seq::empty(), severity) == Seq::<Seq<char>>::empty(),
{
    reveal(Seq::filter);
}

proof fn lemma_selected_push(rules: Rules, lines: Seq<Seq<char>>, line: Seq<char>, severity: Severity)
    ensures
        selected(rules, lines.push(line), severity) == if assigned(rules, line) == severity {
            selected(rules, lines, severity).push(line)
        } else {
            selected(rules, lines, severity)
        },
{
    lines.lemma_filter_push(line, goes_to(rules, severity));
}

/// Cuts the message to the byte budget.
pub fn truncate_to_budget(message: String, budget: Option<usize>) -> (cut: String)
    ensures
        cut@ == bounded(message@, budget),
{
    match budget {
        Some(b) => {
            if message.as_str().as_bytes().len() > b {
                let text = message.as_str();
                proof {
                    encode_utf8_valid_utf8(text@);
                }
                let mut at: usize = b;
                while at > 0 && !text.is_char_boundary(at)
                    invariant
                        0 <= at <= b,
                        b < text.spec_bytes().len(),
                        valid_utf8(text.spec_bytes()),
                        cut_point(text.spec_bytes(), b as int) == cut_point(
                            text.spec_bytes(),
                            at as int,
                        ),
                    decreases at,
                {
                    at -= 1;
                }
                let (head, _) = text.split_at(at);
                let mut cut = head.to_owned();
                cut.append("\n[output truncated]\n");
                proof {
                    let bytes = encode_utf8(message@);
                    assert(text.spec_bytes() == bytes);
                    assert(cut_point(bytes, at as int) == at);
                    assert(head.spec_bytes() == bytes.subrange(0, at as int));
                    encode_utf8_decode_utf8(head@);
                    assert(head@ == decode_utf8(bytes.subrange(0, at as int)));
                    assert(bytes.len() > b);
                }
                cut
            } else {
                message
            }
        },
        None => message,
    }
}

/// Main data structure which controls check evaluation: program options and
/// rule sets.
#[derive(Debug)]
pub struct Check {
    pub opt: Opt,
    pub rules: Rules,
}

impl Check {
    /// Creates the check from program options and from what retrieving the
    /// rules document named in them gave.
    pub fn new(opt: Opt, retrieved: Retrieved) -> (made: Result<Check, LoadError>)
        ensures
            match made {
                Ok(check) => check.opt == opt && Rules::loaded_from(
                    opt.rules_yaml@,
                    retrieved,
                    Ok(check.rules),
                ),
                Err(e) => Rules::loaded_from(opt.rules_yaml@, retrieved, Err(e)),
            },
    {
        match Rules::load(opt.rules_yaml.as_str(), retrieved) {
            Ok(rules) => Ok(Check { opt, rules }),
            Err(e) => Err(e),
        }
    }

    /// The number of lines that a section may list; `None` where the options
    /// lift the limit.
    pub open spec fn line_limit(&self) -> Option<nat> {
        if self.opt.no_limit || self.opt.limit == 0 {
            None
        } else {
            Some(self.opt.limit as nat)
        }
    }

    /// What the text that the journal reader printed amounts to.
    pub open spec fn verdict(&self, text: Seq<char>) -> OutcomeView {
        let lines = lines_of(text);
        let critical = selected(self.rules, lines, Severity::Critical);
        let warning = selected(self.rules, lines, Severity::Warning);
        OutcomeView {
            status: status_of(critical.len(), warning.len()),
            message: bounded(report(critical, warning, self.line_limit()), self.opt.max_bytes),
        }
    }

    /// Renders one section of the report.
    pub fn format_message(&self, title: &str, matches: &[&str]) -> (msg: String)
        ensures
            msg@ == section(title@, line_texts(matches@), self.line_limit()),
    {
        let mut msg = String::new();
        if matches.len() == 0 {
            return msg;
        }
        let max_lines: usize = if self.opt.no_limit || self.opt.limit == 0 {
            usize::MAX
        } else {
            self.opt.limit
        };
        let truncated = matches.len() > max_lines;
        msg.append("*** ");
        msg.append(title);
        if truncated {
            msg.append(" (truncated)");
        }
        msg.append(" ***\n\n");
        let count: usize = if truncated {
            max_lines
        } else {
            matches.len()
        };
        let ghost lines = line_texts(matches@);
        let ghost head = heading(title@, truncated);
        assert(msg@ =~= head);
        let mut i: usize = 0;
        while i < count
            invariant
                0 <= i <= count <= matches.len(),
                lines == line_texts(matches@),
                msg@ == head + listing(lines.take(i as int)),
            decreases count - i,
        {
            proof {
                reveal_strlit("\n");
                lemma_listing_push(lines.take(i as int), lines[i as int]);
                assert(lines.take(i as int + 1) =~= lines.take(i as int).push(lines[i as int]));
                assert("\n"@ =~= seq!['\n']);
            }
            msg.append(matches[i]);
            msg.append("\n");
            i += 1;
        }
        proof {
            assert(lines.take(count as int) =~= shown(lines, self.line_limit()));
        }
        msg
    }

    /// What the bytes that the journal reader printed amount to: nothing
    /// printed is an outcome of its own, anything else is read as text.
    pub open spec fn outcome_for(&self, journal: Seq<u8>) -> OutcomeView {
        if journal.len() == 0 {
            no_output()
        } else {
            self.verdict(utf8_lossy(journal))
        }
    }

    /// What the collected lines amount to.
    pub open spec fn summary(&self, critical: Seq<Seq<char>>, warning: Seq<Seq<char>>) -> OutcomeView {
        OutcomeView {
            status: status_of(critical.len(), warning.len()),
            message: bounded(report(critical, warning, self.line_limit()), self.opt.max_bytes),
        }
    }

    /// Holds every line of the text against the rules.
    pub fn collect<'a>(&'a self, text: &'a str) -> (collection: Collection<'a>)
        ensures
            collection.rules() == self.rules,
            collection.holds(lines_of(text@)),
    {
        let mut collection = Collection::new(&self.rules);
        let mut rest: &str = text;
        let ghost mut done: Seq<Seq<char>> = Seq::empty();
        proof {
            lemma_selected_none(self.rules, Severity::Critical);
            lemma_selected_none(self.rules, Severity::Warning);
            assert(lines_of(text@) =~= done + lines_of(rest@));
        }
        loop
            invariant_except_break
                lines_of(text@) == done + lines_of(rest@),
                collection.holds(done),
            invariant
                collection.rules() == self.rules,
            ensures
                collection.holds(lines_of(text@)),
            decreases rest@.len(),
        {
            match split_once(rest, '\n') {
                Some((head, tail)) => {
                    collection.push(head);
                    proof {
                        lemma_lines_split(rest@, head@, tail@);
                        lemma_selected_push(self.rules, done, head@, Severity::Critical);
                        lemma_selected_push(self.rules, done, head@, Severity::Warning);
                        assert(done + (seq![head@] + lines_of(tail@)) =~= done.push(head@)
                            + lines_of(tail@));
                        done = done.push(head@);
                    }
                    rest = tail;
                },
                None => {
                    collection.push(rest);
                    proof {
                        lemma_lines_last(rest@);
                        lemma_selected_push(self.rules, done, rest@, Severity::Critical);
                        lemma_selected_push(self.rules, done, rest@, Severity::Warning);
                        assert(done + seq![rest@] =~= done.push(rest@));
                    }
                    break;
                },
            }
        }
        collection
    }

    /// Renders the report for the collected lines and derives the status.
    pub fn summarize(&self, collection: &Collection) -> (outcome: Outcome)
        ensures
            outcome@ == self.summary(collection.critical_lines(), collection.warning_lines()),
    {
        let c: usize = collection.critical.len();
        let w: usize = collection.warning.len();
        let mut message = self.format_message("CRITICAL MATCHES", collection.critical.as_slice());
        if c > 0 && w > 0 {
            proof {
                reveal_strlit("\n");
                assert("\n"@ =~= seq!['\n']);
            }
            message.append("\n");
        }
        let second = self.format_message("WARNING MATCHES", collection.warning.as_slice());
        message.append(second.as_str());
        let status = if c > 0 {
            Status::Critical(c, w)
        } else if w > 0 {
            Status::Warning(w)
        } else {
            Status::Okay("no matches".to_owned())
        };
        Outcome { status, message: truncate_to_budget(message, self.opt.max_bytes) }
    }

    /// Evaluates the text of the journal reader's output.
    pub fn evaluate_text(&self, text: &str) -> (outcome: Outcome)
        ensures
            outcome@ == self.verdict(text@),
    {
        let collection = self.collect(text);
        self.summarize(&collection)
    }

    /// Evaluates the journal reader's output and returns the appropriate
    /// result.
    pub fn evaluate(&self, journal: &[u8]) -> (outcome: Outcome)
        ensures
            outcome@ == self.outcome_for(journal@),
    {
        if journal.len() == 0 {
            Outcome { status: Status::Okay("no output".to_owned()), message: String::new() }
        } else {
            let text = decode_lossy(journal);
            self.evaluate_text(text.as_str())
        }
    }
}

/// No line is counted twice and none is counted that should not be: each
/// line listed as a warning is reportable, is claimed by the warning rule
/// set and is not claimed by the critical one; each line listed as critical
/// is reportable and claimed by the critical rule set. Empty lines and the
/// journal reader's preamble are therefore in neither list.
pub proof fn law_lines_go_one_way(rules: Rules, lines: Seq<Seq<char>>)
    ensures
        forall|i: int|
            0 <= i < selected(rules, lines, Severity::Warning).len() ==> {
                let line = #[trigger] selected(rules, lines, Severity::Warning)[i];
                &&& reportable(line)
                &&& !rules.crit.applies_to(line)
                &&& rules.warn.applies_to(line)
            },
        forall|i: int|
            0 <= i < selected(rules, lines, Severity::Critical).len() ==> {
                let line = #[trigger] selected(rules, lines, Severity::Critical)[i];
                &&& reportable(line)
                &&& rules.crit.applies_to(line)
            },
        selected(rules, lines, Severity::Critical).len() + selected(
            rules,
            lines,
            Severity::Warning,
        ).len() <= lines.len(),
{
    let critical = goes_to(rules, Severity::Critical);
    let warning = goes_to(rules, Severity::Warning);
    assert forall|i: int| 0 <= i < lines.filter(warning).len() implies warning(
        #[trigger] lines.filter(warning)[i],
    ) by {
        lines.lemma_filter_pred(warning, i);
    }
    assert forall|i: int| 0 <= i < lines.filter(critical).len() implies critical(
        #[trigger] lines.filter(critical)[i],
    ) by {
        lines.lemma_filter_pred(critical, i);
    }
    lemma_disjoint_selections(rules, lines);
}

proof fn lemma_disjoint_selections(rules: Rules, lines: Seq<Seq<char>>)
    ensures
        selected(rules, lines, Severity::Critical).len() + selected(
            rules,
            lines,
            Severity::Warning,
        ).len() <= lines.len(),
    decreases lines.len(),
{
    if lines.len() == 0 {
        lemma_selected_none(rules, Severity::Critical);
        lemma_selected_none(rules, Severity::Warning);
    } else {
        let front = lines.drop_last();
        lemma_disjoint_selections(rules, front);
        lemma_selected_push(rules, front, lines.last(), Severity::Critical);
        lemma_selected_push(rules, front, lines.last(), Severity::Warning);
        assert(front.push(lines.last()) =~= lines);
    }
}

/// Evaluating the same output under the same check gives the same outcome:
/// status and message are a function of the check and the bytes alone.
pub proof fn law_evaluation_repeats(check: Check, journal: Seq<u8>, first: Outcome, second: Outcome)
    requires
        first@ == check.outcome_for(journal),
        second@ == check.outcome_for(journal),
    ensures
        first@ == second@,
        first.status@ == second.status@,
        first.message@ == second.message@,
{
}

/// Output that is valid UTF-8 is read as it was written: evaluating the
/// bytes of a text that is not empty gives the verdict on that text.
pub proof fn law_text_is_read_as_written(check: Check, text: Seq<char>)
    requires
        text.len() > 0,
    ensures
        utf8_lossy(encode_utf8(text)) == text,
        check.outcome_for(encode_utf8(text)) == check.verdict(text),
{
    encode_utf8_valid_utf8(text);
    encode_utf8_decode_utf8(text);
    assert(encode_utf8(text).len() > 0) by {
        assert(encode_scalar(text[0] as u32).len() > 0);
    }
}

/// With more lines than a limit of `k` lets through, a section lists the
/// first `k` lines and nothing else, and its heading says that it was
/// truncated. A limit of 0 lifts the limit and is therefore left out.
pub proof fn law_section_truncates(title: Seq<char>, lines: Seq<Seq<char>>, k: nat)
    requires
        0 < k < lines.len(),
    ensures
        shown(lines, Some(k)).len() == k,
        shown(lines, Some(k)) == lines.take(k as int),
        section(title, lines, Some(k)) == heading(title, true) + listing(lines.take(k as int)),
{
}

/// The status counts every matching line, whatever the limits are: two
/// checks with the same rules report the same status for the same text.
pub proof fn law_status_counts_all(check: Check, other: Check, text: Seq<char>)
    requires
        check.rules == other.rules,
    ensures
        check.verdict(text).status == other.verdict(text).status,
        check.verdict(text).status == status_of(
            selected(check.rules, lines_of(text), Severity::Critical).len(),
            selected(check.rules, lines_of(text), Severity::Warning).len(),
        ),
{
}

proof fn lemma_cut_point(bytes: Seq<u8>, budget: int)
    requires
        valid_utf8(bytes),
        0 <= budget <= bytes.len(),
    ensures
        0 <= cut_point(bytes, budget) <= budget,
        is_char_boundary(bytes, cut_point(bytes, budget)),
        forall|i: int|
            cut_point(bytes, budget) < i <= budget ==> !is_char_boundary(bytes, i),
    decreases budget,
{
    if budget > 0 && !is_char_boundary(bytes, budget) {
        lemma_cut_point(bytes, budget - 1);
    }
}

/// The byte budget comes last and only where it is needed. Without a
/// budget, or with a message whose UTF-8 form fits, the message stays as
/// rendered. Otherwise what is kept of it is the longest run of whole
/// characters from its start that fits, followed by the marker.
pub proof fn law_budget_only_when_exceeded(message: Seq<char>, budget: Option<usize>)
    ensures
        budget is None ==> bounded(message, budget) == message,
        budget is Some && encode_utf8(message).len() <= budget->0 ==> bounded(message, budget)
            == message,
        budget is Some && encode_utf8(message).len() > budget->0 ==> {
            let bytes = encode_utf8(message);
            let cut = cut_point(bytes, budget->0 as int);
            let kept = decode_utf8(bytes.subrange(0, cut));
            &&& bounded(message, budget) == kept + cut_marker()
            &&& kept.is_prefix_of(message)
            &&& encode_utf8(kept) == bytes.subrange(0, cut)
            &&& 0 <= cut <= budget->0
            &&& forall|i: int| cut < i <= budget->0 ==> !is_char_boundary(bytes, i)
        },
{
    if budget is Some && encode_utf8(message).len() > budget->0 {
        let bytes = encode_utf8(message);
        let cut = cut_point(bytes, budget->0 as int);
        encode_utf8_valid_utf8(message);
        lemma_cut_point(bytes, budget->0 as int);
        valid_utf8_split(bytes, cut);
        decode_utf8_split(bytes, cut);
        decode_utf8_encode_utf8(bytes.subrange(0, cut));
        encode_utf8_decode_utf8(message);
        let kept = decode_utf8(bytes.subrange(0, cut));
        let rest = decode_utf8(bytes.subrange(cut, bytes.len() as int));
        assert(message == kept + rest);
        assert(kept =~= message.subrange(0, kept.len() as int));
    }
}

} // verus!
