//! Rule sets: paired match and exception patterns, compiled once and then
//! applied to single lines.

use crate::matcher::{
    any_matches, compile_fault, compile_set, pattern_fault, pattern_matches, plain, set_fault,
    set_patterns, texts,
};
use crate::text::{contains, decimal, digits, occurs_in};
use vstd::prelude::*;
use vstd::string::*;

verus! {

/// Which of a rule set's two pattern lists is meant.
#[derive(Debug, Clone, Copy, PartialEq, Eq, Structural)]
pub enum Section {
    Patterns,
    Exceptions,
}

/// A pattern list that could not be compiled.
#[derive(Debug, Clone)]
pub struct CompileError {
    /// Name of the rule set, such as "critical" or "warning".
    pub label: String,
    /// The list that holds the offending pattern.
    pub section: Section,
    /// Position of the first pattern that does not compile on its own,
    /// counted from 1; `None` when each does and only the set fails.
    pub position: Option<usize>,
    /// The compiler's message.
    pub detail: String,
}

/// `i` is the first position in `patterns` whose pattern does not compile.
pub open spec fn first_fault_at(patterns: Seq<Seq<char>>, i: int) -> bool {
    &&& 0 <= i < patterns.len()
    &&& pattern_fault(patterns[i]) is Some
    &&& forall|j: int| 0 <= j < i ==> pattern_fault(#[trigger] patterns[j]) is None
}

/// Every pattern compiles on its own.
pub open spec fn no_fault(patterns: Seq<Seq<char>>) -> bool {
    forall|j: int| 0 <= j < patterns.len() ==> pattern_fault(#[trigger] patterns[j]) is None
}

/// The list compiles: each pattern on its own, and all of them as one set.
/// A list without patterns always does.
pub open spec fn compiles(patterns: Seq<Seq<char>>) -> bool {
    patterns.len() == 0 || (no_fault(patterns) && set_fault(patterns) is None)
}

/// `position` and `detail` describe why `patterns` do not compile: the
/// first pattern that fails on its own and what the compiler says of it,
/// or, where each pattern compiles, what the compiler says of the set.
pub open spec fn explains(patterns: Seq<Seq<char>>, position: Option<usize>, detail: Seq<char>) -> bool {
    match position {
        Some(n) => first_fault_at(patterns, n - 1) && pattern_fault(patterns[n - 1]) == Some(
            detail,
        ),
        None => patterns.len() > 0 && no_fault(patterns) && set_fault(patterns) == Some(detail),
    }
}

/// The name of a pattern list in messages.
pub open spec fn section_name(section: Section) -> Seq<char> {
    match section {
        Section::Patterns => "patterns"@,
        Section::Exceptions => "exceptions"@,
    }
}

impl CompileError {
    /// The summary, which names the rule set and the list.
    pub open spec fn summary(&self) -> Seq<char> {
        "Failed to load "@ + self.label@ + " "@ + section_name(self.section)
    }

    /// The summary, then the position of the offending pattern where there
    /// is one, then the compiler's message.
    pub open spec fn description(&self) -> Seq<char> {
        self.summary() + (match self.position {
            Some(n) => ": pattern "@ + digits(n as nat),
            None => Seq::empty(),
        }) + ": "@ + self.detail@
    }

    /// Says which list of which rule set failed.
    pub fn to_string(&self) -> (text: String)
        ensures
            text@ == self.summary(),
    {
        let mut text = "Failed to load ".to_owned();
        text.append(self.label.as_str());
        text.append(" ");
        match self.section {
            Section::Patterns => text.append("patterns"),
            Section::Exceptions => text.append("exceptions"),
        }
        text
    }

    /// Says which pattern failed, and why.
    pub fn describe(&self) -> (text: String)
        ensures
            text@ == self.description(),
    {
        let mut text = self.to_string();
        match self.position {
            Some(n) => {
                text.append(": pattern ");
                text.append(decimal(n as u64).as_str());
            },
            None => {
                assert(text@ =~= text@ + Seq::<char>::empty());
            },
        }
        text.append(": ");
        text.append(self.detail.as_str());
        text
    }
}

/// Compiles one pattern list: each pattern on its own first, so that the
/// first one that fails can be named, then all of them as one set.
fn compile_list(patterns: &[String]) -> (built: Result<regex::RegexSet, (Option<usize>, String)>)
    ensures
        match built {
            Ok(set) => compiles(texts(patterns@)) && set_patterns(set) == texts(patterns@)
                && plain(set),
            Err(why) => !compiles(texts(patterns@)) && explains(texts(patterns@), why.0, why.1@),
        },
{
    let mut i: usize = 0;
    while i < patterns.len()
        invariant
            0 <= i <= patterns.len(),
            forall|j: int| 0 <= j < i ==> pattern_fault(#[trigger] texts(patterns@)[j]) is None,
        decreases patterns.len() - i,
    {
        assert(texts(patterns@)[i as int] == patterns@[i as int]@);
        match compile_fault(patterns[i].as_str()) {
            Some(message) => {
                return Err((Some(i + 1), message));
            },
            None => {},
        }
        i += 1;
    }
    match compile_set(patterns) {
        Ok(set) => Ok(set),
        Err(message) => Err((None, message)),
    }
}

/// Pair of pattern sets: a line falls under the rule set when a match
/// pattern applies to it and no exception does.
#[derive(Debug)]
pub struct RuleSet {
    matches: regex::RegexSet,
    except: regex::RegexSet,
}

impl Clone for RuleSet {
    /// The copy has the same patterns and therefore applies to the same
    /// lines.
    fn clone(&self) -> (copy: Self)
        ensures
            copy.match_patterns() == self.match_patterns(),
            copy.except_patterns() == self.except_patterns(),
    {
        proof {
            use_type_invariant(self);
        }
        RuleSet { matches: self.matches.clone(), except: self.except.clone() }
    }
}

impl RuleSet {
    /// The match patterns, as written.
    pub closed spec fn match_patterns(&self) -> Seq<Seq<char>> {
        set_patterns(self.matches)
    }

    /// The exception patterns, as written.
    pub closed spec fn except_patterns(&self) -> Seq<Seq<char>> {
        set_patterns(self.except)
    }

    /// A match pattern matches the line and no exception pattern does.
    pub open spec fn applies_to(&self, line: Seq<char>) -> bool {
        any_matches(self.match_patterns(), line) && !any_matches(self.except_patterns(), line)
    }

    /// Both sets were built with the engine's default options, so that they
    /// answer as their patterns do.
    #[verifier::type_invariant]
    spec fn built_plainly(&self) -> bool {
        plain(self.matches) && plain(self.except)
    }

    /// Compiles a rule set from match patterns and exceptions.
    ///
    /// `title` names the rule set in errors. The match patterns are compiled
    /// first; the first list that fails decides the error. A pattern that
    /// does not compile on its own is never taken into a rule set, and lists
    /// without patterns are in order.
    pub fn new(patterns: &[String], exceptions: &[String], title: &str) -> (made: Result<
        RuleSet,
        CompileError,
    >)
        ensures
            match made {
                Ok(rules) => {
                    &&& compiles(texts(patterns@))
                    &&& compiles(texts(exceptions@))
                    &&& rules.match_patterns() == texts(patterns@)
                    &&& rules.except_patterns() == texts(exceptions@)
                },
                Err(e) => {
                    &&& e.label@ == title@
                    &&& if !compiles(texts(patterns@)) {
                        e.section == Section::Patterns && explains(
                            texts(patterns@),
                            e.position,
                            e.detail@,
                        )
                    } else {
                        !compiles(texts(exceptions@)) && e.section == Section::Exceptions
                            && explains(texts(exceptions@), e.position, e.detail@)
                    }
                },
            },
    {
        let matches = match compile_list(patterns) {
            Ok(set) => set,
            Err((position, detail)) => {
                return Err(
                    CompileError {
                        label: title.to_owned(),
                        section: Section::Patterns,
                        position,
                        detail,
                    },
                );
            },
        };
        let except = match compile_list(exceptions) {
            Ok(set) => set,
            Err((position, detail)) => {
                return Err(
                    CompileError {
                        label: title.to_owned(),
                        section: Section::Exceptions,
                        position,
                        detail,
                    },
                );
            },
        };
        Ok(RuleSet { matches, except })
    }

    /// The compiled match patterns.
    pub fn matches(&self) -> (set: &regex::RegexSet)
        ensures
            set_patterns(*set) == self.match_patterns(),
            plain(*set),
    {
        proof {
            use_type_invariant(self);
        }
        &self.matches
    }

    /// The compiled exception patterns.
    pub fn except(&self) -> (set: &regex::RegexSet)
        ensures
            set_patterns(*set) == self.except_patterns(),
            plain(*set),
    {
        proof {
            use_type_invariant(self);
        }
        &self.except
    }

    /// Returns true if the line matches a pattern but no exception.
    pub fn is_match(&self, line: &str) -> (hit: bool)
        ensures
            hit == self.applies_to(line@),
    {
        proof {
            use_type_invariant(self);
        }
        self.matches.is_match(line) && !self.except.is_match(line)
    }
}

impl Default for RuleSet {
    /// The rule set without patterns, which no line falls under.
    fn default() -> (made: Self)
        ensures
            made.match_patterns() == Seq::<Seq<char>>::empty(),
            made.except_patterns() == Seq::<Seq<char>>::empty(),
    {
        RuleSet { matches: regex::RegexSet::empty(), except: regex::RegexSet::empty() }
    }
}

/// The four pattern lists of a rules document.
#[derive(Debug, Clone)]
pub struct RulesFile {
    pub criticalpatterns: Vec<String>,
    pub criticalexceptions: Vec<String>,
    pub warningpatterns: Vec<String>,
    pub warningexceptions: Vec<String>,
}

impl Default for RulesFile {
    /// The document without any pattern.
    fn default() -> (made: Self)
        ensures
            made.criticalpatterns@.len() == 0,
            made.criticalexceptions@.len() == 0,
            made.warningpatterns@.len() == 0,
            made.warningexceptions@.len() == 0,
    {
        RulesFile {
            criticalpatterns: Vec::new(),
            criticalexceptions: Vec::new(),
            warningpatterns: Vec::new(),
            warningexceptions: Vec::new(),
        }
    }
}

/// What a line amounts to under a pair of rule sets.
#[derive(Debug, Clone, Copy, PartialEq, Eq, Structural)]
pub enum Severity {
    Critical,
    Warning,
    Ignored,
}

/// Pair of rule sets for critical and warning rules.
#[derive(Debug, Clone)]
pub struct Rules {
    pub crit: RuleSet,
    pub warn: RuleSet,
}

impl Default for Rules {
    /// Rules under which every line is ignored.
    fn default() -> (made: Self)
        ensures
            made.crit.match_patterns() == Seq::<Seq<char>>::empty(),
            made.crit.except_patterns() == Seq::<Seq<char>>::empty(),
            made.warn.match_patterns() == Seq::<Seq<char>>::empty(),
            made.warn.except_patterns() == Seq::<Seq<char>>::empty(),
    {
        Rules { crit: RuleSet::default(), warn: RuleSet::default() }
    }
}

impl Rules {
    /// The critical rule set is asked first; the warning rule set only
    /// decides for lines that the critical one does not claim.
    pub open spec fn severity_of(&self, line: Seq<char>) -> Severity {
        if self.crit.applies_to(line) {
            Severity::Critical
        } else if self.warn.applies_to(line) {
            Severity::Warning
        } else {
            Severity::Ignored
        }
    }

    /// `made` is what compiling the document `source` has to give.
    pub open spec fn compiled_from(source: RulesFile, made: Result<Rules, CompileError>) -> bool {
        let cp = texts(source.criticalpatterns@);
        let ce = texts(source.criticalexceptions@);
        let wp = texts(source.warningpatterns@);
        let we = texts(source.warningexceptions@);
        match made {
            Ok(rules) => {
                &&& compiles(cp)
                &&& compiles(ce)
                &&& compiles(wp)
                &&& compiles(we)
                &&& rules.crit.match_patterns() == cp
                &&& rules.crit.except_patterns() == ce
                &&& rules.warn.match_patterns() == wp
                &&& rules.warn.except_patterns() == we
            },
            Err(e) => {
                if !compiles(cp) {
                    e.label@ == "critical"@ && e.section == Section::Patterns && explains(
                        cp,
                        e.position,
                        e.detail@,
                    )
                } else if !compiles(ce) {
                    e.label@ == "critical"@ && e.section == Section::Exceptions && explains(
                        ce,
                        e.position,
                        e.detail@,
                    )
                } else if !compiles(wp) {
                    e.label@ == "warning"@ && e.section == Section::Patterns && explains(
                        wp,
                        e.position,
                        e.detail@,
                    )
                } else {
                    !compiles(we) && e.label@ == "warning"@ && e.section == Section::Exceptions
                        && explains(we, e.position, e.detail@)
                }
            },
        }
    }

    /// Compiles both rule sets of a rules document, the critical one first.
    pub fn new(source: RulesFile) -> (made: Result<Rules, CompileError>)
        ensures
            Rules::compiled_from(source, made),
    {
        let crit = match RuleSet::new(
            source.criticalpatterns.as_slice(),
            source.criticalexceptions.as_slice(),
            "critical",
        ) {
            Ok(set) => set,
            Err(e) => {
                return Err(e);
            },
        };
        let warn = match RuleSet::new(
            source.warningpatterns.as_slice(),
            source.warningexceptions.as_slice(),
            "warning",
        ) {
            Ok(set) => set,
            Err(e) => {
                return Err(e);
            },
        };
        Ok(Rules { crit, warn })
    }

    /// Says which rule set claims the line: critical before warning, never
    /// both.
    pub fn classify(&self, line: &str) -> (severity: Severity)
        ensures
            severity == self.severity_of(line@),
    {
        if self.crit.is_match(line) {
            Severity::Critical
        } else if self.warn.is_match(line) {
            Severity::Warning
        } else {
            Severity::Ignored
        }
    }
}

/// Longest wait for a connection to a remote rules source, in milliseconds.
pub const CONNECT_TIMEOUT_MS: u64 = 30000;

/// Longest wait for the answer of a remote rules source, in milliseconds.
pub const READ_TIMEOUT_MS: u64 = 300000;

/// A rules source is remote where it names a scheme.
pub open spec fn is_remote(source: Seq<char>) -> bool {
    occurs_in(source, "://"@)
}

/// Where the rules document is to be had from.
#[derive(Debug, Clone)]
pub enum Retrieval {
    /// Ask for the URL with a GET request, within the given times.
    Remote { url: String, connect_timeout_ms: u64, read_timeout_ms: u64 },
    /// Read the local file.
    Local { path: String },
}

/// What retrieving the rules document gave.
#[derive(Debug, Clone)]
pub enum Retrieved {
    /// The file could not be opened or the host not reached; the text says
    /// why.
    Unreachable(String),
    /// The server answered with a status other than success; the text is
    /// its status line.
    Refused(String),
    /// What came back is no rules document; the text says why.
    Malformed(String),
    /// The document.
    Document(RulesFile),
}

/// Why the rules could not be loaded.
#[derive(Debug, Clone)]
pub enum LoadCause {
    Unreachable(String),
    Refused(String),
    Malformed(String),
    Compile(CompileError),
}

/// The rules could not be loaded from `source`.
#[derive(Debug, Clone)]
pub struct LoadError {
    pub source: String,
    pub cause: LoadCause,
}

impl LoadError {
    /// The message: what failed, for which source, and why.
    pub open spec fn description(&self) -> Seq<char> {
        match self.cause {
            LoadCause::Unreachable(why) => (if is_remote(self.source@) {
                "Failed to retrieve remote rules from "@
            } else {
                "Cannot open rules file "@
            }) + self.source@ + ": "@ + why@,
            LoadCause::Refused(status) => "Failed to retrieve remote rules from "@ + self.source@
                + ": "@ + status@,
            LoadCause::Malformed(why) => "Cannot parse rules from "@ + self.source@ + ": "@ + why@,
            LoadCause::Compile(e) => "Cannot use rules from "@ + self.source@ + ": "@
                + e.description(),
        }
    }

    /// Says what failed, for which source, and why.
    pub fn to_string(&self) -> (text: String)
        ensures
            text@ == self.description(),
    {
        match &self.cause {
            LoadCause::Unreachable(why) => {
                let mut text = if contains(self.source.as_str(), "://") {
                    "Failed to retrieve remote rules from ".to_owned()
                } else {
                    "Cannot open rules file ".to_owned()
                };
                text.append(self.source.as_str());
                text.append(": ");
                text.append(why.as_str());
                text
            },
            LoadCause::Refused(status) => {
                let mut text = "Failed to retrieve remote rules from ".to_owned();
                text.append(self.source.as_str());
                text.append(": ");
                text.append(status.as_str());
                text
            },
            LoadCause::Malformed(why) => {
                let mut text = "Cannot parse rules from ".to_owned();
                text.append(self.source.as_str());
                text.append(": ");
                text.append(why.as_str());
                text
            },
            LoadCause::Compile(e) => {
                let mut text = "Cannot use rules from ".to_owned();
                text.append(self.source.as_str());
                text.append(": ");
                text.append(e.describe().as_str());
                text
            },
        }
    }
}

impl Rules {
    /// `loaded` is what loading from `source` has to give once retrieving
    /// the document gave `retrieved`.
    pub open spec fn loaded_from(source: Seq<char>, retrieved: Retrieved, loaded: Result<
        Rules,
        LoadError,
    >) -> bool {
        match retrieved {
            Retrieved::Document(file) => match loaded {
                Ok(rules) => Rules::compiled_from(file, Ok(rules)),
                Err(e) => e.source@ == source && e.cause is Compile && Rules::compiled_from(
                    file,
                    Err(e.cause->Compile_0),
                ),
            },
            Retrieved::Unreachable(why) => loaded is Err && loaded->Err_0.source@ == source
                && loaded->Err_0.cause is Unreachable && loaded->Err_0.cause->Unreachable_0@
                == why@,
            Retrieved::Refused(status) => loaded is Err && loaded->Err_0.source@ == source
                && loaded->Err_0.cause is Refused && loaded->Err_0.cause->Refused_0@ == status@,
            Retrieved::Malformed(why) => loaded is Err && loaded->Err_0.source@ == source
                && loaded->Err_0.cause is Malformed && loaded->Err_0.cause->Malformed_0@ == why@,
        }
    }

    /// Says how the rules document is to be retrieved: a source that names
    /// a scheme is asked for over the net, any other is read as a file.
    pub fn locate(source: &str) -> (retrieval: Retrieval)
        ensures
            match retrieval {
                Retrieval::Remote { url, connect_timeout_ms, read_timeout_ms } => {
                    &&& is_remote(source@)
                    &&& url@ == source@
                    &&& connect_timeout_ms == CONNECT_TIMEOUT_MS
                    &&& read_timeout_ms == READ_TIMEOUT_MS
                },
                Retrieval::Local { path } => !is_remote(source@) && path@ == source@,
            },
    {
        if contains(source, "://") {
            Retrieval::Remote {
                url: source.to_owned(),
                connect_timeout_ms: CONNECT_TIMEOUT_MS,
                read_timeout_ms: READ_TIMEOUT_MS,
            }
        } else {
            Retrieval::Local { path: source.to_owned() }
        }
    }

    /// Gets the rules from what retrieving their document gave: compiled
    /// from the document where there is one, else the error for `source`.
    pub fn load(source: &str, retrieved: Retrieved) -> (loaded: Result<Rules, LoadError>)
        ensures
            Rules::loaded_from(source@, retrieved, loaded),
    {
        let cause = match retrieved {
            Retrieved::Document(file) => match Rules::new(file) {
                Ok(rules) => {
                    return Ok(rules);
                },
                Err(e) => LoadCause::Compile(e),
            },
            Retrieved::Unreachable(why) => LoadCause::Unreachable(why),
            Retrieved::Refused(status) => LoadCause::Refused(status),
            Retrieved::Malformed(why) => LoadCause::Malformed(why),
        };
        Err(LoadError { source: source.to_owned(), cause })
    }
}

/// A rule set applies to a line exactly when one of its match patterns
/// matches the line and none of its exception patterns does. An exception
/// that matches overrides every match on the same line, and a rule set
/// without match patterns applies to nothing.
pub proof fn law_exceptions_override(rules: RuleSet, line: Seq<char>)
    ensures
        rules.applies_to(line) <==> (exists|i: int|
            0 <= i < rules.match_patterns().len() && pattern_matches(
                #[trigger] rules.match_patterns()[i],
                line,
            )) && (forall|j: int|
            0 <= j < rules.except_patterns().len() ==> !pattern_matches(
                #[trigger] rules.except_patterns()[j],
                line,
            )),
        any_matches(rules.except_patterns(), line) ==> !rules.applies_to(line),
        rules.match_patterns().len() == 0 ==> !rules.applies_to(line),
{
}

/// The critical rule set goes first: a line that it applies to is critical
/// whatever the warning rule set says, and a line is a warning only if the
/// critical rule set does not apply to it.
pub proof fn law_critical_before_warning(rules: Rules, line: Seq<char>)
    ensures
        rules.crit.applies_to(line) ==> rules.severity_of(line) == Severity::Critical,
        rules.severity_of(line) == Severity::Warning <==> !rules.crit.applies_to(line)
            && rules.warn.applies_to(line),
        rules.severity_of(line) == Severity::Ignored <==> !rules.crit.applies_to(line)
            && !rules.warn.applies_to(line),
{
}

} // verus!
