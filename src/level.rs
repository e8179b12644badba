//! Severities and the parser of the attribute's argument.
use vstd::prelude::*;
use crate::syntax::string_literals;

verus! {

/// The severity at which the timing record is emitted.
#[derive(PartialEq, Eq, Structural, Clone, Copy, Debug)]
pub enum LogLevel {
    Trace,
    Debug,
    Info,
    Warn,
    Error,
}

impl Default for LogLevel {
    /// `Debug` is the severity used when the attribute has no argument.
    fn default() -> (r: LogLevel)
        ensures
            r == LogLevel::Debug,
    {
        LogLevel::Debug
    }
}

/// The code point of `c` after ASCII lowercasing; other characters keep theirs.
pub open spec fn lower_code(c: char) -> int {
    if 'A' <= c && c <= 'Z' {
        c as int + 32
    } else {
        c as int
    }
}

/// `a` and `b` are equal when ASCII letters are compared without regard to case.
pub open spec fn same_ignoring_ascii_case(a: Seq<char>, b: Seq<char>) -> bool {
    &&& a.len() == b.len()
    &&& forall|i: int| 0 <= i < a.len() ==> #[trigger] lower_code(a[i]) == lower_code(b[i])
}

/// Compares two strings character by character, folding ASCII letters to lower case.
pub fn eq_ignore_ascii_case(a: &str, b: &str) -> (r: bool)
    ensures
        r == same_ignoring_ascii_case(a@, b@),
{
    let n = a.unicode_len();
    if n != b.unicode_len() {
        return false;
    }
    let mut i: usize = 0;
    while i < n
        invariant
            n == a@.len(),
            n == b@.len(),
            i <= n,
            forall|j: int| 0 <= j < i ==> #[trigger] lower_code(a@[j]) == lower_code(b@[j]),
        decreases n - i,
    {
        let x = a.get_char(i) as u32;
        let y = b.get_char(i) as u32;
        let lx: u32 = if 65 <= x && x <= 90 { x + 32 } else { x };
        let ly: u32 = if 65 <= y && y <= 90 { y + 32 } else { y };
        if lx != ly {
            assert(lower_code(a@[i as int]) != lower_code(b@[i as int]));
            return false;
        }
        i = i + 1;
    }
    true
}

impl LogLevel {
    /// The variant's name; arguments are matched against it without regard to case.
    pub open spec fn name(self) -> Seq<char> {
        match self {
            LogLevel::Trace => "Trace"@,
            LogLevel::Debug => "Debug"@,
            LogLevel::Info => "Info"@,
            LogLevel::Warn => "Warn"@,
            LogLevel::Error => "Error"@,
        }
    }

    /// Parses the attribute's argument `attr`: a comma-separated list of string
    /// literals, of which at most one may be given. Which texts `syn` reads as
    /// such a list depends on where it runs; whatever it read, the outcome is
    /// that of [`level_from_literals`] on the values, or `Malformed`.
    pub fn parse(attr: &str) -> (r: Result<LogLevel, ArgError>)
        ensures
            attr@.len() == 0 ==> r == Ok::<LogLevel, ArgError>(LogLevel::Debug),
            r matches Err(ArgError::UnknownLevel(s)) ==> level_named(s@) is None,
            !(r matches Err(ArgError::Malformed(_))) ==> exists|lits: Seq<Seq<char>>|
                #[trigger] level_of_literals(lits) == level_result_view(r),
    {
        match string_literals(attr) {
            Ok(lits) => {
                let r = level_from_literals(&lits);
                assert(level_of_literals(lits.deep_view()) == level_result_view(r));
                r
            },
            Err(e) => Err(ArgError::Malformed(e.to_string())),
        }
    }
}

/// The severity whose name matches `s`, if any.
pub open spec fn level_named(s: Seq<char>) -> Option<LogLevel> {
    if same_ignoring_ascii_case(s, LogLevel::Trace.name()) {
        Some(LogLevel::Trace)
    } else if same_ignoring_ascii_case(s, LogLevel::Debug.name()) {
        Some(LogLevel::Debug)
    } else if same_ignoring_ascii_case(s, LogLevel::Info.name()) {
        Some(LogLevel::Info)
    } else if same_ignoring_ascii_case(s, LogLevel::Warn.name()) {
        Some(LogLevel::Warn)
    } else if same_ignoring_ascii_case(s, LogLevel::Error.name()) {
        Some(LogLevel::Error)
    } else {
        None
    }
}

/// Why the attribute's argument was rejected.
#[derive(Clone, Debug)]
pub enum ArgError {
    /// More than one string literal was given.
    MultipleArguments,
    /// The one string literal names no severity; it holds the literal's value.
    UnknownLevel(String),
    /// The argument is not a comma-separated list of string literals; it holds
    /// the parser's message.
    Malformed(String),
}

/// [`ArgError`] with its strings as character sequences.
pub ghost enum ArgErrorView {
    MultipleArguments,
    UnknownLevel(Seq<char>),
    Malformed(Seq<char>),
}

impl View for ArgError {
    type V = ArgErrorView;

    open spec fn view(&self) -> ArgErrorView {
        match self {
            ArgError::MultipleArguments => ArgErrorView::MultipleArguments,
            ArgError::UnknownLevel(s) => ArgErrorView::UnknownLevel(s@),
            ArgError::Malformed(m) => ArgErrorView::Malformed(m@),
        }
    }
}

/// The outcome of a parse, with the error as its view.
pub open spec fn level_result_view(r: Result<LogLevel, ArgError>) -> Result<LogLevel, ArgErrorView> {
    match r {
        Ok(l) => Ok(l),
        Err(e) => Err(e@),
    }
}

/// The severity selected by the values of the argument's string literals.
pub open spec fn level_of_literals(lits: Seq<Seq<char>>) -> Result<LogLevel, ArgErrorView> {
    if lits.len() == 0 {
        Ok(LogLevel::Debug)
    } else if lits.len() > 1 {
        Err(ArgErrorView::MultipleArguments)
    } else {
        match level_named(lits[0]) {
            Some(l) => Ok(l),
            None => Err(ArgErrorView::UnknownLevel(lits[0])),
        }
    }
}

/// The severity whose name matches `name` without regard to ASCII case.
pub fn level_from_name(name: &str) -> (r: Option<LogLevel>)
    ensures
        r == level_named(name@),
{
    if eq_ignore_ascii_case(name, "Trace") {
        Some(LogLevel::Trace)
    } else if eq_ignore_ascii_case(name, "Debug") {
        Some(LogLevel::Debug)
    } else if eq_ignore_ascii_case(name, "Info") {
        Some(LogLevel::Info)
    } else if eq_ignore_ascii_case(name, "Warn") {
        Some(LogLevel::Warn)
    } else if eq_ignore_ascii_case(name, "Error") {
        Some(LogLevel::Error)
    } else {
        None
    }
}

/// Selects the severity from the values of the argument's string literals:
/// none gives `Debug`, one gives the severity it names, more are rejected.
pub fn level_from_literals(lits: &Vec<String>) -> (r: Result<LogLevel, ArgError>)
    ensures
        level_result_view(r) == level_of_literals(lits.deep_view()),
{
    if lits.len() == 0 {
        return Ok(LogLevel::default());
    }
    if lits.len() > 1 {
        return Err(ArgError::MultipleArguments);
    }
    let name = &lits[0];
    match level_from_name(name.as_str()) {
        Some(l) => Ok(l),
        None => Err(ArgError::UnknownLevel(name.clone())),
    }
}

/// No string matches the names of two different severities, whatever its case.
proof fn lemma_names_distinct(s: Seq<char>, a: LogLevel, b: LogLevel)
    requires
        same_ignoring_ascii_case(s, a.name()),
        same_ignoring_ascii_case(s, b.name()),
    ensures
        a == b,
{
    reveal_strlit("Trace");
    reveal_strlit("Debug");
    reveal_strlit("Info");
    reveal_strlit("Warn");
    reveal_strlit("Error");
    assert(lower_code(s[0]) == lower_code(a.name()[0]));
    assert(lower_code(s[0]) == lower_code(b.name()[0]));
}

/// A single literal that spells a severity's name, in any mix of letter case,
/// selects that severity.
pub proof fn lemma_name_in_any_case(s: Seq<char>, l: LogLevel)
    requires
        same_ignoring_ascii_case(s, l.name()),
    ensures
        level_of_literals(seq![s]) == Ok::<LogLevel, ArgErrorView>(l),
{
    let r = level_named(s);
    assert(r is Some) by {
        if r is None {
            match l {
                LogLevel::Trace => {},
                LogLevel::Debug => {},
                LogLevel::Info => {},
                LogLevel::Warn => {},
                LogLevel::Error => {},
            }
        }
    }
    lemma_names_distinct(s, r->0, l);
}

/// Without an argument the severity is `Debug`.
pub proof fn lemma_no_argument_is_debug()
    ensures
        level_of_literals(Seq::empty()) == Ok::<LogLevel, ArgErrorView>(LogLevel::Debug),
{
}

/// Two or more literals are rejected as multiple arguments.
pub proof fn lemma_multiple_arguments_rejected(lits: Seq<Seq<char>>)
    requires
        lits.len() >= 2,
    ensures
        level_of_literals(lits) == Err::<LogLevel, ArgErrorView>(ArgErrorView::MultipleArguments),
{
}

/// A single literal that names no severity is rejected, and the error holds it.
pub proof fn lemma_unknown_name_rejected(s: Seq<char>)
    requires
        forall|l: LogLevel| !same_ignoring_ascii_case(s, #[trigger] l.name()),
    ensures
        level_of_literals(seq![s]) == Err::<LogLevel, ArgErrorView>(ArgErrorView::UnknownLevel(s)),
{
    assert(!same_ignoring_ascii_case(s, LogLevel::Trace.name()));
    assert(!same_ignoring_ascii_case(s, LogLevel::Debug.name()));
    assert(!same_ignoring_ascii_case(s, LogLevel::Info.name()));
    assert(!same_ignoring_ascii_case(s, LogLevel::Warn.name()));
    assert(!same_ignoring_ascii_case(s, LogLevel::Error.name()));
}

} // verus!
