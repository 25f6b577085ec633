use vstd::prelude::*;
use vstd::string::*;

verus! {

/// Why a formatter invocation failed.
#[derive(Debug)]
pub enum FormatError {
    /// The formatter could not be started at all.
    Launch { program: String, reason: String },
    /// The formatter ran and exited unsuccessfully; `diagnostic` is the first
    /// line it wrote to its error stream, trimmed, when there was one.
    Execution { program: String, diagnostic: Option<String> },
}

/// What a `FormatError` holds, as character sequences.
pub enum FormatErrorView {
    Launch { program: Seq<char>, reason: Seq<char> },
    Execution { program: Seq<char>, diagnostic: Option<Seq<char>> },
}

pub open spec fn chars_of(o: Option<String>) -> Option<Seq<char>> {
    match o {
        Some(s) => Some(s@),
        None => None,
    }
}

impl View for FormatError {
    type V = FormatErrorView;

    open spec fn view(&self) -> FormatErrorView {
        match self {
            FormatError::Launch { program, reason } => FormatErrorView::Launch {
                program: program@,
                reason: reason@,
            },
            FormatError::Execution { program, diagnostic } => FormatErrorView::Execution {
                program: program@,
                diagnostic: chars_of(*diagnostic),
            },
        }
    }
}

/// The text of an error.
///
/// A failed run reads ``process `<program>` failed``, followed by `: ` and
/// the diagnostic line when there is one. A failed launch reads as the
/// launcher's own reason.
pub open spec fn message_of(e: FormatErrorView) -> Seq<char> {
    match e {
        FormatErrorView::Launch { program, reason } => reason,
        FormatErrorView::Execution { program, diagnostic } => match diagnostic {
            Some(d) => "process `"@ + program + "` failed: "@ + d,
            None => "process `"@ + program + "` failed"@,
        },
    }
}

/// The diagnostic that a first error line gives once trimmed: none where
/// nothing but whitespace is left.
pub open spec fn diagnostic_of(trimmed: Option<Seq<char>>) -> Option<Seq<char>> {
    match trimmed {
        Some(t) => if t.len() == 0 {
            None
        } else {
            Some(t)
        },
        None => None,
    }
}

/// What `str::trim` returns for a string.
pub uninterp spec fn trim_of(s: Seq<char>) -> Seq<char>;

/// Relies on `str::trim`: the string without its leading and trailing
/// whitespace, which depends on the characters alone; an empty string stays
/// empty.
#[verifier::external_body]
fn trimmed(s: &str) -> (r: String)
    ensures
        r@ == trim_of(s@),
        s@.len() == 0 ==> r@.len() == 0,
{
    s.trim().to_string()
}

impl FormatError {
    /// The error for a formatter that exited unsuccessfully, given the first
    /// line of its error stream already trimmed (`None` when none could be
    /// read).
    pub fn from_trimmed_line(program: &str, trimmed_line: Option<String>) -> (r: FormatError)
        ensures
            r@ == (FormatErrorView::Execution {
                program: program@,
                diagnostic: diagnostic_of(chars_of(trimmed_line)),
            }),
    {
        let diagnostic = match trimmed_line {
            Some(t) => {
                if t.unicode_len() == 0 {
                    None
                } else {
                    Some(t)
                }
            },
            None => None,
        };
        FormatError::Execution { program: String::from_str(program), diagnostic }
    }

    /// The error for a formatter that exited unsuccessfully, given the first
    /// line of its error stream as read (`None` when none could be read).
    pub fn from_exit(program: &str, first_line: Option<String>) -> (r: FormatError)
        ensures
            r@ == (FormatErrorView::Execution {
                program: program@,
                diagnostic: diagnostic_of(
                    match first_line {
                        Some(l) => Some(trim_of(l@)),
                        None => None,
                    },
                ),
            }),
    {
        let trimmed_line = match first_line {
            Some(l) => Some(trimmed(l.as_str())),
            None => None,
        };
        FormatError::from_trimmed_line(program, trimmed_line)
    }

    /// The error for a formatter that could not be started.
    pub fn from_launch(program: &str, reason: String) -> (r: FormatError)
        ensures
            r@ == (FormatErrorView::Launch { program: program@, reason: reason@ }),
    {
        FormatError::Launch { program: String::from_str(program), reason }
    }

    /// Whether the formatter could not be started at all.
    pub fn is_launch(&self) -> (r: bool)
        ensures
            r == (self@ is Launch),
    {
        match self {
            FormatError::Launch { .. } => true,
            FormatError::Execution { .. } => false,
        }
    }

    /// The name of the program that failed.
    pub fn program(&self) -> (r: &String)
        ensures
            r@ == match self@ {
                FormatErrorView::Launch { program, .. } => program,
                FormatErrorView::Execution { program, .. } => program,
            },
    {
        match self {
            FormatError::Launch { program, .. } => program,
            FormatError::Execution { program, .. } => program,
        }
    }

    /// The text of the error.
    pub fn message(&self) -> (r: String)
        ensures
            r@ == message_of(self@),
    {
        match self {
            FormatError::Launch { reason, .. } => reason.clone(),
            FormatError::Execution { program, diagnostic } => {
                let mut s = String::from_str("process `");
                s.append(program.as_str());
                match diagnostic {
                    Some(d) => {
                        s.append("` failed: ");
                        s.append(d.as_str());
                    },
                    None => {
                        s.append("` failed");
                    },
                }
                s
            },
        }
    }
}

/// The text of a failed run names the program, and ends with the diagnostic
/// line when there is one; without one it is the bare failure notice.
pub proof fn lemma_execution_message(program: Seq<char>, diagnostic: Option<Seq<char>>)
    ensures
        ({
            let m = message_of(FormatErrorView::Execution { program, diagnostic });
            &&& m.subrange(9, 9 + program.len() as int) == program
            &&& diagnostic matches Some(d) ==> m.subrange(m.len() - d.len(), m.len() as int) == d
            &&& diagnostic is None ==> m == "process `"@ + program + "` failed"@
        }),
{
    reveal_strlit("process `");
    reveal_strlit("` failed: ");
    reveal_strlit("` failed");
    let m = message_of(FormatErrorView::Execution { program, diagnostic });
    assert(m.subrange(9, 9 + program.len() as int) =~= program);
    if let Some(d) = diagnostic {
        assert(m.subrange(m.len() - d.len(), m.len() as int) =~= d);
    }
}

} // verus!
