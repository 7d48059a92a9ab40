//! The error type of tests that return a `Result`, and its report: the error
//! message, then the frames of its backtrace that come from this workspace.

use vstd::prelude::*;
use vstd::std_specs::convert::FromSpecImpl;
use vstd::string::to_string_from_display_ensures;

use regex::Regex;

use crate::text::{decimal, parse_usize, push_char, push_decimal, usize_of};

verus! {

#[verifier::external_type_specification]
#[verifier::external_body]
pub struct ExAnyhowError(anyhow::Error);

/// A failed test: any error that a test body gave up with.
#[derive(Debug)]
pub struct TestError(pub anyhow::Error);

/// What a test body that can fail returns.
pub type TestResult = Result<(), TestError>;

impl<E: Into<anyhow::Error>> From<E> for TestError {
    fn from(e: E) -> (r: Self)
        ensures
            call_ensures(E::into, (e,), r.0),
    {
        TestError(e.into())
    }
}

impl<E: Into<anyhow::Error>> FromSpecImpl<E> for TestError {
    open spec fn obeys_from_spec() -> bool {
        false
    }

    open spec fn from_spec(v: E) -> Self {
        arbitrary()
    }
}

/// The pattern of one frame in the debug text of a backtrace; it captures the
/// function, the file and the line.
pub const FRAME_PATTERN: &'static str = r#"(?:Backtrace\s*\[\s*)?\{\s*fn:\s*"([^"]+)",\s*file:\s*"([^"]+)",\s*line:\s*(\d+)\s*\}\s*(?:\]\s*)?"#;

/// The captures of the frame pattern in a text: for each match, in order, the
/// function, the file and the line, where the group took part.
pub uninterp spec fn frame_captures(text: Seq<char>) -> Seq<
    (Option<Seq<char>>, Option<Seq<char>>, Option<Seq<char>>),
>;

/// The view of an optional text.
pub open spec fn opt_view(o: Option<String>) -> Option<Seq<char>> {
    match o {
        Some(s) => Some(s@),
        None => None,
    }
}

/// The view of the captures of one match.
pub open spec fn capture_view(c: (Option<String>, Option<String>, Option<String>)) -> (
    Option<Seq<char>>,
    Option<Seq<char>>,
    Option<Seq<char>>,
) {
    (opt_view(c.0), opt_view(c.1), opt_view(c.2))
}

/// Relies on `regex::Regex::new` (which accepts the frame pattern) and
/// `Regex::captures_iter`: the matches and their groups depend on the text
/// alone.
#[verifier::external_body]
fn capture_frames(text: &str) -> (r: Vec<(Option<String>, Option<String>, Option<String>)>)
    ensures
        r@.map_values(|c: (Option<String>, Option<String>, Option<String>)| capture_view(c))
            == frame_captures(text@),
{
    let re = Regex::new(FRAME_PATTERN).expect("the frame pattern is a valid regex");
    re.captures_iter(text).map(
        |cap| (
            cap.get(1).map(|m| m.as_str().to_owned()),
            cap.get(2).map(|m| m.as_str().to_owned()),
            cap.get(3).map(|m| m.as_str().to_owned()),
        ),
    ).collect()
}

/// Relies on `anyhow::Error::backtrace` and the alternate debug text of a
/// backtrace; what it holds depends on how the process captured it.
#[verifier::external_body]
fn backtrace_text(e: &anyhow::Error) -> String {
    format!("{:#?}", e.backtrace())
}

/// Whether a path starts with `./`.
pub open spec fn starts_with_dot_slash(s: Seq<char>) -> bool {
    s.len() >= 2 && s[0] == '.' && s[1] == '/'
}

/// A path with every leading `./` removed.
pub open spec fn strip_dot_slash(s: Seq<char>) -> Seq<char>
    decreases s.len(),
{
    if starts_with_dot_slash(s) {
        strip_dot_slash(s.subrange(2, s.len() as int))
    } else {
        s
    }
}

/// The line number of a frame as written in its report line: the captured
/// number read as a `usize` and written back, or nothing where it does not fit.
pub open spec fn line_text(line: Option<Seq<char>>) -> Seq<char> {
    match line {
        Some(t) => match usize_of(t) {
            Some(n) => decimal(n as nat),
            None => Seq::empty(),
        },
        None => Seq::empty(),
    }
}

/// The report line of one captured frame where its file is one of this
/// workspace (starts with `./`): `[cwd/file:line] function`; nothing otherwise.
pub open spec fn frame_line(
    cwd: Seq<char>,
    cap: (Option<Seq<char>>, Option<Seq<char>>, Option<Seq<char>>),
) -> Seq<char> {
    match cap.1 {
        Some(file) => if starts_with_dot_slash(file) {
            seq!['['] + cwd + seq!['/'] + strip_dot_slash(file) + seq![':'] + line_text(cap.2)
                + seq![']', ' '] + match cap.0 {
                Some(f) => f,
                None => Seq::empty(),
            } + seq!['\n']
        } else {
            Seq::empty()
        },
        None => Seq::empty(),
    }
}

/// The report lines of a sequence of captured frames, in order.
pub open spec fn frames_text(
    cwd: Seq<char>,
    caps: Seq<(Option<Seq<char>>, Option<Seq<char>>, Option<Seq<char>>)>,
) -> Seq<char>
    decreases caps.len(),
{
    if caps.len() == 0 {
        Seq::empty()
    } else {
        frames_text(cwd, caps.drop_last()) + frame_line(cwd, caps.last())
    }
}

fn strip_leading_dot_slash(s: &str) -> (r: &str)
    ensures
        r@ == strip_dot_slash(s@),
{
    let n = s.unicode_len();
    let mut start: usize = 0;
    assert(s@.subrange(0, n as int) =~= s@);
    while start < n && n - start >= 2 && s.get_char(start) == '.' && s.get_char(start + 1) == '/'
        invariant
            n == s@.len(),
            start <= n,
            strip_dot_slash(s@.subrange(start as int, n as int)) == strip_dot_slash(s@),
        decreases n - start,
    {
        let ghost rest = s@.subrange(start as int, n as int);
        assert(rest.subrange(2, rest.len() as int) =~= s@.subrange(start + 2, n as int));
        start = start + 2;
    }
    s.substring_char(start, n)
}

fn push_frame_line(out: &mut String, cap: &(Option<String>, Option<String>, Option<String>), cwd: &str)
    ensures
        final(out)@ == old(out)@ + frame_line(cwd@, capture_view(*cap)),
{
    match &cap.1 {
        Some(file) => {
            let f = file.as_str();
            if f.unicode_len() >= 2 && f.get_char(0) == '.' && f.get_char(1) == '/' {
                push_char(out, '[');
                out.append(cwd);
                push_char(out, '/');
                out.append(strip_leading_dot_slash(f));
                push_char(out, ':');
                match &cap.2 {
                    Some(line) => match parse_usize(line.as_str()) {
                        Some(number) => push_decimal(out, number as u64),
                        None => {},
                    },
                    None => {},
                }
                push_char(out, ']');
                push_char(out, ' ');
                match &cap.0 {
                    Some(function) => out.append(function.as_str()),
                    None => {},
                }
                push_char(out, '\n');
            }
        },
        None => {},
    }
    assert(final(out)@ =~= old(out)@ + frame_line(cwd@, capture_view(*cap)));
}

/// The report lines of captured frames: one for each frame whose file is one
/// of this workspace, with `cwd` before the file.
pub fn frames_report(captures: &Vec<(Option<String>, Option<String>, Option<String>)>, cwd: &str) -> (r:
    String)
    ensures
        r@ == frames_text(
            cwd@,
            captures@.map_values(|c: (Option<String>, Option<String>, Option<String>)| capture_view(c)),
        ),
{
    let mut out = String::new();
    let mut i: usize = 0;
    while i < captures.len()
        invariant
            i <= captures@.len(),
            out@ == frames_text(
                cwd@,
                captures@.subrange(0, i as int).map_values(
                    |c: (Option<String>, Option<String>, Option<String>)| capture_view(c),
                ),
            ),
        decreases captures@.len() - i,
    {
        push_frame_line(&mut out, &captures[i], cwd);
        let ghost prefix = captures@.subrange(0, i + 1).map_values(
            |c: (Option<String>, Option<String>, Option<String>)| capture_view(c),
        );
        assert(prefix.drop_last() =~= captures@.subrange(0, i as int).map_values(
            |c: (Option<String>, Option<String>, Option<String>)| capture_view(c),
        ));
        i = i + 1;
    }
    assert(captures@.subrange(0, captures@.len() as int) =~= captures@);
    out
}

/// The report lines for the frames found in the debug text of a backtrace.
pub fn frames_report_of(backtrace: &str, cwd: &str) -> (r: String)
    ensures
        r@ == frames_text(cwd@, frame_captures(backtrace@)),
{
    let captures = capture_frames(backtrace);
    frames_report(&captures, cwd)
}

impl TestError {
    /// The report of the failure: the error message in red, then the report
    /// lines of its backtrace's frames, with `cwd` (the working directory)
    /// before each file.
    pub fn report(&self, cwd: &str) -> (r: String)
        ensures
            exists|message: String, backtrace: Seq<char>|
                to_string_from_display_ensures::<anyhow::Error>(&self.0, message) && r@
                    == "\x1b[0;91m"@ + message@ + "\x1b[0m\n"@ + frames_text(
                    cwd@,
                    frame_captures(backtrace),
                ),
    {
        let message = self.0.to_string();
        let backtrace = backtrace_text(&self.0);
        let mut out = String::new();
        out.append("\x1b[0;91m");
        out.append(message.as_str());
        out.append("\x1b[0m\n");
        let frames = frames_report_of(backtrace.as_str(), cwd);
        out.append(frames.as_str());
        out
    }
}

} // verus!
