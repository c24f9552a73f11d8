//! Error values that record the source location of the reporting call site
//! and chain causes recursively, rendered as nested `<error>` markup, together
//! with the `oks` adapter that lifts a plain sequence into success results.
//!
//! Location capture is by convention: every constructor and propagation helper
//! takes explicit `file` and `line` arguments supplied by the caller, so each
//! layer of a chain records its own call site rather than a shared helper's.

pub mod oks;

use vstd::prelude::*;

verus! {

/// Holds error information: the reporting call site and the cause.
#[derive(Debug)]
pub struct Error {
    /// File where the error occurred.
    pub file: &'static str,

    /// Line number where the error occurred.
    pub line: u32,

    /// Error kind.
    pub kind: ErrorKind,
}

/// Error kinds: a plain message, or a wrapped inner error.
#[derive(Debug)]
pub enum ErrorKind {
    /// Error with an error message.
    String(String),

    /// Error with an internal error.
    Wrapped(Box<Inner>),
}

/// An owned inner error, preserved opaquely: either another error of this
/// library, or an error from elsewhere captured by what this library can
/// observe of it — its display text and, optionally, its own upstream cause.
#[derive(Debug)]
pub enum Inner {
    /// An error of this library.
    Chained(Error),

    /// An error from another subsystem: display text and optional upstream cause.
    Opaque { text: String, upstream: Option<Box<Inner>> },
}

/// The character for a single decimal digit.
pub open spec fn dec_digit(d: nat) -> char {
    if d == 0 {
        '0'
    } else if d == 1 {
        '1'
    } else if d == 2 {
        '2'
    } else if d == 3 {
        '3'
    } else if d == 4 {
        '4'
    } else if d == 5 {
        '5'
    } else if d == 6 {
        '6'
    } else if d == 7 {
        '7'
    } else if d == 8 {
        '8'
    } else {
        '9'
    }
}

/// The usual decimal rendering of a number, without sign or leading zeros
/// (a single `'0'` for zero).
pub open spec fn dec_str(n: nat) -> Seq<char>
    decreases n,
{
    if n < 10 {
        seq![dec_digit(n)]
    } else {
        dec_str(n / 10) + seq![dec_digit(n % 10)]
    }
}

fn digit_str(d: u32) -> (r: &'static str)
    requires
        d < 10,
    ensures
        r@ == seq![dec_digit(d as nat)],
{
    proof {
        reveal_strlit("0");
        reveal_strlit("1");
        reveal_strlit("2");
        reveal_strlit("3");
        reveal_strlit("4");
        reveal_strlit("5");
        reveal_strlit("6");
        reveal_strlit("7");
        reveal_strlit("8");
        reveal_strlit("9");
    }
    let r: &'static str = if d == 0 {
        "0"
    } else if d == 1 {
        "1"
    } else if d == 2 {
        "2"
    } else if d == 3 {
        "3"
    } else if d == 4 {
        "4"
    } else if d == 5 {
        "5"
    } else if d == 6 {
        "6"
    } else if d == 7 {
        "7"
    } else if d == 8 {
        "8"
    } else {
        "9"
    };
    proof {
        assert(r@ =~= seq![dec_digit(d as nat)]);
    }
    r
}

/// Renders a line number in decimal.
fn u32_string(n: u32) -> (r: String)
    ensures
        r@ == dec_str(n as nat),
    decreases n,
{
    if n < 10 {
        let r = digit_str(n).to_owned();
        proof {
            assert(r@ =~= dec_str(n as nat));
        }
        r
    } else {
        let mut s = u32_string(n / 10);
        s.append(digit_str(n % 10));
        proof {
            assert(s@ =~= dec_str(n as nat));
        }
        s
    }
}

/// The nested markup rendering of an error: file, line and reason, in that
/// order, with no whitespace between tags. A wrapped cause's full rendering
/// stands verbatim inside `<reason>`, so nesting depth equals wrap count.
pub open spec fn rendered(e: Error) -> Seq<char>
    decreases e,
{
    "<error>"@ + "<file>"@ + e.file@ + "</file>"@ + "<line>"@ + dec_str(e.line as nat)
        + "</line>"@ + "<reason>"@ + reason_text(e.kind) + "</reason>"@ + "</error>"@
}

/// The text that stands inside `<reason>`: the message itself, or the
/// display text of the wrapped inner error.
pub open spec fn reason_text(k: ErrorKind) -> Seq<char>
    decreases k,
{
    match k {
        ErrorKind::String(s) => s@,
        ErrorKind::Wrapped(i) => inner_text(*i),
    }
}

/// The display text of an inner error: a chained error of this library
/// renders as its own nested markup; an opaque one as its display text.
pub open spec fn inner_text(i: Inner) -> Seq<char>
    decreases i,
{
    match i {
        Inner::Chained(e) => rendered(e),
        Inner::Opaque { text, .. } => text@,
    }
}

impl Error {
    /// Returns a new instance of `Error` with a message cause.
    ///
    /// # Arguments
    ///
    /// * message - Error message.
    /// * file - File where the error occurred.
    /// * line - Line number where the error occurred.
    pub fn new(message: &str, file: &'static str, line: u32) -> (r: Error)
        ensures
            r.file == file,
            r.line == line,
            r.kind matches ErrorKind::String(s) && s@ == message@,
    {
        Error { file, line, kind: ErrorKind::String(message.to_owned()) }
    }

    /// Returns a new instance of `Error` that holds `e` as its inner error,
    /// taking ownership of it.
    ///
    /// # Arguments
    ///
    /// * e - Inner error.
    /// * file - File where the error occurred.
    /// * line - Line number where the error occurred.
    pub fn wrap<T: IntoInner>(e: T, file: &'static str, line: u32) -> (r: Error)
        ensures
            r.file == file,
            r.line == line,
            r.kind matches ErrorKind::Wrapped(i) && *i == e.inner_view(),
    {
        Error { file, line, kind: ErrorKind::Wrapped(Box::new(e.into_inner())) }
    }

    /// The upstream cause of this error: `None` for a message cause; for a
    /// wrapped cause, whatever the inner error reports as its own upstream
    /// cause, by delegation.
    pub fn cause(&self) -> (r: Option<&Inner>)
        ensures
            r is Some <==> spec_cause(*self) is Some,
            r matches Some(c) ==> spec_cause(*self) == Some(*c),
        decreases *self,
    {
        match &self.kind {
            ErrorKind::String(_) => None,
            ErrorKind::Wrapped(i) => i.upstream(),
        }
    }

    /// Fixed category description, the same for every error of this library.
    pub fn description(&self) -> (r: &'static str)
        ensures
            r@ == "font processing error"@,
    {
        "font processing error"
    }

    /// Renders this error as nested markup, reproducing the chain from this
    /// call site down to the original failure.
    pub fn format_xml(&self) -> (r: String)
        ensures
            r@ == rendered(*self),
        decreases *self,
    {
        let mut r = String::new();
        r.append("<error>");
        r.append("<file>");
        r.append(self.file);
        r.append("</file>");
        r.append("<line>");
        let line = u32_string(self.line);
        r.append(line.as_str());
        r.append("</line>");
        r.append("<reason>");
        let reason = match &self.kind {
            ErrorKind::String(s) => s.clone(),
            ErrorKind::Wrapped(i) => i.display(),
        };
        r.append(reason.as_str());
        r.append("</reason>");
        r.append("</error>");
        proof {
            assert(r@ =~= rendered(*self));
        }
        r
    }
}

/// The upstream cause of an error: absent for a message cause; for a wrapped
/// cause, the inner error's own upstream cause — delegation, not the inner
/// error itself.
pub open spec fn spec_cause(e: Error) -> Option<Inner>
    decreases e,
{
    match e.kind {
        ErrorKind::String(_) => None,
        ErrorKind::Wrapped(i) => spec_upstream(*i),
    }
}

/// The upstream cause that an inner error reports of itself: a chained error
/// of this library reports its own cause; an opaque one reports the upstream
/// cause it was captured with.
pub open spec fn spec_upstream(i: Inner) -> Option<Inner>
    decreases i,
{
    match i {
        Inner::Chained(e) => spec_cause(e),
        Inner::Opaque { upstream, .. } => match upstream {
            Option::None => None,
            Option::Some(b) => Some(*b),
        },
    }
}

/// Conversion into an owned inner error, the capability `Error::wrap` asks of
/// what it wraps.
pub trait IntoInner: Sized {
    /// The inner error this value converts to.
    spec fn inner_view(self) -> Inner;

    /// Converts this value into an owned inner error.
    fn into_inner(self) -> (r: Inner)
        ensures
            r == self.inner_view(),
    ;
}

impl IntoInner for Error {
    open spec fn inner_view(self) -> Inner {
        Inner::Chained(self)
    }

    fn into_inner(self) -> (r: Inner)
        ensures
            r == self.inner_view(),
    {
        Inner::Chained(self)
    }
}

impl IntoInner for String {
    open spec fn inner_view(self) -> Inner {
        Inner::Opaque { text: self, upstream: None }
    }

    fn into_inner(self) -> (r: Inner)
        ensures
            r == self.inner_view(),
    {
        Inner::Opaque { text: self, upstream: None }
    }
}

impl IntoInner for Inner {
    open spec fn inner_view(self) -> Inner {
        self
    }

    fn into_inner(self) -> (r: Inner)
        ensures
            r == self.inner_view(),
    {
        self
    }
}

impl Inner {
    /// The display text of this inner error.
    pub fn display(&self) -> (r: String)
        ensures
            r@ == inner_text(*self),
        decreases *self,
    {
        match self {
            Inner::Chained(e) => e.format_xml(),
            Inner::Opaque { text, .. } => text.clone(),
        }
    }

    /// The upstream cause this inner error reports of itself.
    pub fn upstream(&self) -> (r: Option<&Inner>)
        ensures
            r is Some <==> spec_upstream(*self) is Some,
            r matches Some(c) ==> spec_upstream(*self) == Some(*c),
        decreases *self,
    {
        match self {
            Inner::Chained(e) => e.cause(),
            Inner::Opaque { upstream, .. } => match upstream {
                Option::None => None,
                Option::Some(b) => Some(&**b),
            },
        }
    }
}

/// Propagate-or-unwrap: on success, hands the value back; on failure,
/// returns an `Error` that wraps the failure, stamped with the caller's
/// location. The primary propagation idiom: each layer that uses it records
/// its own call site, producing a nested chain.
pub fn try_wrap<T, E: IntoInner>(r: Result<T, E>, file: &'static str, line: u32) -> (res: Result<
    T,
    Error,
>)
    ensures
        r matches Ok(x) ==> (res matches Ok(y) && y == x),
        r matches Err(e) ==> (res matches Err(err) && {
            &&& err.file == file
            &&& err.line == line
            &&& err.kind matches ErrorKind::Wrapped(i) && *i == e.inner_view()
        }),
{
    match r {
        Ok(x) => Ok(x),
        Err(e) => Err(Error::wrap(e, file, line)),
    }
}

/// New-error-from-message: a leaf `Error` from a message, stamped with the
/// caller's location.
pub fn new_error(message: &str, file: &'static str, line: u32) -> (r: Error)
    ensures
        r.file == file,
        r.line == line,
        r.kind matches ErrorKind::String(s) && s@ == message@,
{
    Error::new(message, file, line)
}

/// New-failure-result: a failed result holding a leaf `Error` built from a
/// message, stamped with the caller's location. Never returns `Ok`.
pub fn new_result<T>(message: &str, file: &'static str, line: u32) -> (res: Result<T, Error>)
    ensures
        res matches Err(e) && {
            &&& e.file == file
            &&& e.line == line
            &&& e.kind matches ErrorKind::String(s) && s@ == message@
        },
{
    Err(Error::new(message, file, line))
}

/// Unwrap-or-fail-on-absence, value variant: if the optional value is
/// present, hands it back; if absent, returns a leaf `Error` built from the
/// message, stamped with the caller's location.
pub fn try_opt<T>(v: Option<T>, message: &str, file: &'static str, line: u32) -> (res: Result<
    T,
    Error,
>)
    ensures
        v matches Some(x) ==> (res matches Ok(y) && y == x),
        v is None ==> (res matches Err(e) && {
            &&& e.file == file
            &&& e.line == line
            &&& e.kind matches ErrorKind::String(s) && s@ == message@
        }),
{
    match v {
        Some(x) => Ok(x),
        None => Err(Error::new(message, file, line)),
    }
}

/// Unwrap-or-fail-on-absence, by-reference variant: as `try_opt`, but yields
/// a reference to the present value.
pub fn try_opt_ref<'a, T>(v: &'a Option<T>, message: &str, file: &'static str, line: u32) -> (res:
    Result<&'a T, Error>)
    ensures
        v matches Some(x) ==> (res matches Ok(y) && *y == x),
        v is None ==> (res matches Err(e) && {
            &&& e.file == file
            &&& e.line == line
            &&& e.kind matches ErrorKind::String(s) && s@ == message@
        }),
{
    match v {
        Some(x) => Ok(x),
        None => Err(Error::new(message, file, line)),
    }
}

/// A leaf error built from a message renders as exactly one `<error>`
/// element: its file, its line and the message itself as the reason, in that
/// order, with no nesting.
pub proof fn lemma_message_rendering(e: Error, m: Seq<char>)
    requires
        e.kind matches ErrorKind::String(s) && s@ == m,
    ensures
        rendered(e) == "<error>"@ + "<file>"@ + e.file@ + "</file>"@ + "<line>"@ + dec_str(
            e.line as nat,
        ) + "</line>"@ + "<reason>"@ + m + "</reason>"@ + "</error>"@,
{
}

/// Wrapping is associative in structure: an error that wraps a chained error
/// of this library renders as one `<error>` element whose reason is the
/// wrapped error's full rendering, verbatim, so nesting depth equals wrap
/// count exactly.
pub proof fn lemma_wrap_rendering(e: Error, prior: Error)
    requires
        e.kind matches ErrorKind::Wrapped(i) && *i == Inner::Chained(prior),
    ensures
        rendered(e) == "<error>"@ + "<file>"@ + e.file@ + "</file>"@ + "<line>"@ + dec_str(
            e.line as nat,
        ) + "</line>"@ + "<reason>"@ + rendered(prior) + "</reason>"@ + "</error>"@,
{
}

/// Upstream-cause lookup on a message-caused error returns absence; on a
/// wrapped error it returns the inner error's own upstream cause — a
/// delegation, never the inner error itself.
pub proof fn lemma_cause_delegation(e: Error)
    ensures
        e.kind matches ErrorKind::String(_) ==> spec_cause(e) is None,
        e.kind matches ErrorKind::Wrapped(i) ==> spec_cause(e) == spec_upstream(*i),
{
}

} // verus!
