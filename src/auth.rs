//! Invitation-code authentication and the session gates in front of the
//! RSVP form.
use vstd::prelude::*;
use crate::limiter::{count_of, throttled, is_throttled};

verus! {

/// The length of a well-formed invitation code.
pub const CODE_LENGTH: usize = 12;

/// `s` without its separator characters (`-`).
pub open spec fn strip_separators(s: Seq<char>) -> Seq<char>
    decreases s.len(),
{
    if s.len() == 0 {
        s
    } else {
        let rest = strip_separators(s.drop_last());
        if s.last() == '-' {
            rest
        } else {
            rest.push(s.last())
        }
    }
}

/// The invitation code as typed, with its separators removed.
pub fn normalize_code(raw: &str) -> (r: String)
    ensures
        r@ == strip_separators(raw@),
{
    let n = raw.unicode_len();
    let mut r = String::new();
    let mut i: usize = 0;
    while i < n
        invariant
            n == raw@.len(),
            i <= n,
            r@ == strip_separators(raw@.subrange(0, i as int)),
        decreases n - i,
    {
        assert(raw@.subrange(0, i + 1).drop_last() =~= raw@.subrange(0, i as int));
        if raw.get_char(i) != '-' {
            let one = raw.substring_char(i, i + 1);
            r.append(one);
            assert(r@ =~= strip_separators(raw@.subrange(0, i + 1)));
        }
        i = i + 1;
    }
    assert(raw@.subrange(0, n as int) =~= raw@);
    r
}

/// The invitation code that a session holds; a missing session holds the
/// empty code, which matches no invitation.
pub fn session_code(cookie: Option<String>) -> (r: String)
    ensures
        r@ == (match cookie {
            Some(c) => c@,
            None => Seq::<char>::empty(),
        }),
{
    match cookie {
        Some(c) => c,
        None => String::new(),
    }
}

/// The first step of a login.
#[derive(Debug)]
pub enum LoginStep {
    /// The client's address is locked out; the directory is not consulted.
    Throttled,
    /// Look the normalized code up in the directory.
    LookUp(String),
}

/// The end of a login, once the directory has answered.
#[derive(Debug)]
pub enum LoginOutcome {
    /// The code exists: bind the session to it.
    Success(String),
    /// No such code: record a failure against the client's address.
    InvalidCode,
    /// The directory could not be read: back to the entry page, with no
    /// failure recorded.
    Unavailable,
}

/// Starts a login with the code as typed, from a client whose failure
/// counter reads `ip_failures`.
pub fn begin_login(raw_code: &str, ip_failures: Option<i64>) -> (r: LoginStep)
    ensures
        throttled(count_of(ip_failures)) <==> r is Throttled,
        match r {
            LoginStep::LookUp(code) => code@ == strip_separators(raw_code@),
            LoginStep::Throttled => true,
        },
{
    if is_throttled(ip_failures) {
        LoginStep::Throttled
    } else {
        LoginStep::LookUp(normalize_code(raw_code))
    }
}

/// Ends a login on `code` given what the directory answered: `Some(found)`,
/// or `None` where it could not be read.
pub fn finish_login(code: String, found: Option<bool>) -> (r: LoginOutcome)
    ensures
        match found {
            Some(true) => r == LoginOutcome::Success(code),
            Some(false) => r is InvalidCode,
            None => r is Unavailable,
        },
{
    match found {
        Some(true) => LoginOutcome::Success(code),
        Some(false) => LoginOutcome::InvalidCode,
        None => LoginOutcome::Unavailable,
    }
}

/// What to do with a submitted RSVP form.
#[derive(PartialEq, Eq, Structural, Clone, Copy, Debug)]
pub enum SubmitGate {
    /// The invitation is throttled: show the slow-down notice.
    Throttled,
    /// The session holds no well-formed code: show a neutral page.
    Neutral,
    /// Read the record and apply the RSVP.
    Proceed,
}

/// Gates an RSVP submission on the invitation's counter, then on the shape
/// of the session's code.
pub fn gate_submission(code: &str, invite_count: Option<i64>) -> (r: SubmitGate)
    ensures
        r == (if throttled(count_of(invite_count)) {
            SubmitGate::Throttled
        } else if code@.len() != CODE_LENGTH {
            SubmitGate::Neutral
        } else {
            SubmitGate::Proceed
        }),
{
    if is_throttled(invite_count) {
        SubmitGate::Throttled
    } else if code.unicode_len() != CODE_LENGTH {
        SubmitGate::Neutral
    } else {
        SubmitGate::Proceed
    }
}

/// The first step of showing the RSVP form.
#[derive(Debug)]
pub enum FormStep {
    /// The client's address is locked out.
    AddressLocked,
    /// No session: back to the entry page, with nothing counted.
    NotAuthenticated,
    /// Count one view of the form under the invitation code, then read its
    /// counter again.
    CountView(String),
}

/// The second step of showing the RSVP form, once the view is counted.
#[derive(Debug)]
pub enum FormGate {
    /// The invitation is throttled: show the slow-down notice.
    SlowDown,
    /// Load the record for the form.
    Load(String),
}

/// Starts showing the RSVP form to a client whose failure counter reads
/// `ip_failures` and whose session holds `cookie`. A locked-out address is
/// refused first; a missing or empty session is not authenticated.
pub fn begin_form_view(ip_failures: Option<i64>, cookie: Option<String>) -> (r: FormStep)
    ensures
        r is AddressLocked <==> throttled(count_of(ip_failures)),
        r is NotAuthenticated <==> !throttled(count_of(ip_failures)) && match cookie {
            Some(c) => c@.len() == 0,
            None => true,
        },
        match r {
            FormStep::CountView(code) => cookie == Some(code),
            _ => true,
        },
{
    if is_throttled(ip_failures) {
        return FormStep::AddressLocked;
    }
    match cookie {
        Some(code) => if code.unicode_len() == 0 {
            FormStep::NotAuthenticated
        } else {
            FormStep::CountView(code)
        },
        None => FormStep::NotAuthenticated,
    }
}

/// Decides whether the invitation `code` may load its form, from the
/// counter value `invite_count` read after recording the current visit.
pub fn finish_form_view(code: String, invite_count: Option<i64>) -> (r: FormGate)
    ensures
        throttled(count_of(invite_count)) ==> r is SlowDown,
        !throttled(count_of(invite_count)) ==> r == FormGate::Load(code),
{
    if is_throttled(invite_count) {
        FormGate::SlowDown
    } else {
        FormGate::Load(code)
    }
}

} // verus!
