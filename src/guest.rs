//! Guest records and the writes that the guest and the administrator make to
//! them. Each write is computed here as the complete record to persist.
use vstd::prelude::*;
use crate::text::{copy_text, is_word};

verus! {

/// A point in time: seconds and nanoseconds since the Unix epoch (UTC).
#[derive(PartialEq, Eq, Structural, Clone, Copy, Debug)]
pub struct Timestamp {
    pub seconds: i64,
    pub nanos: u32,
}

/// A guest's answer to the invitation.
#[derive(PartialEq, Eq, Structural, Clone, Copy, Debug)]
pub enum Decision {
    Accepted,
    Declined,
    NoReply,
}

/// One invitation and the answer given to it.
#[derive(Debug)]
pub struct Guest {
    /// The invitation code, the record's key.
    pub id: String,
    pub decision: Decision,
    pub guest_name: String,
    pub guest_dietary_restrictions: Option<String>,
    /// Set when the invitation is created; guests cannot change it.
    pub plus_one_allowed: bool,
    pub plus_one_name: Option<String>,
    pub plus_one_dietary_restrictions: Option<String>,
    /// When the guest first left `NoReply`; never changed afterwards.
    pub date_of_rsvp: Option<Timestamp>,
    pub last_modified: Option<Timestamp>,
}

/// What a guest submits on the RSVP form.
#[derive(Debug)]
pub struct RsvpForm {
    /// `"yes"` accepts; anything else declines.
    pub accepted: String,
    pub guest_dietary_restrictions: String,
    pub plus_one_name: Option<String>,
    pub plus_one_dietary_restrictions: Option<String>,
}

/// What the administrator submits to edit or to create an invitation.
#[derive(Debug)]
pub struct GuestForm {
    pub guest_name: String,
    /// `"yes"` accepts, `"no"` declines, anything else means no reply.
    pub accepted: String,
    pub guest_dietary_restrictions: String,
    pub plus_one_allowed: String,
    pub plus_one_name: Option<String>,
    pub plus_one_dietary_restrictions: Option<String>,
}

/// The decision of a guest's answer: only `"yes"` accepts.
pub open spec fn reply_decision(answer: Seq<char>) -> Decision {
    if answer == seq!['y', 'e', 's'] {
        Decision::Accepted
    } else {
        Decision::Declined
    }
}

/// The decision the administrator sets: `"yes"`, `"no"`, or no reply.
pub open spec fn admin_decision(answer: Seq<char>) -> Decision {
    if answer == seq!['y', 'e', 's'] {
        Decision::Accepted
    } else if answer == seq!['n', 'o'] {
        Decision::Declined
    } else {
        Decision::NoReply
    }
}

/// The first-RSVP time after a write that leaves the record with `decision`
/// at time `now`: an existing time is kept; otherwise `now` is taken once the
/// decision is no longer `NoReply`.
pub open spec fn first_rsvp_after(
    prev: Option<Timestamp>,
    decision: Decision,
    now: Timestamp,
) -> Option<Timestamp> {
    match prev {
        Some(t) => Some(t),
        None => if decision == Decision::NoReply {
            None
        } else {
            Some(now)
        },
    }
}

/// The record after a guest submits `form` at time `now`.
pub open spec fn rsvp_applied(g: Guest, form: RsvpForm, now: Timestamp) -> Guest {
    let decision = reply_decision(form.accepted@);
    Guest {
        id: g.id,
        decision,
        guest_name: g.guest_name,
        guest_dietary_restrictions: Some(form.guest_dietary_restrictions),
        plus_one_allowed: g.plus_one_allowed,
        plus_one_name: if g.plus_one_allowed {
            form.plus_one_name
        } else {
            g.plus_one_name
        },
        plus_one_dietary_restrictions: if g.plus_one_allowed {
            form.plus_one_dietary_restrictions
        } else {
            g.plus_one_dietary_restrictions
        },
        date_of_rsvp: first_rsvp_after(g.date_of_rsvp, decision, now),
        last_modified: Some(now),
    }
}

/// The record after the administrator submits `form` at time `now`. The
/// plus-one fields are taken from the form when the edited record allows a
/// plus one, and are cleared when it does not.
pub open spec fn edit_applied(g: Guest, form: GuestForm, now: Timestamp) -> Guest {
    let decision = admin_decision(form.accepted@);
    let allowed = form.plus_one_allowed@ == seq!['y', 'e', 's'];
    Guest {
        id: g.id,
        decision,
        guest_name: form.guest_name,
        guest_dietary_restrictions: Some(form.guest_dietary_restrictions),
        plus_one_allowed: allowed,
        plus_one_name: if allowed {
            form.plus_one_name
        } else {
            None
        },
        plus_one_dietary_restrictions: if allowed {
            form.plus_one_dietary_restrictions
        } else {
            None
        },
        date_of_rsvp: first_rsvp_after(g.date_of_rsvp, decision, now),
        last_modified: Some(now),
    }
}

/// An optional text with the empty text taken as absent.
pub open spec fn absent_if_empty(t: Option<String>) -> Option<String> {
    match t {
        Some(s) => if s@.len() == 0 {
            None
        } else {
            Some(s)
        },
        None => None,
    }
}

/// A new record under `code` from the administrator's `form`. The plus-one
/// texts are kept only where a plus one is allowed.
pub open spec fn created_guest(code: String, form: GuestForm) -> Guest {
    let allowed = form.plus_one_allowed@ == seq!['t', 'r', 'u', 'e'];
    Guest {
        id: code,
        decision: admin_decision(form.accepted@),
        guest_name: form.guest_name,
        guest_dietary_restrictions: Some(form.guest_dietary_restrictions),
        plus_one_allowed: allowed,
        plus_one_name: if allowed {
            absent_if_empty(form.plus_one_name)
        } else {
            None
        },
        plus_one_dietary_restrictions: if allowed {
            absent_if_empty(form.plus_one_dietary_restrictions)
        } else {
            None
        },
        date_of_rsvp: None,
        last_modified: None,
    }
}

impl Guest {
    /// A copy of the record.
    pub fn duplicate(&self) -> (r: Guest)
        ensures
            r == *self,
    {
        Guest {
            id: self.id.clone(),
            decision: self.decision,
            guest_name: self.guest_name.clone(),
            guest_dietary_restrictions: copy_text(&self.guest_dietary_restrictions),
            plus_one_allowed: self.plus_one_allowed,
            plus_one_name: copy_text(&self.plus_one_name),
            plus_one_dietary_restrictions: copy_text(&self.plus_one_dietary_restrictions),
            date_of_rsvp: self.date_of_rsvp,
            last_modified: self.last_modified,
        }
    }
}

/// Relies on chrono::Utc::now for the current UTC time, read as whole
/// seconds since the Unix epoch and the nanoseconds past them.
#[verifier::external_body]
fn current_time() -> (r: Timestamp) {
    let t = chrono::Utc::now();
    Timestamp { seconds: t.timestamp(), nanos: t.timestamp_subsec_nanos() }
}

/// The decision of a guest's answer.
pub fn decision_of_reply(answer: &str) -> (r: Decision)
    ensures
        r == reply_decision(answer@),
{
    proof {
        reveal_strlit("yes");
        assert("yes"@ =~= seq!['y', 'e', 's']);
    }
    if is_word(answer, "yes") {
        Decision::Accepted
    } else {
        Decision::Declined
    }
}

/// The decision of an administrator's answer.
pub fn decision_of_admin_answer(answer: &str) -> (r: Decision)
    ensures
        r == admin_decision(answer@),
{
    proof {
        reveal_strlit("yes");
        assert("yes"@ =~= seq!['y', 'e', 's']);
        reveal_strlit("no");
        assert("no"@ =~= seq!['n', 'o']);
    }
    if is_word(answer, "yes") {
        Decision::Accepted
    } else if is_word(answer, "no") {
        Decision::Declined
    } else {
        Decision::NoReply
    }
}

fn first_rsvp(prev: Option<Timestamp>, decision: Decision, now: Timestamp) -> (r: Option<
    Timestamp,
>)
    ensures
        r == first_rsvp_after(prev, decision, now),
{
    match prev {
        Some(t) => Some(t),
        None => match decision {
            Decision::NoReply => None,
            _ => Some(now),
        },
    }
}

/// Applies a guest's RSVP, submitted at `now`, to the record as it was read
/// before any write. The decision and the guest's dietary text come from the
/// form; the plus-one fields come from the form only where a plus one is
/// allowed; the first-RSVP time is kept once set.
pub fn submit_rsvp(guest: Guest, form: RsvpForm, now: Timestamp) -> (r: Guest)
    ensures
        r == rsvp_applied(guest, form, now),
{
    let decision = decision_of_reply(form.accepted.as_str());
    let date_of_rsvp = first_rsvp(guest.date_of_rsvp, decision, now);
    let (plus_one_name, plus_one_dietary_restrictions) = if guest.plus_one_allowed {
        (form.plus_one_name, form.plus_one_dietary_restrictions)
    } else {
        (guest.plus_one_name, guest.plus_one_dietary_restrictions)
    };
    Guest {
        id: guest.id,
        decision,
        guest_name: guest.guest_name,
        guest_dietary_restrictions: Some(form.guest_dietary_restrictions),
        plus_one_allowed: guest.plus_one_allowed,
        plus_one_name,
        plus_one_dietary_restrictions,
        date_of_rsvp,
        last_modified: Some(now),
    }
}

/// Applies an administrator's edit, submitted at `now`, to the record as it
/// was read before any write. Unlike a guest, the administrator may set the
/// decision back to no reply and may change the name and the plus-one
/// permission; the plus-one texts follow the new permission; the first-RSVP
/// time is kept once set.
pub fn apply_edit(guest: Guest, form: GuestForm, now: Timestamp) -> (r: Guest)
    ensures
        r == edit_applied(guest, form, now),
{
    proof {
        reveal_strlit("yes");
        assert("yes"@ =~= seq!['y', 'e', 's']);
    }
    let decision = decision_of_admin_answer(form.accepted.as_str());
    let plus_one_allowed = is_word(form.plus_one_allowed.as_str(), "yes");
    let date_of_rsvp = first_rsvp(guest.date_of_rsvp, decision, now);
    let (plus_one_name, plus_one_dietary_restrictions) = if plus_one_allowed {
        (form.plus_one_name, form.plus_one_dietary_restrictions)
    } else {
        (None, None)
    };
    Guest {
        id: guest.id,
        decision,
        guest_name: form.guest_name,
        guest_dietary_restrictions: Some(form.guest_dietary_restrictions),
        plus_one_allowed,
        plus_one_name,
        plus_one_dietary_restrictions,
        date_of_rsvp,
        last_modified: Some(now),
    }
}

/// Applies a guest's RSVP at the current time: the result is the record
/// after the RSVP at some moment, whatever the clock reported.
pub fn submit_rsvp_now(guest: Guest, form: RsvpForm) -> (r: Guest)
    ensures
        exists|t: Timestamp| r == rsvp_applied(guest, form, t),
{
    let now = current_time();
    let r = submit_rsvp(guest, form, now);
    assert(r == rsvp_applied(guest, form, now));
    r
}

/// Applies an administrator's edit at the current time: the result is the
/// record after the edit at some moment, whatever the clock reported.
pub fn apply_edit_now(guest: Guest, form: GuestForm) -> (r: Guest)
    ensures
        exists|t: Timestamp| r == edit_applied(guest, form, t),
{
    let now = current_time();
    let r = apply_edit(guest, form, now);
    assert(r == edit_applied(guest, form, now));
    r
}

fn none_if_empty(t: Option<String>) -> (r: Option<String>)
    ensures
        r == absent_if_empty(t),
{
    match t {
        Some(s) => if s.unicode_len() == 0 {
            None
        } else {
            Some(s)
        },
        None => None,
    }
}

/// A new record under `code` from the administrator's form. Empty plus-one
/// texts are stored as absent, and all plus-one texts are dropped where no
/// plus one is allowed; the record has no first-RSVP time yet.
pub fn new_guest(code: String, form: GuestForm) -> (r: Guest)
    ensures
        r == created_guest(code, form),
{
    proof {
        reveal_strlit("true");
        assert("true"@ =~= seq!['t', 'r', 'u', 'e']);
    }
    let decision = decision_of_admin_answer(form.accepted.as_str());
    let plus_one_allowed = is_word(form.plus_one_allowed.as_str(), "true");
    Guest {
        id: code,
        decision,
        guest_name: form.guest_name,
        guest_dietary_restrictions: Some(form.guest_dietary_restrictions),
        plus_one_allowed,
        plus_one_name: if plus_one_allowed {
            none_if_empty(form.plus_one_name)
        } else {
            None
        },
        plus_one_dietary_restrictions: if plus_one_allowed {
            none_if_empty(form.plus_one_dietary_restrictions)
        } else {
            None
        },
        date_of_rsvp: None,
        last_modified: None,
    }
}

/// Two RSVPs in sequence on a record that had no answer yet: the first-RSVP
/// time is the time of the first submission, and the second submission
/// leaves it unchanged whatever decision it carries.
pub proof fn lemma_first_rsvp_kept(
    g: Guest,
    first: RsvpForm,
    t1: Timestamp,
    second: RsvpForm,
    t2: Timestamp,
)
    requires
        g.decision == Decision::NoReply,
        g.date_of_rsvp is None,
    ensures
        rsvp_applied(g, first, t1).date_of_rsvp == Some(t1),
        rsvp_applied(rsvp_applied(g, first, t1), second, t2).date_of_rsvp == Some(t1),
{
}

/// Once a record has a first-RSVP time, no write by the guest or by the
/// administrator changes it.
pub proof fn lemma_first_rsvp_frozen(
    g: Guest,
    reply: RsvpForm,
    edit: GuestForm,
    now: Timestamp,
)
    requires
        g.date_of_rsvp is Some,
    ensures
        rsvp_applied(g, reply, now).date_of_rsvp == g.date_of_rsvp,
        edit_applied(g, edit, now).date_of_rsvp == g.date_of_rsvp,
{
}

/// Where no plus one is allowed, a guest's RSVP takes no plus-one text from
/// the form: the plus-one fields stay as they were, so a record without them
/// stays without them.
pub proof fn lemma_no_plus_one_written(g: Guest, form: RsvpForm, now: Timestamp)
    requires
        !g.plus_one_allowed,
    ensures
        rsvp_applied(g, form, now).plus_one_name == g.plus_one_name,
        rsvp_applied(g, form, now).plus_one_dietary_restrictions
            == g.plus_one_dietary_restrictions,
        g.plus_one_name is None ==> rsvp_applied(g, form, now).plus_one_name is None,
        g.plus_one_dietary_restrictions is None ==> rsvp_applied(
            g,
            form,
            now,
        ).plus_one_dietary_restrictions is None,
{
}

/// No administrator's write leaves plus-one texts in a record that allows no
/// plus one, whether it edits a record or creates one.
pub proof fn lemma_admin_writes_respect_plus_one(
    g: Guest,
    edit: GuestForm,
    now: Timestamp,
    code: String,
    create: GuestForm,
)
    ensures
        !edit_applied(g, edit, now).plus_one_allowed ==> edit_applied(g, edit, now).plus_one_name is None
            && edit_applied(g, edit, now).plus_one_dietary_restrictions is None,
        !created_guest(code, create).plus_one_allowed ==> created_guest(code, create).plus_one_name is None
            && created_guest(code, create).plus_one_dietary_restrictions is None,
{
}

} // verus!
