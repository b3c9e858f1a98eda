//! The text of the message sent to the hosts once a guest has answered, and
//! the fields shown on the RSVP and edit forms.
use vstd::prelude::*;
use crate::guest::{Decision, Guest};
use crate::text::text_or_empty;

verus! {

/// The verb for a decision in the notification.
pub open spec fn response_text(d: Decision) -> Seq<char> {
    match d {
        Decision::Accepted => "accepted"@,
        Decision::Declined => "declined"@,
        Decision::NoReply => "BROKEN THE FORM OF"@,
    }
}

/// An optional text, or `fallback` where it is absent.
pub open spec fn text_or(t: Option<String>, fallback: Seq<char>) -> Seq<char> {
    match t {
        Some(s) => s@,
        None => fallback,
    }
}

pub open spec fn subject_text(g: Guest) -> Seq<char> {
    g.guest_name@ + " has "@ + response_text(g.decision) + " your invitation."@
}

pub open spec fn body_text(g: Guest) -> Seq<char> {
    let main = "\n        "@ + g.guest_name@ + " has "@ + response_text(g.decision)
        + " your invitation.\n        Dietary restrictions: "@ + text_or(
        g.guest_dietary_restrictions,
        "N/A"@,
    ) + "\n    "@;
    if g.plus_one_allowed {
        main + "\n            Plus one name: "@ + text_or(g.plus_one_name, "NO GUEST"@)
            + "\n            Plus one dietary restrictions: "@ + text_or(
            g.plus_one_dietary_restrictions,
            "N/A"@,
        ) + "\n        "@
    } else {
        main
    }
}

/// The subject and body of a notification.
pub struct Notification {
    pub subject: String,
    pub body: String,
}

fn response_word(d: Decision) -> (r: &'static str)
    ensures
        r@ == response_text(d),
{
    match d {
        Decision::Accepted => "accepted",
        Decision::Declined => "declined",
        Decision::NoReply => "BROKEN THE FORM OF",
    }
}

fn append_or(s: &mut String, t: &Option<String>, fallback: &str)
    ensures
        final(s)@ == old(s)@ + text_or(*t, fallback@),
{
    match t {
        Some(v) => s.append(v.as_str()),
        None => s.append(fallback),
    }
}

/// The notification for a record as it stands after a guest's RSVP: who
/// answered what, their dietary restrictions, and the plus one's details
/// where a plus one is allowed.
pub fn notification(g: &Guest) -> (r: Notification)
    ensures
        r.subject@ == subject_text(*g),
        r.body@ == body_text(*g),
{
    let word = response_word(g.decision);
    let mut subject = g.guest_name.clone();
    subject.append(" has ");
    subject.append(word);
    subject.append(" your invitation.");

    let mut body = String::new();
    body.append("\n        ");
    body.append(g.guest_name.as_str());
    body.append(" has ");
    body.append(word);
    body.append(" your invitation.\n        Dietary restrictions: ");
    append_or(&mut body, &g.guest_dietary_restrictions, "N/A");
    body.append("\n    ");
    if g.plus_one_allowed {
        body.append("\n            Plus one name: ");
        append_or(&mut body, &g.plus_one_name, "NO GUEST");
        body.append("\n            Plus one dietary restrictions: ");
        append_or(&mut body, &g.plus_one_dietary_restrictions, "N/A");
        body.append("\n        ");
    }
    Notification { subject, body }
}

/// The fields of the RSVP and edit forms, absent texts shown empty.
pub struct FormView {
    pub invite_code: String,
    pub name: String,
    pub guest_dietary_restrictions: String,
    pub plus_one_allowed: bool,
    pub plus_one_name: String,
    pub plus_one_dietary_restrictions: String,
}

/// The form fields for a record.
pub fn form_view(g: &Guest) -> (r: FormView)
    ensures
        r.invite_code@ == g.id@,
        r.name@ == g.guest_name@,
        r.guest_dietary_restrictions@ == text_or(g.guest_dietary_restrictions, Seq::empty()),
        r.plus_one_allowed == g.plus_one_allowed,
        r.plus_one_name@ == text_or(g.plus_one_name, Seq::empty()),
        r.plus_one_dietary_restrictions@ == text_or(
            g.plus_one_dietary_restrictions,
            Seq::empty(),
        ),
{
    FormView {
        invite_code: g.id.clone(),
        name: g.guest_name.clone(),
        guest_dietary_restrictions: text_or_empty(&g.guest_dietary_restrictions),
        plus_one_allowed: g.plus_one_allowed,
        plus_one_name: text_or_empty(&g.plus_one_name),
        plus_one_dietary_restrictions: text_or_empty(&g.plus_one_dietary_restrictions),
    }
}

} // verus!
