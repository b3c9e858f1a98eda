use wedding_rsvp::admin::{admin_summary, count_confirmed_plus_ones, list_by_decision};
use wedding_rsvp::auth::{
    begin_form_view, begin_login, finish_form_view, finish_login, gate_submission, normalize_code,
    session_code, FormGate, FormStep, LoginOutcome, LoginStep, SubmitGate,
};
use wedding_rsvp::guest::{
    apply_edit, decision_of_admin_answer, decision_of_reply, new_guest, submit_rsvp,
    submit_rsvp_now, Decision, Guest, GuestForm, RsvpForm, Timestamp,
};
use wedding_rsvp::invite::{generate_invite_code, place_invitation, to_ascii_upper};
use wedding_rsvp::notify::{form_view, notification};

fn guest(code: &str, name: &str, plus_one_allowed: bool) -> Guest {
    Guest {
        id: code.to_string(),
        decision: Decision::NoReply,
        guest_name: name.to_string(),
        guest_dietary_restrictions: None,
        plus_one_allowed,
        plus_one_name: None,
        plus_one_dietary_restrictions: None,
        date_of_rsvp: None,
        last_modified: None,
    }
}

fn rsvp(answer: &str, diet: &str, name: Option<&str>, pdiet: Option<&str>) -> RsvpForm {
    RsvpForm {
        accepted: answer.to_string(),
        guest_dietary_restrictions: diet.to_string(),
        plus_one_name: name.map(|s| s.to_string()),
        plus_one_dietary_restrictions: pdiet.map(|s| s.to_string()),
    }
}

fn admin_form(name: &str, answer: &str, allowed: &str, pname: Option<&str>) -> GuestForm {
    GuestForm {
        guest_name: name.to_string(),
        accepted: answer.to_string(),
        guest_dietary_restrictions: "none".to_string(),
        plus_one_allowed: allowed.to_string(),
        plus_one_name: pname.map(|s| s.to_string()),
        plus_one_dietary_restrictions: Some(String::new()),
    }
}

const T1: Timestamp = Timestamp { seconds: 1_700_000_000, nanos: 5 };
const T2: Timestamp = Timestamp { seconds: 1_700_086_400, nanos: 0 };

#[test]
fn accepting_guest_with_plus_one() {
    let g = guest("ABCDEFGHIJKL", "Alex", true);
    let r = submit_rsvp(g, rsvp("yes", "vegan", Some("Sam"), None), T1);
    assert_eq!(r.decision, Decision::Accepted);
    assert_eq!(r.guest_dietary_restrictions.as_deref(), Some("vegan"));
    assert_eq!(r.plus_one_name.as_deref(), Some("Sam"));
    assert_eq!(r.date_of_rsvp, Some(T1));
    assert_eq!(r.last_modified, Some(T1));
}

#[test]
fn resubmitting_decline_keeps_first_rsvp() {
    let g = guest("ABCDEFGHIJKL", "Alex", true);
    let first = submit_rsvp(g, rsvp("yes", "vegan", Some("Sam"), None), T1);
    let second = submit_rsvp(first, rsvp("no", "none", None, None), T2);
    assert_eq!(second.decision, Decision::Declined);
    assert_eq!(second.guest_dietary_restrictions.as_deref(), Some("none"));
    assert_eq!(second.date_of_rsvp, Some(T1));
    assert_eq!(second.last_modified, Some(T2));
}

#[test]
fn no_plus_one_fields_without_permission() {
    let g = guest("ABCDEFGHIJKL", "Alex", false);
    let r = submit_rsvp(g, rsvp("yes", "", Some("Sam"), Some("vegan")), T1);
    assert_eq!(r.plus_one_name, None);
    assert_eq!(r.plus_one_dietary_restrictions, None);
}

#[test]
fn any_answer_but_yes_declines() {
    assert_eq!(decision_of_reply("yes"), Decision::Accepted);
    assert_eq!(decision_of_reply("Yes"), Decision::Declined);
    assert_eq!(decision_of_reply(""), Decision::Declined);
    assert_eq!(decision_of_admin_answer("yes"), Decision::Accepted);
    assert_eq!(decision_of_admin_answer("no"), Decision::Declined);
    assert_eq!(decision_of_admin_answer("maybe"), Decision::NoReply);
}

#[test]
fn submit_now_stamps_first_rsvp() {
    let g = guest("ABCDEFGHIJKL", "Alex", false);
    let r = submit_rsvp_now(g, rsvp("yes", "", None, None));
    let t = r.date_of_rsvp.expect("first rsvp time set");
    assert!(t.seconds > 1_600_000_000);
    assert_eq!(r.last_modified, Some(t));
}

#[test]
fn dashed_code_normalizes() {
    assert_eq!(normalize_code("ABCD-EFGH-IJKL"), "ABCDEFGHIJKL");
    assert_eq!(normalize_code("ABCDEFGHIJKL"), "ABCDEFGHIJKL");
    assert_eq!(normalize_code("--"), "");
    let dashed = begin_login("ABCD-EFGH-IJKL", Some(2));
    let plain = begin_login("ABCDEFGHIJKL", Some(2));
    match (dashed, plain) {
        (LoginStep::LookUp(a), LoginStep::LookUp(b)) => {
            assert_eq!(a, b);
            assert!(matches!(finish_login(a, Some(true)), LoginOutcome::Success(c) if c == b));
        }
        _ => panic!("expected a lookup"),
    }
}

#[test]
fn login_outcomes() {
    assert!(matches!(finish_login("X".to_string(), Some(false)), LoginOutcome::InvalidCode));
    assert!(matches!(finish_login("X".to_string(), None), LoginOutcome::Unavailable));
}

#[test]
fn submission_gate() {
    assert_eq!(gate_submission("ABCDEFGHIJKL", Some(5)), SubmitGate::Throttled);
    assert_eq!(gate_submission("ABCDEFGHIJKL", Some(4)), SubmitGate::Proceed);
    assert_eq!(gate_submission("ABCDEFGHIJKL", None), SubmitGate::Proceed);
    assert_eq!(gate_submission("", None), SubmitGate::Neutral);
    assert_eq!(gate_submission("ABCDEFGHIJK", None), SubmitGate::Neutral);
    assert_eq!(session_code(None), "");
    assert_eq!(session_code(Some("ABCDEFGHIJKL".to_string())), "ABCDEFGHIJKL");
}

#[test]
fn admin_edit_can_reset_to_no_reply() {
    let mut g = guest("ABCDEFGHIJKL", "Alex", true);
    g.decision = Decision::Accepted;
    g.date_of_rsvp = Some(T1);
    let r = apply_edit(g, admin_form("Alexandra", "maybe", "no", Some("Sam")), T2);
    assert_eq!(r.decision, Decision::NoReply);
    assert_eq!(r.guest_name, "Alexandra");
    assert!(!r.plus_one_allowed);
    assert_eq!(r.plus_one_name, None);
    assert_eq!(r.plus_one_dietary_restrictions, None);
    assert_eq!(r.date_of_rsvp, Some(T1));
    assert_eq!(r.last_modified, Some(T2));
}

#[test]
fn admin_edit_first_answer_sets_time() {
    let g = guest("ABCDEFGHIJKL", "Alex", false);
    let r = apply_edit(g, admin_form("Alex", "no", "yes", Some("Sam")), T2);
    assert_eq!(r.decision, Decision::Declined);
    assert!(r.plus_one_allowed);
    assert_eq!(r.plus_one_name.as_deref(), Some("Sam"));
    assert_eq!(r.plus_one_dietary_restrictions.as_deref(), Some(""));
    assert_eq!(r.date_of_rsvp, Some(T2));
    let g = guest("ABCDEFGHIJKL", "Alex", false);
    let r = apply_edit(g, admin_form("Alex", "", "no", None), T2);
    assert_eq!(r.date_of_rsvp, None);
}

#[test]
fn new_guest_drops_empty_plus_one_texts() {
    let r = new_guest("QWERTYUIOP12".to_string(), admin_form("Kim", "yes", "true", Some("")));
    assert_eq!(r.id, "QWERTYUIOP12");
    assert_eq!(r.decision, Decision::Accepted);
    assert!(r.plus_one_allowed);
    assert_eq!(r.plus_one_name, None);
    assert_eq!(r.plus_one_dietary_restrictions, None);
    assert_eq!(r.guest_dietary_restrictions.as_deref(), Some("none"));
    assert_eq!(r.date_of_rsvp, None);
    let r = new_guest("QWERTYUIOP12".to_string(), admin_form("Kim", "", "yes", Some("Lee")));
    assert_eq!(r.decision, Decision::NoReply);
    assert!(!r.plus_one_allowed);
    assert_eq!(r.plus_one_name, None);
    let r = new_guest("QWERTYUIOP12".to_string(), admin_form("Kim", "no", "true", Some("Lee")));
    assert_eq!(r.decision, Decision::Declined);
    assert_eq!(r.plus_one_name.as_deref(), Some("Lee"));
}

#[test]
fn form_view_gate() {
    assert!(matches!(
        begin_form_view(Some(5), Some("ABCDEFGHIJKL".to_string())),
        FormStep::AddressLocked
    ));
    assert!(matches!(begin_form_view(None, None), FormStep::NotAuthenticated));
    assert!(matches!(begin_form_view(Some(4), Some(String::new())), FormStep::NotAuthenticated));
    match begin_form_view(Some(4), Some("ABCDEFGHIJKL".to_string())) {
        FormStep::CountView(code) => assert_eq!(code, "ABCDEFGHIJKL"),
        other => panic!("unexpected step {:?}", other),
    }
    assert!(matches!(finish_form_view("ABCDEFGHIJKL".to_string(), Some(5)), FormGate::SlowDown));
    match finish_form_view("ABCDEFGHIJKL".to_string(), Some(1)) {
        FormGate::Load(code) => assert_eq!(code, "ABCDEFGHIJKL"),
        other => panic!("unexpected gate {:?}", other),
    }
}

#[test]
fn taken_code_is_never_used() {
    let form = admin_form("Kim", "yes", "true", None);
    let form = match place_invitation("AAAAAAAAAAAA".to_string(), true, form) {
        Err(f) => f,
        Ok(_) => panic!("placed under a taken code"),
    };
    match place_invitation("BBBBBBBBBBBB".to_string(), false, form) {
        Ok(g) => assert_eq!(g.id, "BBBBBBBBBBBB"),
        Err(_) => panic!("free code refused"),
    }
}

#[test]
fn generated_codes_are_upper_alphanumeric() {
    for _ in 0..50 {
        let c = generate_invite_code();
        assert_eq!(c.chars().count(), 12);
        assert!(c.chars().all(|ch| ch.is_ascii_uppercase() || ch.is_ascii_digit()), "{}", c);
    }
    assert_eq!(to_ascii_upper("abZ9-q"), "ABZ9-Q");
}

#[test]
fn admin_lists_and_plus_one_count() {
    let mut a = guest("AAAAAAAAAAAA", "Ann", true);
    a.decision = Decision::Accepted;
    a.plus_one_name = Some("Pat".to_string());
    let mut b = guest("BBBBBBBBBBBB", "Bo", true);
    b.decision = Decision::Accepted;
    b.plus_one_name = Some(String::new());
    let mut c = guest("CCCCCCCCCCCC", "Cy", false);
    c.decision = Decision::Declined;
    let d = guest("DDDDDDDDDDDD", "Di", true);
    let mut e = guest("EEEEEEEEEEEE", "Ed", false);
    e.decision = Decision::Accepted;
    e.plus_one_name = Some("Lou".to_string());
    let all = vec![a, b, c, d, e];
    assert_eq!(count_confirmed_plus_ones(&all), 1);
    let accepted: Vec<String> =
        list_by_decision(&all, Decision::Accepted).into_iter().map(|g| g.guest_name).collect();
    assert_eq!(accepted, vec!["Ann", "Bo", "Ed"]);
    let s = admin_summary(&all);
    assert_eq!(s.attending.len(), 3);
    assert_eq!(s.declined.len(), 1);
    assert_eq!(s.declined[0].guest_name, "Cy");
    assert_eq!(s.noreply.len(), 1);
    assert_eq!(s.noreply[0].guest_name, "Di");
    assert_eq!(s.plus_one_count, 1);
}

#[test]
fn notification_text() {
    let mut g = guest("ABCDEFGHIJKL", "Alex", true);
    g.decision = Decision::Accepted;
    g.guest_dietary_restrictions = Some("vegan".to_string());
    g.plus_one_name = Some("Sam".to_string());
    let n = notification(&g);
    assert_eq!(n.subject, "Alex has accepted your invitation.");
    assert_eq!(
        n.body,
        "\n        Alex has accepted your invitation.\n        Dietary restrictions: vegan\n    \
         \n            Plus one name: Sam\n            Plus one dietary restrictions: N/A\n        "
    );
    let mut h = guest("ABCDEFGHIJKL", "Bea", false);
    h.decision = Decision::Declined;
    let n = notification(&h);
    assert_eq!(n.subject, "Bea has declined your invitation.");
    assert_eq!(
        n.body,
        "\n        Bea has declined your invitation.\n        Dietary restrictions: N/A\n    "
    );
    let n = notification(&guest("ABCDEFGHIJKL", "Cy", false));
    assert_eq!(n.subject, "Cy has BROKEN THE FORM OF your invitation.");
}

#[test]
fn form_view_shows_absent_as_empty() {
    let mut g = guest("ABCDEFGHIJKL", "Alex", true);
    g.plus_one_name = Some("Sam".to_string());
    let v = form_view(&g);
    assert_eq!(v.invite_code, "ABCDEFGHIJKL");
    assert_eq!(v.name, "Alex");
    assert_eq!(v.guest_dietary_restrictions, "");
    assert!(v.plus_one_allowed);
    assert_eq!(v.plus_one_name, "Sam");
    assert_eq!(v.plus_one_dietary_restrictions, "");
}
