//! The text of alert notifications.
use vstd::prelude::*;

use crate::evaluate::{alert_views, Alert, AlertView};
use crate::text::{join, joined, texts};

verus! {

/// The body of the notification for one application named `name` whose
/// credentials described by `expiring` are about to expire.
pub open spec fn alert_body_text(name: Seq<char>, expiring: Seq<Seq<char>>) -> Seq<char> {
    "The application '"@ + name
        + "' has credentials expiring soon. Please review and take necessary action.\n\nExpiring Credentials:\n"@
        + joined(expiring, "\n"@)
}

/// The subject line of every alert notification.
pub fn alert_subject() -> (r: String)
    ensures
        r@ == "Alert: Expiring Credentials for Application"@,
{
    String::from_str("Alert: Expiring Credentials for Application")
}

/// The body of the notification for the application `app_name`, listing the
/// descriptions of its expiring credentials one per line.
pub fn alert_message_body(app_name: &str, expiring_credentials: &Vec<String>) -> (r: String)
    ensures
        r@ == alert_body_text(app_name@, texts(expiring_credentials@)),
{
    let mut r = String::from_str("The application '");
    r.append(app_name);
    r.append(
        "' has credentials expiring soon. Please review and take necessary action.\n\nExpiring Credentials:\n",
    );
    let list = join(expiring_credentials, "\n");
    r.append(list.as_str());
    r
}

/// The application names of `alerts`, in order.
pub open spec fn digest_names(alerts: Seq<AlertView>) -> Seq<Seq<char>> {
    alerts.map_values(|a: AlertView| a.application_name)
}

/// The owner contacts of all `alerts`, one alert after another.
pub open spec fn digest_contacts(alerts: Seq<AlertView>) -> Seq<Seq<char>>
    decreases alerts.len(),
{
    if alerts.len() == 0 {
        Seq::empty()
    } else {
        digest_contacts(alerts.drop_last()) + alerts.last().owner_contacts
    }
}

/// The expiring-credential descriptions of all `alerts`, one alert after
/// another.
pub open spec fn digest_descriptions(alerts: Seq<AlertView>) -> Seq<Seq<char>>
    decreases alerts.len(),
{
    if alerts.len() == 0 {
        Seq::empty()
    } else {
        digest_descriptions(alerts.drop_last()) + alerts.last().expiring_credentials
    }
}

/// The body of a digest of `alerts`: all application names, then all owner
/// contacts, each list comma-separated, then all descriptions one per line.
pub open spec fn digest_text(alerts: Seq<AlertView>) -> Seq<char> {
    "Applications: "@ + joined(digest_names(alerts), ", "@) + "\nOwners: "@ + joined(
        digest_contacts(alerts),
        ", "@,
    ) + "\n\nExpiring Credentials:\n"@ + joined(digest_descriptions(alerts), "\n"@)
}

/// The subject line of a digest.
pub fn digest_subject() -> (r: String)
    ensures
        r@ == "Alert: Expiring Credentials Digest"@,
{
    String::from_str("Alert: Expiring Credentials Digest")
}

/// Appends the texts of `items` to `out`.
fn extend_texts(out: &mut Vec<String>, items: &Vec<String>)
    ensures
        texts(final(out)@) == texts(old(out)@) + texts(items@),
{
    let mut i: usize = 0;
    while i < items.len()
        invariant
            i <= items.len(),
            texts(out@) == texts(old(out)@) + texts(items@).take(i as int),
        decreases items.len() - i,
    {
        let ghost prev = out@;
        out.push(items[i].clone());
        proof {
            assert(texts(out@) =~= texts(prev).push(items@[i as int]@));
            assert(texts(items@).take(i + 1) =~= texts(items@).take(i as int).push(
                items@[i as int]@,
            ));
        }
        i += 1;
    }
    proof {
        assert(texts(items@).take(items.len() as int) =~= texts(items@));
    }
}

/// The body of one message that sums up all `alerts`: application names and
/// owner contacts comma-separated, credential descriptions one per line.
pub fn digest_body(alerts: &Vec<Alert>) -> (r: String)
    ensures
        r@ == digest_text(alert_views(alerts@)),
{
    let mut names: Vec<String> = Vec::new();
    let mut contacts: Vec<String> = Vec::new();
    let mut descriptions: Vec<String> = Vec::new();
    let mut i: usize = 0;
    while i < alerts.len()
        invariant
            i <= alerts.len(),
            texts(names@) == digest_names(alert_views(alerts@).take(i as int)),
            texts(contacts@) == digest_contacts(alert_views(alerts@).take(i as int)),
            texts(descriptions@) == digest_descriptions(alert_views(alerts@).take(i as int)),
        decreases alerts.len() - i,
    {
        let ghost prev_names = names@;
        let a = &alerts[i];
        names.push(a.application_name.clone());
        extend_texts(&mut contacts, &a.owner_contacts);
        extend_texts(&mut descriptions, &a.expiring_credentials);
        proof {
            let v = alert_views(alerts@);
            assert(v.take(i + 1).drop_last() =~= v.take(i as int));
            assert(v[i as int] == a@);
            assert(texts(names@) =~= texts(prev_names).push(a.application_name@));
            assert(digest_names(v.take(i + 1)) =~= digest_names(v.take(i as int)).push(
                a.application_name@,
            ));
        }
        i += 1;
    }
    proof {
        assert(alert_views(alerts@).take(alerts.len() as int) =~= alert_views(alerts@));
    }
    let mut r = String::from_str("Applications: ");
    let n = join(&names, ", ");
    r.append(n.as_str());
    r.append("\nOwners: ");
    let c = join(&contacts, ", ");
    r.append(c.as_str());
    r.append("\n\nExpiring Credentials:\n");
    let d = join(&descriptions, "\n");
    r.append(d.as_str());
    r
}

} // verus!
