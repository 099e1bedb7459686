//! Expiry evaluation: which credentials of each application expire within
//! the lookahead window, whom to contact, and which applications to alert on.
use vstd::prelude::*;

use crate::instant::{utc_text, Instant, NANOS_PER_SEC, SECS_PER_DAY};
use crate::model::{App, Owner, PasswordCredential};
use crate::text::{option_debug, option_text, render_option, texts};

verus! {

/// Days ahead of now within which an expiry raises an alert, by default.
pub const LOOKAHEAD_DAYS: u64 = 30;

/// The default lookahead window in seconds.
pub const LOOKAHEAD_SECS: u64 = LOOKAHEAD_DAYS * SECS_PER_DAY;

/// The contact address of an owner: its mail, else its user principal name,
/// else none.
pub open spec fn contact_of(o: Owner) -> Option<Seq<char>> {
    match o.mail {
        Some(m) => Some(m@),
        None => option_text(o.user_principal_name),
    }
}

/// The contact addresses of `owners`, in owner order, one per contactable
/// owner.
pub open spec fn contacts_of(owners: Seq<Owner>) -> Seq<Seq<char>>
    decreases owners.len(),
{
    if owners.len() == 0 {
        Seq::empty()
    } else {
        let prev = contacts_of(owners.drop_last());
        match contact_of(owners.last()) {
            Some(c) => prev.push(c),
            None => prev,
        }
    }
}

/// Whether a credential ends strictly before `now` plus `window_secs`
/// seconds. A credential that has already expired qualifies too.
pub open spec fn is_expiring(c: PasswordCredential, now: Instant, window_secs: u64) -> bool {
    c.end_date_time@ < now@ + window_secs * NANOS_PER_SEC
}

/// The description of a credential: its key identifier, its hint and its
/// expiry instant.
pub open spec fn credential_text(c: PasswordCredential) -> Seq<char> {
    "Key ID: "@ + option_debug(option_text(c.key_id)) + ", Hint: "@ + option_debug(
        option_text(c.hint),
    ) + ", Expiry: "@ + utc_text(c.end_date_time@)
}

/// The descriptions of the expiring credentials among `creds`, in order.
pub open spec fn expiring_texts(
    creds: Seq<PasswordCredential>,
    now: Instant,
    window_secs: u64,
) -> Seq<Seq<char>>
    decreases creds.len(),
{
    if creds.len() == 0 {
        Seq::empty()
    } else {
        let prev = expiring_texts(creds.drop_last(), now, window_secs);
        if is_expiring(creds.last(), now, window_secs) {
            prev.push(credential_text(creds.last()))
        } else {
            prev
        }
    }
}

/// The label of an application: its display name, else `No Name`.
pub open spec fn label_of(name: Option<String>) -> Seq<char> {
    match name {
        Some(n) => n@,
        None => "No Name"@,
    }
}

/// What an alert holds.
pub struct AlertView {
    pub application_name: Seq<char>,
    pub owner_contacts: Seq<Seq<char>>,
    pub expiring_credentials: Seq<Seq<char>>,
}

/// What the evaluation decides for one application.
pub enum Outcome {
    /// The application has no password credentials.
    NoCredentials,
    /// It has credentials, none of them expiring.
    NothingExpiring,
    /// Credentials expire, but no owner has a contact address.
    NoContacts,
    /// The owners are to be notified.
    Notify(AlertView),
}

/// The decision for one application.
pub open spec fn outcome_of(app: App, now: Instant, window_secs: u64) -> Outcome {
    if app.password_credentials@.len() == 0 {
        Outcome::NoCredentials
    } else {
        let expiring = expiring_texts(app.password_credentials@, now, window_secs);
        let contacts = contacts_of(app.owners@);
        if expiring.len() == 0 {
            Outcome::NothingExpiring
        } else if contacts.len() == 0 {
            Outcome::NoContacts
        } else {
            Outcome::Notify(
                AlertView {
                    application_name: label_of(app.display_name),
                    owner_contacts: contacts,
                    expiring_credentials: expiring,
                },
            )
        }
    }
}

/// The alert for one application, if it qualifies.
pub open spec fn alert_of(app: App, now: Instant, window_secs: u64) -> Option<AlertView> {
    match outcome_of(app, now, window_secs) {
        Outcome::Notify(a) => Some(a),
        _ => None,
    }
}

/// The alerts for `apps`: one per qualifying application, in input order.
pub open spec fn alerts_of(apps: Seq<App>, now: Instant, window_secs: u64) -> Seq<AlertView>
    decreases apps.len(),
{
    if apps.len() == 0 {
        Seq::empty()
    } else {
        let prev = alerts_of(apps.drop_last(), now, window_secs);
        match alert_of(apps.last(), now, window_secs) {
            Some(a) => prev.push(a),
            None => prev,
        }
    }
}

/// A notification to send for one application.
#[derive(Clone, Debug)]
pub struct Alert {
    /// The application's display name, or `No Name`.
    pub application_name: String,
    /// Contact addresses of its owners, in owner order.
    pub owner_contacts: Vec<String>,
    /// Descriptions of its expiring credentials, in credential order.
    pub expiring_credentials: Vec<String>,
}

impl View for Alert {
    type V = AlertView;

    open spec fn view(&self) -> AlertView {
        AlertView {
            application_name: self.application_name@,
            owner_contacts: texts(self.owner_contacts@),
            expiring_credentials: texts(self.expiring_credentials@),
        }
    }
}

/// The views of a sequence of alerts.
pub open spec fn alert_views(v: Seq<Alert>) -> Seq<AlertView> {
    v.map_values(|a: Alert| a@)
}

/// The decision for one application, as a value.
#[derive(Clone, Debug)]
pub enum Assessment {
    NoCredentials,
    NothingExpiring,
    NoContacts,
    Notify(Alert),
}

impl View for Assessment {
    type V = Outcome;

    open spec fn view(&self) -> Outcome {
        match self {
            Assessment::NoCredentials => Outcome::NoCredentials,
            Assessment::NothingExpiring => Outcome::NothingExpiring,
            Assessment::NoContacts => Outcome::NoContacts,
            Assessment::Notify(a) => Outcome::Notify(a@),
        }
    }
}

/// The contact address of an owner: its mail, else its user principal name.
pub fn resolve_contact(owner: &Owner) -> (r: Option<String>)
    ensures
        option_text(r) == contact_of(*owner),
{
    match &owner.mail {
        Some(m) => Some(m.clone()),
        None => match &owner.user_principal_name {
            Some(u) => Some(u.clone()),
            None => None,
        },
    }
}

/// The contact addresses of `owners`, in owner order; owners without one
/// contribute nothing.
pub fn owner_contacts(owners: &Vec<Owner>) -> (r: Vec<String>)
    ensures
        texts(r@) == contacts_of(owners@),
{
    let mut r: Vec<String> = Vec::new();
    let mut i: usize = 0;
    while i < owners.len()
        invariant
            i <= owners.len(),
            texts(r@) == contacts_of(owners@.take(i as int)),
        decreases owners.len() - i,
    {
        let ghost prev = r@;
        proof {
            assert(owners@.take(i + 1).drop_last() =~= owners@.take(i as int));
        }
        match resolve_contact(&owners[i]) {
            Some(c) => {
                r.push(c);
                proof {
                    assert(texts(r@) =~= texts(prev).push(c@));
                }
            },
            None => {},
        }
        i += 1;
    }
    proof {
        assert(owners@.take(owners.len() as int) =~= owners@);
    }
    r
}

/// The description of a credential, such as
/// `Key ID: Some("k1"), Hint: Some("ab"), Expiry: 2024-01-06 00:00:00 UTC`.
pub fn describe_credential(c: &PasswordCredential) -> (r: String)
    ensures
        r@ == credential_text(*c),
{
    let mut r = String::from_str("Key ID: ");
    let key = render_option(&c.key_id);
    r.append(key.as_str());
    r.append(", Hint: ");
    let hint = render_option(&c.hint);
    r.append(hint.as_str());
    r.append(", Expiry: ");
    let end = c.end_date_time.to_utc_text();
    r.append(end.as_str());
    r
}

/// Whether a credential ends strictly before `now` plus `window_secs` seconds.
pub fn credential_expiring(c: &PasswordCredential, now: Instant, window_secs: u64) -> (r: bool)
    ensures
        r == is_expiring(*c, now, window_secs),
{
    c.end_date_time.is_before_window(&now, window_secs)
}

/// The descriptions of the credentials among `creds` that end before `now`
/// plus `window_secs` seconds, in credential order.
pub fn expiring_credentials(
    creds: &Vec<PasswordCredential>,
    now: Instant,
    window_secs: u64,
) -> (r: Vec<String>)
    ensures
        texts(r@) == expiring_texts(creds@, now, window_secs),
{
    let mut r: Vec<String> = Vec::new();
    let mut i: usize = 0;
    while i < creds.len()
        invariant
            i <= creds.len(),
            texts(r@) == expiring_texts(creds@.take(i as int), now, window_secs),
        decreases creds.len() - i,
    {
        let ghost prev = r@;
        proof {
            assert(creds@.take(i + 1).drop_last() =~= creds@.take(i as int));
        }
        if credential_expiring(&creds[i], now, window_secs) {
            let d = describe_credential(&creds[i]);
            r.push(d);
            proof {
                assert(texts(r@) =~= texts(prev).push(d@));
            }
        }
        i += 1;
    }
    proof {
        assert(creds@.take(creds.len() as int) =~= creds@);
    }
    r
}

/// Decides for one application whether to alert its owners, and why not
/// where it does not.
pub fn assess_application(app: &App, now: Instant, window_secs: u64) -> (r: Assessment)
    ensures
        r@ == outcome_of(*app, now, window_secs),
{
    if app.password_credentials.len() == 0 {
        return Assessment::NoCredentials;
    }
    let expiring = expiring_credentials(&app.password_credentials, now, window_secs);
    if expiring.len() == 0 {
        return Assessment::NothingExpiring;
    }
    let contacts = owner_contacts(&app.owners);
    if contacts.len() == 0 {
        return Assessment::NoContacts;
    }
    let name = match &app.display_name {
        Some(n) => n.clone(),
        None => String::from_str("No Name"),
    };
    Assessment::Notify(
        Alert { application_name: name, owner_contacts: contacts, expiring_credentials: expiring },
    )
}

/// The alerts for `apps` at `now` with a window of `window_secs` seconds:
/// one per application that has an expiring credential and a contactable
/// owner, in input order.
pub fn evaluate(apps: &Vec<App>, now: Instant, window_secs: u64) -> (r: Vec<Alert>)
    ensures
        alert_views(r@) == alerts_of(apps@, now, window_secs),
{
    let mut r: Vec<Alert> = Vec::new();
    let mut i: usize = 0;
    while i < apps.len()
        invariant
            i <= apps.len(),
            alert_views(r@) == alerts_of(apps@.take(i as int), now, window_secs),
        decreases apps.len() - i,
    {
        let ghost prev = r@;
        proof {
            assert(apps@.take(i + 1).drop_last() =~= apps@.take(i as int));
        }
        match assess_application(&apps[i], now, window_secs) {
            Assessment::Notify(a) => {
                r.push(a);
                proof {
                    assert(alert_views(r@) =~= alert_views(prev).push(a@));
                }
            },
            _ => {},
        }
        i += 1;
    }
    proof {
        assert(apps@.take(apps.len() as int) =~= apps@);
    }
    r
}

/// The alerts for `apps` at `now` with the default window of thirty days.
pub fn check_expiring_credentials(apps: &Vec<App>, now: Instant) -> (r: Vec<Alert>)
    ensures
        alert_views(r@) == alerts_of(apps@, now, LOOKAHEAD_SECS),
{
    evaluate(apps, now, LOOKAHEAD_SECS)
}

/// Applications without password credentials yield no alerts: a list made
/// only of them evaluates to no alert at all.
pub proof fn lemma_no_credentials_no_alerts(apps: Seq<App>, now: Instant, window_secs: u64)
    requires
        forall|i: int| 0 <= i < apps.len() ==> #[trigger] apps[i].password_credentials@.len() == 0,
    ensures
        alerts_of(apps, now, window_secs) == Seq::<AlertView>::empty(),
    decreases apps.len(),
{
    if apps.len() > 0 {
        assert forall|i: int| 0 <= i < apps.drop_last().len() implies #[trigger] apps.drop_last()[i].password_credentials@.len() == 0 by {
            assert(apps.drop_last()[i] == apps[i]);
        }
        lemma_no_credentials_no_alerts(apps.drop_last(), now, window_secs);
        assert(apps.last() == apps[apps.len() - 1]);
    }
}

/// Whether `text` is the description of a credential among `creds` that
/// ends strictly before `now` plus the window.
pub open spec fn describes_expiring(
    creds: Seq<PasswordCredential>,
    now: Instant,
    window_secs: u64,
    text: Seq<char>,
) -> bool {
    exists|j: int|
        0 <= j < creds.len() && is_expiring(creds[j], now, window_secs) && text
            == credential_text(#[trigger] creds[j])
}

proof fn lemma_expiring_texts_sources(creds: Seq<PasswordCredential>, now: Instant, window_secs: u64)
    ensures
        forall|k: int|
            0 <= k < expiring_texts(creds, now, window_secs).len() ==> describes_expiring(
                creds,
                now,
                window_secs,
                #[trigger] expiring_texts(creds, now, window_secs)[k],
            ),
    decreases creds.len(),
{
    if creds.len() > 0 {
        let prev = creds.drop_last();
        lemma_expiring_texts_sources(prev, now, window_secs);
        let d = expiring_texts(creds, now, window_secs);
        let pd = expiring_texts(prev, now, window_secs);
        assert forall|k: int| 0 <= k < d.len() implies describes_expiring(
            creds,
            now,
            window_secs,
            #[trigger] d[k],
        ) by {
            if k < pd.len() {
                assert(d[k] == pd[k]);
                assert(describes_expiring(prev, now, window_secs, pd[k]));
                let j = choose|j: int|
                    0 <= j < prev.len() && is_expiring(prev[j], now, window_secs) && pd[k]
                        == credential_text(#[trigger] prev[j]);
                assert(prev[j] == creds[j]);
            } else {
                let j = creds.len() - 1;
                assert(creds.last() == creds[j]);
                assert(d[k] == credential_text(creds[j]));
            }
        }
    }
}

/// Only expiring credentials are described: each entry of an application's
/// alert is the description of one of its credentials that ends strictly
/// before `now` plus the window. A credential ending at or after that point
/// contributes no entry.
pub proof fn lemma_alert_describes_only_expiring(app: App, now: Instant, window_secs: u64)
    ensures
        alert_of(app, now, window_secs) matches Some(a) ==> forall|k: int|
            0 <= k < a.expiring_credentials.len() ==> describes_expiring(
                app.password_credentials@,
                now,
                window_secs,
                #[trigger] a.expiring_credentials[k],
            ),
{
    lemma_expiring_texts_sources(app.password_credentials@, now, window_secs);
}

proof fn lemma_expiring_texts_complete(
    creds: Seq<PasswordCredential>,
    j: int,
    now: Instant,
    window_secs: u64,
)
    requires
        0 <= j < creds.len(),
        is_expiring(creds[j], now, window_secs),
    ensures
        expiring_texts(creds, now, window_secs).contains(credential_text(creds[j])),
    decreases creds.len(),
{
    let d = expiring_texts(creds, now, window_secs);
    if j == creds.len() - 1 {
        assert(d[d.len() - 1] == credential_text(creds[j]));
    } else {
        let prev = creds.drop_last();
        assert(prev[j] == creds[j]);
        lemma_expiring_texts_complete(prev, j, now, window_secs);
        let pd = expiring_texts(prev, now, window_secs);
        let k = choose|k: int| 0 <= k < pd.len() && pd[k] == credential_text(creds[j]);
        assert(d[k] == pd[k]);
    }
}

proof fn lemma_contacts_nonempty(owners: Seq<Owner>, i: int)
    requires
        0 <= i < owners.len(),
        contact_of(owners[i]) is Some,
    ensures
        contacts_of(owners).len() > 0,
    decreases owners.len(),
{
    if i < owners.len() - 1 {
        assert(owners.drop_last()[i] == owners[i]);
        lemma_contacts_nonempty(owners.drop_last(), i);
    }
}

/// Every expiring credential is described: when a credential of an
/// application ends strictly before `now` plus the window and at least one
/// owner has a contact address, the application gets an alert whose list
/// holds that credential's description.
pub proof fn lemma_expiring_is_described(app: App, j: int, now: Instant, window_secs: u64)
    requires
        0 <= j < app.password_credentials@.len(),
        is_expiring(app.password_credentials@[j], now, window_secs),
        exists|i: int| 0 <= i < app.owners@.len() && (#[trigger] contact_of(app.owners@[i])) is Some,
    ensures
        alert_of(app, now, window_secs) matches Some(a) && a.expiring_credentials.contains(
            credential_text(app.password_credentials@[j]),
        ),
{
    let i = choose|i: int| 0 <= i < app.owners@.len() && (#[trigger] contact_of(app.owners@[i])) is Some;
    lemma_contacts_nonempty(app.owners@, i);
    lemma_expiring_texts_complete(app.password_credentials@, j, now, window_secs);
}

/// Evaluation is repeatable: two evaluations of the same applications at the
/// same instant with the same window give the same alerts in the same order.
pub proof fn lemma_evaluation_repeatable(
    apps: Seq<App>,
    now: Instant,
    window_secs: u64,
    first: Seq<Alert>,
    second: Seq<Alert>,
)
    requires
        alert_views(first) == alerts_of(apps, now, window_secs),
        alert_views(second) == alerts_of(apps, now, window_secs),
    ensures
        alert_views(first) == alert_views(second),
        first.len() == second.len(),
{
    assert(first.len() == alert_views(first).len());
    assert(second.len() == alert_views(second).len());
}

} // verus!
