//! Hydration of fetched applications with their owners.
//!
//! The caller reads records and owner lists from the directory; this step
//! machine decides what to fetch next and which applications to keep. A
//! record that could not be parsed is skipped, and so is an application
//! whose owner list could not be parsed; every other application is kept,
//! with its owners attached, in the order its record arrived.
use vstd::prelude::*;

use crate::model::{App, Owner, Owners};

verus! {

/// What the caller is to do next.
#[derive(Clone, Debug)]
pub enum FetchStep {
    /// Fetch the owners of the application with this directory id.
    FetchOwners(String),
    /// Go on with the next record.
    NextRecord,
}

/// `app` with its owners replaced by `owners`.
pub open spec fn with_owners(app: App, owners: Vec<Owner>) -> App {
    App {
        id: app.id,
        app_id: app.app_id,
        display_name: app.display_name,
        password_credentials: app.password_credentials,
        owners: owners,
    }
}

/// The state of a hydration run: the applications kept so far, and the one
/// whose owners are awaited.
pub struct HydrationView {
    pub apps: Seq<App>,
    pub pending: Option<App>,
}

/// A hydration run in progress.
pub struct Hydration {
    apps: Vec<App>,
    pending: Option<App>,
}

impl View for Hydration {
    type V = HydrationView;

    closed spec fn view(&self) -> HydrationView {
        HydrationView { apps: self.apps@, pending: self.pending }
    }
}

impl Hydration {
    /// A run that has kept nothing and awaits nothing.
    pub fn new() -> (r: Hydration)
        ensures
            r@.apps == Seq::<App>::empty(),
            r@.pending is None,
    {
        Hydration { apps: Vec::new(), pending: None }
    }

    /// Takes the next record, `None` where it could not be parsed. A parsed
    /// record becomes the pending application and its owners are asked for;
    /// an unparsed one is skipped.
    pub fn on_record(&mut self, record: Option<App>) -> (step: FetchStep)
        ensures
            final(self)@.apps == old(self)@.apps,
            match record {
                Some(app) => step == FetchStep::FetchOwners(app.id) && final(self)@.pending
                    == Some(app),
                None => step == FetchStep::NextRecord && final(self)@.pending == old(
                    self,
                )@.pending,
            },
    {
        match record {
            Some(app) => {
                let id = app.id.clone();
                self.pending = Some(app);
                FetchStep::FetchOwners(id)
            },
            None => FetchStep::NextRecord,
        }
    }

    /// Takes the owner list of the pending application, `None` where it could
    /// not be parsed. With a list the application is kept, owners attached;
    /// without one it is dropped.
    pub fn on_owners(&mut self, owners: Option<Owners>)
        ensures
            final(self)@.pending is None,
            final(self)@.apps == match (old(self)@.pending, owners) {
                (Some(app), Some(o)) => old(self)@.apps.push(with_owners(app, o.value)),
                _ => old(self)@.apps,
            },
    {
        let pending = self.pending.take();
        match (pending, owners) {
            (Some(app), Some(o)) => {
                let mut app = app;
                app.insert_owners(o.value);
                self.apps.push(app);
            },
            _ => {},
        }
    }

    /// The applications kept, in the order their records arrived.
    pub fn into_apps(self) -> (r: Vec<App>)
        ensures
            r@ == self@.apps,
    {
        self.apps
    }
}

} // verus!
