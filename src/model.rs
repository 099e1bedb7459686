//! The directory records: applications, their password credentials and
//! their owners.
use vstd::prelude::*;

use crate::instant::Instant;

verus! {

/// A password credential (client secret) of an application.
#[derive(Clone, Debug)]
pub struct PasswordCredential {
    pub custom_key_identifier: Option<String>,
    /// When the secret stops working; the only field that expiry reads.
    pub end_date_time: Instant,
    /// A short fragment of the secret, for display.
    pub hint: Option<String>,
    pub key_id: Option<String>,
}

/// A page of user records.
#[derive(Clone, Debug)]
pub struct Users {
    pub value: Vec<User>,
}

/// A user record.
#[derive(Clone, Debug)]
pub struct User {
    pub id: String,
    pub sign_in_type: String,
    pub issuer: String,
    pub issuer_assigned_id: String,
}

/// The owners of one application, as the directory lists them.
#[derive(Clone, Debug)]
pub struct Owners {
    pub value: Vec<Owner>,
}

/// A principal responsible for an application.
#[derive(Clone, Debug)]
pub struct Owner {
    pub id: String,
    pub display_name: Option<String>,
    /// Login name, the contact address when `mail` is absent.
    pub user_principal_name: Option<String>,
    /// Preferred contact address.
    pub mail: Option<String>,
}

/// An application registration with its credentials and, once attached, its
/// owners.
#[derive(Clone, Debug)]
pub struct App {
    pub id: String,
    pub app_id: Option<String>,
    pub display_name: Option<String>,
    pub password_credentials: Vec<PasswordCredential>,
    /// Empty until the owners are fetched and attached.
    pub owners: Vec<Owner>,
}

impl App {
    /// Replaces the application's owners with `owners`, leaving the rest.
    pub fn insert_owners(&mut self, owners: Vec<Owner>)
        ensures
            final(self).owners == owners,
            final(self).id == old(self).id,
            final(self).app_id == old(self).app_id,
            final(self).display_name == old(self).display_name,
            final(self).password_credentials == old(self).password_credentials,
    {
        self.owners = owners;
    }
}

} // verus!
