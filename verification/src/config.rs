//! The description of a repository to monitor, and the connection options
//! that are built from it.

use vstd::prelude::*;

verus! {

/// One configured backup repository.
///
/// Exactly one of `password` and `password_file` is expected to be set;
/// [`Backup::connection`] reports a description for which that is not so.
#[derive(Debug)]
pub struct Backup {
    /// The name of the target, unique among the configured targets; it
    /// labels every observation about the target.
    pub name: String,
    /// Where the repository lives.
    pub repository: String,
    pub password: Option<String>,
    pub password_file: Option<String>,
    /// Options for the storage backend, as pairs of key and value.
    pub options: Vec<(String, String)>,
}

/// What contracts say of a [`Backup`].
pub struct BackupView {
    pub name: Seq<char>,
    pub repository: Seq<char>,
    pub password: Option<Seq<char>>,
    pub password_file: Option<Seq<char>>,
    pub options: Seq<(Seq<char>, Seq<char>)>,
}

/// The view of an optional string.
pub open spec fn optional_text(text: Option<String>) -> Option<Seq<char>> {
    match text {
        Some(t) => Some(t@),
        None => None,
    }
}

/// The views of the pairs in `options`, in order.
pub open spec fn option_views(options: Seq<(String, String)>) -> Seq<(Seq<char>, Seq<char>)> {
    options.map_values(|o: (String, String)| (o.0@, o.1@))
}

impl View for Backup {
    type V = BackupView;

    open spec fn view(&self) -> BackupView {
        BackupView {
            name: self.name@,
            repository: self.repository@,
            password: optional_text(self.password),
            password_file: optional_text(self.password_file),
            options: option_views(self.options@),
        }
    }
}

/// The secret that unlocks a repository, or where to find it.
#[derive(Debug)]
pub enum Credential {
    Password(String),
    PasswordFile(String),
}

/// What contracts say of a [`Credential`].
pub enum CredentialView {
    Password(Seq<char>),
    PasswordFile(Seq<char>),
}

impl View for Credential {
    type V = CredentialView;

    open spec fn view(&self) -> CredentialView {
        match self {
            Credential::Password(p) => CredentialView::Password(p@),
            Credential::PasswordFile(f) => CredentialView::PasswordFile(f@),
        }
    }
}

/// Why a target description cannot be used.
#[derive(Clone, Copy, Debug, PartialEq, Eq, Structural)]
pub enum ConfigurationError {
    /// Neither a password nor a password file is given.
    MissingCredential,
    /// Both a password and a password file are given.
    AmbiguousCredential,
}

/// What is needed to open a repository.
#[derive(Debug)]
pub struct Connection {
    pub repository: String,
    pub credential: Credential,
    pub options: Vec<(String, String)>,
}

/// What contracts say of a [`Connection`].
pub struct ConnectionView {
    pub repository: Seq<char>,
    pub credential: CredentialView,
    pub options: Seq<(Seq<char>, Seq<char>)>,
}

impl View for Connection {
    type V = ConnectionView;

    open spec fn view(&self) -> ConnectionView {
        ConnectionView {
            repository: self.repository@,
            credential: self.credential@,
            options: option_views(self.options@),
        }
    }
}

impl BackupView {
    /// The one credential of the description, or what is wrong with it.
    pub open spec fn credential(self) -> Result<CredentialView, ConfigurationError> {
        match (self.password, self.password_file) {
            (Some(p), None) => Ok(CredentialView::Password(p)),
            (None, Some(f)) => Ok(CredentialView::PasswordFile(f)),
            (None, None) => Err(ConfigurationError::MissingCredential),
            (Some(_), Some(_)) => Err(ConfigurationError::AmbiguousCredential),
        }
    }

    /// The connection options of the description, or what is wrong with it.
    pub open spec fn connection(self) -> Result<ConnectionView, ConfigurationError> {
        match self.credential() {
            Ok(credential) => Ok(
                ConnectionView { repository: self.repository, credential, options: self.options },
            ),
            Err(e) => Err(e),
        }
    }
}

/// The view of the outcome of building connection options.
pub open spec fn connection_view(outcome: Result<Connection, ConfigurationError>) -> Result<
    ConnectionView,
    ConfigurationError,
> {
    match outcome {
        Ok(c) => Ok(c@),
        Err(e) => Err(e),
    }
}

fn clone_options(options: &Vec<(String, String)>) -> (r: Vec<(String, String)>)
    ensures
        option_views(r@) == option_views(options@),
{
    let mut out: Vec<(String, String)> = Vec::new();
    let mut i: usize = 0;
    while i < options.len()
        invariant
            i <= options.len(),
            out@.len() == i,
            forall|j: int|
                0 <= j < i ==> out@[j].0@ == options@[j].0@ && out@[j].1@ == options@[j].1@,
        decreases options.len() - i,
    {
        let pair = &options[i];
        out.push((pair.0.clone(), pair.1.clone()));
        i += 1;
    }
    out
}

impl Clone for Backup {
    fn clone(&self) -> (r: Self)
        ensures
            r@ == self@,
    {
        let password = match &self.password {
            Some(p) => Some(p.clone()),
            None => None,
        };
        let password_file = match &self.password_file {
            Some(f) => Some(f.clone()),
            None => None,
        };
        Backup {
            name: self.name.clone(),
            repository: self.repository.clone(),
            password,
            password_file,
            options: clone_options(&self.options),
        }
    }
}

impl Backup {
    /// Builds the connection options from the one credential that is
    /// configured. A description with no credential, or with two, is refused.
    pub fn connection(&self) -> (r: Result<Connection, ConfigurationError>)
        ensures
            connection_view(r) == self@.connection(),
    {
        let credential = match (&self.password, &self.password_file) {
            (Some(p), None) => Credential::Password(p.clone()),
            (None, Some(f)) => Credential::PasswordFile(f.clone()),
            (None, None) => {
                return Err(ConfigurationError::MissingCredential);
            },
            (Some(_), Some(_)) => {
                return Err(ConfigurationError::AmbiguousCredential);
            },
        };
        Ok(
            Connection {
                repository: self.repository.clone(),
                credential,
                options: clone_options(&self.options),
            },
        )
    }
}

} // verus!
