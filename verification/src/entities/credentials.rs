//! How the service proves who it is to the remote side.
use vstd::prelude::*;

verus! {

/// What is presented to the remote side.
#[derive(Clone, PartialEq, Eq)]
pub enum Credentials {
    /// Nothing is presented.
    Anonymous,
    Token(String),
    UsernamePassword { username: String, password: String },
}

/// Credentials as a mathematical object.
pub enum CredentialsView {
    Anonymous,
    Token(Seq<char>),
    UsernamePassword { username: Seq<char>, password: Seq<char> },
}

impl View for Credentials {
    type V = CredentialsView;

    open spec fn view(&self) -> CredentialsView {
        match self {
            Credentials::Anonymous => CredentialsView::Anonymous,
            Credentials::Token(t) => CredentialsView::Token(t@),
            Credentials::UsernamePassword { username, password } => CredentialsView::UsernamePassword {
                username: username@,
                password: password@,
            },
        }
    }
}

/// The name and password that stand for `c` where a pair is asked for: a
/// token is the name, with an empty password.
pub open spec fn account_of(c: CredentialsView) -> Option<(Seq<char>, Seq<char>)> {
    match c {
        CredentialsView::Anonymous => None,
        CredentialsView::Token(t) => Some((t, Seq::empty())),
        CredentialsView::UsernamePassword { username, password } => Some((username, password)),
    }
}

/// The credentials that download what `c` may list: a token becomes a name
/// with an empty password, anything else stays as it is.
pub open spec fn download_credentials(c: CredentialsView) -> CredentialsView {
    match c {
        CredentialsView::Token(t) => CredentialsView::UsernamePassword {
            username: t,
            password: Seq::empty(),
        },
        other => other,
    }
}

/// How credentials read in the log: their kind, never their content.
pub open spec fn credentials_text(c: CredentialsView) -> Seq<char> {
    match c {
        CredentialsView::Anonymous => "No credentials"@,
        CredentialsView::Token(_) => "Token"@,
        CredentialsView::UsernamePassword { .. } => "Username+Password"@,
    }
}

impl Default for Credentials {
    fn default() -> (c: Credentials)
        ensures
            c@ == CredentialsView::Anonymous,
    {
        Credentials::Anonymous
    }
}

impl Credentials {
    /// A copy of these credentials.
    pub fn duplicate(&self) -> (out: Credentials)
        ensures
            out@ == self@,
    {
        match self {
            Credentials::Anonymous => Credentials::Anonymous,
            Credentials::Token(t) => Credentials::Token(t.clone()),
            Credentials::UsernamePassword { username, password } => Credentials::UsernamePassword {
                username: username.clone(),
                password: password.clone(),
            },
        }
    }

    /// The kind of these credentials, as it is shown to a person.
    pub fn to_string(&self) -> (out: String)
        ensures
            out@ == credentials_text(self@),
    {
        match self {
            Credentials::Anonymous => String::from_str("No credentials"),
            Credentials::Token(_) => String::from_str("Token"),
            Credentials::UsernamePassword { .. } => String::from_str("Username+Password"),
        }
    }

    /// The name and password to present where a pair is asked for.
    pub fn account(&self) -> (pair: Option<(String, String)>)
        ensures
            match account_of(self@) {
                Some((name, password)) => pair matches Some(p) && p.0@ == name && p.1@ == password,
                None => pair is None,
            },
    {
        match self {
            Credentials::Anonymous => None,
            Credentials::Token(t) => Some((t.clone(), String::new())),
            Credentials::UsernamePassword { username, password } => Some(
                (username.clone(), password.clone()),
            ),
        }
    }

    /// The credentials to download a release asset with.
    pub fn for_download(&self) -> (out: Credentials)
        ensures
            out@ == download_credentials(self@),
    {
        match self {
            Credentials::Token(t) => Credentials::UsernamePassword {
                username: t.clone(),
                password: String::new(),
            },
            other => other.duplicate(),
        }
    }
}

} // verus!
