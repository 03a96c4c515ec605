use vstd::prelude::*;

verus! {

/// git2's credential object, handed to the transport.
#[verifier::external_type_specification]
#[verifier::external_body]
pub struct ExCred(git2::Cred);

/// Credentials supplied for one remote operation; never stored.
#[derive(Debug)]
pub enum Credential {
    UserPassPlainText { username: String, password: String },
    Ssh { username: String, private_key: String, public_key: String, passphrase: Option<String> },
}

/// `s` holds a NUL character, which a C string cannot carry.
pub open spec fn has_nul(s: Seq<char>) -> bool {
    s.contains('\0')
}

/// Relies on git2's `Cred::userpass_plaintext`: it copies both strings into C
/// strings first and fails when either holds a NUL character; its error is
/// dropped.
#[verifier::external_body]
fn userpass_plaintext(username: &str, password: &str) -> (r: Option<git2::Cred>)
    ensures
        has_nul(username@) || has_nul(password@) ==> r is None,
        !has_nul(username@) && !has_nul(password@) ==> r is Some,
{
    git2::Cred::userpass_plaintext(username, password).ok()
}

/// Relies on git2's `Cred::ssh_key_from_memory`: it copies every string into
/// a C string first and fails when one holds a NUL character; its error is
/// dropped.
#[verifier::external_body]
fn ssh_key_from_memory(
    username: &str,
    public_key: &str,
    private_key: &str,
    passphrase: Option<&str>,
) -> (r: Option<git2::Cred>)
    ensures
        has_nul(username@) || has_nul(public_key@) || has_nul(private_key@) || (
        passphrase matches Some(p) && has_nul(p@)) ==> r is None,
{
    git2::Cred::ssh_key_from_memory(username, Some(public_key), private_key, passphrase).ok()
}

/// Which of git2's credential constructors to call, and with what.
#[derive(Debug)]
pub enum CredRequest {
    /// `Cred::userpass_plaintext(username, password)`.
    UserPassPlaintext { username: String, password: String },
    /// `Cred::ssh_key_from_memory(username, Some(public_key), private_key,
    /// passphrase)`.
    SshKeyFromMemory {
        username: String,
        public_key: String,
        private_key: String,
        passphrase: Option<String>,
    },
}

/// The constructor call a credential stands for.
pub open spec fn request_of(c: Credential) -> CredRequest {
    match c {
        Credential::UserPassPlainText { username, password } => CredRequest::UserPassPlaintext {
            username,
            password,
        },
        Credential::Ssh { username, private_key, public_key, passphrase } =>
            CredRequest::SshKeyFromMemory { username, public_key, private_key, passphrase },
    }
}

/// The constructor call a credential stands for.
pub fn cred_request(cred: &Credential) -> (r: CredRequest)
    ensures
        r == request_of(*cred),
{
    match cred {
        Credential::UserPassPlainText { username, password } => CredRequest::UserPassPlaintext {
            username: username.clone(),
            password: password.clone(),
        },
        Credential::Ssh { username, private_key, public_key, passphrase } => {
            let passphrase: Option<String> = match passphrase {
                Some(p) => Some(p.clone()),
                None => None,
            };
            CredRequest::SshKeyFromMemory {
                username: username.clone(),
                public_key: public_key.clone(),
                private_key: private_key.clone(),
                passphrase,
            }
        },
    }
}

/// Some string of the request holds a NUL character.
pub open spec fn request_has_nul(r: CredRequest) -> bool {
    match r {
        CredRequest::UserPassPlaintext { username, password } => has_nul(username@) || has_nul(
            password@,
        ),
        CredRequest::SshKeyFromMemory { username, public_key, private_key, passphrase } =>
            has_nul(username@) || has_nul(public_key@) || has_nul(private_key@) || (
        passphrase matches Some(p) && has_nul(p@)),
    }
}

/// Makes the constructor call `req` describes. A plaintext credential is
/// built whenever its strings hold no NUL character; an SSH key can still be
/// refused by libgit2 (when built without in-memory keys).
pub fn credential_object(req: &CredRequest) -> (r: Option<git2::Cred>)
    ensures
        request_has_nul(*req) ==> r is None,
        req is UserPassPlaintext && !request_has_nul(*req) ==> r is Some,
{
    match req {
        CredRequest::UserPassPlaintext { username, password } => userpass_plaintext(
            username.as_str(),
            password.as_str(),
        ),
        CredRequest::SshKeyFromMemory { username, public_key, private_key, passphrase } => {
            let passphrase: Option<&str> = match passphrase {
                Some(p) => Some(p.as_str()),
                None => None,
            };
            ssh_key_from_memory(
                username.as_str(),
                public_key.as_str(),
                private_key.as_str(),
                passphrase,
            )
        },
    }
}

/// Translates a credential into the transport's credential object: a
/// plaintext user and password, or an SSH key pair read from memory, by the
/// constructor call `request_of` names.
pub fn credential_helper(cred: &Credential) -> (r: Option<git2::Cred>)
    ensures
        request_has_nul(request_of(*cred)) ==> r is None,
        cred is UserPassPlainText && !request_has_nul(request_of(*cred)) ==> r is Some,
{
    credential_object(&cred_request(cred))
}

} // verus!
