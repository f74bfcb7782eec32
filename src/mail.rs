use vstd::prelude::*;
use crate::envvars::{EnvVarLoader, lookup};
use crate::text::{concat_str, owned};

verus! {

/// Confirmation links stay valid for one day, in seconds.
pub const CONFIRMATION_LIFETIME_SECONDS: usize = 86400;

/// Deletion links stay valid for fifteen minutes, in seconds.
pub const DELETION_LIFETIME_SECONDS: usize = 900;

/// Mail settings, as read at start-up.
pub struct MailEnvVars {
    pub mail_secret_key: String,
    pub smtp_mail_address: String,
    pub domain_url: String,
    pub smtp_host: String,
    pub smtp_sender_name: String,
    pub smtp_username: String,
    pub smtp_password: String,
}

/// The account mail is sent from.
pub struct SmtpCredentials {
    mail_address: String,
    sender_name: String,
    pub smtp_host: String,
    username: String,
    password: String,
}

/// `name<address>`, the form of a sender in a mail header.
pub open spec fn full_sender(name: Seq<char>, address: Seq<char>) -> Seq<char> {
    name + "<"@ + address + ">"@
}

fn make_full_sender(name: &str, address: &str) -> (r: String)
    ensures
        r@ == full_sender(name@, address@),
{
    let a = concat_str(name, "<");
    let b = concat_str(a.as_str(), address);
    concat_str(b.as_str(), ">")
}

impl SmtpCredentials {
    pub closed spec fn address(&self) -> Seq<char> {
        self.mail_address@
    }

    pub closed spec fn sender(&self) -> Seq<char> {
        self.sender_name@
    }

    pub closed spec fn host(&self) -> Seq<char> {
        self.smtp_host@
    }

    pub closed spec fn login(&self) -> (Seq<char>, Seq<char>) {
        (self.username@, self.password@)
    }

    pub fn new(mail_address: &str, sender_name: &str, smtp_host: &str, username: &str, password: &str) -> (r: SmtpCredentials)
        ensures
            r.address() == mail_address@,
            r.sender() == sender_name@,
            r.host() == smtp_host@,
            r.login() == (username@, password@),
    {
        SmtpCredentials {
            mail_address: owned(mail_address),
            sender_name: owned(sender_name),
            smtp_host: owned(smtp_host),
            username: owned(username),
            password: owned(password),
        }
    }

    pub fn get_full_sender(&self) -> (r: String)
        ensures
            r@ == full_sender(self.sender(), self.address()),
    {
        make_full_sender(self.sender_name.as_str(), self.mail_address.as_str())
    }

    pub fn get_username(&self) -> (r: &str)
        ensures
            r@ == self.login().0,
    {
        self.username.as_str()
    }

    pub fn get_password(&self) -> (r: &str)
        ensures
            r@ == self.login().1,
    {
        self.password.as_str()
    }
}

/// A mail ready to be sent.
pub struct EmailToSend {
    pub recipient_mail: String,
    pub subject: String,
    pub body: String,
}

impl EmailToSend {
    pub fn new(recipient_mail: &str, subject: &str, body: String) -> (r: EmailToSend)
        ensures
            r.recipient_mail@ == recipient_mail@,
            r.subject@ == subject@,
            r.body@ == body@,
    {
        EmailToSend { recipient_mail: owned(recipient_mail), subject: owned(subject), body }
    }
}

/// A message for a mail client.
pub struct EmailMessage {
    pub recipient: String,
    pub subject: String,
    pub body: String,
}

/// The payload of a confirmation or deletion token.
pub struct EmailConfirmation {
    pub user_id: usize,
    pub exp: usize,
}

/// The query of a confirmation or deletion link.
pub struct VerifyUserQuery {
    pub token: String,
}

/// Why a confirmation or deletion link was refused.
#[derive(Clone, Copy, Debug, PartialEq, Eq, Structural)]
pub enum VerificationError {
    /// The token is malformed, forged or expired.
    TokenError,
}

/// SMTP settings of the mail client.
pub struct EmailClient {
    smtp_mail_address: String,
    smtp_host: String,
    smtp_sender_name: String,
    smtp_username: String,
    smtp_password: String,
}

impl EmailClient {
    pub closed spec fn settings(&self) -> Seq<Seq<char>> {
        seq![self.smtp_mail_address@, self.smtp_host@, self.smtp_sender_name@, self.smtp_username@, self.smtp_password@]
    }

    pub fn new(
        smtp_mail_address: String,
        smtp_host: String,
        smtp_sender_name: String,
        smtp_username: String,
        smtp_password: String,
    ) -> (r: EmailClient)
        ensures
            r.settings() == seq![smtp_mail_address@, smtp_host@, smtp_sender_name@, smtp_username@, smtp_password@],
    {
        EmailClient { smtp_mail_address, smtp_host, smtp_sender_name, smtp_username, smtp_password }
    }

    pub fn new_from_envvars(loader: &EnvVarLoader) -> (r: EmailClient)
        ensures
            Some(r.settings()[0]) == lookup(loader.vars(), "SMTP_MAIL_ADDRESS"@),
            Some(r.settings()[1]) == lookup(loader.vars(), "SMTP_HOST"@),
            Some(r.settings()[2]) == lookup(loader.vars(), "SMTP_SENDER_NAME"@),
            Some(r.settings()[3]) == lookup(loader.vars(), "SMTP_USERNAME"@),
            Some(r.settings()[4]) == lookup(loader.vars(), "SMTP_PASSWORD"@),
    {
        EmailClient::new(
            loader.get_smtp_mail_address(),
            loader.get_smtp_host(),
            loader.get_smtp_sender_name(),
            loader.get_smtp_username(),
            loader.get_smtp_password(),
        )
    }

    pub fn get_full_sender(&self) -> (r: String)
        ensures
            r@ == full_sender(self.settings()[2], self.settings()[0]),
    {
        make_full_sender(self.smtp_sender_name.as_str(), self.smtp_mail_address.as_str())
    }

    pub fn get_smtp_host(&self) -> (r: &str)
        ensures
            r@ == self.settings()[1],
    {
        self.smtp_host.as_str()
    }

    pub fn get_smtp_username(&self) -> (r: &str)
        ensures
            r@ == self.settings()[3],
    {
        self.smtp_username.as_str()
    }

    pub fn get_smtp_password(&self) -> (r: &str)
        ensures
            r@ == self.settings()[4],
    {
        self.smtp_password.as_str()
    }
}

/// The text of a confirmation or deletion mail for the site `domain`, with
/// the link under `path` carrying `token`.
pub open spec fn verification_body(domain: Seq<char>, path: Seq<char>, token: Seq<char>) -> Seq<char> {
    "Thanks for registering at "@ + domain + "! As a last step, please follow this confirmation link: \n"@
        + domain + path + token
}

/// Composes the mails that ask a user to confirm an address or a deletion;
/// signing the tokens and sending the mails is left to the caller.
pub struct UserCommunicator {
    mail_secret_key: String,
    deletion_secret_key: String,
    domain_url: String,
}

impl UserCommunicator {
    pub closed spec fn domain(&self) -> Seq<char> {
        self.domain_url@
    }

    pub closed spec fn keys(&self) -> (Seq<char>, Seq<char>) {
        (self.mail_secret_key@, self.deletion_secret_key@)
    }

    pub fn new(mail_secret_key: String, deletion_secret_key: String, domain_url: String) -> (r: UserCommunicator)
        ensures
            r.keys() == (mail_secret_key@, deletion_secret_key@),
            r.domain() == domain_url@,
    {
        UserCommunicator { mail_secret_key, deletion_secret_key, domain_url }
    }

    pub fn get_mail_secret_key(&self) -> (r: &str)
        ensures
            r@ == self.keys().0,
    {
        self.mail_secret_key.as_str()
    }

    pub fn get_deletion_secret_key(&self) -> (r: &str)
        ensures
            r@ == self.keys().1,
    {
        self.deletion_secret_key.as_str()
    }

    fn verification_message(&self, recipient: &str, subject: &str, path: &str, token: &str) -> (r: EmailMessage)
        ensures
            r.recipient@ == recipient@,
            r.subject@ == subject@,
            r.body@ == verification_body(self.domain(), path@, token@),
    {
        let a = concat_str("Thanks for registering at ", self.domain_url.as_str());
        let b = concat_str(a.as_str(), "! As a last step, please follow this confirmation link: \n");
        let c = concat_str(b.as_str(), self.domain_url.as_str());
        let d = concat_str(c.as_str(), path);
        let body = concat_str(d.as_str(), token);
        EmailMessage { recipient: owned(recipient), subject: owned(subject), body }
    }

    /// The mail with the link that confirms an address.
    pub fn registration_verification_email(&self, recipient: &str, token: &str) -> (r: EmailMessage)
        ensures
            r.recipient@ == recipient@,
            r.subject@ == "Please confirm your email address"@,
            r.body@ == verification_body(self.domain(), "/confirm-user?token="@, token@),
    {
        self.verification_message(recipient, "Please confirm your email address", "/confirm-user?token=", token)
    }

    /// The mail with the link that confirms an account deletion.
    pub fn deletion_verification_email(&self, recipient: &str, token: &str) -> (r: EmailMessage)
        ensures
            r.recipient@ == recipient@,
            r.subject@ == "Please confirm your request for account deletion"@,
            r.body@ == verification_body(self.domain(), "/delete-user?token="@, token@),
    {
        self.verification_message(recipient, "Please confirm your request for account deletion", "/delete-user?token=", token)
    }
}

/// The payload of a confirmation token issued at `now` (seconds).
pub fn confirmation_claims(user_id: usize, now: usize) -> (r: EmailConfirmation)
    requires
        now <= usize::MAX - CONFIRMATION_LIFETIME_SECONDS,
    ensures
        r.user_id == user_id,
        r.exp == now + CONFIRMATION_LIFETIME_SECONDS,
{
    EmailConfirmation { user_id, exp: now + CONFIRMATION_LIFETIME_SECONDS }
}

/// The payload of a deletion token issued at `now` (seconds).
pub fn deletion_claims(user_id: usize, now: usize) -> (r: EmailConfirmation)
    requires
        now <= usize::MAX - DELETION_LIFETIME_SECONDS,
    ensures
        r.user_id == user_id,
        r.exp == now + DELETION_LIFETIME_SECONDS,
{
    EmailConfirmation { user_id, exp: now + DELETION_LIFETIME_SECONDS }
}

} // verus!
