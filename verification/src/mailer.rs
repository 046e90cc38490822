//! Mail dispatch data: transport configuration, recipients, and the
//! events that trigger a mail. Sending itself is the transport layer's
//! work, outside this library.

use vstd::prelude::*;

verus! {

/// The mail transport configuration.
#[derive(Debug, Clone)]
pub struct Config {
    pub smtp_host: String,
    pub smtp_port: u16,
    pub smtp_user: String,
    pub smtp_pass: String,
    pub smtp_from: String,
    pub smtp_to: String,
}

/// A named mail recipient.
#[derive(Debug, Clone)]
pub struct Receiptent {
    pub name: String,
    pub email: String,
}

/// A receiver, a sender line, and the transport configuration.
#[derive(Debug, Clone)]
pub struct Email {
    pub to: Receiptent,
    pub from: String,
    pub config: Config,
}

impl Email {
    /// Address a mail: the sender line is the administrator with the
    /// configured origin address.
    pub fn new(to: Receiptent, config: Config) -> (r: Email)
        ensures
            r.to == to,
            r.from@ == "Admin <"@ + config.smtp_from@ + ">"@,
            r.config == config,
    {
        let mut from = String::from_str("Admin <");
        from.append(config.smtp_from.as_str());
        from.append(">");
        Email { to, from, config }
    }
}

/// An event over a channel that triggers one mail.
#[derive(Debug, Clone)]
pub enum MailerEvent {
    SendInvitationEmail { name: String, url: String, to: String },
    SendWelcomeEmail { name: String, to: String },
    SendPasswordResetEmail { name: String, url: String, to: String },
    SendPasswordChangeEmail { name: String, to: String },
    SendAccountDeletionEmail { name: String, to: String },
    SendAccountDeactivationEmail { name: String, to: String },
    SendAccountActivationEmail { name: String, to: String },
    SendSessionStartEmail { name: String, to: String },
    SendSessionAddedEmail { name: String, to: String },
    SendOtp { name: String, to: String, otp: String },
}

/// The name of a mail event, at the specification level.
pub open spec fn spec_mailer_event_name(e: MailerEvent) -> Seq<char> {
    match e {
        MailerEvent::SendInvitationEmail { .. } => "SendInvitationEmail"@,
        MailerEvent::SendWelcomeEmail { .. } => "SendWelcomeEmail"@,
        MailerEvent::SendPasswordResetEmail { .. } => "SendPasswordResetEmail"@,
        MailerEvent::SendPasswordChangeEmail { .. } => "SendPasswordChangeEmail"@,
        MailerEvent::SendAccountDeletionEmail { .. } => "SendAccountDeletionEmail"@,
        MailerEvent::SendAccountDeactivationEmail { .. } => "SendAccountDeactivationEmail"@,
        MailerEvent::SendAccountActivationEmail { .. } => "SendAccountActivationEmail"@,
        MailerEvent::SendSessionStartEmail { .. } => "SendSessionStartEmail"@,
        MailerEvent::SendSessionAddedEmail { .. } => "SendSessionAddedEmail"@,
        MailerEvent::SendOtp { .. } => "SendOtp"@,
    }
}

impl MailerEvent {
    /// The printable name of the event.
    pub fn name(&self) -> (r: String)
        ensures
            r@ == spec_mailer_event_name(*self),
    {
        match self {
            MailerEvent::SendInvitationEmail { .. } => String::from_str("SendInvitationEmail"),
            MailerEvent::SendWelcomeEmail { .. } => String::from_str("SendWelcomeEmail"),
            MailerEvent::SendPasswordResetEmail { .. } => String::from_str(
                "SendPasswordResetEmail",
            ),
            MailerEvent::SendPasswordChangeEmail { .. } => String::from_str(
                "SendPasswordChangeEmail",
            ),
            MailerEvent::SendAccountDeletionEmail { .. } => String::from_str(
                "SendAccountDeletionEmail",
            ),
            MailerEvent::SendAccountDeactivationEmail { .. } => String::from_str(
                "SendAccountDeactivationEmail",
            ),
            MailerEvent::SendAccountActivationEmail { .. } => String::from_str(
                "SendAccountActivationEmail",
            ),
            MailerEvent::SendSessionStartEmail { .. } => String::from_str("SendSessionStartEmail"),
            MailerEvent::SendSessionAddedEmail { .. } => String::from_str("SendSessionAddedEmail"),
            MailerEvent::SendOtp { .. } => String::from_str("SendOtp"),
        }
    }
}

} // verus!
