//! Notifications by e-mail: which message goes out, and through which
//! relay. Delivery itself is the caller's part.

use crate::text::opt_text;
use vstd::prelude::*;

verus! {

/// Where a mail provider takes mail for delivery.
#[derive(Debug)]
pub struct SmtpConfig {
    pub host: &'static str,
    pub port: u16,
}

/// The mail providers known by name.
#[derive(Debug, Clone, Copy, PartialEq, Eq, Structural)]
pub enum SmtpService {
    Gmail,
    NetEase126,
    NetEase163,
    QQ,
}

impl SmtpService {
    pub open spec fn spec_host(self) -> Seq<char> {
        match self {
            SmtpService::QQ => "smtp.qq.com"@,
            SmtpService::Gmail => "smtp.gmail.com"@,
            SmtpService::NetEase126 => "smtp.126.com"@,
            SmtpService::NetEase163 => "smtp.163.com"@,
        }
    }

    pub open spec fn spec_port(self) -> u16 {
        match self {
            SmtpService::QQ => 465,
            SmtpService::Gmail => 587,
            SmtpService::NetEase126 => 25,
            SmtpService::NetEase163 => 25,
        }
    }

    /// The provider that goes by `name` in the settings.
    pub open spec fn named(name: Seq<char>) -> Option<SmtpService> {
        if name == "QQ"@ {
            Some(SmtpService::QQ)
        } else if name == "Gmail"@ {
            Some(SmtpService::Gmail)
        } else if name == "126"@ {
            Some(SmtpService::NetEase126)
        } else if name == "163"@ {
            Some(SmtpService::NetEase163)
        } else {
            None
        }
    }

    /// The relay of the provider.
    pub fn config(&self) -> (config: SmtpConfig)
        ensures
            config.host@ == self.spec_host(),
            config.port == self.spec_port(),
    {
        match self {
            SmtpService::QQ => SmtpConfig { host: "smtp.qq.com", port: 465 },
            SmtpService::Gmail => SmtpConfig { host: "smtp.gmail.com", port: 587 },
            SmtpService::NetEase126 => SmtpConfig { host: "smtp.126.com", port: 25 },
            SmtpService::NetEase163 => SmtpConfig { host: "smtp.163.com", port: 25 },
        }
    }

    /// Reads the name of a provider.
    pub fn from_name(name: &str) -> (service: Option<SmtpService>)
        ensures
            service == SmtpService::named(name@),
    {
        if name.eq("QQ") {
            Some(SmtpService::QQ)
        } else if name.eq("Gmail") {
            Some(SmtpService::Gmail)
        } else if name.eq("126") {
            Some(SmtpService::NetEase126)
        } else if name.eq("163") {
            Some(SmtpService::NetEase163)
        } else {
            None
        }
    }
}

/// The kinds of notification.
#[derive(Debug, Clone, Copy, PartialEq, Eq, Structural)]
pub enum NotifyType {
    Notify,
}

/// A notification to be sent.
#[derive(Debug)]
pub struct EmailNotification<'a> {
    pub notify_type: NotifyType,
    pub to_email: &'a str,
    pub subject: &'a str,
    pub body: String,
    pub lang: Option<&'a str>,
}

/// A message ready for the relay.
#[derive(Debug)]
pub struct OutgoingMail {
    pub to: String,
    pub subject: String,
    pub body: String,
}

/// The message that a notification goes out as. A plain notification is
/// addressed to its recipient and carries neither subject nor body.
pub fn send_email_notification(notification: EmailNotification) -> (mail: OutgoingMail)
    ensures
        mail.to@ == notification.to_email@,
        mail.subject@ == Seq::<char>::empty(),
        mail.body@ == Seq::<char>::empty(),
{
    match notification.notify_type {
        NotifyType::Notify => OutgoingMail {
            to: notification.to_email.to_owned(),
            subject: String::new(),
            body: String::new(),
        },
    }
}

/// What the settings say of the relay and of the account on it.
#[derive(Debug)]
pub struct SmtpSettings {
    pub smtp_service: Option<String>,
    pub smtp_host: Option<String>,
    pub smtp_port: Option<u16>,
    pub smtp_user: Option<String>,
    pub smtp_pass: Option<String>,
}

/// What to do with a message, given the settings.
#[derive(Debug)]
pub enum MailPlan {
    /// Nothing: the settings name no account, or no relay.
    Skip,
    /// Nothing: the settings name a provider that is not known.
    Unsupported,
    /// Hand the message to this relay, under this account.
    Relay { host: String, port: u16, user: String, pass: String },
}

/// A `MailPlan` as the contracts speak of it.
pub ghost enum MailPlanView {
    Skip,
    Unsupported,
    Relay { host: Seq<char>, port: u16, user: Seq<char>, pass: Seq<char> },
}

impl View for MailPlan {
    type V = MailPlanView;

    open spec fn view(&self) -> MailPlanView {
        match self {
            MailPlan::Skip => MailPlanView::Skip,
            MailPlan::Unsupported => MailPlanView::Unsupported,
            MailPlan::Relay { host, port, user, pass } => MailPlanView::Relay {
                host: host@,
                port: *port,
                user: user@,
                pass: pass@,
            },
        }
    }
}

impl SmtpSettings {
    /// Whether the settings name a relay by half: a host without a port, or
    /// a port without a host, for an account that is complete.
    pub open spec fn names_half_a_relay(self) -> bool {
        &&& self.smtp_user is Some
        &&& self.smtp_pass is Some
        &&& (self.smtp_host is Some) != (self.smtp_port is Some)
    }

    /// The plan that the settings lead to. Without a complete account
    /// nothing is sent. A host and port given outright go before a provider
    /// named.
    pub open spec fn plan(self) -> MailPlanView {
        if self.smtp_user is None || self.smtp_pass is None {
            MailPlanView::Skip
        } else if self.smtp_host is Some && self.smtp_port is Some {
            MailPlanView::Relay {
                host: self.smtp_host->0@,
                port: self.smtp_port->0,
                user: self.smtp_user->0@,
                pass: self.smtp_pass->0@,
            }
        } else {
            match opt_text(self.smtp_service) {
                Some(name) => match SmtpService::named(name) {
                    Some(service) => MailPlanView::Relay {
                        host: service.spec_host(),
                        port: service.spec_port(),
                        user: self.smtp_user->0@,
                        pass: self.smtp_pass->0@,
                    },
                    None => MailPlanView::Unsupported,
                },
                None => MailPlanView::Skip,
            }
        }
    }
}

/// Decides from the settings whether and where a message is to be sent.
pub fn mail_plan(settings: SmtpSettings) -> (plan: MailPlan)
    requires
        !settings.names_half_a_relay(),
    ensures
        plan@ == settings.plan(),
{
    let SmtpSettings { smtp_service, smtp_host, smtp_port, smtp_user, smtp_pass } = settings;
    match (smtp_user, smtp_pass) {
        (Some(user), Some(pass)) => match (smtp_host, smtp_port) {
            (Some(host), Some(port)) => MailPlan::Relay { host, port, user, pass },
            _ => match smtp_service {
                Some(name) => match SmtpService::from_name(name.as_str()) {
                    Some(service) => {
                        let config = service.config();
                        MailPlan::Relay {
                            host: config.host.to_owned(),
                            port: config.port,
                            user,
                            pass,
                        }
                    },
                    None => MailPlan::Unsupported,
                },
                None => MailPlan::Skip,
            },
        },
        _ => MailPlan::Skip,
    }
}

} // verus!
