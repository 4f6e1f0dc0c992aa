use auth_core::email::{
    mail_plan, send_email_notification, EmailNotification, MailPlan, NotifyType, SmtpService,
    SmtpSettings,
};

fn settings() -> SmtpSettings {
    SmtpSettings {
        smtp_service: None,
        smtp_host: None,
        smtp_port: None,
        smtp_user: Some("me@example.org".to_string()),
        smtp_pass: Some("hunter2".to_string()),
    }
}

#[test]
fn provider_relays() {
    let config = SmtpService::QQ.config();
    assert_eq!((config.host, config.port), ("smtp.qq.com", 465));
    let config = SmtpService::Gmail.config();
    assert_eq!((config.host, config.port), ("smtp.gmail.com", 587));
    let config = SmtpService::NetEase126.config();
    assert_eq!((config.host, config.port), ("smtp.126.com", 25));
    let config = SmtpService::NetEase163.config();
    assert_eq!((config.host, config.port), ("smtp.163.com", 25));
}

#[test]
fn provider_names() {
    assert_eq!(SmtpService::from_name("QQ"), Some(SmtpService::QQ));
    assert_eq!(SmtpService::from_name("Gmail"), Some(SmtpService::Gmail));
    assert_eq!(SmtpService::from_name("126"), Some(SmtpService::NetEase126));
    assert_eq!(SmtpService::from_name("163"), Some(SmtpService::NetEase163));
    assert_eq!(SmtpService::from_name("qq"), None);
    assert_eq!(SmtpService::from_name(""), None);
    assert_eq!(SmtpService::from_name("Outlook"), None);
}

#[test]
fn notification_goes_to_its_recipient_without_text() {
    let mail = send_email_notification(EmailNotification {
        notify_type: NotifyType::Notify,
        to_email: "you@example.org",
        subject: "Hello",
        body: "Body".to_string(),
        lang: Some("en"),
    });
    assert_eq!(mail.to, "you@example.org");
    assert_eq!(mail.subject, "");
    assert_eq!(mail.body, "");
}

#[test]
fn no_account_no_mail() {
    let plan = mail_plan(SmtpSettings { smtp_user: None, ..settings() });
    assert!(matches!(plan, MailPlan::Skip));
    let plan = mail_plan(SmtpSettings {
        smtp_pass: None,
        smtp_host: Some("h".to_string()),
        smtp_port: Some(25),
        ..settings()
    });
    assert!(matches!(plan, MailPlan::Skip));
}

#[test]
fn no_relay_no_mail() {
    assert!(matches!(mail_plan(settings()), MailPlan::Skip));
}

#[test]
fn host_and_port_go_before_a_provider() {
    let plan = mail_plan(SmtpSettings {
        smtp_service: Some("QQ".to_string()),
        smtp_host: Some("mail.example.org".to_string()),
        smtp_port: Some(2525),
        ..settings()
    });
    match plan {
        MailPlan::Relay { host, port, user, pass } => {
            assert_eq!(host, "mail.example.org");
            assert_eq!(port, 2525);
            assert_eq!(user, "me@example.org");
            assert_eq!(pass, "hunter2");
        }
        other => panic!("{:?}", other),
    }
}

#[test]
fn provider_by_name() {
    let plan = mail_plan(SmtpSettings { smtp_service: Some("Gmail".to_string()), ..settings() });
    match plan {
        MailPlan::Relay { host, port, user, pass } => {
            assert_eq!(host, "smtp.gmail.com");
            assert_eq!(port, 587);
            assert_eq!(user, "me@example.org");
            assert_eq!(pass, "hunter2");
        }
        other => panic!("{:?}", other),
    }
}

#[test]
fn unknown_provider_is_unsupported() {
    let plan = mail_plan(SmtpSettings { smtp_service: Some("Outlook".to_string()), ..settings() });
    assert!(matches!(plan, MailPlan::Unsupported));
}
