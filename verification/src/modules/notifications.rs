//! Notification delivery. Business modules never call a provider directly:
//! they enqueue a job inside their transaction, and the worker calls into
//! this module.
use vstd::prelude::*;

verus! {

pub struct EmailMessage {
    pub to: String,
    pub subject: String,
    pub html_body: String,
    pub text_body: String,
}

/// Development sender: logs instead of delivering.
pub struct LoggingEmailSender;

impl EmailMessage {
    /// The message sent for `template` to `to`. Until templates are rendered,
    /// the template name is the subject and the bodies are empty.
    pub fn from_template(to: &str, template: &str) -> (m: EmailMessage)
        ensures
            m.to@ == to@,
            m.subject@ == template@,
            m.html_body@ == Seq::<char>::empty(),
            m.text_body@ == Seq::<char>::empty(),
    {
        EmailMessage {
            to: to.to_owned(),
            subject: template.to_owned(),
            html_body: String::new(),
            text_body: String::new(),
        }
    }
}

} // verus!
