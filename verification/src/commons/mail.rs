use vstd::prelude::*;

verus! {

/// One address entry of a mail payload.
pub struct EmailAddress {
    pub email: String,
}

/// The addressing block of one outgoing mail payload.
pub struct Personalizations {
    pub to: Option<Vec<EmailAddress>>,
    pub cc: Option<Vec<EmailAddress>>,
    pub bcc: Option<Vec<EmailAddress>>,
}

/// Whether the address entries carry exactly the given email texts, in
/// order; an empty list is carried as nothing at all.
pub open spec fn carries_addresses(entries: Option<Vec<EmailAddress>>, emails: Seq<String>) -> bool {
    if emails.len() == 0 {
        entries is None
    } else {
        entries matches Some(v) && v@.len() == emails.len() && forall|i: int|
            0 <= i < v@.len() ==> #[trigger] v@[i].email@ == emails[i]@
    }
}

impl Personalizations {
    /// The address entries of a recipient list; `None` for an empty list,
    /// so that the payload omits the block.
    pub fn as_personal_map(emails: &Vec<String>) -> (r: Option<Vec<EmailAddress>>)
        ensures
            carries_addresses(r, emails@),
    {
        if emails.len() == 0 {
            return None;
        }
        let mut result: Vec<EmailAddress> = Vec::new();
        let mut i: usize = 0;
        while i < emails.len()
            invariant
                0 <= i <= emails@.len(),
                result@.len() == i,
                forall|k: int| 0 <= k < i ==> #[trigger] result@[k].email@ == emails@[k]@,
            decreases emails@.len() - i,
        {
            result.push(EmailAddress { email: emails[i].clone() });
            i = i + 1;
        }
        Some(result)
    }

    /// One addressing block holding the three recipient lists.
    pub fn new(to_emails: &Vec<String>, cc_emails: &Vec<String>, bcc_emails: &Vec<String>) -> (r:
        Personalizations)
        ensures
            carries_addresses(r.to, to_emails@),
            carries_addresses(r.cc, cc_emails@),
            carries_addresses(r.bcc, bcc_emails@),
    {
        let to = Personalizations::as_personal_map(to_emails);
        let cc = Personalizations::as_personal_map(cc_emails);
        let bcc = Personalizations::as_personal_map(bcc_emails);
        Personalizations { to, cc, bcc }
    }
}

/// One body part of a mail payload: its media type and its text.
pub struct BodyPart {
    pub media_type: String,
    pub value: String,
}

/// One outgoing mail payload, shaped as the transport expects it.
pub struct Mail {
    pub from: EmailAddress,
    pub personalizations: Personalizations,
    pub subject: String,
    pub content: BodyPart,
}

impl Mail {
    /// One HTML mail from the given sender to the three recipient lists.
    pub fn new(
        from: &str,
        to_emails: &Vec<String>,
        cc_emails: &Vec<String>,
        bcc_emails: &Vec<String>,
        subject: &str,
        body: &str,
    ) -> (r: Mail)
        ensures
            r.from.email@ == from@,
            carries_addresses(r.personalizations.to, to_emails@),
            carries_addresses(r.personalizations.cc, cc_emails@),
            carries_addresses(r.personalizations.bcc, bcc_emails@),
            r.subject@ == subject@,
            r.content.media_type@ == "text/html"@,
            r.content.value@ == body@,
    {
        let personalizations = Personalizations::new(to_emails, cc_emails, bcc_emails);
        Mail {
            from: EmailAddress { email: from.to_owned() },
            personalizations,
            subject: subject.to_owned(),
            content: BodyPart { media_type: "text/html".to_owned(), value: body.to_owned() },
        }
    }
}

} // verus!
