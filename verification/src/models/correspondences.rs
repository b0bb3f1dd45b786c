use vstd::prelude::*;

use crate::commons::util;
use crate::commons::util::{push_char, schedule_text_of};
use crate::models::enrollments::ManagedEnrollmentRequest;
use crate::models::sessions::Session;
use crate::models::users::User;

verus! {

/// The sender address every scheduled notification goes out under.
pub const SCHEDULE_SENDER_ID: &'static str = "schedule@krscode.com";

/// Direction tag of an outbound correspondence row.
pub const OUT: &'static str = "out";

/// Recipient kind for the primary addressee.
pub const TO: &'static str = "to";

/// Recipient kind for the copied addressee.
pub const CC: &'static str = "cc";

/// Status of a correspondence row that awaits dispatch.
pub const PENDING: &'static str = "pending";

/// Status of a correspondence row a dispatcher has claimed.
pub const MARKED: &'static str = "marked";

/// Mail kind for a coach-written message.
pub const NORMAL: &'static str = "normal";

/// Mail kind for a system-generated calendar event payload.
pub const EVENT: &'static str = "event";

/// One row of the mail outbox: a message staged atomically with the
/// business write that caused it.
pub struct Correspondence {
    pub id: String,
    pub from_user_id: String,
    pub program_id: String,
    pub enrollment_id: String,
    pub from_email: String,
    pub subject: String,
    pub content: Option<String>,
    pub in_out: String,
    pub status: String,
    pub sent_at: Option<i64>,
    pub reply_to: String,
    pub error: String,
    pub error_reason: Option<String>,
    pub to_send_on: i64,
    pub created_at: i64,
    pub updated_at: i64,
    pub mail_type: String,
}

impl Correspondence {
    pub fn id(&self) -> (r: &str)
        ensures
            r@ == self.id@,
    {
        self.id.as_str()
    }

    pub fn from_email(&self) -> (r: &str)
        ensures
            r@ == self.from_email@,
    {
        self.from_email.as_str()
    }

    pub fn subject(&self) -> (r: &str)
        ensures
            r@ == self.subject@,
    {
        self.subject.as_str()
    }

    pub fn content(&self) -> (r: &str)
        ensures
            match self.content {
                Some(ref c) => r@ == c@,
                None => r@ == " "@,
            },
    {
        match &self.content {
            Some(c) => c.as_str(),
            None => " ",
        }
    }

    pub fn mail_type(&self) -> (r: &str)
        ensures
            r@ == self.mail_type@,
    {
        self.mail_type.as_str()
    }

    /// A field-for-field copy.
    pub fn duplicate(&self) -> (r: Correspondence)
        ensures
            r == *self,
    {
        Correspondence {
            id: self.id.clone(),
            from_user_id: self.from_user_id.clone(),
            program_id: self.program_id.clone(),
            enrollment_id: self.enrollment_id.clone(),
            from_email: self.from_email.clone(),
            subject: self.subject.clone(),
            content: match &self.content {
                Some(v) => Some(v.clone()),
                None => None,
            },
            in_out: self.in_out.clone(),
            status: self.status.clone(),
            sent_at: self.sent_at,
            reply_to: self.reply_to.clone(),
            error: self.error.clone(),
            error_reason: match &self.error_reason {
                Some(v) => Some(v.clone()),
                None => None,
            },
            to_send_on: self.to_send_on,
            created_at: self.created_at,
            updated_at: self.updated_at,
            mail_type: self.mail_type.clone(),
        }
    }
}

/// The persistable form of a new outbound mail, staged as `pending`.
pub struct MailOut {
    pub id: String,
    pub from_user_id: String,
    pub program_id: String,
    pub enrollment_id: String,
    pub from_email: String,
    pub subject: String,
    pub content: Option<String>,
    pub in_out: String,
    pub status: String,
    pub reply_to: String,
    pub error: String,
    pub to_send_on: i64,
    pub mail_type: String,
}

/// Whether a staged mail carries the given addressing and payload and the
/// fixed outbox fields: direction out, status pending, the scheduled
/// sender address, and a fresh id.
pub open spec fn mail_out_shape(
    m: MailOut,
    from_user_id: Seq<char>,
    program_id: Seq<char>,
    enrollment_id: Seq<char>,
    subject: Seq<char>,
    content: Seq<char>,
    mail_type: Seq<char>,
    now: i64,
) -> bool {
    &&& m.id@.len() == 36
    &&& m.from_user_id@ == from_user_id
    &&& m.program_id@ == program_id
    &&& m.enrollment_id@ == enrollment_id
    &&& m.from_email@ == SCHEDULE_SENDER_ID@
    &&& m.subject@ == subject
    &&& m.content matches Some(c) && c@ == content
    &&& m.in_out@ == OUT@
    &&& m.status@ == PENDING@
    &&& m.reply_to@ == " "@
    &&& m.error@ == " "@
    &&& m.to_send_on == now
    &&& m.mail_type@ == mail_type
}

impl MailOut {
    /// A staged outbound mail with the given addressing and payload; the
    /// clock reading becomes the earliest dispatch time.
    fn new(
        from_user_id: String,
        program_id: String,
        enrollment_id: String,
        subject: String,
        content: String,
        mail_type: &str,
        now: i64,
    ) -> (r: MailOut)
        ensures
            mail_out_shape(
                r,
                from_user_id@,
                program_id@,
                enrollment_id@,
                subject@,
                content@,
                mail_type@,
                now,
            ),
    {
        let fuzzy_id = util::fuzzy_id();
        MailOut {
            id: fuzzy_id,
            from_email: SCHEDULE_SENDER_ID.to_owned(),
            from_user_id,
            program_id,
            enrollment_id,
            subject,
            content: Some(content),
            in_out: OUT.to_owned(),
            status: PENDING.to_owned(),
            reply_to: " ".to_owned(),
            error: " ".to_owned(),
            to_send_on: now,
            mail_type: mail_type.to_owned(),
        }
    }

    /// The invitation mail a coach-managed enrollment stages.
    pub fn for_enrollment(request: &ManagedEnrollmentRequest, enrollment_id: &str, now: i64) -> (r:
        MailOut)
        ensures
            mail_out_shape(
                r,
                request.coach_id@,
                request.program_id@,
                enrollment_id@,
                request.subject@,
                request.message@,
                NORMAL@,
                now,
            ),
    {
        MailOut::new(
            request.coach_id.clone(),
            request.program_id.clone(),
            enrollment_id.to_owned(),
            request.subject.clone(),
            request.message.clone(),
            NORMAL,
            now,
        )
    }

    /// The calendar-invite mail staged when a session is created:
    /// sequence 1, CONFIRMED, REQUEST.
    pub fn for_new_session(session: &Session, coach: &User, member: &User, now: i64) -> (r: MailOut)
        ensures
            mail_out_shape(
                r,
                coach.id@,
                session.program_id@,
                session.enrollment_id@,
                session.name@,
                invite_content(*session, *coach, *member),
                EVENT@,
                now,
            ),
    {
        let content = FerrisEvent::new_session_event(session, coach, member);
        MailOut::new(
            coach.id.clone(),
            session.program_id.clone(),
            session.enrollment_id.clone(),
            session.name.clone(),
            content,
            EVENT,
            now,
        )
    }

    /// The calendar-cancellation mail staged when a session is cancelled:
    /// sequence 99, CANCELLED, CANCEL.
    pub fn for_cancel_session(session: &Session, coach: &User, member: &User, now: i64) -> (r:
        MailOut)
        ensures
            mail_out_shape(
                r,
                coach.id@,
                session.program_id@,
                session.enrollment_id@,
                session.name@,
                cancel_content(*session, *coach, *member),
                EVENT@,
                now,
            ),
    {
        let content = FerrisEvent::cancel_event(session, coach, member);
        MailOut::new(
            coach.id.clone(),
            session.program_id.clone(),
            session.enrollment_id.clone(),
            session.name.clone(),
            content,
            EVENT,
            now,
        )
    }
}

/// One recipient of a staged mail.
pub struct MailRecipient {
    pub id: String,
    pub correspondence_id: String,
    pub to_user_id: Option<String>,
    pub to_email: String,
    pub to_type: String,
}

impl MailRecipient {
    pub fn to_type(&self) -> (r: &str)
        ensures
            r@ == self.to_type@,
    {
        self.to_type.as_str()
    }

    pub fn to_email(&self) -> (r: &str)
        ensures
            r@ == self.to_email@,
    {
        self.to_email.as_str()
    }

    /// A field-for-field copy.
    pub fn duplicate(&self) -> (r: MailRecipient)
        ensures
            r == *self,
    {
        MailRecipient {
            id: self.id.clone(),
            correspondence_id: self.correspondence_id.clone(),
            to_user_id: match &self.to_user_id {
                Some(v) => Some(v.clone()),
                None => None,
            },
            to_email: self.to_email.clone(),
            to_type: self.to_type.clone(),
        }
    }

    /// The two recipient rows of a session notification: the member as
    /// `to`, the coach as `cc`.
    pub fn build_recipients(member: &User, coach: &User, correspondence_id: &str) -> (r: Vec<
        MailRecipient,
    >)
        ensures
            r@.len() == 2,
            recipient_shape(r@[0], correspondence_id@, member.id@, member.email@, TO@),
            recipient_shape(r@[1], correspondence_id@, coach.id@, coach.email@, CC@),
    {
        let to_record = MailRecipient {
            id: util::fuzzy_id(),
            correspondence_id: correspondence_id.to_owned(),
            to_user_id: Some(member.id.clone()),
            to_email: member.email.clone(),
            to_type: TO.to_owned(),
        };
        let cc_record = MailRecipient {
            id: util::fuzzy_id(),
            correspondence_id: correspondence_id.to_owned(),
            to_user_id: Some(coach.id.clone()),
            to_email: coach.email.clone(),
            to_type: CC.to_owned(),
        };
        let mut v: Vec<MailRecipient> = Vec::new();
        v.push(to_record);
        v.push(cc_record);
        v
    }
}

/// Whether a recipient row addresses the given user with the given kind.
pub open spec fn recipient_shape(
    r: MailRecipient,
    correspondence_id: Seq<char>,
    user_id: Seq<char>,
    email: Seq<char>,
    kind: Seq<char>,
) -> bool {
    &&& r.id@.len() == 36
    &&& r.correspondence_id@ == correspondence_id
    &&& r.to_user_id matches Some(u) && u@ == user_id
    &&& r.to_email@ == email
    &&& r.to_type@ == kind
}

/// The selection of mails a dispatcher asks for.
pub struct MailCriteria {
    pub status: String,
    pub in_out: String,
}

/// One claimed mail: the correspondence row with its recipient rows.
pub struct Mailable {
    pub correspondence: Correspondence,
    pub receipients: Vec<MailRecipient>,
}

impl Mailable {
    pub fn correspondence(&self) -> (r: &Correspondence)
        ensures
            *r == self.correspondence,
    {
        &self.correspondence
    }

    pub fn receipients(&self) -> (r: &Vec<MailRecipient>)
        ensures
            *r == self.receipients,
    {
        &self.receipients
    }
}

/// The hexadecimal digit character of a value below sixteen.
pub open spec fn hex_digit(n: int) -> char {
    if n == 0 {
        '0'
    } else if n == 1 {
        '1'
    } else if n == 2 {
        '2'
    } else if n == 3 {
        '3'
    } else if n == 4 {
        '4'
    } else if n == 5 {
        '5'
    } else if n == 6 {
        '6'
    } else if n == 7 {
        '7'
    } else if n == 8 {
        '8'
    } else if n == 9 {
        '9'
    } else if n == 10 {
        'a'
    } else if n == 11 {
        'b'
    } else if n == 12 {
        'c'
    } else if n == 13 {
        'd'
    } else if n == 14 {
        'e'
    } else {
        'f'
    }
}

/// How one character appears inside a JSON string: quote and backslash
/// escaped, the named control characters short-escaped, other control
/// characters as `\u00XX`, everything else verbatim.
pub open spec fn esc_char(c: char) -> Seq<char> {
    if c == '"' {
        seq!['\\', '"']
    } else if c == '\\' {
        seq!['\\', '\\']
    } else if c == '\u{8}' {
        seq!['\\', 'b']
    } else if c == '\t' {
        seq!['\\', 't']
    } else if c == '\n' {
        seq!['\\', 'n']
    } else if c == '\u{c}' {
        seq!['\\', 'f']
    } else if c == '\r' {
        seq!['\\', 'r']
    } else if (c as int) < 0x20 {
        seq!['\\', 'u', '0', '0', hex_digit((c as int) / 16), hex_digit((c as int) % 16)]
    } else {
        seq![c]
    }
}

/// The body of a JSON string holding the given text.
pub open spec fn json_escaped(s: Seq<char>) -> Seq<char>
    decreases s.len(),
{
    if s.len() == 0 {
        Seq::empty()
    } else {
        json_escaped(s.drop_last()) + esc_char(s.last())
    }
}

/// A JSON string holding the given text, quotes included.
pub open spec fn json_string(v: Seq<char>) -> Seq<char> {
    "\""@ + json_escaped(v) + "\""@
}

/// The texts of an optional field.
pub open spec fn opt_text(v: Option<String>) -> Option<Seq<char>> {
    match v {
        Some(s) => Some(s@),
        None => None,
    }
}

/// A JSON string, or `null` for an absent field.
pub open spec fn json_opt(v: Option<Seq<char>>) -> Seq<char> {
    match v {
        Some(s) => json_string(s),
        None => "null"@,
    }
}

/// The decimal digits of a number, most significant first.
pub open spec fn dec_digits(n: nat) -> Seq<char>
    decreases n,
{
    if n < 10 {
        seq![hex_digit(n as int)]
    } else {
        dec_digits(n / 10) + seq![hex_digit((n % 10) as int)]
    }
}

/// The decimal text of an integer, with a leading minus where negative.
pub open spec fn int_text(n: int) -> Seq<char> {
    if n < 0 {
        "-"@ + dec_digits((-n) as nat)
    } else {
        dec_digits(n as nat)
    }
}

fn hex_digit_exec(n: u32) -> (r: char)
    requires
        n < 16,
    ensures
        r == hex_digit(n as int),
{
    if n == 0 {
        '0'
    } else if n == 1 {
        '1'
    } else if n == 2 {
        '2'
    } else if n == 3 {
        '3'
    } else if n == 4 {
        '4'
    } else if n == 5 {
        '5'
    } else if n == 6 {
        '6'
    } else if n == 7 {
        '7'
    } else if n == 8 {
        '8'
    } else if n == 9 {
        '9'
    } else if n == 10 {
        'a'
    } else if n == 11 {
        'b'
    } else if n == 12 {
        'c'
    } else if n == 13 {
        'd'
    } else if n == 14 {
        'e'
    } else {
        'f'
    }
}

fn push_escaped(out: &mut String, c: char)
    ensures
        final(out)@ == old(out)@ + esc_char(c),
{
    if c == '"' {
        push_char(out, '\\');
        push_char(out, '"');
    } else if c == '\\' {
        push_char(out, '\\');
        push_char(out, '\\');
    } else if c == '\u{8}' {
        push_char(out, '\\');
        push_char(out, 'b');
    } else if c == '\t' {
        push_char(out, '\\');
        push_char(out, 't');
    } else if c == '\n' {
        push_char(out, '\\');
        push_char(out, 'n');
    } else if c == '\u{c}' {
        push_char(out, '\\');
        push_char(out, 'f');
    } else if c == '\r' {
        push_char(out, '\\');
        push_char(out, 'r');
    } else if (c as u32) < 0x20 {
        let v: u32 = c as u32;
        push_char(out, '\\');
        push_char(out, 'u');
        push_char(out, '0');
        push_char(out, '0');
        push_char(out, hex_digit_exec(v / 16));
        push_char(out, hex_digit_exec(v % 16));
        proof {
            assert(out@ =~= old(out)@ + esc_char(c));
        }
    } else {
        push_char(out, c);
    }
    proof {
        assert(out@ =~= old(out)@ + esc_char(c));
    }
}

/// Appends the JSON-escaped body of the text.
fn push_json_escaped(out: &mut String, s: &str)
    ensures
        final(out)@ == old(out)@ + json_escaped(s@),
{
    let len: usize = s.unicode_len();
    let mut i: usize = 0;
    while i < len
        invariant
            0 <= i <= len,
            len == s@.len(),
            out@ == old(out)@ + json_escaped(s@.subrange(0, i as int)),
        decreases len - i,
    {
        let c: char = s.get_char(i);
        push_escaped(out, c);
        proof {
            assert(s@.subrange(0, i + 1).drop_last() =~= s@.subrange(0, i as int));
            assert(s@.subrange(0, i + 1).last() == s@[i as int]);
        }
        i = i + 1;
    }
    proof {
        assert(s@.subrange(0, len as int) =~= s@);
    }
}

/// Appends a quoted JSON string holding the text.
fn push_json_string(out: &mut String, s: &str)
    ensures
        final(out)@ == old(out)@ + json_string(s@),
{
    push_char(out, '"');
    push_json_escaped(out, s);
    push_char(out, '"');
    proof {
        reveal_strlit("\"");
        assert(out@ =~= old(out)@ + json_string(s@));
    }
}

/// Appends a quoted JSON string or `null`.
fn push_json_opt(out: &mut String, v: &Option<String>)
    ensures
        final(out)@ == old(out)@ + json_opt(opt_text(*v)),
{
    match v {
        Some(s) => push_json_string(out, s.as_str()),
        None => out.append("null"),
    }
}

fn push_dec(out: &mut String, n: u64)
    ensures
        final(out)@ == old(out)@ + dec_digits(n as nat),
    decreases n,
{
    if n < 10 {
        push_char(out, hex_digit_exec(n as u32));
    } else {
        push_dec(out, n / 10);
        push_char(out, hex_digit_exec((n % 10) as u32));
        proof {
            assert(out@ =~= old(out)@ + dec_digits(n as nat));
        }
    }
}

/// Appends the decimal text of the number.
fn push_int_text(out: &mut String, n: i32)
    ensures
        final(out)@ == old(out)@ + int_text(n as int),
{
    if n < 0 {
        push_char(out, '-');
        let mag: u64 = (-(n as i64)) as u64;
        push_dec(out, mag);
        proof {
            reveal_strlit("-");
            assert(out@ =~= old(out)@ + int_text(n as int));
        }
    } else {
        push_dec(out, n as u64);
    }
}

/// The structured calendar-event payload a session notification carries,
/// rendered to the mail content as one JSON object.
#[allow(non_snake_case)]
pub struct FerrisEvent {
    pub id: String,
    pub description: Option<String>,
    pub organizer: Option<String>,
    pub attendee: Option<String>,
    pub sequence: i32,
    pub startDate: String,
    pub endDate: String,
    pub status: String,
    pub method: String,
}

/// The JSON text of an event payload: the fields in declaration order,
/// absent options as `null`.
pub open spec fn event_json(e: FerrisEvent) -> Seq<char> {
    "{\"id\":"@ + json_string(e.id@) + ",\"description\":"@ + json_opt(opt_text(e.description))
        + ",\"organizer\":"@ + json_opt(opt_text(e.organizer)) + ",\"attendee\":"@ + json_opt(
        opt_text(e.attendee),
    ) + ",\"sequence\":"@ + int_text(e.sequence as int) + ",\"startDate\":"@ + json_string(
        e.startDate@,
    ) + ",\"endDate\":"@ + json_string(e.endDate@) + ",\"status\":"@ + json_string(e.status@)
        + ",\"method\":"@ + json_string(e.method@) + "}"@
}

/// The content of the invitation staged when a session is created:
/// sequence 1, status CONFIRMED, method REQUEST, the member attending and
/// the coach organizing.
pub open spec fn invite_content(session: Session, coach: User, member: User) -> Seq<char> {
    "{\"id\":"@ + json_string(session.id@) + ",\"description\":"@ + json_opt(
        opt_text(session.description),
    ) + ",\"organizer\":"@ + json_string(coach.email@) + ",\"attendee\":"@ + json_string(
        member.email@,
    ) + ",\"sequence\":"@ + dec_digits(1) + ",\"startDate\":"@ + json_string(
        schedule_text_of(session.original_start_date as int),
    ) + ",\"endDate\":"@ + json_string(schedule_text_of(session.original_end_date as int))
        + ",\"status\":"@ + json_string("CONFIRMED"@) + ",\"method\":"@ + json_string("REQUEST"@)
        + "}"@
}

/// The content of the cancellation staged when a session is cancelled:
/// sequence 99, status CANCELLED, method CANCEL, the closing notes as the
/// description.
pub open spec fn cancel_content(session: Session, coach: User, member: User) -> Seq<char> {
    "{\"id\":"@ + json_string(session.id@) + ",\"description\":"@ + json_opt(
        opt_text(session.closing_notes),
    ) + ",\"organizer\":"@ + json_string(coach.email@) + ",\"attendee\":"@ + json_string(
        member.email@,
    ) + ",\"sequence\":"@ + dec_digits(99) + ",\"startDate\":"@ + json_string(
        schedule_text_of(session.original_start_date as int),
    ) + ",\"endDate\":"@ + json_string(schedule_text_of(session.original_end_date as int))
        + ",\"status\":"@ + json_string("CANCELLED"@) + ",\"method\":"@ + json_string("CANCEL"@)
        + "}"@
}

impl FerrisEvent {
    /// This payload as one JSON object.
    pub fn to_json(&self) -> (r: String)
        ensures
            r@ == event_json(*self),
    {
        let mut out: String = String::new();
        out.append("{\"id\":");
        push_json_string(&mut out, self.id.as_str());
        out.append(",\"description\":");
        push_json_opt(&mut out, &self.description);
        out.append(",\"organizer\":");
        push_json_opt(&mut out, &self.organizer);
        out.append(",\"attendee\":");
        push_json_opt(&mut out, &self.attendee);
        out.append(",\"sequence\":");
        push_int_text(&mut out, self.sequence);
        out.append(",\"startDate\":");
        push_json_string(&mut out, self.startDate.as_str());
        out.append(",\"endDate\":");
        push_json_string(&mut out, self.endDate.as_str());
        out.append(",\"status\":");
        push_json_string(&mut out, self.status.as_str());
        out.append(",\"method\":");
        push_json_string(&mut out, self.method.as_str());
        out.append("}");
        proof {
            assert(out@ =~= event_json(*self));
        }
        out
    }

    /// The invitation payload of a fresh session, as JSON text.
    pub fn new_session_event(session: &Session, coach: &User, member: &User) -> (r: String)
        ensures
            r@ == invite_content(*session, *coach, *member),
    {
        let event = FerrisEvent {
            id: session.id.clone(),
            sequence: 1,
            organizer: Some(coach.email.clone()),
            attendee: Some(member.email.clone()),
            description: match &session.description {
                Some(v) => Some(v.clone()),
                None => None,
            },
            startDate: util::schedule_text(session.original_start_date),
            endDate: util::schedule_text(session.original_end_date),
            status: "CONFIRMED".to_owned(),
            method: "REQUEST".to_owned(),
        };
        let r = event.to_json();
        proof {
            assert(int_text(1) =~= dec_digits(1));
            assert(r@ =~= invite_content(*session, *coach, *member));
        }
        r
    }

    /// The cancellation payload of a cancelled session, as JSON text.
    pub fn cancel_event(session: &Session, coach: &User, member: &User) -> (r: String)
        ensures
            r@ == cancel_content(*session, *coach, *member),
    {
        let event = FerrisEvent {
            id: session.id.clone(),
            sequence: 99,
            organizer: Some(coach.email.clone()),
            attendee: Some(member.email.clone()),
            description: match &session.closing_notes {
                Some(v) => Some(v.clone()),
                None => None,
            },
            startDate: util::schedule_text(session.original_start_date),
            endDate: util::schedule_text(session.original_end_date),
            status: "CANCELLED".to_owned(),
            method: "CANCEL".to_owned(),
        };
        let r = event.to_json();
        proof {
            assert(int_text(99) =~= dec_digits(99));
            assert(r@ =~= cancel_content(*session, *coach, *member));
        }
        r
    }
}

} // verus!
