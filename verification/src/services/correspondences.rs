use vstd::prelude::*;

use crate::commons::chassis::ServiceError;
use crate::models::correspondences::{Correspondence, MailCriteria, MailOut, MailRecipient, Mailable, MARKED, OUT, PENDING};
use crate::store::{
    has_correspondence, same_directory, same_discussions, same_enrollments, same_events,
    unchanged, Store,
};

verus! {

/// The correspondence row that staging the given mail writes: the staged
/// fields verbatim, nothing sent and no error yet, stamped with the
/// transaction's clock reading.
pub open spec fn mail_row(m: MailOut, now: i64) -> Correspondence {
    Correspondence {
        id: m.id,
        from_user_id: m.from_user_id,
        program_id: m.program_id,
        enrollment_id: m.enrollment_id,
        from_email: m.from_email,
        subject: m.subject,
        content: m.content,
        in_out: m.in_out,
        status: m.status,
        sent_at: None,
        reply_to: m.reply_to,
        error: m.error,
        error_reason: None,
        to_send_on: m.to_send_on,
        created_at: now,
        updated_at: now,
        mail_type: m.mail_type,
    }
}

/// Whether a correspondence row is a freshly staged outbound mail with
/// the given addressing and payload: pending, outbound, from the
/// scheduled sender, stamped with the transaction's clock reading.
pub open spec fn staged_mail(
    c: Correspondence,
    from_user: Seq<char>,
    prog: Seq<char>,
    enr: Seq<char>,
    subj: Seq<char>,
    content: Seq<char>,
    mtype: Seq<char>,
    now: i64,
) -> bool {
    &&& c.id@.len() == 36
    &&& c.from_user_id@ == from_user
    &&& c.program_id@ == prog
    &&& c.enrollment_id@ == enr
    &&& c.from_email@ == crate::models::correspondences::SCHEDULE_SENDER_ID@
    &&& c.subject@ == subj
    &&& c.content matches Some(x) && x@ == content
    &&& c.in_out@ == crate::models::correspondences::OUT@
    &&& c.status@ == crate::models::correspondences::PENDING@
    &&& c.sent_at is None
    &&& c.error_reason is None
    &&& c.to_send_on == now
    &&& c.created_at == now
    &&& c.updated_at == now
    &&& c.mail_type@ == mtype
}

/// Whether the store's outbox grew by exactly one staged mail addressed
/// to the member, with the coach copied.
pub open spec fn staged_mail_appended(
    a: Store,
    b: Store,
    from_user: Seq<char>,
    prog: Seq<char>,
    enr: Seq<char>,
    subj: Seq<char>,
    content: Seq<char>,
    mtype: Seq<char>,
    member: crate::models::users::User,
    coach: crate::models::users::User,
    now: i64,
) -> bool {
    &&& b.correspondences@.len() == a.correspondences@.len() + 1
    &&& b.correspondences@ == a.correspondences@.push(b.correspondences@.last())
    &&& staged_mail(b.correspondences@.last(), from_user, prog, enr, subj, content, mtype, now)
    &&& b.mail_recipients@.len() == a.mail_recipients@.len() + 2
    &&& b.mail_recipients@ == a.mail_recipients@ + seq![
        b.mail_recipients@[a.mail_recipients@.len() as int],
        b.mail_recipients@.last(),
    ]
    &&& crate::models::correspondences::recipient_shape(
        b.mail_recipients@[a.mail_recipients@.len() as int],
        b.correspondences@.last().id@,
        member.id@,
        member.email@,
        crate::models::correspondences::TO@,
    )
    &&& crate::models::correspondences::recipient_shape(
        b.mail_recipients@.last(),
        b.correspondences@.last().id@,
        coach.id@,
        coach.email@,
        crate::models::correspondences::CC@,
    )
}

pub(crate) fn correspondence_index_of(s: &Vec<Correspondence>, id: &str) -> (r: Option<usize>)
    ensures
        match r {
            Some(i) => i < s@.len() && s@[i as int].id@ == id@,
            None => !has_correspondence(s@, id@),
        },
{
    let key: String = id.to_owned();
    let mut i: usize = 0;
    while i < s.len()
        invariant
            0 <= i <= s@.len(),
            key@ == id@,
            forall|j: int| 0 <= j < i ==> s@[j].id@ != id@,
        decreases s@.len() - i,
    {
        if s[i].id.eq(&key) {
            return Some(i);
        }
        i = i + 1;
    }
    None
}

/// Appends one correspondence row and its recipient rows, atomically with
/// whatever business write the enclosing call has made; refused only where
/// the staged id already exists, as the store's primary key would refuse
/// it.
pub fn create_mail(
    store: &mut Store,
    mail_out: MailOut,
    recipients: Vec<MailRecipient>,
    now: i64,
) -> (r: Result<usize, ServiceError>)
    requires
        old(store).wf(),
    ensures
        final(store).wf(),
        same_directory(*old(store), *final(store)),
        same_enrollments(*old(store), *final(store)),
        same_events(*old(store), *final(store)),
        same_discussions(*old(store), *final(store)),
        r is Err <==> has_correspondence(old(store).correspondences@, mail_out.id@),
        r is Err ==> (r matches Err(e) && e == ServiceError::PersistenceError && unchanged(
            *old(store),
            *final(store),
        )),
        r matches Ok(n) ==> final(store).correspondences@ == old(store).correspondences@.push(
            mail_row(mail_out, now),
        ) && final(store).mail_recipients@ == old(store).mail_recipients@ + recipients@ && n
            == recipients@.len(),
{
    if correspondence_index_of(&store.correspondences, mail_out.id.as_str()).is_some() {
        proof {
            assert(unchanged(*old(store), *store));
        }
        return Err(ServiceError::PersistenceError);
    }
    let row = Correspondence {
        id: mail_out.id,
        from_user_id: mail_out.from_user_id,
        program_id: mail_out.program_id,
        enrollment_id: mail_out.enrollment_id,
        from_email: mail_out.from_email,
        subject: mail_out.subject,
        content: mail_out.content,
        in_out: mail_out.in_out,
        status: mail_out.status,
        sent_at: None,
        reply_to: mail_out.reply_to,
        error: mail_out.error,
        error_reason: None,
        to_send_on: mail_out.to_send_on,
        created_at: now,
        updated_at: now,
        mail_type: mail_out.mail_type,
    };
    store.correspondences.push(row);
    let n: usize = recipients.len();
    let ghost orig = recipients@;
    let ghost base = store.mail_recipients@;
    let mut rest = recipients;
    while rest.len() > 0
        invariant
            old(store).wf(),
            !has_correspondence(old(store).correspondences@, mail_out.id@),
            store.correspondences@ == old(store).correspondences@.push(mail_row(mail_out, now)),
            same_directory(*old(store), *store),
            same_enrollments(*old(store), *store),
            same_events(*old(store), *store),
            same_discussions(*old(store), *store),
            store.mail_recipients@ == base + orig.take(orig.len() - rest@.len()),
            rest@ == orig.skip(orig.len() - rest@.len()),
            rest@.len() <= orig.len(),
        decreases rest@.len(),
    {
        let ghost k = orig.len() - rest@.len();
        let item = rest.remove(0);
        store.mail_recipients.push(item);
        proof {
            assert(orig.skip(k as int)[0] == orig[k as int]);
            assert(store.mail_recipients@ =~= base + orig.take(k + 1));
            assert(rest@ =~= orig.skip(k + 1));
        }
    }
    proof {
        assert(store.mail_recipients@ =~= base + orig);
        assert forall|a: int, b: int|
            0 <= a < b < store.correspondences@.len() implies store.correspondences@[a].id@
            != store.correspondences@[b].id@ by {
            if b == store.correspondences@.len() - 1 {
                assert(store.correspondences@[a] == old(store).correspondences@[a]);
                assert(!(store.correspondences@[a].id@ == mail_out.id@));
            }
        }
    }
    Ok(n)
}

/// A field-for-field copy of the correspondence table.
pub(crate) fn copy_correspondences(v: &Vec<Correspondence>) -> (r: Vec<Correspondence>)
    ensures
        r@ == v@,
{
    let mut out: Vec<Correspondence> = Vec::new();
    let mut i: usize = 0;
    while i < v.len()
        invariant
            0 <= i <= v@.len(),
            out@ == v@.take(i as int),
        decreases v@.len() - i,
    {
        out.push(v[i].duplicate());
        proof {
            assert(out@ =~= v@.take(i + 1));
        }
        i = i + 1;
    }
    proof {
        assert(v@.take(v@.len() as int) =~= v@);
    }
    out
}

/// A field-for-field copy of the recipient table.
pub(crate) fn copy_mail_recipients(v: &Vec<MailRecipient>) -> (r: Vec<MailRecipient>)
    ensures
        r@ == v@,
{
    let mut out: Vec<MailRecipient> = Vec::new();
    let mut i: usize = 0;
    while i < v.len()
        invariant
            0 <= i <= v@.len(),
            out@ == v@.take(i as int),
        decreases v@.len() - i,
    {
        out.push(v[i].duplicate());
        proof {
            assert(out@ =~= v@.take(i + 1));
        }
        i = i + 1;
    }
    proof {
        assert(v@.take(v@.len() as int) =~= v@);
    }
    out
}

/// Whether a correspondence row matches the dispatcher's selection.
pub open spec fn row_matches(c: Correspondence, status: Seq<char>, dir: Seq<char>) -> bool {
    c.status@ == status && c.in_out@ == dir
}

/// Whether the batch holds a row with the given id.
pub open spec fn claimed_id(r: Seq<Mailable>, id: Seq<char>) -> bool {
    exists|k: int| 0 <= k < r.len() && r[k].correspondence.id@ == id
}

/// Whether the row stands somewhere in the table.
pub open spec fn correspondence_present(s: Seq<Correspondence>, c: Correspondence) -> bool {
    exists|i: int| 0 <= i < s.len() && s[i] == c
}

/// The recipient rows of one correspondence.
pub open spec fn recipient_of_pred(id: Seq<char>) -> spec_fn(MailRecipient) -> bool {
    |mr: MailRecipient| mr.correspondence_id@ == id
}

pub open spec fn recipients_spec(v: Seq<MailRecipient>, id: Seq<char>) -> Seq<MailRecipient> {
    v.filter(recipient_of_pred(id))
}

/// Whether one loaded mail faithfully joins a matching correspondence
/// row with exactly its recipient rows.
pub open spec fn mailable_sound(
    store: Store,
    m: Mailable,
    status: Seq<char>,
    dir: Seq<char>,
) -> bool {
    &&& correspondence_present(store.correspondences@, m.correspondence)
    &&& row_matches(m.correspondence, status, dir)
    &&& m.receipients@ == recipients_spec(store.mail_recipients@, m.correspondence.id@)
}

fn recipients_of(v: &Vec<MailRecipient>, id: &String) -> (r: Vec<MailRecipient>)
    ensures
        r@ == recipients_spec(v@, id@),
{
    let mut out: Vec<MailRecipient> = Vec::new();
    let mut i: usize = 0;
    proof {
        reveal(Seq::filter);
    }
    while i < v.len()
        invariant
            0 <= i <= v@.len(),
            out@ == recipients_spec(v@.take(i as int), id@),
        decreases v@.len() - i,
    {
        if v[i].correspondence_id.eq(id) {
            out.push(v[i].duplicate());
        }
        proof {
            crate::store::lemma_filter_take_step(v@, recipient_of_pred(id@), i as int);
        }
        i = i + 1;
    }
    proof {
        assert(v@.take(v@.len() as int) =~= v@);
    }
    out
}

fn scan_best(
    rows: &Vec<Correspondence>,
    picked: &Vec<bool>,
    status: &String,
    dir: &String,
) -> (r: Option<usize>)
    requires
        picked@.len() == rows@.len(),
    ensures
        match r {
            Some(b) => b < rows@.len() && !picked@[b as int] && row_matches(
                rows@[b as int],
                status@,
                dir@,
            ) && forall|j: int|
                0 <= j < rows@.len() && row_matches(#[trigger] rows@[j], status@, dir@)
                    && !picked@[j] ==> rows@[b as int].to_send_on <= rows@[j].to_send_on,
            None => forall|j: int|
                0 <= j < rows@.len() && row_matches(#[trigger] rows@[j], status@, dir@)
                    ==> picked@[j],
        },
{
    let mut best: Option<usize> = None;
    let mut i: usize = 0;
    while i < rows.len()
        invariant
            0 <= i <= rows@.len(),
            picked@.len() == rows@.len(),
            match best {
                Some(b) => b < i && !picked@[b as int] && row_matches(
                    rows@[b as int],
                    status@,
                    dir@,
                ) && forall|j: int|
                    0 <= j < i && row_matches(#[trigger] rows@[j], status@, dir@) && !picked@[j]
                        ==> rows@[b as int].to_send_on <= rows@[j].to_send_on,
                None => forall|j: int|
                    0 <= j < i && row_matches(#[trigger] rows@[j], status@, dir@) ==> picked@[j],
            },
        decreases rows@.len() - i,
    {
        if !picked[i] && rows[i].status.eq(status) && rows[i].in_out.eq(dir) {
            match best {
                Some(b) => {
                    if rows[i].to_send_on < rows[b].to_send_on {
                        best = Some(i);
                    }
                },
                None => {
                    best = Some(i);
                },
            }
        }
        i = i + 1;
    }
    best
}

/// Loads up to three matching mails, each joined with its recipients:
/// the oldest by their scheduled dispatch time, and never two rows under
/// one id.
pub fn get_mails(store: &Store, criteria: &MailCriteria) -> (r: Vec<Mailable>)
    requires
        store.wf(),
    ensures
        r@.len() <= 3,
        forall|k: int|
            0 <= k < r@.len() ==> mailable_sound(
                *store,
                #[trigger] r@[k],
                criteria.status@,
                criteria.in_out@,
            ),
        forall|k1: int, k2: int|
            0 <= k1 < k2 < r@.len() ==> r@[k1].correspondence.id@ != r@[k2].correspondence.id@,
        forall|k1: int, k2: int|
            0 <= k1 < k2 < r@.len() ==> #[trigger] r@[k1].correspondence.to_send_on
                <= #[trigger] r@[k2].correspondence.to_send_on,
        r@.len() < 3 ==> forall|j: int|
            0 <= j < store.correspondences@.len() && row_matches(
                #[trigger] store.correspondences@[j],
                criteria.status@,
                criteria.in_out@,
            ) ==> claimed_id(r@, store.correspondences@[j].id@),
        forall|k: int, j: int|
            0 <= k < r@.len() && 0 <= j < store.correspondences@.len() && row_matches(
                #[trigger] store.correspondences@[j],
                criteria.status@,
                criteria.in_out@,
            ) && !claimed_id(r@, store.correspondences@[j].id@)
                ==> #[trigger] r@[k].correspondence.to_send_on
                <= store.correspondences@[j].to_send_on,
{
    let n: usize = store.correspondences.len();
    let mut picked: Vec<bool> = Vec::new();
    while picked.len() < n
        invariant
            picked@.len() <= n,
            forall|j: int| 0 <= j < picked@.len() ==> !(#[trigger] picked@[j]),
        decreases n - picked@.len(),
    {
        picked.push(false);
    }
    let mut out: Vec<Mailable> = Vec::new();
    let ghost mut chosen: Seq<int> = Seq::empty();
    while out.len() < 3
        invariant
            store.wf(),
            n == store.correspondences@.len(),
            picked@.len() == n,
            out@.len() <= 3,
            chosen.len() == out@.len(),
            forall|k: int|
                0 <= k < out@.len() ==> 0 <= #[trigger] chosen[k] < n
                    && store.correspondences@[chosen[k]] == out@[k].correspondence
                    && picked@[chosen[k]],
            forall|k: int|
                0 <= k < out@.len() ==> mailable_sound(
                    *store,
                    #[trigger] out@[k],
                    criteria.status@,
                    criteria.in_out@,
                ),
            forall|k1: int, k2: int| 0 <= k1 < k2 < chosen.len() ==> chosen[k1] != chosen[k2],
            forall|k1: int, k2: int|
                0 <= k1 < k2 < out@.len() ==> #[trigger] out@[k1].correspondence.to_send_on
                    <= #[trigger] out@[k2].correspondence.to_send_on,
            forall|j: int|
                0 <= j < n && #[trigger] picked@[j] ==> exists|k: int|
                    0 <= k < chosen.len() && chosen[k] == j,
            forall|k: int, j: int|
                0 <= k < out@.len() && 0 <= j < n && row_matches(
                    #[trigger] store.correspondences@[j],
                    criteria.status@,
                    criteria.in_out@,
                ) && !picked@[j] ==> #[trigger] out@[k].correspondence.to_send_on
                    <= store.correspondences@[j].to_send_on,
        ensures
            out@.len() <= 3,
            chosen.len() == out@.len(),
            forall|k: int|
                0 <= k < out@.len() ==> 0 <= #[trigger] chosen[k] < n
                    && store.correspondences@[chosen[k]] == out@[k].correspondence,
            forall|k: int|
                0 <= k < out@.len() ==> mailable_sound(
                    *store,
                    #[trigger] out@[k],
                    criteria.status@,
                    criteria.in_out@,
                ),
            forall|k1: int, k2: int| 0 <= k1 < k2 < chosen.len() ==> chosen[k1] != chosen[k2],
            forall|k1: int, k2: int|
                0 <= k1 < k2 < out@.len() ==> #[trigger] out@[k1].correspondence.to_send_on
                    <= #[trigger] out@[k2].correspondence.to_send_on,
            out@.len() < 3 ==> forall|j: int|
                0 <= j < n && row_matches(
                    #[trigger] store.correspondences@[j],
                    criteria.status@,
                    criteria.in_out@,
                ) ==> claimed_id(out@, store.correspondences@[j].id@),
            forall|k: int, j: int|
                0 <= k < out@.len() && 0 <= j < n && row_matches(
                    #[trigger] store.correspondences@[j],
                    criteria.status@,
                    criteria.in_out@,
                ) && !claimed_id(out@, store.correspondences@[j].id@)
                    ==> #[trigger] out@[k].correspondence.to_send_on
                    <= store.correspondences@[j].to_send_on,
        decreases 3 - out@.len(),
    {
        match scan_best(&store.correspondences, &picked, &criteria.status, &criteria.in_out) {
            Some(b) => {
                let row = store.correspondences[b].duplicate();
                let recips = recipients_of(&store.mail_recipients, &row.id);
                let ghost prev = out@;
                let ghost prev_chosen = chosen;
                out.push(Mailable { correspondence: row, receipients: recips });
                picked.set(b, true);
                proof {
                    chosen = chosen.push(b as int);
                    assert(out@[out@.len() - 1].correspondence
                        == store.correspondences@[b as int]);
                    assert forall|j: int|
                        0 <= j < n && #[trigger] picked@[j] implies exists|k: int|
                        0 <= k < chosen.len() && chosen[k] == j by {
                        if j == b as int {
                            assert(chosen[chosen.len() - 1] == j);
                        } else {
                            let k = choose|k: int|
                                0 <= k < prev_chosen.len() && prev_chosen[k] == j;
                            assert(chosen[k] == j);
                        }
                    }
                }
            },
            None => {
                proof {
                    assert forall|j: int|
                        0 <= j < n && row_matches(
                            #[trigger] store.correspondences@[j],
                            criteria.status@,
                            criteria.in_out@,
                        ) implies claimed_id(out@, store.correspondences@[j].id@) by {
                        let k = choose|k: int| 0 <= k < chosen.len() && chosen[k] == j;
                        assert(out@[k].correspondence.id@ == store.correspondences@[j].id@);
                    }
                }
                break ;
            },
        }
    }
    proof {
        if out@.len() == 3 {
        }
        assert forall|k: int, j: int|
            0 <= k < out@.len() && 0 <= j < store.correspondences@.len() && row_matches(
                #[trigger] store.correspondences@[j],
                criteria.status@,
                criteria.in_out@,
            ) && !claimed_id(out@, store.correspondences@[j].id@)
            implies #[trigger] out@[k].correspondence.to_send_on
            <= store.correspondences@[j].to_send_on by {
        }
        assert forall|k1: int, k2: int|
            0 <= k1 < k2 < out@.len() implies out@[k1].correspondence.id@
            != out@[k2].correspondence.id@ by {
            let i1 = chosen[k1];
            let i2 = chosen[k2];
            if i1 < i2 {
                assert(store.correspondences@[i1].id@ != store.correspondences@[i2].id@);
            } else {
                assert(store.correspondences@[i2].id@ != store.correspondences@[i1].id@);
            }
        }
    }
    out
}

/// The claimed row as it stands after the claim: the same mail, its
/// status flipped to `marked`.
pub open spec fn marked_claimed(a: Correspondence, b: Correspondence) -> bool {
    &&& b.id == a.id
    &&& b.from_user_id == a.from_user_id
    &&& b.program_id == a.program_id
    &&& b.enrollment_id == a.enrollment_id
    &&& b.from_email == a.from_email
    &&& b.subject == a.subject
    &&& b.content == a.content
    &&& b.in_out == a.in_out
    &&& b.status@ == MARKED@
    &&& b.sent_at == a.sent_at
    &&& b.reply_to == a.reply_to
    &&& b.error == a.error
    &&& b.error_reason == a.error_reason
    &&& b.to_send_on == a.to_send_on
    &&& b.created_at == a.created_at
    &&& b.updated_at == a.updated_at
    &&& b.mail_type == a.mail_type
}

/// Everything one claim sweep guarantees: the batch is made of distinct
/// pending outbound rows, the oldest by scheduled dispatch time; exactly
/// the claimed rows flip to `marked`, and nothing else moves.
pub open spec fn claim_outcome(a: Store, b: Store, r: Seq<Mailable>) -> bool {
    &&& r.len() <= 3
    &&& forall|k: int|
        0 <= k < r.len() ==> mailable_sound(a, #[trigger] r[k], PENDING@, OUT@)
    &&& forall|k1: int, k2: int|
        0 <= k1 < k2 < r.len() ==> r[k1].correspondence.id@ != r[k2].correspondence.id@
    &&& forall|k1: int, k2: int|
        0 <= k1 < k2 < r.len() ==> #[trigger] r[k1].correspondence.to_send_on
            <= #[trigger] r[k2].correspondence.to_send_on
    &&& (r.len() < 3 ==> forall|j: int|
        0 <= j < a.correspondences@.len() && row_matches(
            #[trigger] a.correspondences@[j],
            PENDING@,
            OUT@,
        ) ==> claimed_id(r, a.correspondences@[j].id@))
    &&& forall|k: int, j: int|
        0 <= k < r.len() && 0 <= j < a.correspondences@.len() && row_matches(
            #[trigger] a.correspondences@[j],
            PENDING@,
            OUT@,
        ) && !claimed_id(r, a.correspondences@[j].id@)
            ==> #[trigger] r[k].correspondence.to_send_on <= a.correspondences@[j].to_send_on
    &&& b.correspondences@.len() == a.correspondences@.len()
    &&& forall|i: int|
        0 <= i < a.correspondences@.len() ==> (if claimed_id(
            r,
            #[trigger] a.correspondences@[i].id@,
        ) {
            marked_claimed(a.correspondences@[i], b.correspondences@[i])
        } else {
            b.correspondences@[i] == a.correspondences@[i]
        })
}

fn id_claimed(r: &Vec<Mailable>, id: &String) -> (res: bool)
    ensures
        res == claimed_id(r@, id@),
{
    let mut k: usize = 0;
    while k < r.len()
        invariant
            0 <= k <= r@.len(),
            forall|j: int| 0 <= j < k ==> r@[j].correspondence.id@ != id@,
        decreases r@.len() - k,
    {
        if r[k].correspondence.id.eq(id) {
            proof {
                assert(r@[k as int].correspondence.id@ == id@);
            }
            return true;
        }
        k = k + 1;
    }
    false
}

/// Claims up to three pending outbound mails in one sweep: the claim is
/// the only step where concurrent dispatchers could race, so the status
/// flip to `marked` happens in the same call that loads the batch, and a
/// row leaves the pending set the moment any sweep takes it.
pub fn sendable_mails(store: &mut Store) -> (r: Result<Vec<Mailable>, ServiceError>)
    requires
        old(store).wf(),
    ensures
        final(store).wf(),
        same_directory(*old(store), *final(store)),
        same_enrollments(*old(store), *final(store)),
        same_events(*old(store), *final(store)),
        same_discussions(*old(store), *final(store)),
        final(store).mail_recipients@ == old(store).mail_recipients@,
        r matches Ok(v) && claim_outcome(*old(store), *final(store), v@),
{
    let criteria = MailCriteria { status: "pending".to_owned(), in_out: "out".to_owned() };
    let mailables: Vec<Mailable> = get_mails(store, &criteria);
    let mut i: usize = 0;
    while i < store.correspondences.len()
        invariant
            0 <= i <= store.correspondences@.len(),
            store.correspondences@.len() == old(store).correspondences@.len(),
            same_directory(*old(store), *store),
            same_enrollments(*old(store), *store),
            same_events(*old(store), *store),
            same_discussions(*old(store), *store),
            store.mail_recipients@ == old(store).mail_recipients@,
            forall|j: int|
                0 <= j < i ==> (if claimed_id(
                    mailables@,
                    #[trigger] old(store).correspondences@[j].id@,
                ) {
                    marked_claimed(old(store).correspondences@[j], store.correspondences@[j])
                } else {
                    store.correspondences@[j] == old(store).correspondences@[j]
                }),
            forall|j: int|
                i <= j < store.correspondences@.len() ==> store.correspondences@[j] == old(
                    store,
                ).correspondences@[j],
        decreases store.correspondences@.len() - i,
    {
        if id_claimed(&mailables, &store.correspondences[i].id) {
            let cur = store.correspondences[i].duplicate();
            let upd = Correspondence { status: MARKED.to_owned(), ..cur };
            store.correspondences.set(i, upd);
        }
        i = i + 1;
    }
    proof {
        assert forall|a2: int, b2: int|
            0 <= a2 < b2 < store.correspondences@.len() implies store.correspondences@[a2].id@
            != store.correspondences@[b2].id@ by {
            assert(store.correspondences@[a2].id@ == old(store).correspondences@[a2].id@);
            assert(store.correspondences@[b2].id@ == old(store).correspondences@[b2].id@);
        }
    }
    Ok(mailables)
}

/// Two claim sweeps never hand out the same outbox row: whatever the
/// first sweep claimed stands `marked` when the second runs, and the
/// second claims only rows still `pending`, so no id appears in both
/// batches.
pub proof fn lemma_claims_never_overlap(
    s0: Store,
    s1: Store,
    s2: Store,
    r1: Seq<Mailable>,
    r2: Seq<Mailable>,
    k1: int,
    k2: int,
)
    requires
        s0.wf(),
        s1.wf(),
        claim_outcome(s0, s1, r1),
        claim_outcome(s1, s2, r2),
        0 <= k1 < r1.len(),
        0 <= k2 < r2.len(),
    ensures
        r1[k1].correspondence.id@ != r2[k2].correspondence.id@,
{
    reveal_strlit("pending");
    reveal_strlit("marked");
    if r1[k1].correspondence.id@ == r2[k2].correspondence.id@ {
        let id = r1[k1].correspondence.id@;
        let i1 = choose|i: int|
            0 <= i < s0.correspondences@.len() && s0.correspondences@[i] == r1[k1].correspondence;
        assert(claimed_id(r1, s0.correspondences@[i1].id@));
        assert(marked_claimed(s0.correspondences@[i1], s1.correspondences@[i1]));
        let i2 = choose|i: int|
            0 <= i < s1.correspondences@.len() && s1.correspondences@[i] == r2[k2].correspondence;
        assert(s1.correspondences@[i2].status@ == PENDING@);
        assert(s1.correspondences@[i1].id@ == id && s1.correspondences@[i2].id@ == id);
        if i1 < i2 {
            assert(s1.correspondences@[i1].id@ != s1.correspondences@[i2].id@);
        } else if i2 < i1 {
            assert(s1.correspondences@[i2].id@ != s1.correspondences@[i1].id@);
        }
        assert(s1.correspondences@[i1].status@ == MARKED@);
        assert(PENDING@ =~= MARKED@);
        assert(PENDING@.len() == 7 && MARKED@.len() == 6);
    }
}

} // verus!
