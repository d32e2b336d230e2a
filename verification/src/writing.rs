//! What is written: who a message goes to, what answers are called, what the keys do to a message
//! and to the form of an account, and what account comes out of the form.

use vstd::prelude::*;

use crate::account_form;
use crate::account_form::{FieldModel, FormModel};
use crate::action::{Action, ActionModel};
use crate::app;
use crate::app::{AppModel, EffectModel, StepModel};
use crate::compose;
use crate::compose::ComposeModel;
use crate::keys::{Key, KeyCode};
use crate::number;
use crate::text;
use crate::text::Sep;
use crate::types::SecurityMode;

verus! {

broadcast use vstd::string::group_string_axioms;

/// What is written in the field of the recipients goes out to them, what is written in the field of
/// the copies goes out as copies, and what is written in the field of the hidden copies goes out as
/// hidden copies: all of a list that is written with semicolons or commas, in its order.
pub proof fn each_list_goes_out_as_written(c: ComposeModel, me: Seq<char>, list: Seq<Seq<char>>)
    requires
        c.fields.len() == 6,
        forall|k: int|
            0 <= k < list.len() ==> text::entry(#[trigger] list[k], Sep::Either(',', ';')),
    ensures
        ({
            let m = compose::outgoing(c, me);
            let by_semicolons = text::joined(list, "; "@);
            let by_commas = text::joined(list, ", "@);
            &&& c.fields[0].value == by_semicolons ==> m.to == list
            &&& c.fields[1].value == by_semicolons ==> m.cc == list
            &&& c.fields[2].value == by_semicolons ==> m.bcc == list
            &&& c.fields[0].value == by_commas ==> m.to == list
            &&& c.fields[1].value == by_commas ==> m.cc == list
            &&& c.fields[2].value == by_commas ==> m.bcc == list
        }),
{
    reveal_strlit("; ");
    reveal_strlit(", ");
    assert("; "@ =~= seq![';', ' ']);
    assert(", "@ =~= seq![',', ' ']);
    text::list_reads_back(list, ';', Sep::Either(',', ';'));
    text::list_reads_back(list, ',', Sep::Either(',', ';'));
}

/// Nobody gets a message who stands in no field of it: an empty field is an empty list.
pub proof fn empty_field_is_nobody(c: ComposeModel, me: Seq<char>)
    requires
        c.fields.len() == 6,
    ensures
        c.fields[0].value.len() == 0 ==> compose::outgoing(c, me).to.len() == 0,
        c.fields[1].value.len() == 0 ==> compose::outgoing(c, me).cc.len() == 0,
        c.fields[2].value.len() == 0 ==> compose::outgoing(c, me).bcc.len() == 0,
{
    let none = Seq::<Seq<char>>::empty();
    each_list_goes_out_as_written(c, me, none);
    assert(text::joined(none, "; "@) =~= seq![]);
    if c.fields[0].value.len() == 0 {
        assert(c.fields[0].value =~= seq![]);
    }
    if c.fields[1].value.len() == 0 {
        assert(c.fields[1].value =~= seq![]);
    }
    if c.fields[2].value.len() == 0 {
        assert(c.fields[2].value =~= seq![]);
    }
}

/// What goes out depends on each field only where it belongs: messages that agree in a field agree
/// in what comes of it.
pub proof fn fields_do_not_mix(c: ComposeModel, d: ComposeModel, me: Seq<char>, you: Seq<char>)
    requires
        c.fields.len() == 6,
        d.fields.len() == 6,
    ensures
        ({
            let m = compose::outgoing(c, me);
            let n = compose::outgoing(d, you);
            &&& c.fields[0].value == d.fields[0].value ==> m.to == n.to
            &&& c.fields[1].value == d.fields[1].value ==> m.cc == n.cc
            &&& c.fields[2].value == d.fields[2].value ==> m.bcc == n.bcc
            &&& m.from == me
            &&& m.subject == c.fields[3].value
            &&& m.body_text == Some(c.fields[4].value)
            &&& m.body_html is None
            &&& m.attachments == c.attachments
        }),
{
}

/// The subject of an answer is the mark and the subject, without space at its ends; where the
/// subject has the mark already, it is not repeated, however often it stands there.
pub proof fn subject_of_an_answer(mark: Seq<char>, subject: Seq<char>)
    requires
        mark.len() > 0,
    ensures
        !text::occurs(subject, mark, 0) ==> compose::answer_subject(mark, subject) == mark
            + text::trimmed(subject),
        compose::answer_subject(mark, mark + subject) == compose::answer_subject(mark, subject),
{
    if !text::occurs(subject, mark, 0) {
        assert(subject.skip(0) =~= subject);
    }
    let s = mark + subject;
    assert(s.subrange(0, mark.len() as int) =~= mark);
    lemma_marks_behind(mark, subject, 0);
    let k = text::skip_all(subject, mark, 0);
    lemma_marks_inside(subject, mark, 0);
    assert(s.skip(mark.len() + k) =~= subject.skip(k));
}

proof fn lemma_marks_inside(s: Seq<char>, mark: Seq<char>, i: int)
    requires
        0 <= i <= s.len(),
    ensures
        i <= text::skip_all(s, mark, i) <= s.len(),
    decreases s.len() - i,
{
    if mark.len() > 0 && text::occurs(s, mark, i) {
        lemma_marks_inside(s, mark, i + mark.len());
    }
}

proof fn lemma_marks_behind(mark: Seq<char>, s: Seq<char>, i: int)
    requires
        mark.len() > 0,
        0 <= i <= s.len(),
    ensures
        text::skip_all(mark + s, mark, mark.len() + i) == mark.len() + text::skip_all(s, mark, i),
    decreases s.len() - i,
{
    let t = mark + s;
    if i + mark.len() <= s.len() {
        assert(t.subrange(mark.len() + i, mark.len() + i + mark.len()) =~= s.subrange(
            i,
            i + mark.len(),
        ));
    }
    assert(text::occurs(t, mark, mark.len() + i) <==> text::occurs(s, mark, i));
    if text::occurs(s, mark, i) {
        lemma_marks_behind(mark, s, i + mark.len());
    }
}

/// Replies have the mark of a reply and what is forwarded has that of forwarding, before the subject
/// of the message.
pub proof fn answers_are_marked(
    c: ComposeModel,
    from: Seq<char>,
    cc: Seq<Seq<char>>,
    subject: Seq<char>,
)
    requires
        c.fields.len() == 6,
    ensures
        !text::occurs(subject, "Re: "@, 0) ==> compose::replying(c, from, subject).fields[3].value
            == "Re: "@ + text::trimmed(subject),
        !text::occurs(subject, "Re: "@, 0) ==> compose::replying_all(c, from, cc, subject).fields[3].value
            == "Re: "@ + text::trimmed(subject),
        !text::occurs(subject, "Fwd: "@, 0) ==> compose::forwarding(c, subject).fields[3].value
            == "Fwd: "@ + text::trimmed(subject),
        compose::replying(c, from, subject).fields[0].value == from,
        compose::replying_all(c, from, cc, subject).fields[0].value == from,
        compose::forwarding(c, subject).fields[0] == c.fields[0],
{
    reveal_strlit("Re: ");
    reveal_strlit("Fwd: ");
    subject_of_an_answer("Re: "@, subject);
    subject_of_an_answer("Fwd: "@, subject);
}

/// Whether the messages are the same but for the value of the field `i`.
pub open spec fn only_value_differs(c: ComposeModel, d: ComposeModel, i: int) -> bool {
    &&& c.fields.len() == d.fields.len()
    &&& 0 <= i < c.fields.len()
    &&& forall|k: int| 0 <= k < c.fields.len() && k != i ==> #[trigger] d.fields[k] == c.fields[k]
    &&& d.fields[i].label == c.fields[i].label
    &&& only_fields_differ(c, d)
}

/// Whether the messages are the same but for their fields.
pub open spec fn only_fields_differ(c: ComposeModel, d: ComposeModel) -> bool {
    &&& d.focus == c.focus
    &&& d.attachments == c.attachments
    &&& d.att_focus == c.att_focus
    &&& d.reply_to == c.reply_to
    &&& d.reply_all == c.reply_all
    &&& d.forward == c.forward
}

/// Whether the messages are the same but for what is edited.
pub open spec fn only_focus_differs(c: ComposeModel, d: ComposeModel) -> bool {
    &&& d.fields == c.fields
    &&& d.attachments == c.attachments
    &&& d.att_focus == c.att_focus
    &&& d.reply_to == c.reply_to
    &&& d.reply_all == c.reply_all
    &&& d.forward == c.forward
}

/// Whether the key is the one that saves and sends.
pub open spec fn is_save(key: Key) -> bool {
    key.control && key.code == KeyCode::Char('s')
}

/// A character is added to the end of the field that is edited, and the last one is taken from it by
/// the backspace key; nothing else changes, and nothing is done.
pub proof fn message_is_typed(c: ComposeModel, key: Key, ch: char)
    requires
        compose::compose_wf(c),
        c.focus < 6,
        !is_save(key),
    ensures
        key.code == KeyCode::Char(ch) ==> {
            let (d, action) = compose::compose_key(c, key);
            let i = c.focus as int;
            action is None && only_value_differs(c, d, i) && d.fields[i].value
                == c.fields[i].value.push(ch)
        },
        key.code == KeyCode::Backspace ==> {
            let (d, action) = compose::compose_key(c, key);
            let i = c.focus as int;
            &&& action is None && only_value_differs(c, d, i)
            &&& c.fields[i].value.len() > 0 ==> d.fields[i].value == c.fields[i].value.drop_last()
            &&& c.fields[i].value.len() == 0 ==> d.fields[i].value.len() == 0
        },
{
}

/// The enter key breaks a line in the body, adds the file whose path is given, and goes on to the
/// next field everywhere else.
pub proof fn enter_in_a_message(c: ComposeModel, key: Key)
    requires
        compose::compose_wf(c),
        key.code == KeyCode::Enter,
        c.focus < 6,
    ensures
        ({
            let (d, action) = compose::compose_key(c, key);
            &&& c.focus == 4 ==> action is None && only_value_differs(c, d, 4) && d.fields[4].value
                == c.fields[4].value.push('\n')
            &&& c.focus == 5 ==> d == c && action == if text::trimmed(c.fields[5].value).len() == 0 {
                None
            } else {
                Some(ActionModel::AddAttachment(text::trimmed(c.fields[5].value)))
            }
            &&& c.focus < 4 ==> action is None && only_focus_differs(c, d) && d.focus == c.focus + 1
        }),
{
    if c.attachments.len() == 0 {
        assert(compose::item_count(c) == 6);
        assert((c.focus + 1) % 6 == if c.focus == 5 {
            0
        } else {
            c.focus + 1
        });
    } else {
        assert(compose::item_count(c) == 7);
        assert((c.focus + 1) % 7 == c.focus + 1);
    }
}

/// The keys go down and up through the fields, and through the files where there are any, and round
/// from the last to the first.
pub proof fn ways_through_a_message(c: ComposeModel, key: Key)
    requires
        compose::compose_wf(c),
        c.focus < 6,
    ensures
        key.code == KeyCode::Tab || key.code == KeyCode::Down ==> {
            let (d, action) = compose::compose_key(c, key);
            &&& action is None && only_focus_differs(c, d)
            &&& c.focus < 5 ==> d.focus == c.focus + 1
            &&& c.focus == 5 && c.attachments.len() == 0 ==> d.focus == 0
            &&& c.focus == 5 && c.attachments.len() > 0 ==> d.focus == 6
        },
        key.code == KeyCode::Up ==> {
            let (d, action) = compose::compose_key(c, key);
            &&& action is None && only_focus_differs(c, d)
            &&& c.focus > 0 ==> d.focus == c.focus - 1
            &&& c.focus == 0 && c.attachments.len() == 0 ==> d.focus == 5
            &&& c.focus == 0 && c.attachments.len() > 0 ==> d.focus == 6
        },
{
    if c.attachments.len() == 0 {
        assert(compose::item_count(c) == 6);
        assert((c.focus + 1) % 6 == if c.focus == 5 {
            0
        } else {
            c.focus + 1
        });
    } else {
        assert(compose::item_count(c) == 7);
        assert((c.focus + 1) % 7 == c.focus + 1);
    }
}

/// Among the files the keys go left and right, the chosen one is taken out, and one leaves them up
/// and down.
pub proof fn keys_among_the_files(c: ComposeModel, key: Key)
    requires
        compose::compose_wf(c),
        c.focus == 6,
        0 < c.attachments.len() <= usize::MAX,
        !is_save(key),
    ensures
        ({
            let (d, action) = compose::compose_key(c, key);
            &&& d.fields == c.fields && d.attachments == c.attachments
            &&& key.code == KeyCode::Char('d') ==> d == c && action == Some(
                ActionModel::RemoveAttachment(c.att_focus),
            )
            &&& key.code == KeyCode::Left ==> action is None && d.att_focus == if c.att_focus > 0 {
                c.att_focus - 1
            } else {
                0
            }
            &&& key.code == KeyCode::Right ==> action is None && d.att_focus == if c.att_focus + 1
                < c.attachments.len() {
                c.att_focus + 1
            } else {
                c.att_focus as int
            }
            &&& key.code == KeyCode::Up ==> action is None && d.focus == 5
            &&& key.code == KeyCode::Down || key.code == KeyCode::Tab ==> action is None && d.focus
                == 0
        }),
{
}

/// Control and `s` send the message, unless it goes to nobody, which is an error; the escape key
/// gives it up and empties it.
pub proof fn message_is_sent_or_given_up(c: ComposeModel, key: Key, k: int)
    requires
        compose::compose_wf(c),
    ensures
        is_save(key) ==> {
            let (d, action) = compose::compose_key(c, key);
            &&& d == c
            &&& c.fields[0].value.len() > 0 ==> action == Some(ActionModel::Send)
            &&& c.fields[0].value.len() == 0 ==> action == Some(
                ActionModel::Error("收件人不能为空"@),
            )
        },
        key.code == KeyCode::Esc && c.focus < 6 ==> {
            let (d, action) = compose::compose_key(c, key);
            &&& action == Some(ActionModel::CancelCompose)
            &&& d.fields.len() == 6
            &&& 0 <= k < 6 ==> d.fields[k].value.len() == 0 && d.fields[k].label == c.fields[k].label
            &&& d.attachments.len() == 0
            &&& d.focus == 0 && d.att_focus == 0
            &&& d.reply_to is None && !d.reply_all && !d.forward
        },
{
}

/// A file that is taken out leaves the others in their order, and one of them chosen.
pub proof fn file_is_taken_out(c: ComposeModel, i: int)
    requires
        compose::compose_wf(c),
        0 <= i < c.attachments.len(),
    ensures
        ({
            let d = compose::without_attachment(c, i);
            &&& d.attachments == c.attachments.remove(i)
            &&& d.fields == c.fields
            &&& d.focus == c.focus
            &&& d.att_focus == 0 || d.att_focus < d.attachments.len()
            &&& c.att_focus < d.attachments.len() ==> d.att_focus == c.att_focus
        }),
{
}

/// What the account is that is stored: everything as it was entered in its own field, the ports as
/// the numbers that were entered or else the usual ones, the address as the name where no name was
/// entered, and the security that was chosen.
pub proof fn entered_account_is_stored(a: AppModel, selected: Option<usize>, now: u64)
    requires
        account_form::form_wf(a.account_form),
    ensures
        a.account_form.fields[0].value.len() > 0 ==> {
            let f = a.account_form.fields;
            let step = app::begun(a, Action::SaveAccount, selected, now).1;
            step matches StepModel::Ask(EffectModel::StoreAccount(n)) && {
                &&& n.email == f[0].value
                &&& f[1].value.len() > 0 ==> n.display_name == Some(f[1].value)
                &&& f[1].value.len() == 0 ==> n.display_name is None
                &&& n.config.imap_host == f[2].value
                &&& n.config.imap_port == match number::number_of(f[3].value, 10, 65535) {
                    Ok(p) => p,
                    Err(_) => 993,
                }
                &&& n.config.smtp_host == f[4].value
                &&& n.config.smtp_port == match number::number_of(f[5].value, 10, 65535) {
                    Ok(p) => p,
                    Err(_) => 465,
                }
                &&& f[6].value.len() > 0 ==> n.config.username == f[6].value
                &&& f[6].value.len() == 0 ==> n.config.username == f[0].value
                &&& n.config.password == f[7].value
                &&& a.account_form.security_idx == 0 ==> n.config.security == SecurityMode::Tls
                &&& a.account_form.security_idx == 1 ==> n.config.security
                    == SecurityMode::StartTls
                &&& a.account_form.security_idx == 2 ==> n.config.security
                    == SecurityMode::Unencrypted
            }
        },
        a.account_form.fields[0].value.len() == 0 ==> app::begun(
            a,
            Action::SaveAccount,
            selected,
            now,
        ).1 is Next,
{
    let f = a.account_form.fields;
    reveal_strlit("tls");
    reveal_strlit("start_tls");
    reveal_strlit("none");
    assert("tls"@.len() == 3 && "start_tls"@.len() == 9 && "none"@.len() == 4);
    lemma_port(f[3].value);
    lemma_port(f[5].value);
}

proof fn lemma_port(s: Seq<char>)
    ensures
        number::number_of(s, 10, 65535) matches Ok(p) ==> 0 <= p <= 65535,
{
    lemma_digits(s, 0, 0);
    if s.len() > 1 && s[0] == '+' {
        lemma_digits(s, 1, 0);
    }
}

proof fn lemma_digits(s: Seq<char>, i: int, acc: int)
    requires
        0 <= acc <= 65535,
        0 <= i,
    ensures
        number::digits_from(s, 10, 65535, i, acc) matches Ok(p) ==> 0 <= p <= 65535,
    decreases s.len() - i,
{
    if i < s.len() {
        if let Some(d) = number::digit_value(s[i], 10) {
            if acc * 10 + d <= 65535 {
                lemma_digits(s, i + 1, acc * 10 + d);
            }
        }
    }
}

/// A port that is entered as a number is stored as that number.
pub proof fn entered_port_is_stored(n: u16, other: u16)
    ensures
        account_form::port_or(number::decimal(n as nat), other) == n,
{
    number::decimal_reads_back(n as nat, 65535);
}

proof fn lemma_domains()
    ensures
        "qq.com"@.len() == 6,
        "foxmail.com"@.len() == 11,
        "gmail.com"@.len() == 9,
        "googlemail.com"@.len() == 14,
        "outlook.com"@.len() == 11,
        "hotmail.com"@.len() == 11,
        "live.com"@.len() == 8,
        "163.com"@.len() == 7,
        "126.com"@.len() == 7,
        "yeah.net"@.len() == 8,
        "sina.com"@.len() == 8,
        "sohu.com"@.len() == 8,
        "aliyun.com"@.len() == 10,
        "icloud.com"@.len() == 10,
        "me.com"@.len() == 6,
        "yandex.com"@.len() == 10,
        "zoho.com"@.len() == 8,
        "protonmail.com"@.len() == 14,
        "qq.com"@[0] == 'q',
        "me.com"@[0] == 'm',
        "foxmail.com"@[0] == 'f',
        "outlook.com"@[0] == 'o',
        "hotmail.com"@[0] == 'h',
        "googlemail.com"@[0] == 'g',
        "protonmail.com"@[0] == 'p',
        "live.com"@[3] == 'e',
        "yeah.net"@[3] == 'h',
        "sina.com"@[3] == 'a',
        "sohu.com"@[3] == 'u',
        "zoho.com"@[3] == 'o',
        "163.com"@[1] == '6',
        "126.com"@[1] == '2',
        "aliyun.com"@[0] == 'a',
        "icloud.com"@[0] == 'i',
        "yandex.com"@[0] == 'y',
{
    reveal_strlit("qq.com");
    reveal_strlit("foxmail.com");
    reveal_strlit("gmail.com");
    reveal_strlit("googlemail.com");
    reveal_strlit("outlook.com");
    reveal_strlit("hotmail.com");
    reveal_strlit("live.com");
    reveal_strlit("163.com");
    reveal_strlit("126.com");
    reveal_strlit("yeah.net");
    reveal_strlit("sina.com");
    reveal_strlit("sohu.com");
    reveal_strlit("aliyun.com");
    reveal_strlit("icloud.com");
    reveal_strlit("me.com");
    reveal_strlit("yandex.com");
    reveal_strlit("zoho.com");
    reveal_strlit("protonmail.com");
}

/// Whether these are the servers, the ports and the security of a provider.
pub open spec fn has_servers(
    domain: Seq<char>,
    imap_host: Seq<char>,
    imap_port: u16,
    smtp_host: Seq<char>,
    smtp_port: u16,
    security_idx: usize,
) -> bool {
    account_form::provider_of(domain) matches Some(p) && p.imap_host == imap_host && p.imap_port
        == imap_port && p.smtp_host == smtp_host && p.smtp_port == smtp_port
        && account_form::security_number(p.security) == security_idx
}

/// The servers of the providers that are known, by domain: those of Chinese providers and a few
/// others by TLS, those that ask for it by STARTTLS, and a bridge on the machine itself.
#[verifier::rlimit(60)]
pub proof fn providers_have_their_servers()
    ensures
        has_servers("qq.com"@, "imap.qq.com"@, 993, "smtp.qq.com"@, 465, 0),
        has_servers("foxmail.com"@, "imap.qq.com"@, 993, "smtp.qq.com"@, 465, 0),
        has_servers("gmail.com"@, "imap.gmail.com"@, 993, "smtp.gmail.com"@, 587, 1),
        has_servers("googlemail.com"@, "imap.gmail.com"@, 993, "smtp.gmail.com"@, 587, 1),
        has_servers("outlook.com"@, "outlook.office365.com"@, 993, "smtp.office365.com"@, 587, 1),
        has_servers("hotmail.com"@, "outlook.office365.com"@, 993, "smtp.office365.com"@, 587, 1),
        has_servers("live.com"@, "outlook.office365.com"@, 993, "smtp.office365.com"@, 587, 1),
        has_servers("163.com"@, "imap.163.com"@, 993, "smtp.163.com"@, 465, 0),
        has_servers("126.com"@, "imap.126.com"@, 993, "smtp.126.com"@, 465, 0),
        has_servers("yeah.net"@, "imap.yeah.net"@, 993, "smtp.yeah.net"@, 465, 0),
        has_servers("sina.com"@, "imap.sina.com"@, 993, "smtp.sina.com"@, 465, 0),
        has_servers("sohu.com"@, "imap.sohu.com"@, 993, "smtp.sohu.com"@, 465, 0),
        has_servers("aliyun.com"@, "imap.aliyun.com"@, 993, "smtp.aliyun.com"@, 465, 0),
        has_servers("icloud.com"@, "imap.mail.me.com"@, 993, "smtp.mail.me.com"@, 587, 1),
        has_servers("me.com"@, "imap.mail.me.com"@, 993, "smtp.mail.me.com"@, 587, 1),
        has_servers("yandex.com"@, "imap.yandex.com"@, 993, "smtp.yandex.com"@, 465, 0),
        has_servers("zoho.com"@, "imap.zoho.com"@, 993, "smtp.zoho.com"@, 465, 0),
        has_servers("protonmail.com"@, "127.0.0.1"@, 1143, "127.0.0.1"@, 1025, 2),
{
    lemma_domains();
    reveal_strlit("tls");
    reveal_strlit("start_tls");
    reveal_strlit("none");
    assert("tls"@.len() == 3 && "start_tls"@.len() == 9 && "none"@.len() == 4);
    reveal_with_fuel(account_form::provider_from, 20);
}

/// Only a domain that is known has a provider.
pub proof fn other_domains_have_none(domain: Seq<char>)
    requires
        domain != "qq.com"@,
        domain != "foxmail.com"@,
        domain != "gmail.com"@,
        domain != "googlemail.com"@,
        domain != "outlook.com"@,
        domain != "hotmail.com"@,
        domain != "live.com"@,
        domain != "163.com"@,
        domain != "126.com"@,
        domain != "yeah.net"@,
        domain != "sina.com"@,
        domain != "sohu.com"@,
        domain != "aliyun.com"@,
        domain != "icloud.com"@,
        domain != "me.com"@,
        domain != "yandex.com"@,
        domain != "zoho.com"@,
        domain != "protonmail.com"@,
    ensures
        account_form::provider_of(domain) is None,
{
    reveal_with_fuel(account_form::provider_from, 20);
}

/// The domain of an address is what stands behind its at sign, in lower case.
pub proof fn domain_stands_behind_the_at_sign(name: Seq<char>, domain: Seq<char>)
    requires
        !name.contains('@'),
        !domain.contains('@'),
    ensures
        account_form::domain_of(name + seq!['@'] + domain) == text::lowercase(domain),
{
    let sep = Sep::Char('@');
    assert(text::unparted(name, sep));
    assert(text::unparted(domain, sep));
    assert(name + seq!['@'] + domain =~= name.push('@') + domain);
    text::pieces_of_more(name, '@', domain, sep);
    text::pieces_of_one(domain, sep);
}

/// An address of a provider that is known fills in the servers, the ports and the security of that
/// provider, and the address as the name where none was entered; an address of any other fills in
/// nothing.
pub proof fn known_servers_are_filled_in(f: FormModel, p: account_form::ProviderModel, k: int)
    requires
        account_form::form_wf(f),
    ensures
        account_form::provider_of(account_form::domain_of(f.fields[0].value)) == Some(p) ==> {
            let g = account_form::auto_filled(f);
            &&& g.fields.len() == 8
            &&& g.fields[2].value == p.imap_host
            &&& g.fields[3].value == number::decimal(p.imap_port as nat)
            &&& g.fields[4].value == p.smtp_host
            &&& g.fields[5].value == number::decimal(p.smtp_port as nat)
            &&& 2 <= k <= 5 ==> g.fields[k].auto_filled
            &&& g.security_idx == account_form::security_number(p.security)
            &&& f.fields[6].value.len() == 0 ==> g.fields[6].value == f.fields[0].value
            &&& f.fields[6].value.len() > 0 ==> g.fields[6].value == f.fields[6].value
            &&& g.fields[0] == f.fields[0] && g.fields[1] == f.fields[1] && g.fields[7]
                == f.fields[7]
            &&& g.focus == f.focus
        },
        account_form::provider_of(account_form::domain_of(f.fields[0].value)) is None
            ==> account_form::auto_filled(f) == f,
{
}

/// Whether the forms are the same but for the value of the field `i`.
pub open spec fn only_entry_differs(f: FormModel, g: FormModel, i: int) -> bool {
    &&& g.fields.len() == f.fields.len()
    &&& 0 <= i < f.fields.len()
    &&& forall|k: int| 0 <= k < f.fields.len() && k != i ==> #[trigger] g.fields[k] == f.fields[k]
    &&& g.fields[i].label == f.fields[i].label
    &&& g.fields[i].is_password == f.fields[i].is_password
    &&& g.focus == f.focus && g.security_idx == f.security_idx
}

/// A character is added to the end of the field of the form that is edited, and the last one is taken
/// from it by the backspace key; what was typed is not filled in any more.
pub proof fn form_is_typed(f: FormModel, key: Key, ch: char)
    requires
        account_form::form_wf(f),
        f.focus < 8,
        !is_save(key),
    ensures
        key.code == KeyCode::Char(ch) ==> {
            let (g, action) = account_form::form_key(f, key);
            let i = f.focus as int;
            action is None && only_entry_differs(f, g, i) && g.fields[i].value
                == f.fields[i].value.push(ch) && !g.fields[i].auto_filled
        },
        key.code == KeyCode::Backspace ==> {
            let (g, action) = account_form::form_key(f, key);
            let i = f.focus as int;
            &&& action is None && only_entry_differs(f, g, i) && !g.fields[i].auto_filled
            &&& f.fields[i].value.len() > 0 ==> g.fields[i].value == f.fields[i].value.drop_last()
            &&& f.fields[i].value.len() == 0 ==> g.fields[i].value.len() == 0
        },
{
}

/// The keys go through the fields of the form and the security, which the enter key changes; to leave
/// an address that was entered fills in its provider.
pub proof fn ways_through_the_form(f: FormModel, key: Key)
    requires
        account_form::form_wf(f),
    ensures
        ({
            let (g, action) = account_form::form_key(f, key);
            let down = key.code == KeyCode::Tab || key.code == KeyCode::Down || key.code
                == KeyCode::Enter && f.focus < 8;
            let filled = account_form::auto_filled(f);
            &&& down ==> action is None && g.focus == if f.focus == 8 {
                0
            } else {
                f.focus + 1
            }
            &&& key.code == KeyCode::Up ==> action is None && g.focus == if f.focus == 0 {
                0
            } else {
                f.focus - 1
            }
            &&& (down || key.code == KeyCode::Up) && f.focus == 0 && f.fields[0].value.len() > 0
                ==> g.fields == filled.fields && g.security_idx == filled.security_idx
            &&& (down || key.code == KeyCode::Up) && (f.focus > 0 || f.fields[0].value.len() == 0)
                ==> g.fields == f.fields && g.security_idx == f.security_idx
            &&& key.code == KeyCode::Enter && f.focus == 8 ==> action is None && g.fields == f.fields
                && g.focus == 8 && g.security_idx == if f.security_idx == 2 {
                0
            } else {
                f.security_idx + 1
            }
        }),
{
}

/// Control and `s` save the account, unless it has no address, which is an error; the escape key
/// empties the form and leads back.
pub proof fn form_is_saved_or_given_up(f: FormModel, key: Key, k: int)
    requires
        account_form::form_wf(f),
    ensures
        is_save(key) ==> {
            let (g, action) = account_form::form_key(f, key);
            &&& g == f
            &&& f.fields[0].value.len() > 0 ==> action == Some(ActionModel::SaveAccount)
            &&& f.fields[0].value.len() == 0 ==> action == Some(
                ActionModel::Error("邮箱不能为空"@),
            )
        },
        key.code == KeyCode::Esc ==> {
            let (g, action) = account_form::form_key(f, key);
            &&& action == Some(ActionModel::Back)
            &&& g.fields.len() == 8
            &&& 0 <= k < 8 ==> g.fields[k].value.len() == 0 && g.fields[k].label == f.fields[k].label
                && g.fields[k].is_password == f.fields[k].is_password
            &&& g.focus == 0 && g.security_idx == 0
        },
{
}

/// A password is never shown: only bullets are, and any other value is shown as it is.
pub proof fn password_is_not_shown(f: FieldModel, k: int)
    ensures
        f.is_password && 0 <= k < account_form::shown_value(f).len() ==> account_form::shown_value(
            f,
        )[k] == '•',
        !f.is_password ==> account_form::shown_value(f) == f.value,
{
}

/// The fields of an empty form and of an empty message stand in the order in which they are used, and
/// the password alone is hidden.
pub proof fn fields_have_their_labels()
    ensures
        ({
            let f = account_form::empty_form().fields;
            &&& f.len() == 8
            &&& f[0].label == "邮箱"@ && f[1].label == "显示名称"@
            &&& f[2].label == "IMAP 主机"@ && f[3].label == "IMAP 端口"@
            &&& f[4].label == "SMTP 主机"@ && f[5].label == "SMTP 端口"@
            &&& f[6].label == "用户名"@ && f[7].label == "密码"@
            &&& f[7].is_password
            &&& forall|i: int| 0 <= i < 7 ==> !(#[trigger] f[i]).is_password
        }),
        ({
            let f = compose::empty_compose().fields;
            &&& f.len() == 6
            &&& f[0].label == "收件人"@ && f[1].label == "抄送"@ && f[2].label == "密送"@
            &&& f[3].label == "主题"@ && f[4].label == "正文"@ && f[5].label == "附件路径"@
        }),
{
}

} // verus!
