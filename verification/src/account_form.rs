//! The form for a new account.

use vstd::prelude::*;
use vstd::string::*;

use crate::action::{Action, ActionModel};
use crate::header;
use crate::keys::{Key, KeyCode};
use crate::number;
use crate::number::{decimal_text, read_u16_or};
use crate::text;
use crate::text::{
    concat, left_align, pop_char, push_char, repeat, same, split, to_chars, to_lowercase, to_text, Sep,
};
use crate::ui;
use crate::ui::{
    bold, draw_line, draw_list, ink, ink_on, item, line, line_of, plain, span, split_down, Area, Drawn,
    DrawnModel, Ink, Item, ItemModel, Line, LineModel, Room, Span, SpanModel, Tint,
};

verus! {

broadcast use {
    vstd::string::group_string_axioms,
    text::views_push,
    text::views_empty,
};

/// The servers of a mail provider; `T` is text.
#[derive(Clone, Debug, PartialEq, Eq)]
pub struct ProviderInfo<T = &'static str> {
    /// What stands behind the at sign of its addresses.
    pub domain: T,
    pub imap_host: T,
    pub imap_port: u16,
    pub smtp_host: T,
    pub smtp_port: u16,
    /// `tls`, `start_tls` or `none`.
    pub security: T,
}

/// The model of a provider.
pub type ProviderModel = ProviderInfo<Seq<char>>;

impl View for ProviderInfo<&'static str> {
    type V = ProviderModel;

    open spec fn view(&self) -> ProviderModel {
        ProviderInfo {
            domain: self.domain@,
            imap_host: self.imap_host@,
            imap_port: self.imap_port,
            smtp_host: self.smtp_host@,
            smtp_port: self.smtp_port,
            security: self.security@,
        }
    }
}

/// The provider with these servers.
pub open spec fn provider(
    domain: Seq<char>,
    imap_host: Seq<char>,
    imap_port: u16,
    smtp_host: Seq<char>,
    smtp_port: u16,
    security: Seq<char>,
) -> ProviderModel {
    ProviderInfo { domain, imap_host, imap_port, smtp_host, smtp_port, security }
}

fn make_provider(
    domain: &'static str,
    imap_host: &'static str,
    imap_port: u16,
    smtp_host: &'static str,
    smtp_port: u16,
    security: &'static str,
) -> (r: ProviderInfo)
    ensures
        r@ == provider(domain@, imap_host@, imap_port, smtp_host@, smtp_port, security@),
{
    ProviderInfo { domain, imap_host, imap_port, smtp_host, smtp_port, security }
}

/// The providers that are known.
pub open spec fn known_providers() -> Seq<ProviderModel> {
    seq![
        provider("qq.com"@, "imap.qq.com"@, 993, "smtp.qq.com"@, 465, "tls"@),
        provider("foxmail.com"@, "imap.qq.com"@, 993, "smtp.qq.com"@, 465, "tls"@),
        provider("gmail.com"@, "imap.gmail.com"@, 993, "smtp.gmail.com"@, 587, "start_tls"@),
        provider("googlemail.com"@, "imap.gmail.com"@, 993, "smtp.gmail.com"@, 587, "start_tls"@),
        provider("outlook.com"@, "outlook.office365.com"@, 993, "smtp.office365.com"@, 587, "start_tls"@),
        provider("hotmail.com"@, "outlook.office365.com"@, 993, "smtp.office365.com"@, 587, "start_tls"@),
        provider("live.com"@, "outlook.office365.com"@, 993, "smtp.office365.com"@, 587, "start_tls"@),
        provider("163.com"@, "imap.163.com"@, 993, "smtp.163.com"@, 465, "tls"@),
        provider("126.com"@, "imap.126.com"@, 993, "smtp.126.com"@, 465, "tls"@),
        provider("yeah.net"@, "imap.yeah.net"@, 993, "smtp.yeah.net"@, 465, "tls"@),
        provider("sina.com"@, "imap.sina.com"@, 993, "smtp.sina.com"@, 465, "tls"@),
        provider("sohu.com"@, "imap.sohu.com"@, 993, "smtp.sohu.com"@, 465, "tls"@),
        provider("aliyun.com"@, "imap.aliyun.com"@, 993, "smtp.aliyun.com"@, 465, "tls"@),
        provider("icloud.com"@, "imap.mail.me.com"@, 993, "smtp.mail.me.com"@, 587, "start_tls"@),
        provider("me.com"@, "imap.mail.me.com"@, 993, "smtp.mail.me.com"@, 587, "start_tls"@),
        provider("yandex.com"@, "imap.yandex.com"@, 993, "smtp.yandex.com"@, 465, "tls"@),
        provider("zoho.com"@, "imap.zoho.com"@, 993, "smtp.zoho.com"@, 465, "tls"@),
        provider("protonmail.com"@, "127.0.0.1"@, 1143, "127.0.0.1"@, 1025, "none"@),
    ]
}

/// The providers that are known, each with the domain of its addresses.
pub fn build_provider_map() -> (r: Vec<ProviderInfo>)
    ensures
        text::views(r@) == known_providers(),
{
    let mut m: Vec<ProviderInfo> = Vec::new();
    m.push(make_provider("qq.com", "imap.qq.com", 993, "smtp.qq.com", 465, "tls"));
    m.push(make_provider("foxmail.com", "imap.qq.com", 993, "smtp.qq.com", 465, "tls"));
    m.push(make_provider("gmail.com", "imap.gmail.com", 993, "smtp.gmail.com", 587, "start_tls"));
    m.push(make_provider("googlemail.com", "imap.gmail.com", 993, "smtp.gmail.com", 587, "start_tls"));
    m.push(make_provider("outlook.com", "outlook.office365.com", 993, "smtp.office365.com", 587, "start_tls"));
    m.push(make_provider("hotmail.com", "outlook.office365.com", 993, "smtp.office365.com", 587, "start_tls"));
    m.push(make_provider("live.com", "outlook.office365.com", 993, "smtp.office365.com", 587, "start_tls"));
    m.push(make_provider("163.com", "imap.163.com", 993, "smtp.163.com", 465, "tls"));
    m.push(make_provider("126.com", "imap.126.com", 993, "smtp.126.com", 465, "tls"));
    m.push(make_provider("yeah.net", "imap.yeah.net", 993, "smtp.yeah.net", 465, "tls"));
    m.push(make_provider("sina.com", "imap.sina.com", 993, "smtp.sina.com", 465, "tls"));
    m.push(make_provider("sohu.com", "imap.sohu.com", 993, "smtp.sohu.com", 465, "tls"));
    m.push(make_provider("aliyun.com", "imap.aliyun.com", 993, "smtp.aliyun.com", 465, "tls"));
    m.push(make_provider("icloud.com", "imap.mail.me.com", 993, "smtp.mail.me.com", 587, "start_tls"));
    m.push(make_provider("me.com", "imap.mail.me.com", 993, "smtp.mail.me.com", 587, "start_tls"));
    m.push(make_provider("yandex.com", "imap.yandex.com", 993, "smtp.yandex.com", 465, "tls"));
    m.push(make_provider("zoho.com", "imap.zoho.com", 993, "smtp.zoho.com", 465, "tls"));
    m.push(make_provider("protonmail.com", "127.0.0.1", 1143, "127.0.0.1", 1025, "none"));
    m
}

/// The first of the providers from `i` on with this domain.
pub open spec fn provider_from(list: Seq<ProviderModel>, domain: Seq<char>, i: int) -> Option<
    ProviderModel,
>
    decreases list.len() - i,
{
    if i < 0 || i >= list.len() {
        None
    } else if list[i].domain == domain {
        Some(list[i])
    } else {
        provider_from(list, domain, i + 1)
    }
}

/// The provider with this domain.
pub open spec fn provider_of(domain: Seq<char>) -> Option<ProviderModel> {
    provider_from(known_providers(), domain, 0)
}

/// The provider with this domain.
pub fn find_provider(domain: &str) -> (r: Option<ProviderInfo>)
    ensures
        text::opt_view(r) == provider_of(domain@),
{
    let list = build_provider_map();
    let ghost all = text::views(list@);
    let mut i: usize = 0;
    while i < list.len()
        invariant
            i <= list.len(),
            all == text::views(list@),
            all == known_providers(),
            provider_from(all, domain@, 0) == provider_from(all, domain@, i as int),
        decreases list.len() - i,
    {
        assert(all[i as int] == list[i as int]@);
        if same(list[i].domain, domain) {
            let p = &list[i];
            return Some(
                make_provider(
                    p.domain,
                    p.imap_host,
                    p.imap_port,
                    p.smtp_host,
                    p.smtp_port,
                    p.security,
                ),
            );
        }
        i += 1;
    }
    None
}

/// No domain is listed twice, so that each listed provider is the one found for its domain.
pub proof fn domains_differ(i: int, j: int)
    requires
        0 <= i < j < known_providers().len(),
    ensures
        known_providers()[i].domain != known_providers()[j].domain,
{
    reveal_strlit("qq.com");
    reveal_strlit("foxmail.com");
    reveal_strlit("gmail.com");
    reveal_strlit("googlemail.com");
    reveal_strlit("outlook.com");
    reveal_strlit("hotmail.com");
    reveal_strlit("live.com");
    reveal_strlit("163.com");
    reveal_strlit("126.com");
    reveal_strlit("yeah.net");
    reveal_strlit("sina.com");
    reveal_strlit("sohu.com");
    reveal_strlit("aliyun.com");
    reveal_strlit("icloud.com");
    reveal_strlit("me.com");
    reveal_strlit("yandex.com");
    reveal_strlit("zoho.com");
    reveal_strlit("protonmail.com");
    let list = known_providers();
    assert(list[i].domain.len() == list[j].domain.len() ==> list[i].domain[0] != list[j].domain[0]
        || list[i].domain[1] != list[j].domain[1]);
}

/// A field of the form; `L` is its label, `T` text.
#[derive(Clone, Debug, PartialEq, Eq)]
pub struct FormField<L = &'static str, T = String> {
    pub label: L,
    pub value: T,
    pub is_password: bool,
    /// Whether the value was filled in by the form.
    pub auto_filled: bool,
}

/// The model of a field.
pub type FieldModel = FormField<Seq<char>, Seq<char>>;

impl View for FormField<&'static str, String> {
    type V = FieldModel;

    open spec fn view(&self) -> FieldModel {
        FormField {
            label: self.label@,
            value: self.value@,
            is_password: self.is_password,
            auto_filled: self.auto_filled,
        }
    }
}

/// An empty field.
pub open spec fn empty_field(label: Seq<char>, is_password: bool) -> FieldModel {
    FormField { label, value: seq![], is_password, auto_filled: false }
}

/// What is shown of the field: a password as one bullet for each of its bytes.
pub open spec fn shown_value(f: FieldModel) -> Seq<char> {
    if f.is_password && f.value.len() > 0 {
        text::repeated('•', header::byte_len(f.value))
    } else {
        f.value
    }
}

impl FormField<&'static str, String> {
    /// An empty field.
    pub fn new(label: &'static str, is_password: bool) -> (r: Self)
        ensures
            r@ == empty_field(label@, is_password),
    {
        FormField { label, value: String::new(), is_password, auto_filled: false }
    }

    /// What is shown of the field.
    pub fn display(&self) -> (r: String)
        ensures
            r@ == shown_value(self@),
    {
        if self.is_password && !self.value.as_str().is_empty() {
            repeat('•', self.value.as_str().as_bytes().len())
        } else {
            self.value.clone()
        }
    }
}

/// What is entered in the form; `T` is text.
#[derive(Clone, Debug, PartialEq, Eq)]
pub struct AccountFormData<T = String> {
    pub email: T,
    pub display_name: T,
    pub imap_host: T,
    pub imap_port: u16,
    pub smtp_host: T,
    pub smtp_port: u16,
    pub username: T,
    pub password: T,
    pub security: T,
}

/// The model of what is entered in the form.
pub type DataModel = AccountFormData<Seq<char>>;

impl View for AccountFormData<String> {
    type V = DataModel;

    open spec fn view(&self) -> DataModel {
        AccountFormData {
            email: self.email@,
            display_name: self.display_name@,
            imap_host: self.imap_host@,
            imap_port: self.imap_port,
            smtp_host: self.smtp_host@,
            smtp_port: self.smtp_port,
            username: self.username@,
            password: self.password@,
            security: self.security@,
        }
    }
}

/// The form; `F` is a list of fields.
#[derive(Clone, Debug, PartialEq, Eq)]
pub struct AccountForm<F = Vec<FormField>> {
    /// Address, name, IMAP host and port, SMTP host and port, user name, password.
    pub fields: F,
    /// The field that is edited; the number behind the last one is the security.
    pub focus: usize,
    /// The security: TLS, STARTTLS or none.
    pub security_idx: usize,
}

/// The model of the form.
pub type FormModel = AccountForm<Seq<FieldModel>>;

impl View for AccountForm<Vec<FormField>> {
    type V = FormModel;

    open spec fn view(&self) -> FormModel {
        AccountForm {
            fields: text::views(self.fields@),
            focus: self.focus,
            security_idx: self.security_idx,
        }
    }
}

/// Whether the form has its eight fields, and what is edited is one of them or the security.
pub open spec fn form_wf(f: FormModel) -> bool {
    f.fields.len() == 8 && f.focus <= 8 && f.security_idx < 3
}

/// The empty form.
pub open spec fn empty_form() -> FormModel {
    AccountForm {
        fields: seq![
            empty_field("邮箱"@, false),
            empty_field("显示名称"@, false),
            empty_field("IMAP 主机"@, false),
            empty_field("IMAP 端口"@, false),
            empty_field("SMTP 主机"@, false),
            empty_field("SMTP 端口"@, false),
            empty_field("用户名"@, false),
            empty_field("密码"@, true),
        ],
        focus: 0,
        security_idx: 0,
    }
}

/// The form with this value in a field.
pub open spec fn with_value(f: FormModel, i: int, value: Seq<char>, auto: bool) -> FormModel {
    AccountForm {
        fields: f.fields.update(i, FormField { value, auto_filled: auto, ..f.fields[i] }),
        ..f
    }
}

/// The domain of an address: what stands between the first at sign and the next, in lower case.
pub open spec fn domain_of(email: Seq<char>) -> Seq<char> {
    let parts = text::pieces(email, Sep::Char('@'));
    text::lowercase(
        if parts.len() > 1 {
            parts[1]
        } else {
            seq![]
        },
    )
}

fn read_domain(email: &str) -> (r: String)
    ensures
        r@ == domain_of(email@),
{
    let parts = split(&to_chars(email), Sep::Char('@'));
    if parts.len() > 1 {
        assert(text::views(parts@)[1] == parts[1]@);
        to_lowercase(to_text(&parts[1]).as_str())
    } else {
        let none = String::new();
        assert(none@ =~= seq![]);
        to_lowercase(none.as_str())
    }
}

/// The number of a security in the form.
pub open spec fn security_number(security: Seq<char>) -> usize {
    if security == "start_tls"@ {
        1
    } else if security == "none"@ {
        2
    } else {
        0
    }
}

/// The form with the servers of the provider of the address, if it is known. The address also
/// becomes the user name where there is none.
pub open spec fn auto_filled(f: FormModel) -> FormModel {
    match provider_of(domain_of(f.fields[0].value)) {
        None => f,
        Some(p) => {
            let a = with_value(f, 2, p.imap_host, true);
            let b = with_value(a, 3, number::decimal(p.imap_port as nat), true);
            let c = with_value(b, 4, p.smtp_host, true);
            let d = with_value(c, 5, number::decimal(p.smtp_port as nat), true);
            let e = if f.fields[6].value.len() == 0 {
                with_value(d, 6, f.fields[0].value, f.fields[6].auto_filled)
            } else {
                d
            };
            AccountForm { security_idx: security_number(p.security), ..e }
        },
    }
}

/// The notation of a security's number.
pub open spec fn security_name(idx: usize) -> Seq<char> {
    if idx == 1 {
        "start_tls"@
    } else if idx == 2 {
        "none"@
    } else {
        "tls"@
    }
}

/// The number that the text is, or else the other one.
pub open spec fn port_or(s: Seq<char>, other: u16) -> u16 {
    match number::number_of(s, 10, 65535) {
        Ok(n) => n as u16,
        Err(_) => other,
    }
}

/// What is entered in the form, if there is an address.
pub open spec fn form_data(f: FormModel) -> Option<DataModel> {
    if f.fields[0].value.len() == 0 {
        None
    } else {
        Some(
            AccountFormData {
                email: f.fields[0].value,
                display_name: f.fields[1].value,
                imap_host: f.fields[2].value,
                imap_port: port_or(f.fields[3].value, 993),
                smtp_host: f.fields[4].value,
                smtp_port: port_or(f.fields[5].value, 465),
                username: if f.fields[6].value.len() == 0 {
                    f.fields[0].value
                } else {
                    f.fields[6].value
                },
                password: f.fields[7].value,
                security: security_name(f.security_idx),
            },
        )
    }
}

/// The form with its fields empty.
pub open spec fn cleared(f: FormModel) -> FormModel {
    AccountForm {
        fields: f.fields.map_values(
            |x: FieldModel| FormField { value: seq![], auto_filled: false, ..x },
        ),
        focus: 0,
        security_idx: 0,
    }
}

/// The form once the address field is left: filled in where there is an address.
pub open spec fn left_from(f: FormModel, focus: usize) -> FormModel {
    if focus == 0 && f.fields[0].value.len() > 0 {
        auto_filled(f)
    } else {
        f
    }
}

/// The form after a key, and what the client is told to do.
pub open spec fn form_key(f: FormModel, key: Key) -> (FormModel, Option<ActionModel>) {
    if key.control && key.code == KeyCode::Char('s') {
        if f.fields[0].value.len() == 0 {
            (f, Some(Action::Error("邮箱不能为空"@)))
        } else {
            (f, Some(Action::SaveAccount))
        }
    } else {
        match key.code {
            KeyCode::Tab | KeyCode::Down => (
                left_from(AccountForm { focus: ((f.focus + 1) % 9) as usize, ..f }, f.focus),
                None,
            ),
            KeyCode::Up => (
                left_from(
                    AccountForm {
                        focus: if f.focus == 0 {
                            0
                        } else {
                            (f.focus - 1) as usize
                        },
                        ..f
                    },
                    f.focus,
                ),
                None,
            ),
            KeyCode::Enter => (
                if f.focus == 8 {
                    AccountForm { security_idx: ((f.security_idx + 1) % 3) as usize, ..f }
                } else {
                    left_from(AccountForm { focus: ((f.focus + 1) % 9) as usize, ..f }, f.focus)
                },
                None,
            ),
            KeyCode::Char(c) => (
                if f.focus < 8 {
                    with_value(f, f.focus as int, f.fields[f.focus as int].value.push(c), false)
                } else {
                    f
                },
                None,
            ),
            KeyCode::Backspace => (
                if f.focus < 8 {
                    let old = f.fields[f.focus as int].value;
                    with_value(
                        f,
                        f.focus as int,
                        if old.len() == 0 {
                            old
                        } else {
                            old.drop_last()
                        },
                        false,
                    )
                } else {
                    f
                },
                None,
            ),
            KeyCode::Esc => (cleared(f), Some(Action::Back)),
            _ => (f, None),
        }
    }
}

impl AccountForm<Vec<FormField>> {
    /// The empty form.
    pub fn new() -> (r: Self)
        ensures
            r@ == empty_form(),
            form_wf(r@),
    {
        let mut fields: Vec<FormField> = Vec::new();
        fields.push(FormField::new("邮箱", false));
        fields.push(FormField::new("显示名称", false));
        fields.push(FormField::new("IMAP 主机", false));
        fields.push(FormField::new("IMAP 端口", false));
        fields.push(FormField::new("SMTP 主机", false));
        fields.push(FormField::new("SMTP 端口", false));
        fields.push(FormField::new("用户名", false));
        fields.push(FormField::new("密码", true));
        assert(text::views(fields@) =~= empty_form().fields);
        AccountForm { fields, focus: 0, security_idx: 0 }
    }

    fn set_value(&mut self, i: usize, value: String, auto: bool)
        requires
            i < old(self).fields.len(),
        ensures
            final(self)@ == with_value(old(self)@, i as int, value@, auto),
            final(self).fields.len() == old(self).fields.len(),
    {
        let ghost before = self@;
        let f = FormField {
            label: self.fields[i].label,
            value,
            is_password: self.fields[i].is_password,
            auto_filled: auto,
        };
        self.fields.set(i, f);
        assert(self@.fields =~= with_value(before, i as int, value@, auto).fields);
    }

    /// Fills in the servers of the provider of the address, if it is known.
    pub fn auto_fill(&mut self)
        requires
            form_wf(old(self)@),
        ensures
            final(self)@ == auto_filled(old(self)@),
            form_wf(final(self)@),
    {
        assert(self@.fields[0].value == self.fields[0].value@);
        assert(self@.fields[6].value == self.fields[6].value@);
        assert(self@.fields[6].auto_filled == self.fields[6].auto_filled);
        let email = self.fields[0].value.clone();
        let had_name = !self.fields[6].value.as_str().is_empty();
        let auto_name = self.fields[6].auto_filled;
        match find_provider(read_domain(email.as_str()).as_str()) {
            None => {},
            Some(p) => {
                self.set_value(2, p.imap_host.to_owned(), true);
                self.set_value(3, decimal_text(p.imap_port as u64), true);
                self.set_value(4, p.smtp_host.to_owned(), true);
                self.set_value(5, decimal_text(p.smtp_port as u64), true);
                if !had_name {
                    self.set_value(6, email, auto_name);
                }
                self.security_idx = if same(p.security, "start_tls") {
                    1
                } else if same(p.security, "none") {
                    2
                } else {
                    0
                };
            },
        }
    }

    /// What is entered in the form, if there is an address.
    pub fn get_data(&self) -> (r: Option<AccountFormData>)
        requires
            form_wf(self@),
        ensures
            text::opt_view(r) == form_data(self@),
    {
        proof {
            assert forall|i: int| 0 <= i < 8 implies #[trigger] self@.fields[i]
                == self.fields[i]@ by {}
        }
        if self.fields[0].value.as_str().is_empty() {
            return None;
        }
        Some(
            AccountFormData {
                email: self.fields[0].value.clone(),
                display_name: self.fields[1].value.clone(),
                imap_host: self.fields[2].value.clone(),
                imap_port: read_u16_or(self.fields[3].value.as_str(), 993),
                smtp_host: self.fields[4].value.clone(),
                smtp_port: read_u16_or(self.fields[5].value.as_str(), 465),
                username: if self.fields[6].value.as_str().is_empty() {
                    self.fields[0].value.clone()
                } else {
                    self.fields[6].value.clone()
                },
                password: self.fields[7].value.clone(),
                security: if self.security_idx == 1 {
                    "start_tls".to_owned()
                } else if self.security_idx == 2 {
                    "none".to_owned()
                } else {
                    "tls".to_owned()
                },
            },
        )
    }

    fn reset(&mut self)
        ensures
            final(self)@ == cleared(old(self)@),
    {
        let ghost before = self@.fields;
        let mut i: usize = 0;
        while i < self.fields.len()
            invariant
                i <= self.fields.len(),
                self@.fields.len() == before.len(),
                forall|j: int|
                    i <= j < self.fields.len() ==> (#[trigger] self@.fields[j]) == before[j],
                forall|j: int|
                    0 <= j < i ==> (#[trigger] self@.fields[j]) == (FormField {
                        value: Seq::<char>::empty(),
                        auto_filled: false,
                        ..before[j]
                    }),
            decreases self.fields.len() - i,
        {
            assert(self@.fields[i as int] == before[i as int]);
            self.set_value(i, String::new(), false);
            i += 1;
        }
        self.focus = 0;
        self.security_idx = 0;
        assert(self@.fields =~= before.map_values(
            |x: FieldModel| FormField { value: seq![], auto_filled: false, ..x },
        ));
    }

    fn leave(&mut self, focus: usize)
        requires
            form_wf(old(self)@),
        ensures
            final(self)@ == left_from(old(self)@, focus),
            form_wf(final(self)@),
    {
        assert(self@.fields[0].value == self.fields[0].value@);
        if focus == 0 && !self.fields[0].value.as_str().is_empty() {
            self.auto_fill();
        }
    }

    /// Takes a key.
    pub fn handle_key_event(&mut self, key: Key) -> (r: Option<Action>)
        requires
            form_wf(old(self)@),
        ensures
            (final(self)@, text::opt_view(r)) == form_key(old(self)@, key),
            form_wf(final(self)@),
    {
        assert(self@.fields[0].value == self.fields[0].value@);
        if key.control && key.code == KeyCode::Char('s') {
            if self.fields[0].value.as_str().is_empty() {
                return Some(Action::Error("邮箱不能为空".to_owned()));
            }
            return Some(Action::SaveAccount);
        }
        let prev: usize = self.focus;
        match key.code {
            KeyCode::Tab | KeyCode::Down => {
                self.focus = (prev + 1) % 9;
                self.leave(prev);
            },
            KeyCode::Up => {
                self.focus = if prev == 0 {
                    0
                } else {
                    prev - 1
                };
                self.leave(prev);
            },
            KeyCode::Enter => {
                if prev == 8 {
                    self.security_idx = (self.security_idx + 1) % 3;
                } else {
                    self.focus = (prev + 1) % 9;
                    self.leave(prev);
                }
            },
            KeyCode::Char(c) => {
                if prev < 8 {
                    assert(self@.fields[prev as int] == self.fields[prev as int]@);
                    let mut value = self.fields[prev].value.clone();
                    push_char(&mut value, c);
                    self.set_value(prev, value, false);
                }
            },
            KeyCode::Backspace => {
                if prev < 8 {
                    assert(self@.fields[prev as int] == self.fields[prev as int]@);
                    let mut value = self.fields[prev].value.clone();
                    pop_char(&mut value);
                    self.set_value(prev, value, false);
                }
            },
            KeyCode::Esc => {
                self.reset();
                return Some(Action::Back);
            },
            _ => {},
        }
        None
    }
}

/// The servers of a known provider that are filled in come out of the form as they are, whatever
/// ports and names were there before.
pub proof fn filled_in_comes_out(f: FormModel)
    requires
        form_wf(f),
        f.fields[0].value.len() > 0,
        provider_of(domain_of(f.fields[0].value)) is Some,
    ensures
        form_data(auto_filled(f)) matches Some(d) && {
            let p = provider_of(domain_of(f.fields[0].value))->Some_0;
            &&& d.email == f.fields[0].value
            &&& d.imap_host == p.imap_host
            &&& d.imap_port == p.imap_port
            &&& d.smtp_host == p.smtp_host
            &&& d.smtp_port == p.smtp_port
            &&& d.username == if f.fields[6].value.len() == 0 {
                f.fields[0].value
            } else {
                f.fields[6].value
            }
            &&& d.security == security_name(security_number(p.security))
        },
{
    let p = provider_of(domain_of(f.fields[0].value))->Some_0;
    number::decimal_reads_back(p.imap_port as nat, 65535);
    number::decimal_reads_back(p.smtp_port as nat, 65535);
}

/// A key leaves the form with its eight fields and something to edit.
pub proof fn key_keeps_form(f: FormModel, key: Key)
    requires
        form_wf(f),
    ensures
        form_wf(form_key(f, key).0),
{
}

/// What stands before a row of the form.
pub open spec fn marker(focused: bool) -> SpanModel {
    ui::dyed(
        if focused {
            "▸ "@
        } else {
            "  "@
        },
        ink(Tint::Cyan),
    )
}

/// What stands before a row of the form.
pub fn draw_marker(focused: bool) -> (r: Span)
    ensures
        r@ == marker(focused),
{
    span(
        if focused {
            "▸ "
        } else {
            "  "
        },
        ink(Tint::Cyan),
    )
}

/// The colour of what can be edited.
#[verifier::allow_in_spec]
pub fn value_ink(focused: bool) -> Ink
    returns
        (if focused {
            ink_on(Tint::White, Tint::DarkGray)
        } else {
            ink(Tint::White)
        }),
{
    if focused {
        ink_on(Tint::White, Tint::DarkGray)
    } else {
        ink(Tint::White)
    }
}

/// The row of a field.
pub open spec fn field_row(f: FieldModel, focused: bool) -> LineModel {
    let value = shown_value(f);
    seq![
        marker(focused),
        ui::dyed(" "@ + text::left_aligned(f.label, 12), ink(Tint::Cyan)),
        ui::dyed(
            if value.len() == 0 && !focused {
                " <输入"@ + f.label + ">"@
            } else if f.auto_filled && !focused {
                value + " (自动)"@
            } else {
                value
            },
            if f.auto_filled && !focused {
                ink(Tint::DarkGray)
            } else {
                value_ink(focused)
            },
        ),
    ]
}

fn draw_field(f: &FormField, focused: bool) -> (r: Line)
    ensures
        r@ == field_row(f@, focused),
{
    let value = f.display();
    let shown = if value.as_str().is_empty() && !focused {
        let mut s = concat(" <输入", f.label);
        s.append(">");
        s
    } else if f.auto_filled && !focused {
        concat(value.as_str(), " (自动)")
    } else {
        value
    };
    let colour = if f.auto_filled && !focused {
        ink(Tint::DarkGray)
    } else {
        value_ink(focused)
    };
    line_of(
        draw_marker(focused),
        span(concat(" ", left_align(f.label, 12).as_str()).as_str(), ink(Tint::Cyan)),
        span(shown.as_str(), colour),
    )
}

/// The name of a security in the form.
pub open spec fn security_option(idx: usize) -> Seq<char> {
    if idx == 0 {
        "TLS (993/465)"@
    } else if idx == 1 {
        "STARTTLS (143/587)"@
    } else {
        "无加密"@
    }
}

/// The row of the security.
pub open spec fn security_row(idx: usize, focused: bool) -> LineModel {
    seq![
        marker(focused),
        ui::dyed(" 安全模式  "@, ink(Tint::Cyan)),
        ui::dyed(security_option(idx), value_ink(focused)),
    ]
}

/// The rows of the form: its fields, then the security.
pub open spec fn form_rows(f: FormModel) -> Seq<ItemModel> {
    Seq::new(f.fields.len(), |i: int| seq![field_row(f.fields[i], i == f.focus)]).push(
        seq![security_row(f.security_idx, f.focus == f.fields.len())],
    )
}

/// What the keys of the form do.
pub open spec fn form_help() -> LineModel {
    seq![
        ui::dyed(" Tab/↑↓ "@, ink(Tint::DarkGray)),
        ui::dyed("切换  "@, plain()),
        ui::dyed(" Enter "@, ink(Tint::DarkGray)),
        ui::dyed("确认/下一项  "@, plain()),
        ui::dyed(" Ctrl+S "@, ink(Tint::DarkGray)),
        ui::dyed("保存  "@, plain()),
        ui::dyed(" Esc "@, ink(Tint::DarkGray)),
        ui::dyed("取消"@, plain()),
    ]
}

/// A line that names four keys and says what they do.
pub fn draw_keys(names: [&str; 4], uses: [&str; 4]) -> (r: Line)
    ensures
        r@ == seq![
            ui::dyed(names@[0]@, ink(Tint::DarkGray)),
            ui::dyed(uses@[0]@, plain()),
            ui::dyed(names@[1]@, ink(Tint::DarkGray)),
            ui::dyed(uses@[1]@, plain()),
            ui::dyed(names@[2]@, ink(Tint::DarkGray)),
            ui::dyed(uses@[2]@, plain()),
            ui::dyed(names@[3]@, ink(Tint::DarkGray)),
            ui::dyed(uses@[3]@, plain()),
        ],
{
    let mut spans: Vec<Span> = Vec::new();
    spans.push(span(names[0], ink(Tint::DarkGray)));
    spans.push(span(uses[0], plain()));
    spans.push(span(names[1], ink(Tint::DarkGray)));
    spans.push(span(uses[1], plain()));
    spans.push(span(names[2], ink(Tint::DarkGray)));
    spans.push(span(uses[2], plain()));
    spans.push(span(names[3], ink(Tint::DarkGray)));
    spans.push(span(uses[3], plain()));
    Line { spans }
}

/// The rooms of title, rows and help.
pub open spec fn form_rooms() -> Seq<Room> {
    seq![Room::Length(3), Room::Min(1), Room::Length(3)]
}

/// The form in three parts of the terminal: title, rows and help.
pub open spec fn form_drawn(f: FormModel, parts: Seq<Area>) -> Seq<DrawnModel> {
    seq![
        ui::lines_in(parts[0], seq![seq![ui::dyed(" ➕ 添加邮箱账户 "@, bold(Tint::Cyan))]]),
        ui::list_in(parts[1], form_rows(f), " 账户信息 "@),
        ui::lines_in(parts[2], seq![form_help()]),
    ]
}

impl AccountForm<Vec<FormField>> {
    /// Draws the form in three parts of the terminal.
    pub fn draw_in(&self, parts: &Vec<Area>) -> (r: Vec<Drawn>)
        requires
            form_wf(self@),
            parts.len() == 3,
        ensures
            text::views(r@) == form_drawn(self@, parts@),
    {
        let mut rows: Vec<Item> = Vec::new();
        let mut i: usize = 0;
        while i < self.fields.len()
            invariant
                i <= self.fields.len(),
                rows.len() == i,
                forall|j: int|
                    0 <= j < i ==> (#[trigger] rows[j])@ == seq![
                        field_row(self@.fields[j], j == self.focus),
                    ],
            decreases self.fields.len() - i,
        {
            rows.push(item(draw_field(&self.fields[i], i == self.focus)));
            i += 1;
        }
        let focused = self.focus == self.fields.len();
        let security = if self.security_idx == 0 {
            "TLS (993/465)"
        } else if self.security_idx == 1 {
            "STARTTLS (143/587)"
        } else {
            "无加密"
        };
        rows.push(
            item(
                line_of(
                    draw_marker(focused),
                    span(" 安全模式  ", ink(Tint::Cyan)),
                    span(security, value_ink(focused)),
                ),
            ),
        );
        assert(text::views(rows@) =~= form_rows(self@));
        let help = draw_keys(
            [" Tab/↑↓ ", " Enter ", " Ctrl+S ", " Esc "],
            ["切换  ", "确认/下一项  ", "保存  ", "取消"],
        );
        let mut out: Vec<Drawn> = Vec::new();
        out.push(draw_line(parts[0], line(" ➕ 添加邮箱账户 ", bold(Tint::Cyan))));
        out.push(draw_list(parts[1], rows, " 账户信息 "));
        out.push(draw_line(parts[2], help));
        out
    }

    /// Draws the form: the title above, the help below, and the rows between them.
    pub fn draw(&self, area: Area) -> (r: Vec<Drawn>)
        requires
            form_wf(self@),
        ensures
            exists|parts: Seq<Area>| #[trigger]
                ui::stacked(parts, area, form_rooms()) && text::views(r@) == form_drawn(
                    self@,
                    parts,
                ),
            ui::roomy(form_rooms(), area.y, area.height) ==> text::views(r@) == form_drawn(
                self@,
                ui::cut_down(area, form_rooms()),
            ),
    {
        let mut rooms: Vec<Room> = Vec::new();
        rooms.push(Room::Length(3));
        rooms.push(Room::Min(1));
        rooms.push(Room::Length(3));
        assert(rooms@ =~= form_rooms());
        let parts = split_down(area, &rooms);
        self.draw_in(&parts)
    }
}

} // verus!
