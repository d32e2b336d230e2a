//! How a connection comes about, and how attachments, names and texts come through on their way.

use vstd::prelude::*;

use crate::client;
use crate::client::{Command, Connecting, First, NextModel, Stage};
use crate::codec;
use crate::number;
use crate::number::NumberError;
use crate::numbering;
use crate::store;
use crate::text;
use crate::text::Sep;
use crate::types::{MailError, NewAccount, SecurityMode};

verus! {

broadcast use vstd::string::group_string_axioms;

/// Whether this step is the next one.
pub open spec fn goes_on(next: Connecting<MailError<Seq<char>>>, stage: Stage) -> bool {
    next is Do && next->Do_0 == stage
}

/// Whether the connection fails with this error.
pub open spec fn fails(
    next: Connecting<MailError<Seq<char>>>,
    error: MailError<Seq<char>>,
) -> bool {
    next is Failed && next->Failed_0 == error
}

/// A connection that is protected from the start goes from the socket to the handshake, the names
/// of both sides, the login and the inbox. One that is protected later asks for that before the
/// handshake, and one that is never protected does not come about.
pub proof fn connection_runs_its_course(security: SecurityMode, said: Result<(), Seq<char>>)
    ensures
        goes_on(client::first_stage(SecurityMode::Tls), Stage::Tcp),
        goes_on(client::first_stage(SecurityMode::StartTls), Stage::Tcp),
        fails(
            client::first_stage(SecurityMode::Unencrypted),
            MailError::Connection("unencrypted IMAP not supported"@),
        ),
        client::next_stage(security, Stage::Logout, said) == client::first_stage(security),
        goes_on(client::next_stage(SecurityMode::Tls, Stage::Tcp, Ok(())), Stage::Handshake),
        goes_on(client::next_stage(SecurityMode::StartTls, Stage::Tcp, Ok(())), Stage::StartTls),
        goes_on(client::next_stage(security, Stage::StartTls, Ok(())), Stage::Handshake),
        goes_on(client::next_stage(security, Stage::Handshake, Ok(())), Stage::Identify),
        goes_on(client::next_stage(security, Stage::Identify, Ok(())), Stage::Login),
        goes_on(client::next_stage(security, Stage::Login, Ok(())), Stage::Inbox),
        client::next_stage(security, Stage::Inbox, said) is Connected,
{
}

/// A step that fails ends the connection, and the error says which step it was and what went wrong.
pub proof fn failed_step_is_told(security: SecurityMode, e: Seq<char>)
    ensures
        fails(
            client::next_stage(security, Stage::Tcp, Err(e)),
            MailError::Connection("TCP connect: "@ + e),
        ),
        fails(
            client::next_stage(security, Stage::StartTls, Err(e)),
            MailError::Tls("STARTTLS: "@ + e),
        ),
        fails(
            client::next_stage(security, Stage::Handshake, Err(e)),
            MailError::Tls("TLS handshake: "@ + e),
        ),
        fails(
            client::next_stage(security, Stage::Identify, Err(e)),
            MailError::Protocol("ID: "@ + e),
        ),
        fails(
            client::next_stage(security, Stage::Login, Err(e)),
            MailError::Authentication("login failed: "@ + e),
        ),
{
}

/// A result of the server is seen as the success or the error that it is.
pub proof fn results_are_seen_as_they_are(
    done: Result<(), String>,
    count: Result<u32, String>,
    status: Result<(u32, Option<u32>), String>,
)
    ensures
        done is Ok <==> client::done_view(done) is Ok,
        done is Err ==> client::done_view(done)->Err_0 == done->Err_0@,
        count is Ok <==> client::number_view(count) is Ok,
        count is Ok ==> client::number_view(count)->Ok_0 == count->Ok_0,
        count is Err ==> client::number_view(count)->Err_0 == count->Err_0@,
        status is Ok <==> client::status_view(status) is Ok,
        status is Ok ==> client::status_view(status)->Ok_0 == status->Ok_0,
        status is Err ==> client::status_view(status)->Err_0 == status->Err_0@,
{
}

/// An attachment is taken from the place in its message that its number names.
pub proof fn attachment_is_taken_from_its_place(uid: u32, path: Seq<u32>)
    requires
        path.len() > 0,
    ensures
        client::attachment_next(
            uid,
            text::joined(path.map_values(|n: u32| number::decimal(n as nat)), "."@),
            First::Found(()),
        ) == NextModel::Send(Command::Section(path)),
{
    numbering::part_number_reads_back(path);
    let words = path.map_values(|n: u32| number::decimal(n as nat));
    assert(path.map_values(|n: u32| n as nat).map_values(|n: nat| number::decimal(n)) =~= words);
}

/// An attachment that does not come is told of by its number and that of its message.
pub proof fn missing_attachment_is_told(uid: u32, part: Seq<char>, e: Seq<char>)
    ensures
        client::attachment_next(uid, part, First::Missing) == NextModel::Fail(
            MailError::MessageNotFound(
                "attachment "@ + part + " not found in message "@ + number::decimal(uid as nat),
            ),
        ),
        client::attachment_next(uid, part, First::Refused(e)) == NextModel::Fail(
            MailError::Protocol("UID FETCH attachment: "@ + e),
        ),
        client::attachment_next(uid, part, First::Broken(e)) == NextModel::Fail(
            MailError::Protocol("fetch: "@ + e),
        ),
{
}

/// A number that is none names no part: the error says what is wrong with it.
pub proof fn wrong_number_is_told(uid: u32, part: Seq<char>)
    requires
        !part.contains('.'),
        number::number_of(part, 10, u32::MAX as int) is Err,
    ensures
        client::attachment_next(uid, part, First::Found(())) == NextModel::Fail(
            MailError::Protocol(
                "invalid part_id "@ + part + ": "@ + number::number_of(
                    part,
                    10,
                    u32::MAX as int,
                )->Err_0.text(),
            ),
        ),
{
    assert(text::unparted(part, Sep::Char('.'))) by {
        assert forall|i: int| 0 <= i < part.len() implies !Sep::Char('.').at(
            #[trigger] part[i],
        ) by {
            assert(part.contains(part[i]));
        }
    }
    text::pieces_of_one(part, Sep::Char('.'));
    assert(text::pieces(part, Sep::Char('.')) =~= seq![part]);
}

/// What is kept of a text without its white space: its other characters, in their order, wherever
/// the white space stands.
pub proof fn white_space_is_left_out(a: Seq<char>, b: Seq<char>, c: char)
    ensures
        codec::without_space(a + b) == codec::without_space(a) + codec::without_space(b),
        text::space(c) ==> codec::without_space(seq![c]) == Seq::<char>::empty(),
        !text::space(c) ==> codec::without_space(seq![c]) == seq![c],
    decreases b.len(),
{
    reveal_with_fuel(codec::without_space, 3);
    assert(seq![c].drop_last() =~= seq![]);
    if b.len() == 0 {
        assert(a + b =~= a);
        assert(codec::without_space(a) + codec::without_space(b) =~= codec::without_space(a));
    } else {
        white_space_is_left_out(a, b.drop_last(), c);
        assert((a + b).drop_last() =~= a + b.drop_last());
        assert((a + b).last() == b.last());
        assert(codec::without_space(a) + codec::without_space(b.drop_last()).push(b.last())
            =~= (codec::without_space(a) + codec::without_space(b.drop_last())).push(b.last()));
    }
}

/// What was sent as base64 comes out as the bytes that it stands for; what was not well-formed, as
/// it came. What was sent as quoted-printable comes out as the bytes that it stands for, and every
/// other encoding is none. A part that was not found is empty.
pub proof fn attachment_is_decoded(raw: Seq<u8>, e: Seq<char>, bytes: Seq<u8>)
    ensures
        client::section_bytes(Some(raw), None) == raw,
        text::lowercase(e) == "base64"@ && codec::base64_bytes(
            vstd::utf8::encode_utf8(codec::without_space(text::utf8_lossy(raw))),
        ) == Some(bytes) ==> client::section_bytes(Some(raw), Some(e)) == bytes,
        text::lowercase(e) == "base64"@ && codec::base64_bytes(
            vstd::utf8::encode_utf8(codec::without_space(text::utf8_lossy(raw))),
        ) is None ==> client::section_bytes(Some(raw), Some(e)) == raw,
        text::lowercase(e) == "quoted-printable"@ ==> client::section_bytes(
            Some(codec::escaped(bytes)),
            Some(e),
        ) == bytes,
        text::lowercase(e) != "base64"@ && text::lowercase(e) != "quoted-printable"@
            ==> client::section_bytes(Some(raw), Some(e)) == raw,
        client::section_bytes(None, None) == Seq::<u8>::empty(),
{
    reveal_strlit("base64");
    reveal_strlit("quoted-printable");
    assert("base64"@.len() == 6 && "quoted-printable"@.len() == 16);
    codec::escaped_bytes_read_back(bytes);
}

/// A stored account is the new one under its number.
pub proof fn stored_account_has_its_number(id: i64, account: NewAccount<Seq<char>>)
    ensures
        store::numbered(id, account).id == id,
        store::numbered(id, account).email == account.email,
        store::numbered(id, account).display_name == account.display_name,
        store::numbered(id, account).config == account.config,
{
}

/// A path without its last name is what stands before the last slash.
pub proof fn directory_stands_before_the_name(dirs: Seq<Seq<char>>, name: Seq<char>)
    requires
        dirs.len() > 0,
        forall|i: int| 0 <= i < dirs.len() ==> !(#[trigger] dirs[i]).contains('/'),
        !name.contains('/'),
    ensures
        store::without_name(text::joined(dirs.push(name), "/"@)) == text::joined(dirs, "/"@),
{
    let all = dirs.push(name);
    reveal_strlit("/");
    assert("/"@ =~= seq!['/']);
    assert forall|k: int| 0 <= k < all.len() implies text::unparted(
        #[trigger] all[k],
        Sep::Char('/'),
    ) by {
        let one = all[k];
        assert(k < dirs.len() ==> one == dirs[k]);
        assert forall|j: int| 0 <= j < one.len() implies !Sep::Char('/').at(#[trigger] one[j]) by {
            assert(one.contains(one[j]));
        }
    }
    text::joined_parts(all, '/', Sep::Char('/'));
    assert(all.drop_last() =~= dirs);
}

/// A size is kept in its column and read from it, as far as a column goes.
pub proof fn sizes_are_kept(size: u64, column: i64)
    ensures
        size <= i64::MAX ==> store::column_size(size) == size && store::size_in(
            store::column_size(size),
        ) == size,
        size > i64::MAX ==> store::column_size(size) == i64::MAX,
        column < 0 ==> store::size_in(column) == 0,
        column >= 0 ==> store::size_in(column) == column,
{
}

/// Only the letters of ASCII change their case, each to the letter of its own place.
pub proof fn letters_change_their_case(i: int, c: char)
    requires
        0 <= i < 26,
    ensures
        text::ascii_lower((65 + i) as char) == (97 + i) as char,
        text::ascii_upper((97 + i) as char) == (65 + i) as char,
        !('A' <= c <= 'Z') ==> text::ascii_lower(c) == c,
        !('a' <= c <= 'z') ==> text::ascii_upper(c) == c,
{
}

/// Case is changed letter by letter.
pub proof fn case_is_changed_in_place(s: Seq<char>, i: int)
    requires
        0 <= i < s.len(),
    ensures
        text::ascii_lowered(s).len() == s.len() && text::ascii_lowered(s)[i] == text::ascii_lower(
            s[i],
        ),
        text::ascii_uppered(s).len() == s.len() && text::ascii_uppered(s)[i] == text::ascii_upper(
            s[i],
        ),
{
}

/// The digits of numbers: the sign of a negative number stands before those of its amount.
pub proof fn numbers_are_written_with_their_sign(n: nat)
    ensures
        number::signed_decimal(n as int) == number::decimal(n),
        n > 0 ==> number::signed_decimal(-n) == seq!['-'] + number::decimal(n),
{
}

/// What is wrong with a number is told.
pub proof fn wrong_numbers_are_told()
    ensures
        NumberError::Empty.text() == "cannot parse integer from empty string"@,
        NumberError::InvalidDigit.text() == "invalid digit found in string"@,
        NumberError::Overflow.text() == "number too large to fit in target type"@,
{
}

/// An equals sign before two bytes that are no text stands for a zero byte along with them, and
/// before two characters that are no hexadecimal digits for itself alone.
pub proof fn odd_escapes_are_read(a: u8, b: u8)
    ensures
        a >= 0x80 && b < 0x80 ==> codec::quoted_bytes(seq![0x3du8, a, b]) == seq![0u8],
        0x80 <= a < 0xc2 ==> codec::quoted_bytes(seq![0x3du8, a, b]) == seq![0u8],
        a == 0x67 && b < 0x80 && b != 0x3d ==> codec::quoted_bytes(seq![0x3du8, a, b]) == seq![
            0x3du8,
            a,
            b,
        ],
{
    let s = seq![0x3du8, a, b];
    reveal_with_fuel(codec::quoted_from, 4);
    assert(codec::quoted_from(s, 3) =~= seq![]);
    assert(codec::quoted_bytes(s) == codec::quoted_from(s, 0));
    if a == 0x67 && b < 0x80 && b != 0x3d {
        assert(codec::quoted_from(s, 2) =~= seq![b]);
        assert(codec::quoted_from(s, 1) =~= seq![a, b]);
        assert(codec::hex_pair(a, b) is Err);
        assert(codec::quoted_from(s, 0) =~= s);
    } else if a >= 0x80 && b < 0x80 || 0x80 <= a < 0xc2 {
        assert(codec::quoted_from(s, 0) =~= seq![0u8]);
    }
}

/// Text that is shorter than its place is filled up with spaces behind it, and no text is cut.
pub proof fn short_text_is_filled_up(s: Seq<char>, n: nat, i: int)
    ensures
        s.len() >= n ==> text::left_aligned(s, n) == s,
        s.len() < n ==> text::left_aligned(s, n).len() == n,
        0 <= i < s.len() ==> text::left_aligned(s, n)[i] == s[i],
        s.len() <= i < n ==> text::left_aligned(s, n)[i] == ' ',
{
}

/// A quotient is rounded to the nearest number, and to the even one of two that are as near.
pub proof fn quotients_are_rounded(a: int, b: int)
    requires
        b > 0,
    ensures
        -b <= 2 * (number::nearest(a, b) * b - a) <= b,
        2 * (number::nearest(a, b) * b - a) == b || 2 * (number::nearest(a, b) * b - a) == -b
            ==> number::nearest(a, b) % 2 == 0,
{
    let q = a / b;
    let rest = a % b;
    vstd::arithmetic::div_mod::lemma_fundamental_div_mod(a, b);
    vstd::arithmetic::div_mod::lemma_mod_bound(a, b);
    assert(q * b == b * q) by (nonlinear_arith);
    assert((q + 1) * b == q * b + b) by (nonlinear_arith);
    assert(a == q * b + rest);
}

} // verus!
