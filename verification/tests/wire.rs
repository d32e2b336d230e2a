//! Text, numbers, character sets, transfer encodings and header fields.

use rust_email::charset::{decode_body, decode_charset, looks_garbled};
use rust_email::codec::{decode_transfer_encoding, quoted_printable_decode};
use rust_email::header::{
    decode_mime_header, parse_header_field, split_addr_list, try_decode_mime_header,
};
use rust_email::number::{
    decimal_text, format_size, read_number, read_u16_or, signed_text, two_digit_text,
};
use rust_email::text::{bytes_to_string, is_space, lines, split_list, to_chars, trim, Sep};

#[test]
fn white_space_is_that_of_unicode() {
    for n in 0..=0x10FFFFu32 {
        if let Some(c) = char::from_u32(n) {
            assert_eq!(is_space(c), c.is_whitespace(), "{n:x}");
        }
    }
}

#[test]
fn trimmed_text() {
    for s in ["", " ", " a b\t", "\u{3000}中\u{a0}", "x", "\r\n x"] {
        assert_eq!(trim(s), s.trim());
    }
}

#[test]
fn lines_end_as_in_std() {
    for s in ["", "a", "a\n", "a\r\nb", "a\n\nb", "\n", "a\rb\n", "a\r\n\r\n"] {
        let own: Vec<String> =
            lines(&to_chars(s)).iter().map(|l| l.iter().collect()).collect();
        let std: Vec<String> = s.lines().map(|l| l.to_string()).collect();
        assert_eq!(own, std, "{s:?}");
    }
}

#[test]
fn entries_of_lists() {
    assert_eq!(split_list(" a@x , ,b@x;c", Sep::Char(',')), vec!["a@x", "b@x;c"]);
    assert!(split_list(" , ,", Sep::Char(',')).is_empty());
}

#[test]
fn numbers_in_decimal() {
    for n in [0u64, 7, 10, 42, 993, 65535, u32::MAX as u64, u64::MAX] {
        assert_eq!(decimal_text(n), n.to_string());
    }
    for n in [0i32, 5, -5, -2024, i32::MAX, i32::MIN] {
        assert_eq!(signed_text(n), n.to_string());
    }
    for n in [0u32, 7, 10, 59, 2024] {
        assert_eq!(two_digit_text(n), format!("{n:02}"));
    }
}

#[test]
fn numbers_are_read_as_by_std() {
    let texts = [
        "", "+", "-", "-1", "+5", "0", "00012", "12a", "a", "4294967295", "4294967296",
        "99999999999999999999", "１", " 1", "+0", "--1", "-0", "65535", "65536", "ff", "FF", "+ff",
        "fffffffff", "4294967296a", "42949672960a", "ffffffffg", "1-", "+-1",
    ];
    for s in texts {
        let v = to_chars(s);
        match (read_number(&v, 10, u32::MAX), s.parse::<u32>()) {
            (Ok(a), Ok(b)) => assert_eq!(a, b),
            (Err(a), Err(b)) => assert_eq!(a.message(), b.to_string(), "{s}"),
            (a, b) => panic!("{s}: {a:?} {b:?}"),
        }
        match (read_number(&v, 16, u32::MAX), u32::from_str_radix(s, 16)) {
            (Ok(a), Ok(b)) => assert_eq!(a, b),
            (Err(a), Err(b)) => assert_eq!(a.message(), b.to_string(), "{s}"),
            (a, b) => panic!("{s}: {a:?} {b:?}"),
        }
        assert_eq!(read_u16_or(s, 993), s.parse::<u16>().unwrap_or(993), "{s}");
    }
}

fn size_by_floats(bytes: u64) -> String {
    if bytes >= 1_048_576 {
        format!("{:.1} MB", bytes as f64 / 1_048_576.0)
    } else if bytes >= 1024 {
        format!("{:.1} KB", bytes as f64 / 1024.0)
    } else {
        format!("{bytes} B")
    }
}

#[test]
fn sizes_are_rounded_as_by_floats() {
    assert_eq!(format_size(0), "0 B");
    assert_eq!(format_size(1023), "1023 B");
    assert_eq!(format_size(1024), "1.0 KB");
    assert_eq!(format_size(1536), "1.5 KB");
    assert_eq!(format_size(1_048_575), "1024.0 KB");
    assert_eq!(format_size(1_048_576), "1.0 MB");
    for n in 0..60_000u64 {
        assert_eq!(format_size(n), size_by_floats(n));
    }
    let mut n: u64 = 1;
    for _ in 0..200_000 {
        n = n.wrapping_mul(6364136223846793005).wrapping_add(1442695040888963407);
        for shift in [0, 7, 13, 24, 40] {
            assert_eq!(format_size(n >> shift), size_by_floats(n >> shift), "{}", n >> shift);
        }
    }
    for k in 0..4000u64 {
        let tie = k * 52_428 + 26_214;
        for m in [tie, tie + 1, (1 << 53) + k, (1 << 54) + 2 * k + 1, u64::MAX - k] {
            assert_eq!(format_size(m), size_by_floats(m), "{m}");
        }
    }
}

#[test]
fn character_sets() {
    assert_eq!(decode_charset(b"\xd6\xd0\xce\xc4", "gb2312"), "中文");
    assert_eq!(decode_charset("中文".as_bytes(), "utf-8"), "中文");
    assert_eq!(decode_charset(b"\xff", "UTF8"), "\u{FFFD}");
    assert_eq!(decode_charset(b"\xe9\x80", "latin1"), "é\u{80}");
    assert_eq!(decode_charset(b"\x82\xa0", "SJIS"), "あ");
    assert_eq!(decode_charset(b"\xa4\xa2", "eucjp"), "あ");
    assert_eq!(decode_charset(b"\xa4\xa4", "cn-big5"), "中");
    assert_eq!(decode_charset(b"\x80", "windows-1252"), "€");
    assert_eq!(decode_charset(b"\x80", "IBM866"), "А");
    assert_eq!(decode_charset(b"\xff", "no-such-charset"), "\u{FFFD}");
}

#[test]
fn character_sets_by_their_names() {
    let data: Vec<u8> = (0x20..=0xffu16).map(|b| b as u8).collect();
    let named: [(&str, &'static encoding_rs::Encoding); 14] = [
        ("GBK", encoding_rs::GBK),
        ("GB18030", encoding_rs::GBK),
        ("GBK-EUC", encoding_rs::GBK),
        ("CSGB2312", encoding_rs::GBK),
        ("SHIFT-JIS", encoding_rs::SHIFT_JIS),
        ("EUC-JP", encoding_rs::EUC_JP),
        ("BIG5-HKSCS", encoding_rs::BIG5),
        ("WINDOWS-1252", encoding_rs::WINDOWS_1252),
        ("KOI8-R", encoding_rs::KOI8_R),
        ("KOI8-U", encoding_rs::KOI8_U),
        ("ISO-8859-2", encoding_rs::ISO_8859_2),
        ("ISO-8859-5", encoding_rs::ISO_8859_5),
        ("ISO-8859-7", encoding_rs::ISO_8859_7),
        ("ISO-8859-15", encoding_rs::ISO_8859_15),
    ];
    for (name, encoding) in named {
        let expected = encoding.decode(&data).0.into_owned();
        assert_eq!(decode_charset(&data, name), expected, "{name}");
        assert_eq!(decode_charset(&data, &name.to_lowercase()), expected, "{name}");
    }
}

#[test]
fn garbled_text_is_known() {
    assert!(!looks_garbled(""));
    assert!(!looks_garbled("Grüße aus 北京"));
    assert!(!looks_garbled("ÃÃÃÃÃ"));
    assert!(looks_garbled("ÃÃÃÃÃÃ"));
    assert!(!looks_garbled("ÃÃabcdef"));
    assert!(looks_garbled("ÃÃÃabcde"));
    assert!(looks_garbled("\u{80}\u{9f}\u{c2}\u{c7}ab"));
    assert!(!looks_garbled("\u{a0}\u{c1}\u{c8}\u{7f}ab"));
}

#[test]
fn plain_text_is_never_garbled() {
    assert!(!looks_garbled("The quick brown fox, 1234567890 times."));
}

#[test]
fn bodies_by_their_character_set() {
    assert_eq!(decode_body("中文".as_bytes(), "utf-8"), "中文");
    assert_eq!(decode_body(b"\xd6\xd0\xce\xc4", "GBK"), "中文");
    let utf8 = "中文".as_bytes();
    assert_eq!(decode_body(utf8, ""), encoding_rs::GBK.decode(utf8).0);
    assert_eq!(decode_body(b"", ""), "");
    // Declared wrongly: what comes out is garbled, and the next set is tried.
    let text = "ÄÄÄÄÄÄÄÄ";
    let latin: Vec<u8> = text.chars().map(|c| c as u32 as u8).collect();
    assert!(looks_garbled(&decode_charset(&latin, "iso-8859-1")));
    assert_eq!(decode_body(&latin, "iso-8859-1"), encoding_rs::GBK.decode(&latin).0);
}

#[test]
fn quoted_printable() {
    assert_eq!(quoted_printable_decode(b"a=3Db=\r\nc=\nd=4"), b"a=bcd=4");
    assert_eq!(quoted_printable_decode(b"=ZZ="), b"=ZZ=");
    assert_eq!(quoted_printable_decode(b"=e4=B8=ad"), "中".as_bytes());
    assert_eq!(quoted_printable_decode(b"=+1"), [1]);
    assert_eq!(quoted_printable_decode(&[b'=', 0xff, 0xff]), [0]);
    assert_eq!(quoted_printable_decode(b""), b"");
}

#[test]
fn quoted_printable_joins_up() {
    for (a, b) in [("a=41=\r\nx", "=42 y"), ("", "=43"), ("=3D4", "1"), ("no", ""), ("=zzab", "=")] {
        let joined = quoted_printable_decode(format!("{a}{b}").as_bytes());
        let mut each = quoted_printable_decode(a.as_bytes());
        each.extend(quoted_printable_decode(b.as_bytes()));
        assert_eq!(joined, each);
    }
    // An equals sign at the end may take up what comes behind it.
    assert_eq!(quoted_printable_decode(b"=41"), b"A");
    assert_eq!(quoted_printable_decode(b"="), b"=");
}

#[test]
fn every_byte_is_read_back_from_its_digits() {
    for n in 0..=255u8 {
        assert_eq!(quoted_printable_decode(format!("={n:02X}").as_bytes()), vec![n]);
        assert_eq!(quoted_printable_decode(format!("={n:02x}").as_bytes()), vec![n]);
    }
}

#[test]
fn quoted_printable_never_grows() {
    for s in ["=41=42", "plain", "==", "=\r\n", "a=b"] {
        assert!(quoted_printable_decode(s.as_bytes()).len() <= s.len());
    }
}

#[test]
fn transfer_encodings() {
    assert_eq!(decode_transfer_encoding(b"aGVs\r\nbG8=\r\n", Some("Base64")), b"hello");
    assert_eq!(decode_transfer_encoding(b"no base64!", Some("base64")), b"no base64!");
    assert_eq!(decode_transfer_encoding(b"aGVsbG8", Some("base64")), b"aGVsbG8");
    assert_eq!(decode_transfer_encoding(b"=41", Some("QUOTED-PRINTABLE")), b"A");
    assert_eq!(decode_transfer_encoding(b"=41", Some("8bit")), b"=41");
    assert_eq!(decode_transfer_encoding(b"=41", None), b"=41");
}

#[test]
fn encoded_words() {
    assert_eq!(decode_mime_header("=?UTF-8?B?5Lit5paH?="), "中文");
    assert_eq!(decode_mime_header("=?gbk?b?1tDOxA==?= x"), "中文 x");
    assert_eq!(decode_mime_header("a =?UTF-8?Q?caf=C3=A9_x?= b"), "a café x b");
    assert_eq!(decode_mime_header("=?utf-8?q?one?==?utf-8?q?two?="), "onetwo");
    assert_eq!(decode_mime_header("=?UTF-8?Q?=E4=B8=AD=E6=96=87?="), "中文");
    assert_eq!(decode_mime_header("=?ISO-8859-1?Q?=E9?="), "é");
    assert_eq!(decode_mime_header("Re: =?UTF-8?Q?=41?= =?UTF-8?B?Qg==?="), "Re: A B");
    assert_eq!(decode_mime_header(""), "");
}

#[test]
fn words_that_cannot_be_decoded_stay() {
    assert_eq!(decode_mime_header("=?UTF-8?X?abc?="), "=?UTF-8?X?abc?=");
    assert_eq!(decode_mime_header("=?UTF-8?B?***?="), "=?UTF-8?B?***?=");
    assert_eq!(decode_mime_header("Hi =?bad"), "Hi =?bad");
    assert_eq!(decode_mime_header("a =?UTF-8?X?b?= c"), "a =?UTF-8?X?b?= c");
    assert_eq!(decode_mime_header("=?UTF-8?Q?=41"), "=?UTF-8?Q?=41");
    assert_eq!(decode_mime_header("=?UTF-8?Q?ok?= then =?bad"), "ok then =?bad");
    assert_eq!(try_decode_mime_header("=?UTF-8?Q?é=é1?="), None);
    assert_eq!(try_decode_mime_header("=?UTF-8?Q?x=41?="), Some("xA".to_string()));
}

#[test]
fn header_without_encoded_words_stays() {
    for s in ["Hello", "中文 subject", "a=b?c", "1 + 1 = 2"] {
        assert_eq!(decode_mime_header(s), s);
    }
}

#[test]
fn header_fields() {
    let raw = Some("From: a@x\r\nSUBJECT :  Hi: there \r\nno colon\r\nTo:b".to_string());
    assert_eq!(parse_header_field(&raw, "subject"), Some("Hi: there".to_string()));
    assert_eq!(parse_header_field(&raw, "From"), Some("a@x".to_string()));
    assert_eq!(parse_header_field(&raw, "to"), Some("b".to_string()));
    assert_eq!(parse_header_field(&raw, "cc"), None);
    assert_eq!(parse_header_field(&None, "to"), None);
}

#[test]
fn address_lists() {
    assert_eq!(split_addr_list("a@x, B <b@x>,, "), vec!["a@x", "B <b@x>"]);
    assert!(split_addr_list("").is_empty());
}

#[test]
fn bytes_are_read_as_utf8() {
    assert_eq!(bytes_to_string("邮件".as_bytes()), "邮件");
    assert_eq!(bytes_to_string(b"a\xffb"), "a\u{fffd}b");
    assert_eq!(bytes_to_string(b""), "");
}
