//! The browser login: the one-time nonce, the address to open, and the
//! answer to the callback that the browser makes.

use vstd::prelude::*;
use vstd::string::*;
use vstd::utf8::encode_utf8;
use crate::api::without_trailing_slashes;
use crate::text::{
    decimal,
    to_decimal,
    char_is_whitespace,
    chars_eq,
    concat,
    from_chars,
    is_whitespace,
    line_end,
    skip_whitespace,
    slice_chars,
    str_eq,
    to_chars,
    find_char,
};

verus! {

/// The hexadecimal digit for a number below sixteen.
pub open spec fn hex_digit(n: int) -> char {
    if n < 10 {
        ((48 + n) as u8) as char
    } else {
        ((87 + n) as u8) as char
    }
}

fn hex_char(n: u8) -> (r: char)
    requires
        n < 16,
    ensures
        r == hex_digit(n as int),
{
    if n < 10 {
        (48u8 + n) as char
    } else {
        (87u8 + n) as char
    }
}

/// The bytes written as hexadecimal digits, two for each byte, in lower
/// case.
pub open spec fn hex_of(bytes: Seq<u8>) -> Seq<char>
    decreases bytes.len(),
{
    if bytes.len() == 0 {
        Seq::empty()
    } else {
        hex_of(bytes.drop_last()) + seq![
            hex_digit(bytes.last() as int / 16),
            hex_digit(bytes.last() as int % 16),
        ]
    }
}

pub open spec fn is_hex_digit(c: char) -> bool {
    ('0' <= c && c <= '9') || ('a' <= c && c <= 'f')
}

/// The hexadecimal form of `n` bytes has `2 n` characters, all of them
/// hexadecimal digits.
pub proof fn lemma_hex_shape(bytes: Seq<u8>)
    ensures
        hex_of(bytes).len() == 2 * bytes.len(),
        forall|i: int| 0 <= i < hex_of(bytes).len() ==> is_hex_digit(#[trigger] hex_of(bytes)[i]),
    decreases bytes.len(),
{
    if bytes.len() > 0 {
        lemma_hex_shape(bytes.drop_last());
        let high = bytes.last() as int / 16;
        let low = bytes.last() as int % 16;
        assert(is_hex_digit(hex_digit(high)));
        assert(is_hex_digit(hex_digit(low)));
    }
}

pub fn bytes_to_hex(bytes: &[u8]) -> (r: String)
    ensures
        r@ == hex_of(bytes@),
{
    let mut out = String::new();
    let mut i: usize = 0;
    proof {
        assert(bytes@.take(0) =~= Seq::<u8>::empty());
    }
    while i < bytes.len()
        invariant
            i <= bytes.len(),
            out@ == hex_of(bytes@.take(i as int)),
        decreases bytes.len() - i,
    {
        let b: u8 = bytes[i];
        proof {
            assert(bytes@.take(i + 1).drop_last() =~= bytes@.take(i as int));
            assert(bytes@.take(i + 1).last() == b);
        }
        let ghost before = out@;
        out.push(hex_char(b / 16));
        out.push(hex_char(b % 16));
        proof {
            assert(out@ =~= before + seq![hex_digit(b as int / 16), hex_digit(b as int % 16)]);
        }
        i += 1;
    }
    proof {
        assert(bytes@.take(i as int) =~= bytes@);
    }
    out
}

/// Calls `rand::RngCore::fill_bytes` on `rand::thread_rng()` for a buffer
/// of `count` bytes. The bytes are random: the contract says only how many
/// there are.
#[verifier::external_body]
fn random_bytes(count: usize) -> (r: Vec<u8>)
    ensures
        r@.len() == count,
{
    let mut bytes = vec![0u8; count];
    rand::RngCore::fill_bytes(&mut rand::thread_rng(), &mut bytes);
    bytes
}

/// The text of a nonce: the hexadecimal form of sixteen bytes.
pub open spec fn is_nonce(text: Seq<char>) -> bool {
    exists|bytes: Seq<u8>| bytes.len() == 16 && text == #[trigger] hex_of(bytes)
}

/// The nonce for the bytes drawn.
pub fn nonce_from(bytes: &[u8]) -> (r: String)
    ensures
        r@ == hex_of(bytes@),
        r@.len() == 2 * bytes@.len(),
        forall|i: int| 0 <= i < r@.len() ==> is_hex_digit(#[trigger] r@[i]),
{
    proof {
        lemma_hex_shape(bytes@);
    }
    bytes_to_hex(bytes)
}

/// A fresh nonce: 32 hexadecimal digits, drawn at random.
pub fn generate_nonce() -> (r: String)
    ensures
        is_nonce(r@),
        r@.len() == 32,
        forall|i: int| 0 <= i < r@.len() ==> is_hex_digit(#[trigger] r@[i]),
{
    let bytes = random_bytes(16);
    let r = nonce_from(bytes.as_slice());
    proof {
        assert(r@ == hex_of(bytes@));
    }
    r
}

/// What stands for one character in HTML text.
pub open spec fn escape_of(c: char) -> Seq<char> {
    if c == '&' {
        "&amp;"@
    } else if c == '<' {
        "&lt;"@
    } else if c == '>' {
        "&gt;"@
    } else if c == '"' {
        "&quot;"@
    } else if c == '\'' {
        "&#39;"@
    } else {
        seq![c]
    }
}

/// `s` with its five special characters replaced.
pub open spec fn escaped(s: Seq<char>) -> Seq<char>
    decreases s.len(),
{
    if s.len() == 0 {
        Seq::empty()
    } else {
        escaped(s.drop_last()) + escape_of(s.last())
    }
}

pub fn escape_html(input: &str) -> (r: String)
    ensures
        r@ == escaped(input@),
{
    let chars = to_chars(input);
    let mut out = String::new();
    let mut i: usize = 0;
    proof {
        assert(chars@.take(0) =~= Seq::<char>::empty());
    }
    while i < chars.len()
        invariant
            i <= chars.len(),
            out@ == escaped(chars@.take(i as int)),
        decreases chars.len() - i,
    {
        let c = chars[i];
        proof {
            assert(chars@.take(i + 1).drop_last() =~= chars@.take(i as int));
            assert(chars@.take(i + 1).last() == c);
        }
        if c == '&' {
            out.append("&amp;");
        } else if c == '<' {
            out.append("&lt;");
        } else if c == '>' {
            out.append("&gt;");
        } else if c == '"' {
            out.append("&quot;");
        } else if c == '\'' {
            out.append("&#39;");
        } else {
            let ghost before = out@;
            out.push(c);
            proof {
                assert(out@ =~= before + seq![c]);
            }
        }
        i += 1;
    }
    proof {
        assert(chars@.take(i as int) =~= chars@);
    }
    out
}

/// The address that the browser is sent to.
pub open spec fn auth_address(api_base_url: Seq<char>, port: u16, nonce: Seq<char>) -> Seq<char> {
    without_trailing_slashes(api_base_url) + "/auth/token?port="@ + decimal(port as nat)
        + "&state="@ + nonce
}

pub fn auth_url(api_base_url: &str, port: u16, nonce: &str) -> (r: String)
    ensures
        r@ == auth_address(api_base_url@, port, nonce@),
{
    let base = to_chars(api_base_url);
    let mut end: usize = base.len();
    proof {
        assert(base@.subrange(0, end as int) =~= base@);
    }
    while end > 0 && base[end - 1] == '/'
        invariant
            end <= base.len(),
            without_trailing_slashes(base@) == without_trailing_slashes(
                base@.subrange(0, end as int),
            ),
        decreases end,
    {
        proof {
            assert(base@.subrange(0, end as int).drop_last() =~= base@.subrange(0, end - 1));
        }
        end -= 1;
    }
    let mut s = from_chars(&slice_chars(&base, 0, end));
    s.append("/auth/token?port=");
    s.append(to_decimal(port as usize).as_str());
    s.append("&state=");
    s.append(nonce);
    s
}

pub const PAGE_OPENING: &'static str = "<!doctype html><html lang=\"en\"><head><meta charset=\"utf-8\"><meta name=\"viewport\" content=\"width=device-width, initial-scale=1\"><title>";

pub const PAGE_STYLE_OPENING: &'static str = "</title><style>* { box-sizing: border-box; }html, body { height: 100%; margin: 0; }body {font-family: 'Work Sans', -apple-system, BlinkMacSystemFont, 'Segoe UI', Roboto, sans-serif;color: #1a1a2e;background: radial-gradient(circle at 15% 10%, rgba(79, 70, 229, 0.14) 0%, rgba(79, 70, 229, 0) 42%), #fafafa;}.wrap {min-height: 100%;display: flex;align-items: center;justify-content: center;padding: 24px;}.card {width: min(560px, 100%);background: #ffffff;border: 1px solid #e8eaed;border-radius: 16px;box-shadow: 0 10px 36px rgba(15, 23, 42, 0.08);padding: 26px 24px;}.brand {margin-bottom: 14px;}.brand-logo {display: block;height: 32px;width: auto;max-width: 140px;}.badge {display: inline-flex;align-items: center;justify-content: center;height: 28px;padding: 0 12px;border-radius: 999px;font-size: 12px;font-weight: 700;letter-spacing: 0.08em;color: ";

pub const PAGE_STYLE_MIDDLE: &'static str = ";background: ";

pub const PAGE_BODY_OPENING: &'static str = ";}h1 {margin: 14px 0 10px;font-size: 28px;line-height: 1.15;color: #16213e;}p {margin: 0;line-height: 1.55;color: #334155;}.follow-up {margin-top: 14px;color: #607d8b;}@media (max-width: 480px) {.brand-logo {height: 28px;max-width: 120px;}}</style></head><body><div class=\"wrap\"><main class=\"card\"><div class=\"brand\" aria-label=\"Cadence\"><svg class=\"brand-logo\" viewBox=\"0 0 128 128\" fill=\"none\" xmlns=\"http://www.w3.org/2000/svg\"><path d=\"M90.5996 87.5254C93.361 87.5254 95.5996 89.764 95.5996 92.5254C95.5995 94.0704 94.898 95.4511 93.7969 96.3682C93.7311 96.4291 93.6638 96.4885 93.5947 96.5459C93.4301 96.7188 93.2532 96.8794 93.0654 97.0273C92.8773 97.211 92.6751 97.3799 92.46 97.5322C92.2552 97.7287 92.0346 97.9088 91.7988 98.0684C91.4544 98.4257 91.0575 98.7311 90.6201 98.9736C90.1847 99.4117 89.6692 99.769 89.0967 100.022C88.5405 100.582 87.8532 101.011 87.084 101.259C86.3607 102.003 85.4089 102.522 84.3408 102.703C83.4381 103.622 82.1843 104.194 80.7959 104.199C79.8902 105.11 78.6362 105.675 77.25 105.675C76.8989 105.675 76.5563 105.638 76.2256 105.569C75.3215 106.469 74.0761 107.025 72.7002 107.025C71.891 107.025 71.1274 106.831 70.4512 106.49C69.5537 107.347 68.339 107.875 67 107.875C65.6173 107.875 64.3661 107.313 63.4609 106.406C62.5625 107.269 61.3437 107.8 60 107.8C57.8824 107.8 56.0737 106.483 55.3447 104.624C54.4432 105.506 53.2102 106.05 51.8496 106.05C49.0882 106.05 46.8496 103.811 46.8496 101.05C46.8496 100.524 46.9304 100.016 47.0811 99.54C46.1875 100.901 44.6497 101.8 42.9004 101.8C40.139 101.8 37.9004 99.5612 37.9004 96.7998C37.9005 94.0385 40.139 91.7998 42.9004 91.7998C45.6618 91.7998 47.9003 94.0385 47.9004 96.7998C47.9004 97.3257 47.8185 97.8325 47.668 98.3086C48.5615 96.9484 50.1005 96.0498 51.8496 96.0498C53.967 96.0498 55.7758 97.3667 56.5049 99.2256C57.4064 98.344 58.6395 97.7998 60 97.7998C61.3824 97.7998 62.633 98.3618 63.5381 99.2686C64.4366 98.4059 65.6561 97.875 67 97.875C67.8088 97.875 68.5721 98.0682 69.248 98.4092C70.1456 97.552 71.3611 97.0254 72.7002 97.0254C73.051 97.0254 73.3933 97.0612 73.7236 97.1299C74.623 96.2352 75.8611 95.6806 77.2285 95.6748C77.9465 94.9524 78.8843 94.4495 79.9326 94.2715C80.492 93.702 81.1869 93.2664 81.9648 93.0156C82.4082 92.5595 82.9377 92.1879 83.5273 91.9268C83.8594 91.5923 84.239 91.3055 84.6543 91.0752C84.8822 90.8459 85.1317 90.6379 85.4004 90.4561C85.6184 90.2299 85.8572 90.0238 86.1143 89.8418C86.2315 89.7293 86.3547 89.6232 86.4824 89.5225C86.5131 89.4925 86.5438 89.4627 86.5752 89.4336C86.7072 89.2927 86.8468 89.1591 86.9941 89.0342L87.04 88.9893C87.9448 88.0846 89.1946 87.5254 90.5752 87.5254H90.5996Z\" fill=\"#4533BB\"/><path d=\"M34.1504 84.0996C36.9117 84.0996 39.1502 86.3384 39.1504 89.0996C39.1504 91.861 36.9118 94.0996 34.1504 94.0996C31.389 94.0996 29.1504 91.861 29.1504 89.0996C29.1506 86.3384 31.3891 84.0996 34.1504 84.0996Z\" fill=\"#4533BB\"/><path d=\"M27.3496 72.2998C30.111 72.2998 32.3495 74.5385 32.3496 77.2998C32.3496 80.0612 30.111 82.2998 27.3496 82.2998C24.5882 82.2998 22.3496 80.0612 22.3496 77.2998C22.3497 74.5385 24.5882 72.2998 27.3496 72.2998Z\" fill=\"#4533BB\"/><path d=\"M25.0752 56.6748C27.8366 56.6748 30.0751 58.9135 30.0752 61.6748C30.0752 64.4362 27.8366 66.6748 25.0752 66.6748C22.3138 66.6748 20.0752 64.4362 20.0752 61.6748C20.0753 58.9135 22.3138 56.6748 25.0752 56.6748Z\" fill=\"#4533BB\"/><path d=\"M30.3496 39.2754C33.111 39.2754 35.3496 41.514 35.3496 44.2754C35.3494 47.0366 33.1109 49.2754 30.3496 49.2754C27.5883 49.2754 25.3498 47.0366 25.3496 44.2754C25.3496 41.514 27.5882 39.2754 30.3496 39.2754Z\" fill=\"#4533BB\"/><path d=\"M92.5254 32.4004C95.2868 32.4004 97.5254 34.639 97.5254 37.4004C97.5252 40.1616 95.2867 42.4004 92.5254 42.4004C89.7641 42.4004 87.5256 40.1616 87.5254 37.4004C87.5254 34.639 89.764 32.4004 92.5254 32.4004Z\" fill=\"#4533BB\"/><path d=\"M45.2998 24.7754C48.0612 24.7754 50.2998 27.014 50.2998 29.7754C50.2996 32.5366 48.0611 34.7754 45.2998 34.7754C42.5385 34.7754 40.3 32.5366 40.2998 29.7754C40.2998 27.014 42.5384 24.7754 45.2998 24.7754Z\" fill=\"#4533BB\"/><path d=\"M68.5752 20.2754C71.3366 20.2754 73.5752 22.514 73.5752 25.2754C73.575 28.0366 71.3365 30.2754 68.5752 30.2754C65.8139 30.2754 63.5754 28.0366 63.5752 25.2754C63.5752 22.514 65.8138 20.2754 68.5752 20.2754Z\" fill=\"#4533BB\"/></svg></div><span class=\"badge\">";

pub const PAGE_BADGE_END: &'static str = "</span><h1>";

pub const PAGE_TITLE_END: &'static str = "</h1><p>";

pub const PAGE_MESSAGE_END: &'static str = "</p><p class=\"follow-up\">";

pub const PAGE_CLOSING: &'static str = "</p></main></div></body></html>";

/// Whether a status says success.
pub open spec fn is_success(status_code: u16) -> bool {
    200 <= status_code < 300
}

pub open spec fn page_title(success: bool) -> Seq<char> {
    if success {
        "Authentication Complete"@
    } else {
        "Authentication Failed"@
    }
}

pub open spec fn page_badge(success: bool) -> Seq<char> {
    if success {
        "OK"@
    } else {
        "ERR"@
    }
}

pub open spec fn page_accent(success: bool) -> Seq<char> {
    if success {
        "#10b981"@
    } else {
        "#ef4444"@
    }
}

pub open spec fn page_accent_background(success: bool) -> Seq<char> {
    if success {
        "rgba(16, 185, 129, 0.14)"@
    } else {
        "rgba(239, 68, 68, 0.14)"@
    }
}

pub open spec fn page_follow_up(success: bool) -> Seq<char> {
    if success {
        "You can close this tab and return to your terminal."@
    } else {
        "Return to your terminal for details, then run cadence login again."@
    }
}

/// The page that answers the callback: title, badge and colours by the
/// status, and the message with its special characters replaced.
pub open spec fn callback_page(status_code: u16, body_text: Seq<char>) -> Seq<char> {
    let success = is_success(status_code);
    PAGE_OPENING@ + escaped(page_title(success)) + PAGE_STYLE_OPENING@ + page_accent(success)
        + PAGE_STYLE_MIDDLE@ + page_accent_background(success) + PAGE_BODY_OPENING@ + page_badge(
        success,
    ) + PAGE_BADGE_END@ + escaped(page_title(success)) + PAGE_TITLE_END@ + escaped(body_text)
        + PAGE_MESSAGE_END@ + escaped(page_follow_up(success)) + PAGE_CLOSING@
}

pub fn render_callback_html(status_code: u16, body_text: &str) -> (r: String)
    ensures
        r@ == callback_page(status_code, body_text@),
{
    let success = 200 <= status_code && status_code < 300;
    let title = if success {
        "Authentication Complete"
    } else {
        "Authentication Failed"
    };
    let badge = if success {
        "OK"
    } else {
        "ERR"
    };
    let accent = if success {
        "#10b981"
    } else {
        "#ef4444"
    };
    let accent_background = if success {
        "rgba(16, 185, 129, 0.14)"
    } else {
        "rgba(239, 68, 68, 0.14)"
    };
    let follow_up = if success {
        "You can close this tab and return to your terminal."
    } else {
        "Return to your terminal for details, then run cadence login again."
    };
    let escaped_title = escape_html(title);
    let mut page = PAGE_OPENING.to_owned();
    page.append(escaped_title.as_str());
    page.append(PAGE_STYLE_OPENING);
    page.append(accent);
    page.append(PAGE_STYLE_MIDDLE);
    page.append(accent_background);
    page.append(PAGE_BODY_OPENING);
    page.append(badge);
    page.append(PAGE_BADGE_END);
    page.append(escaped_title.as_str());
    page.append(PAGE_TITLE_END);
    page.append(escape_html(body_text).as_str());
    page.append(PAGE_MESSAGE_END);
    page.append(escape_html(follow_up).as_str());
    page.append(PAGE_CLOSING);
    page
}

/// The response that carries the callback page.
pub open spec fn response_text(
    status_code: u16,
    status_text: Seq<char>,
    html: Seq<char>,
    length: nat,
) -> Seq<char> {
    "HTTP/1.1 "@ + decimal(status_code as nat) + " "@ + status_text
        + "\r\nContent-Type: text/html; charset=utf-8\r\nContent-Length: "@ + decimal(length)
        + "\r\nConnection: close\r\n\r\n"@ + html
}

/// The length of a text in bytes, in UTF-8.
pub open spec fn byte_length(s: Seq<char>) -> usize {
    encode_utf8(s).len() as usize
}

/// The bytes to send in answer to a callback; the length it names is the
/// length of the page in bytes.
pub fn http_response(status_code: u16, status_text: &str, body_text: &str) -> (r: String)
    ensures
        r@ == response_text(
            status_code,
            status_text@,
            callback_page(status_code, body_text@),
            byte_length(callback_page(status_code, body_text@)) as nat,
        ),
{
    let html = render_callback_html(status_code, body_text);
    let length: usize = html.as_str().len();
    let mut s = "HTTP/1.1 ".to_owned();
    s.append(to_decimal(status_code as usize).as_str());
    s.append(" ");
    s.append(status_text);
    s.append("\r\nContent-Type: text/html; charset=utf-8\r\nContent-Length: ");
    s.append(to_decimal(length).as_str());
    s.append("\r\nConnection: close\r\n\r\n");
    s.append(html.as_str());
    s
}

/// The number of characters of `s` before its first whitespace.
pub open spec fn word_len(s: Seq<char>) -> int
    decreases s.len(),
{
    if s.len() == 0 || is_whitespace(s[0]) {
        0
    } else {
        1 + word_len(s.drop_first())
    }
}

pub proof fn lemma_word_len_is(s: Seq<char>, i: int)
    requires
        0 <= i <= s.len(),
        forall|j: int| 0 <= j < i ==> !is_whitespace(s[j]),
        i < s.len() ==> is_whitespace(s[i]),
    ensures
        word_len(s) == i,
    decreases s.len(),
{
    if s.len() == 0 || is_whitespace(s[0]) {
    } else {
        assert forall|j: int| 0 <= j < i - 1 implies !is_whitespace(s.drop_first()[j]) by {
            assert(s.drop_first()[j] == s[j + 1]);
        }
        lemma_word_len_is(s.drop_first(), i - 1);
    }
}

/// The first word of `s`: what stands between the whitespace at its
/// beginning and the next whitespace.
pub open spec fn first_word(s: Seq<char>) -> Seq<char> {
    let t = skip_whitespace(s);
    t.take(word_len(t))
}

/// What follows the first word of `s`.
pub open spec fn after_first_word(s: Seq<char>) -> Seq<char> {
    let t = skip_whitespace(s);
    t.skip(word_len(t))
}

/// Splits a text into its first word and the rest.
pub fn split_word(v: &Vec<char>) -> (r: (Vec<char>, Vec<char>))
    ensures
        r.0@ == first_word(v@),
        r.1@ == after_first_word(v@),
{
    let n: usize = v.len();
    let mut a: usize = 0;
    proof {
        assert(v@.subrange(0, n as int) =~= v@);
    }
    while a < n && char_is_whitespace(v[a])
        invariant
            a <= n,
            n == v.len(),
            skip_whitespace(v@) == skip_whitespace(v@.subrange(a as int, n as int)),
        decreases n - a,
    {
        proof {
            assert(v@.subrange(a as int, n as int).drop_first() =~= v@.subrange(
                a + 1,
                n as int,
            ));
        }
        a += 1;
    }
    let ghost t = v@.subrange(a as int, n as int);
    assert(skip_whitespace(v@) == t);
    let mut b: usize = a;
    while b < n && !char_is_whitespace(v[b])
        invariant
            a <= b <= n,
            n == v.len(),
            forall|j: int| a <= j < b ==> !is_whitespace(v@[j]),
        decreases n - b,
    {
        b += 1;
    }
    proof {
        lemma_word_len_is(t, b - a);
    }
    let word = slice_chars(v, a, b);
    let rest = slice_chars(v, b, n);
    proof {
        assert(word@ =~= t.take(b - a));
        assert(rest@ =~= t.skip(b - a));
    }
    (word, rest)
}

/// `s` begins with `prefix`.
pub open spec fn has_prefix(s: Seq<char>, prefix: Seq<char>) -> bool {
    s.len() >= prefix.len() && s.take(prefix.len() as int) == prefix
}

fn starts_with(v: &Vec<char>, prefix: &Vec<char>) -> (r: bool)
    ensures
        r == has_prefix(v@, prefix@),
{
    if v.len() < prefix.len() {
        return false;
    }
    let head = slice_chars(v, 0, prefix.len());
    proof {
        assert(head@ =~= v@.take(prefix.len() as int));
    }
    chars_eq(&head, prefix)
}

/// The page and status to answer a callback with.
#[derive(Debug, PartialEq, Eq)]
pub struct CallbackReply {
    pub status_code: u16,
    pub status_text: String,
    pub body_text: String,
}

pub struct CallbackReplyView {
    pub status_code: u16,
    pub status_text: Seq<char>,
    pub body_text: Seq<char>,
}

impl DeepView for CallbackReply {
    type V = CallbackReplyView;

    open spec fn deep_view(&self) -> CallbackReplyView {
        CallbackReplyView {
            status_code: self.status_code,
            status_text: self.status_text@,
            body_text: self.body_text@,
        }
    }
}

/// What a callback comes to: the answer to send, if any, and the exchange
/// code, where the callback brought a good one.
#[derive(Debug, PartialEq, Eq)]
pub struct Callback {
    pub reply: Option<CallbackReply>,
    pub code: Option<String>,
}

pub struct CallbackView {
    pub reply: Option<CallbackReplyView>,
    pub code: Option<Seq<char>>,
}

impl DeepView for Callback {
    type V = CallbackView;

    open spec fn deep_view(&self) -> CallbackView {
        CallbackView { reply: self.reply.deep_view(), code: self.code.deep_view() }
    }
}

/// Why the login failed.
#[derive(Debug, Clone, Copy, PartialEq, Eq, Structural)]
pub enum LoginError {
    /// The target of the callback is no address.
    BadCallbackUrl,
    /// No callback came in time.
    TimedOut,
    /// The listener broke.
    ListenerFailed,
}

pub open spec fn login_error_message(error: LoginError) -> Seq<char> {
    match error {
        LoginError::BadCallbackUrl => "failed to parse callback URL"@,
        LoginError::TimedOut => "login timed out waiting for browser callback"@,
        LoginError::ListenerFailed => "failed while waiting for browser callback"@,
    }
}

impl LoginError {
    pub fn message(self) -> (r: &'static str)
        ensures
            r@ == login_error_message(self),
    {
        match self {
            LoginError::BadCallbackUrl => "failed to parse callback URL",
            LoginError::TimedOut => "login timed out waiting for browser callback",
            LoginError::ListenerFailed => "failed while waiting for browser callback",
        }
    }
}

/// A callback that is refused or accepted with a page.
pub open spec fn answered(
    status_code: u16,
    status_text: Seq<char>,
    body_text: Seq<char>,
    code: Option<Seq<char>>,
) -> CallbackView {
    CallbackView { reply: Some(CallbackReplyView { status_code, status_text, body_text }), code }
}

fn answer(status_code: u16, status_text: &str, body_text: &str, code: Option<String>) -> (r:
    Callback)
    ensures
        r.deep_view() == answered(status_code, status_text@, body_text@, code.deep_view()),
{
    Callback {
        reply: Some(
            CallbackReply {
                status_code,
                status_text: status_text.to_owned(),
                body_text: body_text.to_owned(),
            },
        ),
        code,
    }
}

/// What `Url::parse` and `Url::query_pairs` give for an address: `None`
/// where it cannot be parsed, else the pairs of its query, decoded and in
/// order.
pub uninterp spec fn query_pairs_of(url: Seq<char>) -> Option<Seq<(Seq<char>, Seq<char>)>>;

/// Calls `reqwest::Url::parse` and, on the address parsed,
/// `Url::query_pairs`. The contract only names the result.
#[verifier::external_body]
fn parse_query_pairs(url: &str) -> (r: Option<Vec<(String, String)>>)
    ensures
        r.deep_view() == query_pairs_of(url@),
{
    let parsed = reqwest::Url::parse(url).ok()?;
    Some(parsed.query_pairs().map(|(k, v)| (k.into_owned(), v.into_owned())).collect())
}

/// The value of the first pair called `key`.
pub open spec fn first_value(pairs: Seq<(Seq<char>, Seq<char>)>, key: Seq<char>) -> Option<
    Seq<char>,
>
    decreases pairs.len(),
{
    if pairs.len() == 0 {
        None
    } else if pairs[0].0 == key {
        Some(pairs[0].1)
    } else {
        first_value(pairs.drop_first(), key)
    }
}

fn find_value(pairs: &Vec<(String, String)>, key: &str) -> (r: Option<String>)
    ensures
        r.deep_view() == first_value(pairs.deep_view(), key@),
{
    let ghost all = pairs.deep_view();
    let mut i: usize = 0;
    proof {
        assert(all.subrange(0, pairs.len() as int) =~= all);
    }
    while i < pairs.len()
        invariant
            i <= pairs.len(),
            all == pairs.deep_view(),
            all.len() == pairs.len(),
            first_value(all, key@) == first_value(
                all.subrange(i as int, pairs.len() as int),
                key@,
            ),
        decreases pairs.len() - i,
    {
        let ghost rest = all.subrange(i as int, pairs.len() as int);
        assert(rest[0] == pairs[i as int].deep_view());
        if str_eq(pairs[i].0.as_str(), key) {
            return Some(pairs[i].1.clone());
        }
        proof {
            assert(rest.drop_first() =~= all.subrange(i + 1, pairs.len() as int));
        }
        i += 1;
    }
    None
}

/// The answer to a callback with the given query: the code must be there,
/// and the state must be the one that was sent out.
pub open spec fn query_answer(
    pairs: Seq<(Seq<char>, Seq<char>)>,
    expected_state: Seq<char>,
) -> CallbackView {
    let code = match first_value(pairs, "code"@) {
        Some(c) => c,
        None => Seq::empty(),
    };
    let state = match first_value(pairs, "state"@) {
        Some(s) => s,
        None => Seq::empty(),
    };
    if code.len() == 0 {
        answered(400, "Bad Request"@, "Missing exchange code in callback."@, None)
    } else if state != expected_state {
        answered(400, "Bad Request"@, "State mismatch. Please retry `cadence login`."@, None)
    } else {
        answered(200, "OK"@, "Authentication complete. You can close this tab."@, Some(code))
    }
}

/// Answers a callback whose query was read.
pub fn callback_answer(pairs: &Vec<(String, String)>, expected_state: &str) -> (r: Callback)
    ensures
        r.deep_view() == query_answer(pairs.deep_view(), expected_state@),
{
    let code = match find_value(pairs, "code") {
        Some(c) => c,
        None => String::new(),
    };
    let state = match find_value(pairs, "state") {
        Some(s) => s,
        None => String::new(),
    };
    if to_chars(code.as_str()).len() == 0 {
        answer(400, "Bad Request", "Missing exchange code in callback.", None)
    } else if !str_eq(state.as_str(), expected_state) {
        answer(400, "Bad Request", "State mismatch. Please retry `cadence login`.", None)
    } else {
        answer(200, "OK", "Authentication complete. You can close this tab.", Some(code))
    }
}

/// The first line of a request.
pub open spec fn request_line(request: Seq<char>) -> Seq<char> {
    request.take(line_end(request))
}

/// What a request comes to. An empty request gets no answer; a request
/// that is no `GET`, or for another path, is refused; the query of any
/// other is read and answered.
pub open spec fn callback_of(request: Seq<char>, expected_state: Seq<char>) -> Result<
    CallbackView,
    LoginError,
> {
    let line = request_line(request);
    let method = first_word(line);
    let target = first_word(after_first_word(line));
    if request.len() == 0 {
        Ok(CallbackView { reply: None, code: None })
    } else if method != "GET"@ {
        Ok(answered(405, "Method Not Allowed"@, "Only GET callbacks are supported."@, None))
    } else if !has_prefix(target, "/callback"@) {
        Ok(answered(404, "Not Found"@, "Not a Cadence callback URL."@, None))
    } else {
        match query_pairs_of("http://127.0.0.1"@ + target) {
            None => Err(LoginError::BadCallbackUrl),
            Some(pairs) => Ok(query_answer(pairs, expected_state)),
        }
    }
}

/// Reads the request that the browser made and decides on the answer.
pub fn handle_callback_request(request: &str, expected_state: &str) -> (r: Result<
    Callback,
    LoginError,
>)
    ensures
        match callback_of(request@, expected_state@) {
            Ok(callback) => r matches Ok(got) && got.deep_view() == callback,
            Err(error) => r == Err::<Callback, LoginError>(error),
        },
{
    let chars = to_chars(request);
    if chars.len() == 0 {
        return Ok(Callback { reply: None, code: None });
    }
    let end: usize = match find_char(&chars, '\n') {
        Some(i) => i,
        None => chars.len(),
    };
    let line = slice_chars(&chars, 0, end);
    proof {
        assert(line@ =~= request_line(request@));
    }
    let (method, rest) = split_word(&line);
    let (target, _) = split_word(&rest);
    if !chars_eq(&method, &to_chars("GET")) {
        return Ok(answer(405, "Method Not Allowed", "Only GET callbacks are supported.", None));
    }
    if !starts_with(&target, &to_chars("/callback")) {
        return Ok(answer(404, "Not Found", "Not a Cadence callback URL.", None));
    }
    let url = concat("http://127.0.0.1", from_chars(&target).as_str());
    match parse_query_pairs(url.as_str()) {
        None => Err(LoginError::BadCallbackUrl),
        Some(pairs) => Ok(callback_answer(&pairs, expected_state)),
    }
}

/// How long to sleep when no connection is waiting, in milliseconds.
pub const POLL_INTERVAL_MILLIS: u64 = 50;

/// What the listener brought.
#[derive(Debug, PartialEq, Eq)]
pub enum Arrival {
    /// The text of the request that a connection sent.
    Request(String),
    /// No connection is waiting.
    Nothing,
    /// The listener failed.
    Failed(String),
}

pub enum ArrivalView {
    Request(Seq<char>),
    Nothing,
    Failed(Seq<char>),
}

impl DeepView for Arrival {
    type V = ArrivalView;

    open spec fn deep_view(&self) -> ArrivalView {
        match self {
            Arrival::Request(t) => ArrivalView::Request(t@),
            Arrival::Nothing => ArrivalView::Nothing,
            Arrival::Failed(m) => ArrivalView::Failed(m@),
        }
    }
}

/// What to do while waiting for the callback.
#[derive(Debug, PartialEq, Eq)]
pub enum Waiting {
    /// Send the reply, if there is one; the wait is over where the
    /// callback brought the exchange code.
    Answer(Callback),
    /// Sleep for the poll interval, then look again.
    Sleep,
    /// Give up.
    Fail(LoginError),
}

pub enum WaitingView {
    Answer(CallbackView),
    Sleep,
    Fail(LoginError),
}

impl DeepView for Waiting {
    type V = WaitingView;

    open spec fn deep_view(&self) -> WaitingView {
        match self {
            Waiting::Answer(c) => WaitingView::Answer(c.deep_view()),
            Waiting::Sleep => WaitingView::Sleep,
            Waiting::Fail(e) => WaitingView::Fail(*e),
        }
    }
}

/// One round of the wait: past the deadline the login has timed out;
/// before it, a request is answered, and an idle listener is looked at
/// again after a sleep.
pub open spec fn wait_round(
    timed_out: bool,
    arrival: ArrivalView,
    expected_state: Seq<char>,
) -> WaitingView {
    if timed_out {
        WaitingView::Fail(LoginError::TimedOut)
    } else {
        match arrival {
            ArrivalView::Request(text) => match callback_of(text, expected_state) {
                Ok(callback) => WaitingView::Answer(callback),
                Err(error) => WaitingView::Fail(error),
            },
            ArrivalView::Nothing => WaitingView::Sleep,
            ArrivalView::Failed(_) => WaitingView::Fail(LoginError::ListenerFailed),
        }
    }
}

/// Decides one round of the wait for the exchange code.
pub fn wait_for_exchange_code(timed_out: bool, arrival: &Arrival, expected_state: &str) -> (r:
    Waiting)
    ensures
        r.deep_view() == wait_round(timed_out, arrival.deep_view(), expected_state@),
{
    if timed_out {
        return Waiting::Fail(LoginError::TimedOut);
    }
    match arrival {
        Arrival::Request(text) => match handle_callback_request(text.as_str(), expected_state) {
            Ok(callback) => Waiting::Answer(callback),
            Err(error) => Waiting::Fail(error),
        },
        Arrival::Nothing => Waiting::Sleep,
        Arrival::Failed(_) => Waiting::Fail(LoginError::ListenerFailed),
    }
}

} // verus!
