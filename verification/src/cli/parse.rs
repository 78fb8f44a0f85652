//! Parsers for the values of command line options.

use crate::text::{
    all_digits, chars_of, find_char, has_char, parse_u64, parse_u64_spec, push_str, split_whitespace,
    string_from_chars, substring, views_of, words,
};
use vstd::prelude::*;

verus! {

/// Why an option's value was refused; the text is shown to the user.
#[derive(Debug)]
pub struct CliError {
    pub message: String,
}

fn cli_error(message: &str) -> (e: CliError)
    ensures
        e.message@ == message@,
{
    CliError { message: message.to_owned() }
}

/// The message for a value without the `:` that separates its two parts.
pub open spec fn no_colon_message(what: Seq<char>, input: Seq<char>) -> Seq<char> {
    "Invalid "@ + what + ": no `:` found in "@ + input
}

fn no_colon_error(what: &str, input: &str) -> (e: CliError)
    ensures
        e.message@ == no_colon_message(what@, input@),
{
    let mut m = "Invalid ".to_owned();
    push_str(&mut m, what);
    push_str(&mut m, ": no `:` found in ");
    push_str(&mut m, input);
    CliError { message: m }
}

/// Splits `username:password` at its first colon.
pub fn parse_auth(input: &str) -> (r: Result<(String, String), CliError>)
    ensures
        r is Ok <==> has_char(input@, ':'),
        r matches Ok((user, pass)) ==> input@ == user@ + seq![':'] + pass@ && !has_char(user@, ':'),
        r matches Err(e) ==> e.message@ == no_colon_message("username:password"@, input@),
{
    let cs = chars_of(input);
    match find_char(&cs, ':') {
        None => Err(no_colon_error("username:password", input)),
        Some(pos) => {
            assert(pos < cs.len());
            let user = substring(&cs, 0, pos);
            let pass = substring(&cs, pos + 1, cs.len());
            assert(input@ =~= user@ + seq![':'] + pass@);
            Ok((user, pass))
        },
    }
}

/// The lower-case form of a text, as `str::to_lowercase` gives it.
pub uninterp spec fn lowercase(s: Seq<char>) -> Seq<char>;

/// Lower-cases a text with `str::to_lowercase`.  Trusted: the result is
/// what `lowercase` names for the text (Unicode's lower-case mapping, which
/// depends on the text alone).
#[verifier::external_body]
fn to_lowercase(s: &str) -> (r: String)
    ensures
        r@ == lowercase(s@),
{
    s.to_lowercase()
}

/// How many seconds a unit of time stands for.
pub open spec fn unit_seconds(unit: Seq<char>) -> Option<u64> {
    if unit == "second"@ || unit == "sec"@ || unit == "s"@ {
        Some(1)
    } else if unit == "minute"@ || unit == "min"@ {
        Some(60)
    } else if unit == "hour"@ || unit == "h"@ {
        Some(3600)
    } else if unit == "day"@ || unit == "d"@ {
        Some(86400)
    } else if unit == "week"@ || unit == "w"@ {
        Some(604800)
    } else if unit == "month"@ {
        Some(2592000)
    } else if unit == "year"@ || unit == "y"@ {
        Some(31104000)
    } else {
        None
    }
}

/// What `parse_expire_parts` reads: two words, a number and a unit (any
/// case), as the number and the unit's length in seconds.
pub open spec fn expire_parts(input: Seq<char>) -> Option<(u64, u64)> {
    let ws = words(input);
    if ws.len() != 2 {
        None
    } else {
        match (parse_u64_spec(ws[0]), unit_seconds(lowercase(ws[1]))) {
            (Some(v), Some(m)) => Some((v, m)),
            _ => None,
        }
    }
}

/// The message for the part of an expiry time that is not a number.
pub open spec fn number_message(word: Seq<char>) -> Seq<char> {
    let digits = if word.len() > 0 && word[0] == '+' { word.skip(1) } else { word };
    if digits.len() > 0 && all_digits(digits) {
        "number too large to fit in target type"@
    } else {
        "invalid digit found in string"@
    }
}

/// How many seconds a (lower-case) unit of time stands for.
pub fn unit_seconds_of(unit: &str) -> (r: Option<u64>)
    ensures
        r == unit_seconds(unit@),
{
    let u = unit.to_owned();
    if u == "second".to_owned() || u == "sec".to_owned() || u == "s".to_owned() {
        Some(1)
    } else if u == "minute".to_owned() || u == "min".to_owned() {
        Some(60)
    } else if u == "hour".to_owned() || u == "h".to_owned() {
        Some(3600)
    } else if u == "day".to_owned() || u == "d".to_owned() {
        Some(3600 * 24)
    } else if u == "week".to_owned() || u == "w".to_owned() {
        Some(3600 * 24 * 7)
    } else if u == "month".to_owned() {
        Some(3600 * 24 * 30)
    } else if u == "year".to_owned() || u == "y".to_owned() {
        Some(3600 * 24 * 30 * 12)
    } else {
        None
    }
}

fn number_error(word: &String) -> (e: CliError)
    ensures
        e.message@ == number_message(word@),
{
    let cs = chars_of(word.as_str());
    let start: usize = if cs.len() > 0 && cs[0] == '+' { 1 } else { 0 };
    let ghost digits = if word@.len() > 0 && word@[0] == '+' { word@.skip(1) } else { word@ };
    assert(digits =~= cs@.skip(start as int));
    let mut all = start < cs.len();
    let mut i = start;
    while i < cs.len()
        invariant
            start <= i <= cs@.len(),
            digits == cs@.skip(start as int),
            all == (start < cs@.len() && forall|k: int| start <= k < i ==> #[trigger] crate::text::is_digit(cs@[k])),
        decreases cs@.len() - i,
    {
        if !('0' <= cs[i] && cs[i] <= '9') {
            all = false;
            assert(!crate::text::is_digit(cs@[i as int]));
        }
        assert((forall|k: int| start <= k < i + 1 ==> #[trigger] crate::text::is_digit(cs@[k]))
            <==> ((forall|k: int| start <= k < i ==> #[trigger] crate::text::is_digit(cs@[k]))
            && crate::text::is_digit(cs@[i as int])));
        i = i + 1;
    }
    assert(all == (digits.len() > 0 && all_digits(digits))) by {
        if all {
            assert forall|k: int| 0 <= k < digits.len() implies #[trigger] crate::text::is_digit(digits[k]) by {
                assert(digits[k] == cs@[k + start]);
            }
        }
        if digits.len() > 0 && all_digits(digits) {
            assert forall|k: int| start <= k < i implies #[trigger] crate::text::is_digit(cs@[k]) by {
                assert(cs@[k] == digits[k - start]);
            }
        }
    }
    if all {
        cli_error("number too large to fit in target type")
    } else {
        cli_error("invalid digit found in string")
    }
}

/// Splits an expiry time such as `10 min` into the number and the length of
/// its unit in seconds.  Anything but two words, a number and a known unit
/// (`second`/`sec`/`s`, `minute`/`min`, `hour`/`h`, `day`/`d`, `week`/`w`,
/// `month`, `year`/`y`, in any case) is refused.
pub fn parse_expire_parts(input: &str) -> (r: Result<(u64, u64), CliError>)
    ensures
        match r {
            Ok(parts) => expire_parts(input@) == Some(parts),
            Err(_) => expire_parts(input@) is None,
        },
        r matches Err(e) ==> {
            let ws = words(input@);
            if ws.len() == 2 && parse_u64_spec(ws[0]) is None {
                e.message@ == number_message(ws[0])
            } else {
                e.message@ == "Invalid expire time format"@
            }
        },
{
    let ws = split_whitespace(input);
    if ws.len() != 2 {
        return Err(cli_error("Invalid expire time format"));
    }
    assert(views_of(ws@)[0] == ws@[0]@);
    assert(views_of(ws@)[1] == ws@[1]@);
    let number = string_from_chars(ws[0].as_slice());
    let unit = string_from_chars(ws[1].as_slice());
    let value = match parse_u64(number.as_str()) {
        Some(v) => v,
        None => return Err(number_error(&number)),
    };
    let lowered = to_lowercase(unit.as_str());
    match unit_seconds_of(lowered.as_str()) {
        Some(m) => Ok((value, m)),
        None => Err(cli_error("Invalid expire time format")),
    }
}

/// Reads an expiry time such as `10 min` as a number of seconds.
pub fn parse_expire_time(input: &str) -> (r: Result<u64, CliError>)
    requires
        expire_parts(input@) matches Some((v, m)) ==> v * m <= u64::MAX,
    ensures
        match expire_parts(input@) {
            Some((v, m)) => r == Ok::<u64, CliError>((v * m) as u64),
            None => r is Err,
        },
{
    let (value, multiplier) = parse_expire_parts(input)?;
    Ok(value * multiplier)
}

/// Reads an expiry time such as `10 min` as a number of seconds, or `None`
/// when the number of seconds does not fit in a `u64`.
pub fn try_parse_expire_time(input: &str) -> (r: Option<Result<u64, CliError>>)
    ensures
        match expire_parts(input@) {
            Some((v, m)) => if v * m <= u64::MAX {
                r == Some(Ok::<u64, CliError>((v * m) as u64))
            } else {
                r is None
            },
            None => r matches Some(Err(_)),
        },
{
    match parse_expire_parts(input) {
        Ok((v, m)) => {
            if v.checked_mul(m).is_none() {
                return None;
            }
            Some(parse_expire_time(input))
        },
        Err(e) => Some(Err(e)),
    }
}

} // verus!

verus! {

/// A 32-byte encryption key.
#[derive(Debug)]
pub struct KeyType(Vec<u8>);

/// A 19-byte nonce.
#[derive(Debug)]
pub struct NonceType(Vec<u8>);

/// A key and a nonce for encrypting files before upload.
#[derive(Debug)]
pub struct KeyNonce {
    pub key: KeyType,
    pub nonce: NonceType,
}

impl View for KeyType {
    type V = Seq<u8>;

    closed spec fn view(&self) -> Seq<u8> {
        self.0@
    }
}

impl View for NonceType {
    type V = Seq<u8>;

    closed spec fn view(&self) -> Seq<u8> {
        self.0@
    }
}

impl KeyType {
    /// The key's bytes.
    pub fn as_slice(&self) -> (r: &[u8])
        ensures
            r@ == self@,
    {
        self.0.as_slice()
    }
}

impl NonceType {
    /// The nonce's bytes.
    pub fn as_slice(&self) -> (r: &[u8])
        ensures
            r@ == self@,
    {
        self.0.as_slice()
    }
}

/// The length of a key, in bytes.
pub const KEY_LEN: usize = 32;

/// The length of a nonce, in bytes.
pub const NONCE_LEN: usize = 19;

/// Whether every character is ASCII.
pub open spec fn all_ascii(s: Seq<char>) -> bool {
    forall|i: int| 0 <= i < s.len() ==> (#[trigger] s[i] as u32) < 128
}

/// The bytes of an ASCII text.
pub open spec fn ascii_bytes(s: Seq<char>) -> Seq<u8> {
    s.map_values(|c: char| (c as u32) as u8)
}

fn ascii_check(s: &Vec<char>, from: usize, to: usize) -> (r: bool)
    requires
        from <= to <= s@.len(),
    ensures
        r == all_ascii(s@.subrange(from as int, to as int)),
{
    for i in from..to
        invariant
            to <= s@.len(),
            all_ascii(s@.subrange(from as int, i as int)),
    {
        if !((s[i] as u32) < 128) {
            assert(s@.subrange(from as int, to as int)[i - from] == s@[i as int]);
            return false;
        }
        assert forall|k: int| 0 <= k < i + 1 - from implies (#[trigger] s@.subrange(from as int, i + 1)[k] as u32) < 128 by {
            if k < i - from {
                assert(s@.subrange(from as int, i + 1)[k] == s@.subrange(from as int, i as int)[k]);
            }
        }
    }
    true
}

fn bytes_of_ascii(s: &Vec<char>, from: usize, to: usize) -> (r: Vec<u8>)
    requires
        from <= to <= s@.len(),
        all_ascii(s@.subrange(from as int, to as int)),
    ensures
        r@ == ascii_bytes(s@.subrange(from as int, to as int)),
{
    let mut r: Vec<u8> = Vec::new();
    for i in from..to
        invariant
            to <= s@.len(),
            all_ascii(s@.subrange(from as int, to as int)),
            r@ == ascii_bytes(s@.subrange(from as int, i as int)),
    {
        assert(s@.subrange(from as int, to as int)[i - from] == s@[i as int]);
        let c = s[i];
        let b = (c as u32) as u8;
        r.push(b);
        assert(s@.subrange(from as int, i + 1) =~= s@.subrange(from as int, i as int).push(c));
        assert(r@ =~= ascii_bytes(s@.subrange(from as int, i + 1)));
    }
    r
}

/// The outcome of reading `key:nonce`: the key must be 32 ASCII characters
/// and the nonce 19.
pub open spec fn key_nonce_parts(input: Seq<char>) -> Option<(Seq<u8>, Seq<u8>)> {
    if !has_char(input, ':') || !all_ascii(input) {
        None
    } else {
        let pos = choose|p: int| 0 <= p < input.len() && input[p] == ':' && !has_char(input.take(p), ':');
        let key = input.take(pos);
        let nonce = input.skip(pos + 1);
        if key.len() == KEY_LEN && nonce.len() == NONCE_LEN {
            Some((ascii_bytes(key), ascii_bytes(nonce)))
        } else {
            None
        }
    }
}

/// Reads a key and a nonce written as `key:nonce`; both must be ASCII, the
/// key 32 characters long and the nonce 19.
pub fn parse_key_nonce(input: &str) -> (r: Result<KeyNonce, CliError>)
    ensures
        match key_nonce_parts(input@) {
            Some((k, n)) => r matches Ok(kn) && kn.key@ == k && kn.nonce@ == n,
            None => r is Err,
        },
        !has_char(input@, ':') ==> (r matches Err(e) && e.message@ == no_colon_message("key:nonce"@, input@)),
{
    let cs = chars_of(input);
    let pos = match find_char(&cs, ':') {
        Some(p) => p,
        None => return Err(no_colon_error("key:nonce", input)),
    };
    proof {
        let q = choose|q: int| 0 <= q < input@.len() && input@[q] == ':' && !has_char(input@.take(q), ':');
        if q < pos {
            assert(cs@.take(pos as int)[q] == ':');
        } else if q > pos {
            assert(input@.take(q)[pos as int] == ':');
        }
    }
    let key_ascii = ascii_check(&cs, 0, pos);
    let nonce_ascii = ascii_check(&cs, pos, cs.len());
    proof {
        assert(all_ascii(input@) <==> all_ascii(cs@.subrange(0, pos as int)) && all_ascii(cs@.subrange(pos as int, cs@.len() as int))) by {
            if all_ascii(cs@.subrange(0, pos as int)) && all_ascii(cs@.subrange(pos as int, cs@.len() as int)) {
                assert forall|i: int| 0 <= i < input@.len() implies (#[trigger] input@[i] as u32) < 128 by {
                    if i < pos {
                        assert(cs@.subrange(0, pos as int)[i] == input@[i]);
                    } else {
                        assert(cs@.subrange(pos as int, cs@.len() as int)[i - pos] == input@[i]);
                    }
                }
            }
            if all_ascii(input@) {
                assert forall|i: int| 0 <= i < pos implies (#[trigger] cs@.subrange(0, pos as int)[i] as u32) < 128 by {
                    assert(cs@.subrange(0, pos as int)[i] == input@[i]);
                }
                assert forall|i: int| 0 <= i < cs@.len() - pos implies (#[trigger] cs@.subrange(pos as int, cs@.len() as int)[i] as u32) < 128 by {
                    assert(cs@.subrange(pos as int, cs@.len() as int)[i] == input@[i + pos]);
                }
            }
        }
    }
    if !key_ascii || !nonce_ascii {
        return Err(cli_error("ASCII characters should be used for the `key_nonce`."));
    }
    if pos != KEY_LEN {
        return Err(cli_error("The key should be 32 characters in length."));
    }
    if cs.len() - pos - 1 != NONCE_LEN {
        return Err(cli_error("The nonce should be 19 characters in length."));
    }
    proof {
        assert forall|i: int| 0 <= i < cs@.len() - pos - 1 implies (#[trigger] cs@.subrange(pos + 1, cs@.len() as int)[i] as u32) < 128 by {
            assert(cs@.subrange(pos + 1, cs@.len() as int)[i] == cs@.subrange(pos as int, cs@.len() as int)[i + 1]);
        }
    }
    let key = bytes_of_ascii(&cs, 0, pos);
    let nonce = bytes_of_ascii(&cs, pos + 1, cs.len());
    assert(cs@.subrange(0, pos as int) =~= input@.take(pos as int));
    assert(cs@.subrange(pos + 1, cs@.len() as int) =~= input@.skip(pos + 1));
    Ok(KeyNonce { key: KeyType(key), nonce: NonceType(nonce) })
}

/// The extension of a path, as `Path::extension` gives it.
pub uninterp spec fn path_extension(p: Seq<char>) -> Option<Seq<char>>;

/// The last component of a path, as `Path::file_name` gives it.
pub uninterp spec fn path_file_name(p: Seq<char>) -> Option<Seq<char>>;

/// The path without its last component, as `Path::parent` gives it.
pub uninterp spec fn path_parent(p: Seq<char>) -> Option<Seq<char>>;

/// Whether a path has an extension, by `Path::extension`.  Trusted: the
/// answer is whether `path_extension` names one for the path.
#[verifier::external_body]
fn has_extension(p: &str) -> (r: bool)
    ensures
        r == path_extension(p@) is Some,
{
    std::path::Path::new(p).extension().is_some()
}

/// The last component of a path, by `Path::file_name`.  Trusted: the result
/// is what `path_file_name` names for the path (the component of a path given
/// as text is text again).
#[verifier::external_body]
fn file_name_of(p: &str) -> (r: Option<String>)
    ensures
        match r {
            Some(n) => path_file_name(p@) == Some(n@),
            None => path_file_name(p@) is None,
        },
{
    match std::path::Path::new(p).file_name() {
        Some(n) => Some(n.to_string_lossy().into_owned()),
        None => None,
    }
}

/// The parent of a path, by `Path::parent`.  Trusted: the result is what
/// `path_parent` names for the path.
#[verifier::external_body]
fn parent_of(p: &str) -> (r: Option<String>)
    ensures
        match r {
            Some(n) => path_parent(p@) == Some(n@),
            None => path_parent(p@) is None,
        },
{
    match std::path::Path::new(p).parent() {
        Some(n) => Some(n.to_string_lossy().into_owned()),
        None => None,
    }
}

/// Accepts a file name only if it has an extension.
pub fn parse_file_name(file_name: &str) -> (r: Result<String, CliError>)
    ensures
        path_extension(file_name@) is Some ==> (r matches Ok(n) && n@ == file_name@),
        path_extension(file_name@) is None ==> (r matches Err(e) && e.message@
            == "The file name should include an extension."@),
{
    if !has_extension(file_name) {
        return Err(cli_error("The file name should include an extension."));
    }
    Ok(file_name.to_owned())
}

/// Accepts a source file given the outcome of making its path canonical (the
/// canonical path, or the text of the failure) and whether that path names a
/// directory: a path that cannot be made canonical, or a directory, is refused.
pub fn parse_source_file(canonical: Result<String, String>, is_dir: bool) -> (r: Result<String, CliError>)
    ensures
        match canonical {
            Err(m) => r matches Err(e) && e.message@ == m@,
            Ok(p) => if is_dir {
                r matches Err(e) && e.message@ == "The source file option should be set to the path file."@
            } else {
                r matches Ok(q) && q@ == p@
            },
        },
{
    match canonical {
        Err(m) => Err(CliError { message: m }),
        Ok(p) => {
            if is_dir {
                Err(cli_error("The source file option should be set to the path file."))
            } else {
                Ok(p)
            }
        },
    }
}

/// What remains to be done to turn a destination into the path to write.
#[derive(Debug)]
pub enum DestinationPlan {
    /// Use the destination as it is.
    Ready(String),
    /// Make the parent directory canonical, then append the file name.
    JoinToCanonicalParent { parent: String, file_name: String },
    /// Make the whole destination canonical.
    Canonicalize(String),
}

/// The view of an optional text.
pub open spec fn opt_text(o: Option<String>) -> Option<Seq<char>> {
    match o {
        Some(s) => Some(s@),
        None => None,
    }
}

/// What resolving a destination means, given its last component and its
/// parent as `Path` reads them.
pub open spec fn destination_plan(destination: Seq<char>, file_name: Option<Seq<char>>, parent: Option<Seq<char>>, r: DestinationPlan) -> bool {
    match file_name {
        Some(name) => match parent {
            Some(par) if par.len() > 0 => r matches DestinationPlan::JoinToCanonicalParent { parent: p, file_name: n }
                && p@ == par && n@ == name,
            _ => r matches DestinationPlan::Ready(d) && d@ == destination,
        },
        None => r matches DestinationPlan::Canonicalize(d) && d@ == destination,
    }
}

/// Decides how a destination is resolved from its last component and its
/// parent: with a file name and a non-empty parent, the parent is made
/// canonical and the name appended; with a file name but no such parent, the
/// destination is used as it is; without a file name (such as `..`), the
/// whole destination is made canonical.
pub fn plan_destination(destination: &str, file_name: Option<String>, parent: Option<String>) -> (r: DestinationPlan)
    ensures
        destination_plan(destination@, opt_text(file_name), opt_text(parent), r),
{
    match file_name {
        Some(name) => match parent {
            Some(parent) => {
                if parent.as_str().is_empty() {
                    DestinationPlan::Ready(destination.to_owned())
                } else {
                    DestinationPlan::JoinToCanonicalParent { parent, file_name: name }
                }
            },
            None => DestinationPlan::Ready(destination.to_owned()),
        },
        None => DestinationPlan::Canonicalize(destination.to_owned()),
    }
}

/// Decides how a destination is resolved, reading its last component and its
/// parent with `Path`.
pub fn parse_destination(destination: &str) -> (r: DestinationPlan)
    ensures
        destination_plan(destination@, path_file_name(destination@), path_parent(destination@), r),
{
    plan_destination(destination, file_name_of(destination), parent_of(destination))
}

} // verus!
