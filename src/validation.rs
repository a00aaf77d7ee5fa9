use vstd::prelude::*;
use vstd::string::*;
use crate::error::AuthFormatType;

verus! {

/// The pattern that a nickname must match: a letter, then 3 to 12 word characters.
pub const NICKNAME_PATTERN: &'static str = r"^[a-zA-Z]\w{3,12}$";

/// The characters of which a password needs at least one.
pub const SPECIAL_ASCII_CHARS: &'static str = "!@#$%^&*()";

/// Shortest accepted password, in characters.
pub const PASSWORD_MIN_CHARS: usize = 12;

/// Bound that a password's length stays under, in characters.
pub const PASSWORD_MAX_CHARS: usize = 128;

/// A field of a request that failed its validation rule.
#[derive(Debug, Clone, Copy, PartialEq, Eq, Structural)]
pub enum Violation {
    Nickname,
    Email,
    Password,
    GameVersion,
    ApiKey,
}

/// Whether regex's `Regex::new(pattern)` compiles and `is_match` finds
/// `text` matching it.
pub uninterp spec fn regex_is_match(pattern: Seq<char>, text: Seq<char>) -> bool;

/// Whether garde's email rule accepts `s`.
pub uninterp spec fn garde_email_valid(s: Seq<char>) -> bool;

/// Relies on regex::Regex::new and Regex::is_match; a pattern that does not
/// compile matches nothing.
#[verifier::external_body]
fn pattern_matches(pattern: &str, text: &str) -> (r: bool)
    ensures
        r == regex_is_match(pattern@, text@),
{
    match regex::Regex::new(pattern) {
        Ok(re) => re.is_match(text),
        Err(_) => false,
    }
}

/// Relies on garde::rules::email::parse_email, which rejects the empty string.
#[verifier::external_body]
fn email_is_valid(s: &str) -> (r: bool)
    ensures
        r == garde_email_valid(s@),
        s@.len() == 0 ==> !r,
{
    garde::rules::email::parse_email(s).is_ok()
}

pub open spec fn is_ascii_upper(c: char) -> bool {
    'A' <= c && c <= 'Z'
}

pub open spec fn is_ascii_lower(c: char) -> bool {
    'a' <= c && c <= 'z'
}

pub open spec fn is_ascii_digit(c: char) -> bool {
    '0' <= c && c <= '9'
}

pub open spec fn is_special(c: char) -> bool {
    SPECIAL_ASCII_CHARS@.contains(c)
}

/// The password policy: 12 to 127 characters, with an ASCII uppercase
/// letter, an ASCII lowercase letter, a digit and one of `!@#$%^&*()`.
pub open spec fn password_is_valid(p: Seq<char>) -> bool {
    &&& PASSWORD_MIN_CHARS <= p.len() < PASSWORD_MAX_CHARS
    &&& exists|i: int| 0 <= i < p.len() && is_ascii_upper(#[trigger] p[i])
    &&& exists|i: int| 0 <= i < p.len() && is_ascii_lower(#[trigger] p[i])
    &&& exists|i: int| 0 <= i < p.len() && is_ascii_digit(#[trigger] p[i])
    &&& exists|i: int| 0 <= i < p.len() && is_special(#[trigger] p[i])
}

fn is_special_char(c: char) -> (r: bool)
    ensures
        r == is_special(c),
{
    let n = SPECIAL_ASCII_CHARS.unicode_len();
    let mut i: usize = 0;
    while i < n
        invariant
            n == SPECIAL_ASCII_CHARS@.len(),
            i <= n,
            forall|j: int| 0 <= j < i ==> SPECIAL_ASCII_CHARS@[j] != c,
        decreases n - i,
    {
        if SPECIAL_ASCII_CHARS.get_char(i) == c {
            return true;
        }
        i = i + 1;
    }
    false
}

/// Checks a password against the password policy.
pub fn validate_password(password: &str) -> (r: Result<(), Violation>)
    ensures
        r is Ok <==> password_is_valid(password@),
        r matches Err(v) ==> v == Violation::Password,
{
    let n = password.unicode_len();
    let mut upper = false;
    let mut lower = false;
    let mut digit = false;
    let mut special = false;
    let mut i: usize = 0;
    while i < n
        invariant
            n == password@.len(),
            i <= n,
            upper == exists|j: int| 0 <= j < i && is_ascii_upper(#[trigger] password@[j]),
            lower == exists|j: int| 0 <= j < i && is_ascii_lower(#[trigger] password@[j]),
            digit == exists|j: int| 0 <= j < i && is_ascii_digit(#[trigger] password@[j]),
            special == exists|j: int| 0 <= j < i && is_special(#[trigger] password@[j]),
        decreases n - i,
    {
        let c = password.get_char(i);
        proof {
            assert(password@[i as int] == c);
        }
        if 'A' <= c && c <= 'Z' {
            upper = true;
        }
        if 'a' <= c && c <= 'z' {
            lower = true;
        }
        if '0' <= c && c <= '9' {
            digit = true;
        }
        if is_special_char(c) {
            special = true;
        }
        i = i + 1;
    }
    if upper && lower && digit && special && PASSWORD_MIN_CHARS <= n && n < PASSWORD_MAX_CHARS {
        Ok(())
    } else {
        Err(Violation::Password)
    }
}

/// Checks a nickname against the nickname pattern.
pub fn validate_nickname(nickname: &str) -> (r: Result<(), Violation>)
    ensures
        r is Ok <==> regex_is_match(NICKNAME_PATTERN@, nickname@),
        r matches Err(v) ==> v == Violation::Nickname,
{
    if pattern_matches(NICKNAME_PATTERN, nickname) {
        Ok(())
    } else {
        Err(Violation::Nickname)
    }
}

/// Checks an email address with garde's email rule.
pub fn validate_email(email: &str) -> (r: Result<(), Violation>)
    ensures
        r is Ok <==> garde_email_valid(email@),
        r matches Err(v) ==> v == Violation::Email,
{
    if email_is_valid(email) {
        Ok(())
    } else {
        Err(Violation::Email)
    }
}

/// The violations among the three outcomes, in field order.
pub open spec fn collected(checks: Seq<(bool, Violation)>) -> Seq<Violation>
    decreases checks.len(),
{
    if checks.len() == 0 {
        Seq::empty()
    } else {
        let rest = collected(checks.drop_last());
        if checks.last().0 {
            rest
        } else {
            rest.push(checks.last().1)
        }
    }
}

/// The violation of the check at `i`, if it failed.
spec fn failed_at(checks: Seq<(bool, Violation)>, i: int) -> Seq<Violation> {
    if i < checks.len() && !checks[i].0 {
        seq![checks[i].1]
    } else {
        Seq::empty()
    }
}

/// `collected` of up to three checks, written out field by field.
proof fn lemma_collected_up_to_three(checks: Seq<(bool, Violation)>)
    requires
        checks.len() <= 3,
    ensures
        collected(checks) =~= failed_at(checks, 0) + failed_at(checks, 1) + failed_at(checks, 2),
{
    reveal_with_fuel(collected, 4);
    if checks.len() >= 1 {
        assert(checks.take(1).drop_last() =~= Seq::<(bool, Violation)>::empty());
    }
    if checks.len() >= 2 {
        assert(checks.take(2).drop_last() =~= checks.take(1));
    }
    if checks.len() == 3 {
        assert(checks.drop_last() =~= checks.take(2));
    }
    if checks.len() == 2 {
        assert(checks =~= checks.take(2));
        assert(checks.drop_last() =~= checks.take(1));
    }
    if checks.len() == 1 {
        assert(checks.drop_last() =~= Seq::<(bool, Violation)>::empty());
    }
    if checks.len() == 0 {
        assert(checks =~= Seq::<(bool, Violation)>::empty());
    }
}

/// The body of a registration.
#[derive(Debug)]
pub struct RegisterUserSchema {
    pub nickname: String,
    pub email: String,
    pub password: String,
}

/// The body of an email-and-password login.
#[derive(Debug)]
pub struct LoginUserSchema {
    pub email: String,
    pub password: String,
}

impl RegisterUserSchema {
    /// Every rule that the registration breaks, nickname, email and
    /// password in that order; empty when it is valid.
    pub fn validate(&self) -> (r: Vec<Violation>)
        ensures
            r@ == collected(
                seq![
                    (regex_is_match(NICKNAME_PATTERN@, self.nickname@), Violation::Nickname),
                    (garde_email_valid(self.email@), Violation::Email),
                    (password_is_valid(self.password@), Violation::Password),
                ],
            ),
    {
        let mut out: Vec<Violation> = Vec::new();
        if validate_nickname(self.nickname.as_str()).is_err() {
            out.push(Violation::Nickname);
        }
        if validate_email(self.email.as_str()).is_err() {
            out.push(Violation::Email);
        }
        if validate_password(self.password.as_str()).is_err() {
            out.push(Violation::Password);
        }
        let ghost checks = seq![
            (regex_is_match(NICKNAME_PATTERN@, self.nickname@), Violation::Nickname),
            (garde_email_valid(self.email@), Violation::Email),
            (password_is_valid(self.password@), Violation::Password),
        ];
        proof {
            lemma_collected_up_to_three(checks);
        }
        assert(out@ =~= collected(checks));
        out
    }
}

impl LoginUserSchema {
    /// Every rule that the login body breaks, email then password; empty
    /// when it is valid.
    pub fn validate(&self) -> (r: Vec<Violation>)
        ensures
            r@ == collected(
                seq![
                    (garde_email_valid(self.email@), Violation::Email),
                    (password_is_valid(self.password@), Violation::Password),
                ],
            ),
    {
        let mut out: Vec<Violation> = Vec::new();
        if validate_email(self.email.as_str()).is_err() {
            out.push(Violation::Email);
        }
        if validate_password(self.password.as_str()).is_err() {
            out.push(Violation::Password);
        }
        let ghost checks = seq![
            (garde_email_valid(self.email@), Violation::Email),
            (password_is_valid(self.password@), Violation::Password),
        ];
        proof {
            lemma_collected_up_to_three(checks);
        }
        assert(out@ =~= collected(checks));
        out
    }
}


/// The `format` query parameter of a login.
#[derive(Debug, Clone, Copy, PartialEq, Eq, Structural)]
pub enum FormatParamsAuth {
    Photon,
    NotExist,
}

/// `c` is `e`, or the ASCII uppercase form of `e`.
pub open spec fn same_ignoring_ascii_case(c: char, e: char) -> bool {
    c == e || ('A' <= c && c <= 'Z' && (c as u32) + 32 == (e as u32))
}

/// `a` equals `b` once its ASCII letters are lowercased.
pub open spec fn equals_ignoring_ascii_case(a: Seq<char>, b: Seq<char>) -> bool {
    a.len() == b.len() && forall|i: int| 0 <= i < a.len() ==> same_ignoring_ascii_case(#[trigger] a[i], b[i])
}

impl FormatParamsAuth {
    /// Reads the `format` parameter: `photon` in any ASCII case is the
    /// Photon format, anything else a format that does not exist.
    pub fn parse(value: &str) -> (r: FormatParamsAuth)
        ensures
            r is Photon <==> equals_ignoring_ascii_case(value@, "photon"@),
    {
        let expected = "photon";
        assert(expected@ == "photon"@);
        let n = value.unicode_len();
        let m = expected.unicode_len();
        if n != m {
            return FormatParamsAuth::NotExist;
        }
        let mut i: usize = 0;
        while i < n
            invariant
                n == value@.len(),
                m == expected@.len(),
                expected@ == "photon"@,
                n == m,
                i <= n,
                forall|j: int| 0 <= j < i ==> same_ignoring_ascii_case(#[trigger] value@[j], expected@[j]),
            decreases n - i,
        {
            let c = value.get_char(i);
            let e = expected.get_char(i);
            let same = c == e || ('A' <= c && c <= 'Z' && (c as u32) + 32 == (e as u32));
            if !same {
                assert(!same_ignoring_ascii_case(value@[i as int], expected@[i as int]));
                return FormatParamsAuth::NotExist;
            }
            i = i + 1;
        }
        FormatParamsAuth::Photon
    }
}

/// A value that is given but empty.
pub open spec fn present_but_empty(o: Option<String>) -> bool {
    o matches Some(s) && s@.len() == 0
}

/// The query parameters of a login.
#[derive(Debug)]
pub struct ParamsAuthenticate {
    pub format: Option<FormatParamsAuth>,
    pub game_version: Option<String>,
    pub api_key: Option<String>,
}

impl ParamsAuthenticate {
    /// Every rule that the parameters break: a `game_version` or an
    /// `api_key` that is present must not be empty.
    pub fn validate(&self) -> (r: Vec<Violation>)
        ensures
            r@ == collected(
                seq![
                    (!present_but_empty(self.game_version), Violation::GameVersion),
                    (!present_but_empty(self.api_key), Violation::ApiKey),
                ],
            ),
    {
        let mut out: Vec<Violation> = Vec::new();
        match &self.game_version {
            Some(g) => {
                if g.as_str().unicode_len() == 0 {
                    out.push(Violation::GameVersion);
                }
            },
            None => {},
        }
        match &self.api_key {
            Some(k) => {
                if k.as_str().unicode_len() == 0 {
                    out.push(Violation::ApiKey);
                }
            },
            None => {},
        }
        let ghost checks = seq![
            (!present_but_empty(self.game_version), Violation::GameVersion),
            (!present_but_empty(self.api_key), Violation::ApiKey),
        ];
        proof {
            lemma_collected_up_to_three(checks);
        }
        assert(out@ =~= collected(checks));
        out
    }

    /// The transport that the login answers on: Photon when asked for,
    /// the web otherwise.
    pub fn format_type(&self) -> (r: AuthFormatType)
        ensures
            r is Photon <==> self.format == Some(FormatParamsAuth::Photon),
    {
        match self.format {
            Some(FormatParamsAuth::Photon) => AuthFormatType::Photon,
            _ => AuthFormatType::Default,
        }
    }
}

} // verus!
