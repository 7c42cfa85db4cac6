use vstd::prelude::*;

verus! {

/// Longest accepted username, in extended grapheme clusters.
pub const MAX_NAME_GRAPHEMES: usize = 256;

/// Unicode `White_Space`, the set that `char::is_whitespace` and `str::trim` use.
pub open spec fn white_space(c: char) -> bool {
    let u = c as u32;
    (0x9 <= u && u <= 0xd) || u == 0x20 || u == 0x85 || u == 0xa0 || u == 0x1680 || (0x2000 <= u
        && u <= 0x200a) || u == 0x2028 || u == 0x2029 || u == 0x202f || u == 0x205f || u == 0x3000
}

/// Characters that a username may not hold.
pub open spec fn forbidden(c: char) -> bool {
    c == '/' || c == '(' || c == ')' || c == '"' || c == '<' || c == '>' || c == '\\' || c == '{'
        || c == '}'
}

/// `s.trim()` is empty: every character is white space (also when there is none).
pub open spec fn blank(s: Seq<char>) -> bool {
    forall|i: int| 0 <= i < s.len() ==> white_space(#[trigger] s[i])
}

pub open spec fn has_forbidden(s: Seq<char>) -> bool {
    exists|i: int| 0 <= i < s.len() && forbidden(#[trigger] s[i])
}

/// A username is accepted when it is not blank, has at most 256 grapheme
/// clusters and holds none of the forbidden characters.
pub open spec fn name_accepted(s: Seq<char>, graphemes: nat) -> bool {
    !blank(s) && graphemes <= MAX_NAME_GRAPHEMES && !has_forbidden(s)
}

/// Number of extended grapheme clusters in a text.
pub uninterp spec fn grapheme_count(s: Seq<char>) -> nat;

/// Relies on `UnicodeSegmentation::graphemes(s, true)`: the clusters split the
/// text into non-empty pieces, so there are no more of them than characters.
#[verifier::external_body]
pub(crate) fn count_graphemes(s: &str) -> (r: usize)
    ensures
        r == grapheme_count(s@),
        r <= s@.len(),
{
    unicode_segmentation::UnicodeSegmentation::graphemes(s, true).count()
}

pub open spec fn local_char(c: char) -> bool {
    ('a' <= c && c <= 'z') || ('A' <= c && c <= 'Z') || ('0' <= c && c <= '9') || c == '.' || c
        == '_' || c == '%' || c == '+' || c == '-'
}

pub open spec fn domain_char(c: char) -> bool {
    ('a' <= c && c <= 'z') || ('A' <= c && c <= 'Z') || ('0' <= c && c <= '9') || c == '.' || c
        == '-'
}

pub open spec fn ascii_letter(c: char) -> bool {
    ('a' <= c && c <= 'z') || ('A' <= c && c <= 'Z')
}

/// The texts of `EMAIL_PATTERN`: a non-empty local part, `@`, a non-empty
/// domain, a dot, and at least two letters that end the text.
pub open spec fn email_shape(s: Seq<char>) -> bool {
    exists|at: int, dot: int|
        0 < at && at + 1 < dot && dot + 3 <= s.len() && s[at] == '@' && s[dot] == '.' && (forall|
            i: int,
        | 0 <= i < at ==> local_char(#[trigger] s[i])) && (forall|i: int|
            at < i < dot ==> domain_char(#[trigger] s[i])) && (forall|i: int|
            dot < i < s.len() ==> ascii_letter(#[trigger] s[i]))
}

/// The regular expression that an email address must match as a whole.
pub const EMAIL_PATTERN: &'static str = "^[a-zA-Z0-9._%+-]+@[a-zA-Z0-9.-]+\\.[a-zA-Z]{2,}$";

/// Relies on `regex::Regex::new` and `Regex::is_match`: `EMAIL_PATTERN`
/// compiles, and as it is anchored at both ends, a text matches it exactly
/// when the whole text has the shape `email_shape` spells out.
#[verifier::external_body]
pub(crate) fn email_pattern_matches(pattern: &str, text: &str) -> (r: bool)
    requires
        pattern@ == EMAIL_PATTERN@,
    ensures
        r == email_shape(text@),
{
    regex::Regex::new(pattern).map(|re| re.is_match(text)).unwrap_or(false)
}

/// `char::is_whitespace`, written out over the `White_Space` set.
pub fn is_white_space(c: char) -> (r: bool)
    ensures
        r == white_space(c),
{
    let u = c as u32;
    (0x9 <= u && u <= 0xd) || u == 0x20 || u == 0x85 || u == 0xa0 || u == 0x1680 || (0x2000 <= u
        && u <= 0x200a) || u == 0x2028 || u == 0x2029 || u == 0x202f || u == 0x205f || u == 0x3000
}

pub fn is_forbidden(c: char) -> (r: bool)
    ensures
        r == forbidden(c),
{
    c == '/' || c == '(' || c == ')' || c == '"' || c == '<' || c == '>' || c == '\\' || c == '{'
        || c == '}'
}

/// Whether `s.trim()` is empty.
pub fn is_blank(s: &str) -> (r: bool)
    ensures
        r == blank(s@),
{
    let n = s.unicode_len();
    let mut i: usize = 0;
    while i < n
        invariant
            n == s@.len(),
            i <= n,
            forall|j: int| 0 <= j < i ==> white_space(#[trigger] s@[j]),
        decreases n - i,
    {
        if !is_white_space(s.get_char(i)) {
            return false;
        }
        i = i + 1;
    }
    true
}

pub fn contains_forbidden(s: &str) -> (r: bool)
    ensures
        r == has_forbidden(s@),
{
    let n = s.unicode_len();
    let mut i: usize = 0;
    while i < n
        invariant
            n == s@.len(),
            i <= n,
            forall|j: int| 0 <= j < i ==> !forbidden(#[trigger] s@[j]),
        decreases n - i,
    {
        if is_forbidden(s.get_char(i)) {
            assert(forbidden(s@[i as int]));
            return true;
        }
        i = i + 1;
    }
    false
}

/// The username rule, given the number of grapheme clusters of `s`.
pub fn name_is_valid(s: &str, graphemes: usize) -> (r: bool)
    ensures
        r == name_accepted(s@, graphemes as nat),
{
    !is_blank(s) && graphemes <= MAX_NAME_GRAPHEMES && !contains_forbidden(s)
}

/// Whether `s` is an acceptable email address.
pub fn email_is_valid(s: &str) -> (r: bool)
    ensures
        r == email_shape(s@),
{
    email_pattern_matches(EMAIL_PATTERN, s)
}

/// A validated username.
pub struct UserName(String);

impl View for UserName {
    type V = Seq<char>;

    closed spec fn view(&self) -> Seq<char> {
        self.0@
    }
}

impl UserName {
    #[verifier::type_invariant]
    spec fn well_formed(self) -> bool {
        name_accepted(self.0@, grapheme_count(self.0@))
    }

    /// Accepts `s` as a username, or says why not.
    pub fn parse(s: String) -> (r: Result<UserName, String>)
        ensures
            match r {
                Ok(n) => name_accepted(s@, grapheme_count(s@)) && n@ == s@,
                Err(m) => !name_accepted(s@, grapheme_count(s@)) && m@ == s@
                    + " is not a valid subscriber name."@,
            },
    {
        let count = count_graphemes(s.as_str());
        if name_is_valid(s.as_str(), count) {
            Ok(UserName(s))
        } else {
            let mut m = s.clone();
            m.append(" is not a valid subscriber name.");
            Err(m)
        }
    }

    /// The name as text; it satisfies the username rule.
    pub fn as_ref(&self) -> (r: &str)
        ensures
            r@ == self@,
            name_accepted(r@, grapheme_count(r@)),
    {
        proof {
            use_type_invariant(self);
        }
        self.0.as_str()
    }
}

/// A validated email address.
pub struct UserEmail(String);

impl View for UserEmail {
    type V = Seq<char>;

    closed spec fn view(&self) -> Seq<char> {
        self.0@
    }
}

impl UserEmail {
    #[verifier::type_invariant]
    spec fn well_formed(self) -> bool {
        email_shape(self.0@)
    }

    /// Accepts `s` as an email address, or says why not.
    pub fn parse(s: String) -> (r: Result<UserEmail, String>)
        ensures
            match r {
                Ok(e) => email_shape(s@) && e@ == s@,
                Err(m) => !email_shape(s@) && m@ == s@ + " is not a valid email address."@,
            },
    {
        if email_is_valid(s.as_str()) {
            Ok(UserEmail(s))
        } else {
            let mut m = s.clone();
            m.append(" is not a valid email address.");
            Err(m)
        }
    }

    /// The address as text; it has the accepted shape.
    pub fn as_ref(&self) -> (r: &str)
        ensures
            r@ == self@,
            email_shape(r@),
    {
        proof {
            use_type_invariant(self);
        }
        self.0.as_str()
    }
}

/// The username rule refuses blank names, the empty one among them, names
/// of more than 256 grapheme clusters and names holding a forbidden
/// character, and accepts every other name. The email rule refuses the
/// empty text, a text without `@`, and a text with nothing before its `@`.
pub proof fn lemma_validation_rules(s: Seq<char>, graphemes: nat)
    ensures
        s.len() == 0 ==> blank(s),
        blank(s) ==> !name_accepted(s, graphemes),
        graphemes > MAX_NAME_GRAPHEMES ==> !name_accepted(s, graphemes),
        has_forbidden(s) ==> !name_accepted(s, graphemes),
        !blank(s) && graphemes <= MAX_NAME_GRAPHEMES && !has_forbidden(s) ==> name_accepted(
            s,
            graphemes,
        ),
        !email_shape(Seq::<char>::empty()),
        (forall|i: int| 0 <= i < s.len() ==> s[i] != '@') ==> !email_shape(s),
        s.len() > 0 && s[0] == '@' ==> !email_shape(s),
{
    if s.len() > 0 && s[0] == '@' && email_shape(s) {
        let (at, dot) = choose|at: int, dot: int|
            0 < at && at + 1 < dot && dot + 3 <= s.len() && s[at] == '@' && s[dot] == '.' && (
            forall|i: int| 0 <= i < at ==> local_char(#[trigger] s[i])) && (forall|i: int|
                at < i < dot ==> domain_char(#[trigger] s[i])) && (forall|i: int|
                dot < i < s.len() ==> ascii_letter(#[trigger] s[i]));
        assert(local_char(s[0]));
    }
}

} // verus!
