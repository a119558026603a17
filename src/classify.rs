use vstd::prelude::*;
use vstd::string::*;

verus! {

/// `true` when `prefix` is an initial segment of `s`.
pub open spec fn starts_with(s: Seq<char>, prefix: Seq<char>) -> bool {
    prefix.len() <= s.len() && s.subrange(0, prefix.len() as int) == prefix
}

/// A regular expression made of the start anchor `^` followed by lower-case
/// ASCII letters only, each of which matches itself.
pub open spec fn is_anchored_literal(pattern: Seq<char>) -> bool {
    pattern.len() >= 1 && pattern[0] == '^' && forall|i: int|
        1 <= i < pattern.len() ==> 'a' <= #[trigger] pattern[i] && pattern[i] <= 'z'
}

/// Whether the regular expression `pattern` matches somewhere in `haystack`.
pub uninterp spec fn regex_matches(pattern: Seq<char>, haystack: Seq<char>) -> bool;

/// Relies on `regex::Regex::new` and `regex::Regex::is_match`. A pattern
/// that does not compile gives `None`. With the default flags (no
/// multi-line mode, case-sensitive) `^` matches only at the start of the
/// haystack and a lower-case ASCII letter matches only itself, so a short
/// pattern of that shape (at most 64 characters, far below the default
/// compiled-size limit of `Regex::new`) compiles and matches exactly the
/// haystacks that begin with its letters.
#[verifier::external_body]
fn regex_is_match(pattern: &str, haystack: &str) -> (r: Option<bool>)
    ensures
        r matches Some(b) ==> b == regex_matches(pattern@, haystack@),
        is_anchored_literal(pattern@) && pattern@.len() <= 64 ==> r == Some(
            starts_with(haystack@, pattern@.subrange(1, pattern@.len() as int)),
        ),
{
    match regex::Regex::new(pattern) {
        Ok(re) => Some(re.is_match(haystack)),
        Err(_) => None,
    }
}

/// The text that marks a message as a candidate article link.
pub open spec fn url_prefix() -> Seq<char> {
    seq!['h', 't', 't', 'p']
}

/// The liveness command.
pub open spec fn ping_command() -> Seq<char> {
    seq!['!', 'p', 'i', 'n', 'g']
}

/// What a message asks of the router.
#[derive(Clone, Copy, Debug, PartialEq, Eq, Structural)]
pub enum MessageKind {
    /// The text begins with `http`: forward it as an article event.
    Article,
    /// The text is exactly `!ping`: answer it.
    Ping,
    /// Anything else: no action.
    Ignored,
}

pub open spec fn kind_of(text: Seq<char>) -> MessageKind {
    if starts_with(text, url_prefix()) {
        MessageKind::Article
    } else if text == ping_command() {
        MessageKind::Ping
    } else {
        MessageKind::Ignored
    }
}

/// A message is a candidate article link when it begins with `http`
/// (case-sensitive; the rest of the text is not checked).
pub fn is_url_candidate(text: &str) -> (r: bool)
    ensures
        r == starts_with(text@, url_prefix()),
{
    let pattern = "^http";
    proof {
        reveal_strlit("^http");
        assert(pattern@.subrange(1, pattern@.len() as int) =~= url_prefix());
        assert(is_anchored_literal(pattern@));
    }
    match regex_is_match(pattern, text) {
        Some(b) => b,
        None => false,
    }
}

/// Character-wise equality of two strings.
fn same_text(a: &str, b: &str) -> (r: bool)
    ensures
        r == (a@ == b@),
{
    let n = a.unicode_len();
    if n != b.unicode_len() {
        return false;
    }
    let mut i: usize = 0;
    while i < n
        invariant
            n == a@.len(),
            n == b@.len(),
            i <= n,
            a@.subrange(0, i as int) == b@.subrange(0, i as int),
        decreases n - i,
    {
        if a.get_char(i) != b.get_char(i) {
            return false;
        }
        proof {
            assert(a@.subrange(0, i + 1) =~= a@.subrange(0, i as int).push(a@[i as int]));
            assert(b@.subrange(0, i + 1) =~= b@.subrange(0, i as int).push(b@[i as int]));
        }
        i = i + 1;
    }
    proof {
        assert(a@ =~= a@.subrange(0, n as int));
        assert(b@ =~= b@.subrange(0, n as int));
    }
    true
}

/// The message is exactly `!ping`, with nothing around it.
pub fn is_ping_command(text: &str) -> (r: bool)
    ensures
        r == (text@ == ping_command()),
{
    let command = "!ping";
    proof {
        reveal_strlit("!ping");
        assert(command@ =~= ping_command());
    }
    same_text(text, command)
}

/// Sorts a message into article link, ping command or neither. The link
/// test comes first.
pub fn classify_message(text: &str) -> (r: MessageKind)
    ensures
        r == kind_of(text@),
{
    if is_url_candidate(text) {
        MessageKind::Article
    } else if is_ping_command(text) {
        MessageKind::Ping
    } else {
        MessageKind::Ignored
    }
}

} // verus!
