//! The computing half of the address lookup: from what the echo service
//! answered to the address that is written into the record, or to the
//! reason why there is none.

use vstd::prelude::*;
use vstd::string::*;

verus! {

/// Why the public address could not be had.
#[derive(Clone, Debug, PartialEq, Eq)]
pub enum NetworkError {
    /// The request did not get through, or timed out; the text says why.
    Transport(String),
    /// The service answered with this status, which is not a success.
    Status(u16),
}

/// Mathematical content of a [`NetworkError`].
pub enum NetworkErrorView {
    Transport(Seq<char>),
    Status(u16),
}

impl View for NetworkError {
    type V = NetworkErrorView;

    open spec fn view(&self) -> NetworkErrorView {
        match self {
            NetworkError::Transport(cause) => NetworkErrorView::Transport(cause@),
            NetworkError::Status(status) => NetworkErrorView::Status(*status),
        }
    }
}

/// Address of the service that echoes the caller's public address as plain
/// text. It is fixed; there is no second service to fall back on.
pub open spec fn echo_service() -> Seq<char> {
    "https://api.ipify.org"@
}

/// The status codes that report success: 200 to 299.
pub open spec fn success_status(status: u16) -> bool {
    200 <= status <= 299
}

/// The characters that count as white space: those with Unicode's
/// `White_Space` property.
pub open spec fn white_space(c: char) -> bool {
    let n = c as u32;
    ||| 0x09 <= n <= 0x0D
    ||| n == 0x20
    ||| n == 0x85
    ||| n == 0xA0
    ||| n == 0x1680
    ||| 0x2000 <= n <= 0x200A
    ||| n == 0x2028
    ||| n == 0x2029
    ||| n == 0x202F
    ||| n == 0x205F
    ||| n == 0x3000
}

/// `s` without the white space it begins with.
pub open spec fn without_leading_white_space(s: Seq<char>) -> Seq<char>
    decreases s.len(),
{
    if s.len() > 0 && white_space(s.first()) {
        without_leading_white_space(s.drop_first())
    } else {
        s
    }
}

/// `s` without the white space it ends with.
pub open spec fn without_trailing_white_space(s: Seq<char>) -> Seq<char>
    decreases s.len(),
{
    if s.len() > 0 && white_space(s.last()) {
        without_trailing_white_space(s.drop_last())
    } else {
        s
    }
}

/// `s` without the white space around it. White space inside stays.
pub open spec fn trimmed(s: Seq<char>) -> Seq<char> {
    without_trailing_white_space(without_leading_white_space(s))
}

/// Tells whether `c` is white space.
pub fn is_white_space(c: char) -> (yes: bool)
    ensures
        yes == white_space(c),
{
    let n: u32 = c as u32;
    (0x09 <= n && n <= 0x0D) || n == 0x20 || n == 0x85 || n == 0xA0 || n == 0x1680 || (0x2000 <= n
        && n <= 0x200A) || n == 0x2028 || n == 0x2029 || n == 0x202F || n == 0x205F || n == 0x3000
}

/// The text of [`echo_service`].
pub fn echo_endpoint() -> (url: &'static str)
    ensures
        url@ == echo_service(),
{
    "https://api.ipify.org"
}

/// Tells whether `status` reports success.
pub fn is_success_status(status: u16) -> (yes: bool)
    ensures
        yes == success_status(status),
{
    200 <= status && status <= 299
}

/// Decides what an answer of the echo service is worth. With a status of
/// success the address is the body as [`address_from_body`] reads it; with
/// any other status the lookup has failed, whatever the body holds.
pub fn address_from_response(status: u16, body: &str) -> (result: Result<String, NetworkError>)
    ensures
        result is Ok <==> success_status(status),
        result matches Ok(address) ==> address@ == trimmed(body@),
        result matches Err(error) ==> error@ == NetworkErrorView::Status(status),
{
    if is_success_status(status) {
        Ok(address_from_body(body))
    } else {
        Err(NetworkError::Status(status))
    }
}

/// Takes the address out of the body that the echo service answered: the
/// body without the white space around it. The text is not examined any
/// further; whether it is a well-formed address is left open.
pub fn address_from_body(body: &str) -> (address: String)
    ensures
        address@ == trimmed(body@),
{
    let len = body.unicode_len();
    // `from` counts the white space before the first visible character; `to`
    // is the index after the last visible character read so far.
    let mut from: usize = 0;
    let mut to: usize = 0;
    let mut visible = false;
    let mut at: usize = 0;
    for c in it: body.chars()
        invariant
            it.seq() == body@,
            len == body@.len(),
            at == it.index(),
            forall|j: int| 0 <= j < from ==> white_space(#[trigger] body@[j]),
            !visible ==> from == at && to == 0,
            visible ==> from < to <= at && !white_space(body@[from as int]) && !white_space(
                body@[to - 1],
            ),
            visible ==> forall|j: int| to <= j < at ==> white_space(#[trigger] body@[j]),
    {
        if is_white_space(c) {
            if !visible {
                from = from + 1;
            }
        } else {
            visible = true;
            to = at + 1;
        }
        at = at + 1;
    }
    if !visible {
        to = from;
    }
    proof {
        lemma_trimmed_is_subrange(body@, from as int, to as int);
    }
    body.substring_char(from, to).to_owned()
}

/// Where `s` is white space up to `from` and a visible character follows
/// (or `s` ends), dropping the leading white space leaves `s` from `from` on.
proof fn lemma_leading_cut(s: Seq<char>, from: int)
    requires
        0 <= from <= s.len(),
        forall|j: int| 0 <= j < from ==> white_space(#[trigger] s[j]),
        from < s.len() ==> !white_space(s[from]),
    ensures
        without_leading_white_space(s) == s.subrange(from, s.len() as int),
    decreases from,
{
    if from == 0 {
        assert(s.subrange(0, s.len() as int) =~= s);
    } else {
        let rest = s.drop_first();
        assert(white_space(s[0]));
        assert forall|j: int| 0 <= j < from - 1 implies white_space(#[trigger] rest[j]) by {
            assert(rest[j] == s[j + 1]);
        }
        lemma_leading_cut(rest, from - 1);
        assert(rest.subrange(from - 1, rest.len() as int) =~= s.subrange(from, s.len() as int));
    }
}

/// Where `s` is white space from `to` on and a visible character stands
/// before `to` (or `to` is 0), dropping the trailing white space leaves `s`
/// up to `to`.
proof fn lemma_trailing_cut(s: Seq<char>, to: int)
    requires
        0 <= to <= s.len(),
        forall|j: int| to <= j < s.len() ==> white_space(#[trigger] s[j]),
        0 < to ==> !white_space(s[to - 1]),
    ensures
        without_trailing_white_space(s) == s.subrange(0, to),
    decreases s.len() - to,
{
    if to == s.len() {
        assert(s.subrange(0, to) =~= s);
    } else {
        let rest = s.drop_last();
        assert(white_space(s[s.len() - 1]));
        assert forall|j: int| to <= j < rest.len() implies white_space(#[trigger] rest[j]) by {
            assert(rest[j] == s[j]);
        }
        lemma_trailing_cut(rest, to);
        assert(rest.subrange(0, to) =~= s.subrange(0, to));
    }
}

/// The trimmed text is the part of `s` between its first and its last
/// visible character: if `s` is white space before `from` and from `to` on,
/// and visible at `from` and just before `to`, then `trimmed(s)` is
/// `s[from..to]`. A text of white space alone is cut down to nothing
/// (`from == to == s.len()`).
pub proof fn lemma_trimmed_is_subrange(s: Seq<char>, from: int, to: int)
    requires
        0 <= from <= to <= s.len(),
        forall|j: int| 0 <= j < from ==> white_space(#[trigger] s[j]),
        forall|j: int| to <= j < s.len() ==> white_space(#[trigger] s[j]),
        from < to ==> !white_space(s[from]) && !white_space(s[to - 1]),
        from == to ==> from == s.len(),
    ensures
        trimmed(s) == s.subrange(from, to),
{
    lemma_leading_cut(s, from);
    let tail = s.subrange(from, s.len() as int);
    assert forall|j: int| to - from <= j < tail.len() implies white_space(#[trigger] tail[j]) by {
        assert(tail[j] == s[j + from]);
    }
    if from < to {
        assert(tail[to - from - 1] == s[to - 1]);
    }
    lemma_trailing_cut(tail, to - from);
    assert(tail.subrange(0, to - from) =~= s.subrange(from, to));
}

/// What is left when leading white space is dropped is empty or begins
/// with a visible character.
proof fn lemma_leading_dropped(s: Seq<char>)
    ensures
        without_leading_white_space(s).len() == 0 || !white_space(
            without_leading_white_space(s).first(),
        ),
    decreases s.len(),
{
    if s.len() > 0 && white_space(s.first()) {
        lemma_leading_dropped(s.drop_first());
    }
}

/// What is left when trailing white space is dropped is the beginning of
/// the text, and it is empty or ends with a visible character.
proof fn lemma_trailing_dropped(s: Seq<char>)
    ensures
        without_trailing_white_space(s).len() <= s.len(),
        without_trailing_white_space(s) == s.subrange(
            0,
            without_trailing_white_space(s).len() as int,
        ),
        without_trailing_white_space(s).len() == 0 || !white_space(
            without_trailing_white_space(s).last(),
        ),
    decreases s.len(),
{
    if s.len() > 0 && white_space(s.last()) {
        let rest = s.drop_last();
        lemma_trailing_dropped(rest);
        let kept = without_trailing_white_space(rest);
        assert(rest.subrange(0, kept.len() as int) =~= s.subrange(0, kept.len() as int));
    } else {
        assert(s.subrange(0, s.len() as int) =~= s);
    }
}

/// A trimmed text neither begins nor ends with white space.
pub proof fn law_trimmed_has_clean_ends(s: Seq<char>)
    ensures
        trimmed(s).len() > 0 ==> !white_space(trimmed(s).first()) && !white_space(
            trimmed(s).last(),
        ),
{
    let inner = without_leading_white_space(s);
    lemma_leading_dropped(s);
    lemma_trailing_dropped(inner);
}

/// A text that neither begins nor ends with white space is its own
/// trimmed form: an address that the service sends bare is kept as it is.
pub proof fn law_clean_text_is_kept(s: Seq<char>)
    requires
        s.len() > 0 ==> !white_space(s.first()) && !white_space(s.last()),
    ensures
        trimmed(s) == s,
{
}

/// Trimming what is already trimmed changes nothing.
pub proof fn law_trimming_twice_changes_nothing(s: Seq<char>)
    ensures
        trimmed(trimmed(s)) == trimmed(s),
{
    law_trimmed_has_clean_ends(s);
    law_clean_text_is_kept(trimmed(s));
}

} // verus!
