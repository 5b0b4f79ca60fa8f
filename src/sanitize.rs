use vstd::prelude::*;

verus! {

/// The characters a cluster resource name may hold.
pub open spec fn allowed_char(c: char) -> bool {
    ('0' <= c && c <= '9') || ('a' <= c && c <= 'z') || ('A' <= c && c <= 'Z') || c == '_'
        || c == '.'
}

/// ASCII letters and digits.
pub open spec fn alnum_char(c: char) -> bool {
    ('0' <= c && c <= '9') || ('a' <= c && c <= 'z') || ('A' <= c && c <= 'Z')
}

pub open spec fn all_allowed(s: Seq<char>) -> bool {
    forall|i: int| 0 <= i < s.len() ==> allowed_char(#[trigger] s[i])
}

/// `s` with every maximal run of characters outside `allowed_char`
/// replaced by a single underscore.
pub open spec fn collapse_disallowed(s: Seq<char>) -> Seq<char>
    decreases s.len(),
{
    if s.len() == 0 {
        Seq::empty()
    } else {
        let init = s.drop_last();
        if allowed_char(s.last()) {
            collapse_disallowed(init).push(s.last())
        } else if init.len() > 0 && !allowed_char(init.last()) {
            collapse_disallowed(init)
        } else {
            collapse_disallowed(init).push('_')
        }
    }
}

/// `s` without its trailing characters that are not ASCII letters or digits.
pub open spec fn trim_end_non_alnum(s: Seq<char>) -> Seq<char>
    decreases s.len(),
{
    if s.len() > 0 && !alnum_char(s.last()) {
        trim_end_non_alnum(s.drop_last())
    } else {
        s
    }
}

/// The first `n` characters of `s`.
pub open spec fn truncated(s: Seq<char>, n: nat) -> Seq<char> {
    if s.len() <= n {
        s
    } else {
        s.subrange(0, n as int)
    }
}

/// Longest name a cluster resource may carry.
pub const MAX_NAME_LEN: usize = 63;

/// The cluster-safe form of a free-form job name.
pub open spec fn sanitized(s: Seq<char>) -> Seq<char> {
    trim_end_non_alnum(truncated(collapse_disallowed(s), MAX_NAME_LEN as nat))
}

/// `s` without a leading `https://`.
pub open spec fn without_https(s: Seq<char>) -> Seq<char> {
    let p = seq!['h', 't', 't', 'p', 's', ':', '/', '/'];
    if s.len() >= p.len() && s.subrange(0, p.len() as int) == p {
        s.subrange(p.len() as int, s.len() as int)
    } else {
        s
    }
}

/// Relies on `regex::Regex::replace_all` with the pattern `[^0-9a-zA-Z_.]+`:
/// leftmost, greedy, non-overlapping matches, so each maximal run of
/// characters outside the class becomes one underscore.
#[verifier::external_body]
fn replace_disallowed_runs(s: &str) -> (r: String)
    ensures
        r@ == collapse_disallowed(s@),
{
    let re = regex::Regex::new(r"[^0-9a-zA-Z_.]+").unwrap();
    re.replace_all(s, "_").into_owned()
}

pub proof fn lemma_collapse_all_allowed(s: Seq<char>)
    ensures
        all_allowed(collapse_disallowed(s)),
    decreases s.len(),
{
    if s.len() > 0 {
        lemma_collapse_all_allowed(s.drop_last());
    }
}

pub proof fn lemma_collapse_identity(s: Seq<char>)
    requires
        all_allowed(s),
    ensures
        collapse_disallowed(s) == s,
    decreases s.len(),
{
    if s.len() > 0 {
        assert(allowed_char(s[s.len() - 1]));
        lemma_collapse_identity(s.drop_last());
        assert(s.drop_last().push(s.last()) =~= s);
    }
}

pub proof fn lemma_trim_prefix(s: Seq<char>)
    ensures
        trim_end_non_alnum(s).len() <= s.len(),
        trim_end_non_alnum(s) =~= s.subrange(0, trim_end_non_alnum(s).len() as int),
        trim_end_non_alnum(s).len() == 0 || alnum_char(trim_end_non_alnum(s).last()),
    decreases s.len(),
{
    if s.len() > 0 && !alnum_char(s.last()) {
        lemma_trim_prefix(s.drop_last());
    }
}

/// Facts about the sanitised form of `s`: only allowed characters, no
/// trailing character that is not a letter or digit, at most 63 characters.
pub proof fn lemma_sanitized_shape(s: Seq<char>)
    ensures
        all_allowed(sanitized(s)),
        sanitized(s).len() <= MAX_NAME_LEN,
        sanitized(s).len() == 0 || alnum_char(sanitized(s).last()),
{
    let c = collapse_disallowed(s);
    let t = truncated(c, MAX_NAME_LEN as nat);
    lemma_collapse_all_allowed(s);
    lemma_trim_prefix(t);
    assert forall|i: int| 0 <= i < sanitized(s).len() implies allowed_char(#[trigger] sanitized(s)[i]) by {
        assert(sanitized(s)[i] == t[i]);
        assert(t[i] == c[i]);
    }
}

/// Sanitising is idempotent: a sanitised name is its own sanitised form.
pub proof fn lemma_sanitize_idempotent(s: Seq<char>)
    ensures
        sanitized(sanitized(s)) == sanitized(s),
{
    let once = sanitized(s);
    lemma_sanitized_shape(s);
    lemma_collapse_identity(once);
    assert(truncated(once, MAX_NAME_LEN as nat) == once);
}

fn is_ascii_alnum(c: char) -> (r: bool)
    ensures
        r == alnum_char(c),
{
    ('0' <= c && c <= '9') || ('a' <= c && c <= 'z') || ('A' <= c && c <= 'Z')
}

/// Turns a free-form job name into a cluster-safe identifier: runs of
/// characters outside `[0-9a-zA-Z_.]` become `_`, the result is cut to 63
/// characters and stripped of trailing characters that are not letters or
/// digits.
pub fn sanitize_name(name: &str) -> (r: String)
    ensures
        r@ == sanitized(name@),
        all_allowed(r@),
        r@.len() <= MAX_NAME_LEN,
        r@.len() == 0 || alnum_char(r@.last()),
{
    let collapsed = replace_disallowed_runs(name);
    let chars = crate::text::chars_of(collapsed.as_str());
    let cut: usize = if chars.len() > MAX_NAME_LEN {
        MAX_NAME_LEN
    } else {
        chars.len()
    };
    let ghost t = truncated(collapsed@, MAX_NAME_LEN as nat);
    assert(t =~= chars@.subrange(0, cut as int));
    let mut end: usize = cut;
    while end > 0 && !is_ascii_alnum(chars[end - 1])
        invariant
            end <= cut <= chars.len(),
            chars@ == collapsed@,
            t =~= chars@.subrange(0, cut as int),
            trim_end_non_alnum(t) == trim_end_non_alnum(chars@.subrange(0, end as int)),
        decreases end,
    {
        assert(chars@.subrange(0, end as int).drop_last() =~= chars@.subrange(0, end - 1));
        end = end - 1;
    }
    let mut out = String::new();
    let mut i: usize = 0;
    while i < end
        invariant
            i <= end <= chars.len(),
            out@ =~= chars@.subrange(0, i as int),
        decreases end - i,
    {
        crate::text::push_char(&mut out, chars[i]);
        i = i + 1;
    }
    proof {
        lemma_sanitized_shape(name@);
    }
    out
}

/// The `Origin` header of a start request as a label value: a leading
/// `https://` is dropped and runs of disallowed characters become `_`.
pub fn sanitize_origin(origin: &str) -> (r: String)
    ensures
        r@ == collapse_disallowed(without_https(origin@)),
{
    let chars = crate::text::chars_of(origin);
    let prefix = "https://";
    proof {
        reveal_strlit("https://");
    }
    let p = crate::text::chars_of(prefix);
    let mut has_prefix = chars.len() >= p.len();
    let mut i: usize = 0;
    while has_prefix && i < p.len()
        invariant
            p@ == seq!['h', 't', 't', 'p', 's', ':', '/', '/'],
            chars@ == origin@,
            i <= p.len(),
            has_prefix ==> chars.len() >= p.len(),
            has_prefix ==> chars@.subrange(0, i as int) =~= p@.subrange(0, i as int),
            !has_prefix ==> !(chars@.len() >= p@.len() && chars@.subrange(0, p@.len() as int)
                == p@),
        decreases p.len() - i,
    {
        if chars[i] != p[i] {
            has_prefix = false;
            assert(chars@.subrange(0, p@.len() as int)[i as int] != p@[i as int]);
        }
        i = i + 1;
    }
    if has_prefix {
        assert(p@.subrange(0, p@.len() as int) =~= p@);
        assert(chars@.subrange(0, p@.len() as int) == p@);
    }
    let start: usize = if has_prefix {
        p.len()
    } else {
        0
    };
    let mut rest = String::new();
    let mut j: usize = start;
    while j < chars.len()
        invariant
            start <= j <= chars.len(),
            rest@ =~= chars@.subrange(start as int, j as int),
        decreases chars.len() - j,
    {
        crate::text::push_char(&mut rest, chars[j]);
        j = j + 1;
    }
    assert(rest@ =~= without_https(origin@));
    replace_disallowed_runs(rest.as_str())
}

} // verus!
