use vstd::prelude::*;
use vstd::string::StrSliceExecFns;
use vstd::string::StringExecFns;

verus! {

/// The first position at or after `from` where `p` occurs in `s`, if any.
pub open spec fn find_from(s: Seq<char>, p: Seq<char>, from: int) -> Option<int>
    decreases s.len() - from + 1,
{
    if from < 0 || from + p.len() > s.len() {
        None
    } else if s.subrange(from, from + p.len() as int) == p {
        Some(from)
    } else {
        find_from(s, p, from + 1)
    }
}

/// The attribute text that introduces the metadata document's namespace
/// declaration.
pub open spec fn xmlns_lead() -> Seq<char> {
    "xmlns=\""@
}

/// The namespace token that the metadata document declares: the text between
/// the first `xmlns="` and the quote that closes it, if both are present.
pub open spec fn xmlns_token(s: Seq<char>) -> Option<Seq<char>> {
    match find_from(s, xmlns_lead(), 0) {
        None => None,
        Some(i) => {
            let start = i + xmlns_lead().len() as int;
            match find_from(s, "\""@, start) {
                None => None,
                Some(j) => Some(s.subrange(start, j)),
            }
        },
    }
}

/// Whether `p` occurs in `s` starting exactly at `at`.
fn match_at(s: &str, p: &str, at: usize, p_len: usize) -> (r: bool)
    requires
        p_len == p@.len(),
        at + p_len <= s@.len(),
        at + p_len <= usize::MAX,
    ensures
        r == (s@.subrange(at as int, at + p@.len() as int) == p@),
{
    let mut j: usize = 0;
    while j < p_len
        invariant
            p_len == p@.len(),
            at + p_len <= s@.len(),
            at + p_len <= usize::MAX,
            j <= p_len,
            forall|t: int| 0 <= t < j ==> s@[at + t] == p@[t],
        decreases p_len - j,
    {
        if s.get_char(at + j) != p.get_char(j) {
            assert(s@.subrange(at as int, at + p@.len() as int)[j as int] != p@[j as int]);
            return false;
        }
        j += 1;
    }
    proof {
        assert(s@.subrange(at as int, at + p@.len() as int) =~= p@);
    }
    true
}

/// The first occurrence of `p` in `s` at or after `from`, scanning forward.
fn find_pattern(s: &str, p: &str, from: usize) -> (r: Option<usize>)
    requires
        from <= s@.len(),
        p@.len() >= 1,
    ensures
        match r {
            Some(i) => find_from(s@, p@, from as int) == Some(i as int) && from <= i && i
                + p@.len() <= s@.len(),
            None => find_from(s@, p@, from as int) is None,
        },
{
    let s_len = s.unicode_len();
    let p_len = p.unicode_len();
    if p_len > s_len || from > s_len - p_len {
        proof {
            assert(find_from(s@, p@, from as int) is None);
        }
        return None;
    }
    let mut i: usize = from;
    let last = s_len - p_len;
    while i <= last
        invariant
            s_len == s@.len(),
            p_len == p@.len(),
            1 <= p_len <= s_len,
            last == s_len - p_len,
            from <= i,
            i <= last + 1,
            find_from(s@, p@, from as int) == find_from(s@, p@, i as int),
        decreases last + 1 - i,
    {
        if match_at(s, p, i, p_len) {
            return Some(i);
        }
        proof {
            assert(find_from(s@, p@, i as int) == find_from(s@, p@, i as int + 1));
        }
        i += 1;
    }
    proof {
        assert(find_from(s@, p@, i as int) is None);
    }
    None
}

/// Extracts the namespace token that the metadata document declares: the
/// text between the first `xmlns="` and the quote that closes it.
pub fn extract_xmlns(s: &str) -> (r: Option<String>)
    ensures
        match r {
            Some(t) => xmlns_token(s@) == Some(t@),
            None => xmlns_token(s@) is None,
        },
{
    proof {
        reveal_strlit("xmlns=\"");
        reveal_strlit("\"");
    }
    let s_len = s.unicode_len();
    let lead = "xmlns=\"";
    let lead_len = lead.unicode_len();
    match find_pattern(s, lead, 0) {
        None => None,
        Some(i) => {
            proof {
                assert(i + lead_len <= s_len);
            }
            let start = i + lead_len;
            match find_pattern(s, "\"", start) {
                None => None,
                Some(j) => Some(String::from_str(s.substring_char(start, j))),
            }
        },
    }
}

} // verus!
