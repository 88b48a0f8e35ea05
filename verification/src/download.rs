use vstd::prelude::*;
use vstd::string::*;

verus! {

/// The text after the last `/` of `s` (all of `s` when it has none).
pub open spec fn last_segment(s: Seq<char>) -> Seq<char>
    decreases s.len(),
{
    if s.len() == 0 {
        s
    } else if s.last() == '/' {
        Seq::empty()
    } else {
        last_segment(s.drop_last()).push(s.last())
    }
}

/// The segment after position `p` is the last one when no `/` follows `p` and
/// `p` starts the text or follows a `/`.
proof fn lemma_last_segment_at(s: Seq<char>, p: int)
    requires
        0 <= p <= s.len(),
        p == 0 || s[p - 1] == '/',
        forall|k: int| p <= k < s.len() ==> s[k] != '/',
    ensures
        last_segment(s) == s.subrange(p, s.len() as int),
    decreases s.len(),
{
    if s.len() == 0 {
        assert(s.subrange(p, 0) =~= s);
    } else if p == s.len() {
        assert(s.last() == '/');
        assert(s.subrange(p, s.len() as int) =~= Seq::<char>::empty());
    } else {
        let rest = s.drop_last();
        assert forall|k: int| p <= k < rest.len() implies rest[k] != '/' by {
            assert(rest[k] == s[k]);
        }
        if p > 0 {
            assert(rest[p - 1] == s[p - 1]);
        }
        lemma_last_segment_at(rest, p);
        assert(rest.subrange(p, rest.len() as int).push(s.last()) =~= s.subrange(p, s.len() as int));
    }
}

/// The file name under which a download is saved: the text after the last
/// `/` of its URL, or nothing when that text is empty (the default
/// destination is then kept).
pub fn download_file_name(url: &str) -> (r: Option<String>)
    ensures
        r is Some <==> last_segment(url@).len() > 0,
        r matches Some(name) ==> name@ == last_segment(url@),
        r matches Some(name) ==> !name@.contains('/'),
        r matches Some(name) ==> name@.len() <= url@.len() && url@.subrange(
            url@.len() - name@.len(),
            url@.len() as int,
        ) == name@,
{
    let n = url.unicode_len();
    let mut p: usize = n;
    while p > 0
        invariant
            n == url@.len(),
            p <= n,
            forall|k: int| p <= k < n ==> url@[k] != '/',
        ensures
            p <= n,
            forall|k: int| p <= k < n ==> url@[k] != '/',
            p == 0 || url@[p - 1] == '/',
        decreases p,
    {
        if url.get_char(p - 1) == '/' {
            break;
        }
        p = p - 1;
    }
    proof {
        lemma_last_segment_at(url@, p as int);
    }
    if p == n {
        return None;
    }
    let name = String::from_str(url.substring_char(p, n));
    proof {
        assert forall|k: int| 0 <= k < name@.len() implies name@[k] != '/' by {
            assert(name@[k] == url@[p + k]);
        }
    }
    Some(name)
}

} // verus!
