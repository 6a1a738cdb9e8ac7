//! Unix path arithmetic on raw path bytes: `Path::join` and `Path::file_name`
//! as the standard library defines them for `/`-separated paths.

use vstd::prelude::*;
use vstd::string::StringExecFns;

verus! {

/// `base.join(seg)`: an absolute `seg` replaces `base`; otherwise `seg` is
/// appended, with a `/` in between unless `base` is empty or already ends
/// with one.
pub open spec fn joined(base: Seq<u8>, seg: Seq<u8>) -> Seq<u8> {
    if seg.len() > 0 && seg[0] == 0x2f {
        seg
    } else if base.len() == 0 || base.last() == 0x2f {
        base + seg
    } else {
        base.push(0x2f) + seg
    }
}

fn push_all(out: &mut Vec<u8>, s: &[u8])
    ensures
        final(out)@ == old(out)@ + s@,
{
    let mut i: usize = 0;
    while i < s.len()
        invariant
            i <= s.len(),
            out@ == old(out)@ + s@.subrange(0, i as int),
        decreases s.len() - i,
    {
        out.push(s[i]);
        i = i + 1;
        assert(out@ =~= old(out)@ + s@.subrange(0, i as int));
    }
    assert(s@.subrange(0, s.len() as int) =~= s@);
}

/// A copy of `v`.
pub fn copy_bytes(v: &[u8]) -> (r: Vec<u8>)
    ensures
        r@ == v@,
{
    let mut r: Vec<u8> = Vec::new();
    let mut i: usize = 0;
    while i < v.len()
        invariant
            i <= v.len(),
            r@ == v@.subrange(0, i as int),
        decreases v.len() - i,
    {
        r.push(v[i]);
        i = i + 1;
        assert(r@ =~= v@.subrange(0, i as int));
    }
    assert(v@.subrange(0, v.len() as int) =~= v@);
    r
}

/// Joins two paths as `Path::join` does on Unix.
pub fn join(base: &[u8], seg: &[u8]) -> (r: Vec<u8>)
    ensures
        r@ == joined(base@, seg@),
{
    let mut out: Vec<u8> = Vec::new();
    if seg.len() > 0 && seg[0] == 0x2f {
        push_all(&mut out, seg);
        assert(out@ =~= seg@);
        return out;
    }
    push_all(&mut out, base);
    if base.len() > 0 && base[base.len() - 1] != 0x2f {
        out.push(0x2f);
    }
    push_all(&mut out, seg);
    assert(out@ =~= joined(base@, seg@));
    out
}

/// Start of the `/`-separated segment of `p` that ends at `j`: the largest
/// `k <= j` with `k == 0` or `p[k - 1] == '/'`.
pub open spec fn segment_start(p: Seq<u8>, j: int) -> int
    decreases j,
{
    if j <= 0 {
        0
    } else if p[j - 1] == 0x2f {
        j
    } else {
        segment_start(p, j - 1)
    }
}

/// `segment_start` stays within `[0, j]` and starts right after a `/`.
pub proof fn lemma_segment_start_bounds(p: Seq<u8>, j: int)
    requires
        0 <= j,
    ensures
        0 <= segment_start(p, j) <= j,
        segment_start(p, j) > 0 ==> p[segment_start(p, j) - 1] == 0x2f,
    decreases j,
{
    if j > 0 && p[j - 1] != 0x2f {
        lemma_segment_start_bounds(p, j - 1);
    }
}

/// The range of the last component of `p[0..j]` as `Path::file_name` sees
/// it: empty and `.` segments are skipped; a `..` segment, or none at all,
/// means there is no file name.
pub open spec fn file_name_in(p: Seq<u8>, j: int) -> Option<(int, int)>
    decreases j,
{
    if j <= 0 {
        None
    } else {
        let s = segment_start(p, j);
        proof {
            lemma_segment_start_bounds(p, j);
        }
        if s == j {
            file_name_in(p, j - 1)
        } else if j - s == 1 && p[s] == 0x2e {
            file_name_in(p, s)
        } else if j - s == 2 && p[s] == 0x2e && p[s + 1] == 0x2e {
            None
        } else {
            Some((s, j))
        }
    }
}

/// The byte range of `Path::file_name` of `p`, if it has one.
pub open spec fn file_name_range(p: Seq<u8>) -> Option<(int, int)> {
    file_name_in(p, p.len() as int)
}

proof fn lemma_file_name_in_bounds(p: Seq<u8>, j: int)
    requires
        0 <= j <= p.len(),
    ensures
        file_name_in(p, j) matches Some(r) ==> 0 <= r.0 < r.1 <= j,
    decreases j,
{
    if j > 0 {
        let s = segment_start(p, j);
        lemma_segment_start_bounds(p, j);
        if s == j {
            lemma_file_name_in_bounds(p, j - 1);
        } else if j - s == 1 && p[s] == 0x2e {
            lemma_file_name_in_bounds(p, s);
        }
    }
}

fn segment_start_exec(p: &[u8], j: usize) -> (r: usize)
    requires
        j <= p.len(),
    ensures
        r == segment_start(p@, j as int),
{
    let mut k = j;
    while k > 0 && p[k - 1] != 0x2f
        invariant
            k <= j <= p.len(),
            segment_start(p@, j as int) == segment_start(p@, k as int),
        decreases k,
    {
        k = k - 1;
    }
    k
}

/// The byte range of the file name of `p`, as `Path::file_name` finds it.
pub fn file_name(p: &[u8]) -> (r: Option<(usize, usize)>)
    ensures
        match file_name_range(p@) {
            None => r is None,
            Some(x) => r matches Some(y) && y.0 == x.0 && y.1 == x.1,
        },
        r matches Some(y) ==> y.0 < y.1 <= p.len(),
{
    proof {
        lemma_file_name_in_bounds(p@, p@.len() as int);
    }
    let mut j = p.len();
    while j > 0
        invariant
            j <= p.len(),
            file_name_range(p@) == file_name_in(p@, j as int),
        decreases j,
    {
        let s = segment_start_exec(p, j);
        proof {
            lemma_segment_start_bounds(p@, j as int);
        }
        if s == j {
            j = j - 1;
        } else if j - s == 1 && p[s] == 0x2e {
            j = s;
        } else if j - s == 2 && p[s] == 0x2e && p[s + 1] == 0x2e {
            return None;
        } else {
            return Some((s, j));
        }
    }
    None
}

/// `std::str::from_utf8(bytes)`, owned: the text when the bytes are valid
/// UTF-8.
///
/// Claims what the documentation of `from_utf8` states: success exactly on
/// valid UTF-8, and then the decoded characters.
#[verifier::external_body]
pub fn utf8_string(bytes: &[u8]) -> (r: Option<String>)
    ensures
        r is Some <==> vstd::utf8::valid_utf8(bytes@),
        r matches Some(s) ==> s@ == vstd::utf8::decode_utf8(bytes@),
{
    match std::str::from_utf8(bytes) {
        Ok(s) => Some(s.to_owned()),
        Err(_) => None,
    }
}

/// The name shown for an imported file: its file name when that is valid
/// UTF-8, else `<unknown>`.
pub open spec fn display_name(p: Seq<u8>) -> Seq<char> {
    match file_name_range(p) {
        Some(r) => if vstd::utf8::valid_utf8(p.subrange(r.0, r.1)) {
            vstd::utf8::decode_utf8(p.subrange(r.0, r.1))
        } else {
            "<unknown>"@
        },
        None => "<unknown>"@,
    }
}

/// `path.file_name().and_then(|n| n.to_str()).unwrap_or("<unknown>")`, owned.
pub fn file_display_name(path: &[u8]) -> (r: String)
    ensures
        r@ == display_name(path@),
{
    match file_name(path) {
        Some((a, b)) => match utf8_string(&path[a..b]) {
            Some(s) => s,
            None => String::from_str("<unknown>"),
        },
        None => String::from_str("<unknown>"),
    }
}

} // verus!
