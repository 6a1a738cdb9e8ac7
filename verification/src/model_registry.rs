//! Tracks locally available base models, adapters, and export artifacts.
//!
//! Models live in the `models` directory under the XDG data directory: GGUF
//! weight files, and Hugging Face checkpoint directories (those holding a
//! `config.json`). The shell lists that directory; this module decides which
//! entries are models.

use vstd::prelude::*;
use crate::error::OmniForgeError;
use crate::fspath::{join, joined};

verus! {

/// One entry of the models directory, as the shell found it.
#[derive(Debug, Clone, PartialEq, Eq)]
pub struct ModelEntry {
    /// The entry's file name (OS bytes).
    pub name: Vec<u8>,
    /// Whether the entry is a directory.
    pub is_dir: bool,
    /// For a directory: whether it holds a `config.json` file.
    pub has_config: bool,
}

/// Mathematical model of a [`ModelEntry`].
pub struct ModelEntryView {
    pub name: Seq<u8>,
    pub is_dir: bool,
    pub has_config: bool,
}

impl View for ModelEntry {
    type V = ModelEntryView;

    open spec fn view(&self) -> ModelEntryView {
        ModelEntryView { name: self.name@, is_dir: self.is_dir, has_config: self.has_config }
    }
}

/// The bytes of `models`.
pub open spec fn models_segment() -> Seq<u8> {
    seq![0x6du8, 0x6fu8, 0x64u8, 0x65u8, 0x6cu8, 0x73u8]
}

/// The models directory: `<data_dir>/models`.
pub open spec fn models_location(data_dir: Seq<u8>) -> Seq<u8> {
    joined(data_dir, models_segment())
}

/// The models directory under the data directory `data_dir`.
pub fn models_dir(data_dir: &[u8]) -> (r: Vec<u8>)
    ensures
        r@ == models_location(data_dir@),
{
    let segment: Vec<u8> = vec![0x6du8, 0x6fu8, 0x64u8, 0x65u8, 0x6cu8, 0x73u8];
    join(data_dir, segment.as_slice())
}

/// The bytes of `.gguf`.
pub open spec fn gguf_suffix() -> Seq<u8> {
    seq![0x2eu8, 0x67u8, 0x67u8, 0x75u8, 0x66u8]
}

/// Whether `n` is a single path component: non-empty, without `/`, and
/// neither `.` nor `..`.
pub open spec fn single_component(n: Seq<u8>) -> bool {
    &&& n.len() > 0
    &&& !n.contains(0x2fu8)
    &&& n != seq![0x2eu8]
    &&& n != seq![0x2eu8, 0x2eu8]
}

/// Whether `n` names a GGUF file: something followed by `.gguf`.
pub open spec fn is_gguf_name(n: Seq<u8>) -> bool {
    n.len() > 5 && n.subrange(n.len() - 5, n.len() as int) == gguf_suffix()
}

/// Whether the entry `e` is a model: a GGUF file, or a directory holding a
/// `config.json` (a Hugging Face checkpoint).
pub open spec fn is_model(e: ModelEntryView) -> bool {
    single_component(e.name) && if e.is_dir {
        e.has_config
    } else {
        is_gguf_name(e.name)
    }
}

/// The paths of the models among the entries `es` of directory `dir`, in the
/// order of the entries, each path once.
pub open spec fn listed_models(dir: Seq<u8>, es: Seq<ModelEntryView>) -> Seq<Seq<u8>>
    decreases es.len(),
{
    if es.len() == 0 {
        seq![]
    } else {
        let before = listed_models(dir, es.drop_last());
        let p = joined(dir, es.last().name);
        if is_model(es.last()) && !before.contains(p) {
            before.push(p)
        } else {
            before
        }
    }
}

/// Whether the path `p` lies strictly below the directory `d`: `d` is a
/// proper prefix of `p`.
pub open spec fn strictly_under(d: Seq<u8>, p: Seq<u8>) -> bool {
    d.len() < p.len() && p.subrange(0, d.len() as int) == d
}

pub(crate) proof fn lemma_joined_under(b: Seq<u8>, s: Seq<u8>)
    requires
        s.len() > 0,
        s[0] != 0x2fu8,
    ensures
        strictly_under(b, joined(b, s)),
{
    let j = joined(b, s);
    if b.len() == 0 || b.last() == 0x2fu8 {
        assert(j.subrange(0, b.len() as int) =~= b);
    } else {
        assert(j.subrange(0, b.len() as int) =~= b);
    }
}

pub(crate) proof fn lemma_under_trans(a: Seq<u8>, b: Seq<u8>, c: Seq<u8>)
    requires
        strictly_under(a, b),
        strictly_under(b, c),
    ensures
        strictly_under(a, c),
{
    assert(c.subrange(0, a.len() as int) =~= b.subrange(0, a.len() as int));
}

proof fn lemma_listed_models(dir: Seq<u8>, es: Seq<ModelEntryView>)
    ensures
        listed_models(dir, es).no_duplicates(),
        forall|i: int|
            0 <= i < listed_models(dir, es).len() ==> strictly_under(
                dir,
                #[trigger] listed_models(dir, es)[i],
            ),
    decreases es.len(),
{
    if es.len() > 0 {
        lemma_listed_models(dir, es.drop_last());
        let e = es.last();
        if is_model(e) {
            assert(e.name[0] != 0x2fu8) by {
                if e.name[0] == 0x2fu8 {
                    assert(e.name.contains(0x2fu8));
                }
            }
            lemma_joined_under(dir, e.name);
        }
    }
}

fn is_model_exec(e: &ModelEntry) -> (r: bool)
    ensures
        r == is_model(e@),
{
    let n = &e.name;
    if n.len() == 0 {
        return false;
    }
    let mut i: usize = 0;
    while i < n.len()
        invariant
            i <= n.len(),
            n@ == e.name@,
            forall|k: int| 0 <= k < i ==> n@[k] != 0x2fu8,
        decreases n.len() - i,
    {
        if n[i] == 0x2f {
            assert(n@.contains(0x2fu8)) by {
                assert(n@[i as int] == 0x2fu8);
            }
            return false;
        }
        i = i + 1;
    }
    assert(!n@.contains(0x2fu8));
    if n.len() == 1 && n[0] == 0x2e {
        assert(n@ =~= seq![0x2eu8]);
        return false;
    }
    if n.len() == 2 && n[0] == 0x2e && n[1] == 0x2e {
        assert(n@ =~= seq![0x2eu8, 0x2eu8]);
        return false;
    }
    assert(n@ != seq![0x2eu8]) by {
        if n@ == seq![0x2eu8] {
            assert(n@[0] == 0x2eu8);
        }
    }
    assert(n@ != seq![0x2eu8, 0x2eu8]) by {
        if n@ == seq![0x2eu8, 0x2eu8] {
            assert(n@[0] == 0x2eu8 && n@[1] == 0x2eu8);
        }
    }
    if e.is_dir {
        e.has_config
    } else {
        let len = n.len();
        if len <= 5 {
            return false;
        }
        let gguf = n[len - 5] == 0x2e && n[len - 4] == 0x67 && n[len - 3] == 0x67 && n[len - 2]
            == 0x75 && n[len - 1] == 0x66;
        if gguf {
            assert(n@.subrange(len - 5, len as int) =~= gguf_suffix());
        } else {
            assert(n@.subrange(len - 5, len as int) != gguf_suffix()) by {
                let t = n@.subrange(len - 5, len as int);
                if t == gguf_suffix() {
                    assert(t[0] == 0x2eu8 && t[1] == 0x67u8 && t[2] == 0x67u8 && t[3] == 0x75u8
                        && t[4] == 0x66u8);
                }
            }
        }
        gguf
    }
}

fn same_bytes(a: &Vec<u8>, b: &Vec<u8>) -> (r: bool)
    ensures
        r == (a@ == b@),
{
    if a.len() != b.len() {
        return false;
    }
    let mut i: usize = 0;
    while i < a.len()
        invariant
            a.len() == b.len(),
            i <= a.len(),
            forall|k: int| 0 <= k < i ==> a@[k] == b@[k],
        decreases a.len() - i,
    {
        if a[i] != b[i] {
            return false;
        }
        i = i + 1;
    }
    assert(a@ =~= b@);
    true
}

fn already_listed(out: &Vec<Vec<u8>>, p: &Vec<u8>) -> (r: bool)
    ensures
        r == out@.map_values(|q: Vec<u8>| q@).contains(p@),
{
    let ghost m = out@.map_values(|q: Vec<u8>| q@);
    let mut i: usize = 0;
    while i < out.len()
        invariant
            i <= out.len(),
            m == out@.map_values(|q: Vec<u8>| q@),
            forall|k: int| 0 <= k < i ==> out@[k]@ != p@,
        decreases out.len() - i,
    {
        if same_bytes(&out[i], p) {
            assert(m[i as int] == p@);
            return true;
        }
        i = i + 1;
    }
    assert(!m.contains(p@)) by {
        if m.contains(p@) {
            let k = choose|k: int| 0 <= k < m.len() && #[trigger] m[k] == p@;
            assert(out@[k]@ == p@);
        }
    }
    false
}

/// Any GGUF file is listed: a file entry whose name is some non-empty text
/// `p` without `/` followed by `.gguf` is a model, and listing it alone gives
/// its path in the directory, whatever else `p` holds (dots included).
pub proof fn lemma_gguf_file_listed(dir: Seq<u8>, p: Seq<u8>, has_config: bool)
    requires
        p.len() > 0,
        forall|i: int| 0 <= i < p.len() ==> p[i] != 0x2fu8,
    ensures
        ({
            let n = p + seq![0x2eu8, 0x67u8, 0x67u8, 0x75u8, 0x66u8];
            listed_models(dir, seq![ModelEntryView { name: n, is_dir: false, has_config }])
                == seq![joined(dir, n)]
        }),
{
    let n = p + seq![0x2eu8, 0x67u8, 0x67u8, 0x75u8, 0x66u8];
    let e = ModelEntryView { name: n, is_dir: false, has_config };
    assert(!n.contains(0x2fu8)) by {
        if n.contains(0x2fu8) {
            let i = choose|i: int| 0 <= i < n.len() && n[i] == 0x2fu8;
            if i < p.len() {
                assert(n[i] == p[i]);
            }
        }
    }
    assert(n != seq![0x2eu8]) by {
        if n == seq![0x2eu8] {
            assert(n.len() == 1);
        }
    }
    assert(n != seq![0x2eu8, 0x2eu8]) by {
        if n == seq![0x2eu8, 0x2eu8] {
            assert(n.len() == 2);
        }
    }
    assert(n.subrange(n.len() - 5, n.len() as int) =~= gguf_suffix());
    assert(is_model(e));
    let es = seq![e];
    assert(es.drop_last() =~= Seq::<ModelEntryView>::empty());
    assert(listed_models(dir, es.drop_last()) =~= Seq::<Seq<u8>>::empty());
    assert(es.last() == e);
    assert(listed_models(dir, es) =~= seq![joined(dir, n)]);
}

/// Any Hugging Face checkpoint is listed: a directory entry holding a
/// `config.json`, named by a single path component (non-empty, without `/`,
/// neither `.` nor `..`), is a model, and listing it alone gives its path;
/// without a `config.json` it is not listed.
pub proof fn lemma_checkpoint_listed(dir: Seq<u8>, n: Seq<u8>, has_config: bool)
    requires
        n.len() > 0,
        forall|i: int| 0 <= i < n.len() ==> n[i] != 0x2fu8,
        n != seq![0x2eu8],
        n != seq![0x2eu8, 0x2eu8],
    ensures
        listed_models(dir, seq![ModelEntryView { name: n, is_dir: true, has_config }]) == if has_config {
            seq![joined(dir, n)]
        } else {
            Seq::<Seq<u8>>::empty()
        },
{
    let e = ModelEntryView { name: n, is_dir: true, has_config };
    assert(!n.contains(0x2fu8));
    let es = seq![e];
    assert(es.drop_last() =~= Seq::<ModelEntryView>::empty());
    assert(listed_models(dir, es.drop_last()) =~= Seq::<Seq<u8>>::empty());
    assert(es.last() == e);
    if has_config {
        assert(listed_models(dir, es) =~= seq![joined(dir, n)]);
    } else {
        assert(listed_models(dir, es) =~= Seq::<Seq<u8>>::empty());
    }
}

/// Lists the GGUF files and Hugging Face checkpoints in the models directory
/// of the data directory `data_dir`, given what listing that directory gave:
/// an I/O error, no directory at all (no models), or its entries. Each model
/// is listed once, as its path, in the order of the entries; every path lies
/// under `data_dir`.
pub fn list_local_models(
    data_dir: &[u8],
    listing: Result<Option<Vec<ModelEntry>>, std::io::Error>,
) -> (r: Result<Vec<Vec<u8>>, OmniForgeError>)
    ensures
        listing matches Err(e) ==> r == Err::<Vec<Vec<u8>>, OmniForgeError>(OmniForgeError::Io(e)),
        listing matches Ok(None) ==> (r matches Ok(v) && v.len() == 0),
        listing matches Ok(Some(es)) ==> (r matches Ok(v) && v@.map_values(|p: Vec<u8>| p@)
            == listed_models(models_location(data_dir@), es@.map_values(|e: ModelEntry| e@))),
        r matches Ok(v) ==> {
            &&& v@.map_values(|p: Vec<u8>| p@).no_duplicates()
            &&& forall|i: int| 0 <= i < v.len() ==> strictly_under(data_dir@, #[trigger] v@[i]@)
        },
{
    match listing {
        Err(e) => Err(OmniForgeError::Io(e)),
        Ok(None) => {
            let v: Vec<Vec<u8>> = Vec::new();
            assert(v@.map_values(|p: Vec<u8>| p@) =~= Seq::<Seq<u8>>::empty());
            Ok(v)
        },
        Ok(Some(es)) => {
            let dir = models_dir(data_dir);
            let ghost ev = es@.map_values(|e: ModelEntry| e@);
            let mut out: Vec<Vec<u8>> = Vec::new();
            let mut i: usize = 0;
            while i < es.len()
                invariant
                    i <= es.len(),
                    ev == es@.map_values(|e: ModelEntry| e@),
                    dir@ == models_location(data_dir@),
                    out@.map_values(|p: Vec<u8>| p@) == listed_models(dir@, ev.take(i as int)),
                decreases es.len() - i,
            {
                assert(ev.take(i + 1).drop_last() =~= ev.take(i as int));
                let e = &es[i];
                if is_model_exec(e) {
                    let p = join(dir.as_slice(), e.name.as_slice());
                    if !already_listed(&out, &p) {
                        out.push(p);
                        assert(out@.map_values(|q: Vec<u8>| q@) =~= listed_models(
                            dir@,
                            ev.take(i as int),
                        ).push(p@));
                    }
                }
                i = i + 1;
            }
            assert(ev.take(es.len() as int) =~= ev);
            proof {
                lemma_listed_models(dir@, ev);
                lemma_joined_under(data_dir@, models_segment());
                assert forall|k: int| 0 <= k < out.len() implies strictly_under(
                    data_dir@,
                    #[trigger] out@[k]@,
                ) by {
                    assert(out@.map_values(|q: Vec<u8>| q@)[k] == out@[k]@);
                    lemma_under_trans(data_dir@, dir@, out@[k]@);
                }
            }
            Ok(out)
        },
    }
}

} // verus!
