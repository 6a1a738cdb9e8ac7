//! Hugging Face Hub downloads with explicit user consent and offline cache reuse.
//!
//! A repository `owner/name` (or `name`) is kept in the models directory as
//! `owner--name` (or `name`). A repository already there is reused without
//! going online; otherwise the shell fetches it into that directory. Calling
//! [`download_model`] is the user's consent to go online.

use vstd::prelude::*;
use crate::error::OmniForgeError;
use crate::fspath::{join, joined};
use crate::model_registry::{
    is_model, lemma_joined_under, lemma_under_trans, listed_models, models_dir, models_location,
    models_segment, single_component, strictly_under, ModelEntryView,
};
use crate::text::{chars_of, find_char, find_char_exec, substring};
use vstd::string::StrSliceExecFns;
use vstd::string::StringExecFns;
use vstd::utf8::{encode_scalar, encode_utf8};

verus! {

/// An ASCII letter or digit.
pub open spec fn is_alnum(c: char) -> bool {
    ('a' <= c && c <= 'z') || ('A' <= c && c <= 'Z') || ('0' <= c && c <= '9')
}

/// A character allowed in a Hub repository name: an ASCII letter or digit,
/// `-`, `_` or `.`.
pub open spec fn is_id_char(c: char) -> bool {
    is_alnum(c) || c == '-' || c == '_' || c == '.'
}

/// Whether `s[i]` and `s[i + 1]` are not `--` nor `..`.
pub open spec fn no_double(s: Seq<char>, i: int) -> bool {
    !(s[i] == '-' && s[i + 1] == '-') && !(s[i] == '.' && s[i + 1] == '.')
}

/// Whether `s` is a valid owner or repository name on the Hub: non-empty,
/// of allowed characters, starting and ending with a letter or digit, and
/// without `--` or `..`.
pub open spec fn valid_segment(s: Seq<char>) -> bool {
    &&& s.len() > 0
    &&& is_alnum(s[0])
    &&& is_alnum(s.last())
    &&& forall|i: int| 0 <= i < s.len() ==> #[trigger] is_id_char(s[i])
    &&& forall|i: int| 0 <= i < s.len() - 1 ==> #[trigger] no_double(s, i)
}

/// Whether `id` is a valid repository id: `name` or `owner/name`.
pub open spec fn valid_model_id(id: Seq<char>) -> bool {
    let k = find_char(id, '/', 0, id.len() as int);
    if k >= id.len() {
        valid_segment(id)
    } else {
        valid_segment(id.subrange(0, k)) && valid_segment(id.subrange(k + 1, id.len() as int))
    }
}

/// The name of the local directory of repository `id`: `owner--name`, or
/// `name` for a repository without owner.
pub open spec fn local_name(id: Seq<char>) -> Seq<char> {
    let k = find_char(id, '/', 0, id.len() as int);
    if k >= id.len() {
        id
    } else {
        id.subrange(0, k) + "--"@ + id.subrange(k + 1, id.len() as int)
    }
}

/// Where repository `id` is kept, under the data directory `data_dir`.
pub open spec fn model_location(data_dir: Seq<u8>, id: Seq<char>) -> Seq<u8> {
    joined(models_location(data_dir), encode_utf8(local_name(id)))
}

/// Whether `s` follows the Hub's naming rules for an owner or a repository
/// name: one or more ASCII letters, digits, `-`, `_` and `.`, beginning and
/// ending with a letter or digit, with no `--` and no `..`.
pub open spec fn hub_name(s: Seq<char>) -> bool {
    &&& s.len() > 0
    &&& forall|i: int|
        0 <= i < s.len() ==> {
            let c = #[trigger] s[i];
            ||| 'a' <= c <= 'z'
            ||| 'A' <= c <= 'Z'
            ||| '0' <= c <= '9'
            ||| c == '-'
            ||| c == '_'
            ||| c == '.'
        }
    &&& {
        let c = s[0];
        ('a' <= c <= 'z') || ('A' <= c <= 'Z') || ('0' <= c <= '9')
    }
    &&& {
        let c = s[s.len() - 1];
        ('a' <= c <= 'z') || ('A' <= c <= 'Z') || ('0' <= c <= '9')
    }
    &&& forall|i: int|
        0 <= i < s.len() - 1 ==> !(#[trigger] s[i] == '-' && s[i + 1] == '-') && !(s[i] == '.'
            && s[i + 1] == '.')
}

/// A segment is valid exactly when it follows the Hub's naming rules.
pub proof fn lemma_segment_is_hub_name(s: Seq<char>)
    ensures
        valid_segment(s) <==> hub_name(s),
{
    if hub_name(s) {
        assert(s.last() == s[s.len() - 1]);
        assert forall|i: int| 0 <= i < s.len() implies #[trigger] is_id_char(s[i]) by {
            let c = s[i];
        }
        assert forall|i: int| 0 <= i < s.len() - 1 implies #[trigger] no_double(s, i) by {
            let c = s[i];
        }
    }
    if valid_segment(s) {
        assert forall|i: int| 0 <= i < s.len() implies {
            let c = #[trigger] s[i];
            ||| 'a' <= c <= 'z'
            ||| 'A' <= c <= 'Z'
            ||| '0' <= c <= '9'
            ||| c == '-'
            ||| c == '_'
            ||| c == '.'
        } by {
            assert(is_id_char(s[i]));
        }
        assert(s.last() == s[s.len() - 1]);
        assert forall|i: int| 0 <= i < s.len() - 1 implies !(#[trigger] s[i] == '-' && s[i + 1]
            == '-') && !(s[i] == '.' && s[i + 1] == '.') by {
            assert(no_double(s, i));
        }
    }
}

/// Every repository id that the Hub accepts is accepted: a name, or an
/// owner and a name joined by `/`, each following the Hub's naming rules.
pub proof fn lemma_hub_ids_valid(owner: Seq<char>, name: Seq<char>)
    requires
        hub_name(owner),
        hub_name(name),
    ensures
        valid_model_id(name),
        valid_model_id(owner + "/"@ + name),
        local_name(owner + "/"@ + name) == owner + "--"@ + name,
{
    reveal_strlit("/");
    lemma_segment_is_hub_name(owner);
    lemma_segment_is_hub_name(name);
    assert(find_char(name, '/', 0, name.len() as int) == name.len()) by {
        lemma_no_char(name, '/', 0);
    }
    let id = owner + "/"@ + name;
    let k = owner.len() as int;
    assert(id[k] == '/');
    assert forall|i: int| 0 <= i < k implies id[i] != '/' by {
        assert(id[i] == owner[i]);
    }
    lemma_first_char(id, '/', 0, k);
    assert(id.subrange(0, k) =~= owner);
    assert(id.subrange(k + 1, id.len() as int) =~= name);
}

/// Searching a hub name for `/` finds nothing.
proof fn lemma_no_char(s: Seq<char>, c: char, i: int)
    requires
        0 <= i <= s.len(),
        hub_name(s),
        c == '/',
    ensures
        find_char(s, c, i, s.len() as int) == s.len(),
    decreases s.len() - i,
{
    if i < s.len() {
        let d = s[i];
        assert(d != '/');
        lemma_no_char(s, c, i + 1);
    }
}

/// The first `c` at or after `i` is at `k` when `s[k] == c` and none before.
proof fn lemma_first_char(s: Seq<char>, c: char, i: int, k: int)
    requires
        0 <= i <= k < s.len(),
        s[k] == c,
        forall|j: int| i <= j < k ==> s[j] != c,
    ensures
        find_char(s, c, i, s.len() as int) == k,
    decreases k - i,
{
    if i < k {
        lemma_first_char(s, c, i + 1, k);
    }
}

/// The characters of the local directory name of a valid repository id are
/// allowed characters, the first a letter or digit.
proof fn lemma_local_name_chars(id: Seq<char>)
    requires
        valid_model_id(id),
    ensures
        local_name(id).len() > 0,
        is_alnum(local_name(id)[0]),
        forall|i: int| 0 <= i < local_name(id).len() ==> #[trigger] is_id_char(local_name(id)[i]),
{
    let k = find_char(id, '/', 0, id.len() as int);
    if k < id.len() {
        reveal_strlit("--");
        let owner = id.subrange(0, k);
        let name = id.subrange(k + 1, id.len() as int);
        let ln = local_name(id);
        assert(ln == owner + "--"@ + name);
        assert forall|i: int| 0 <= i < ln.len() implies #[trigger] is_id_char(ln[i]) by {
            if i < owner.len() {
                assert(ln[i] == owner[i]);
            } else if i < owner.len() + 2 {
                assert(ln[i] == '-');
            } else {
                assert(ln[i] == name[i - owner.len() - 2]);
            }
        }
        assert(ln[0] == owner[0]);
    }
}

/// The UTF-8 encoding of ASCII characters is their codes, one byte each.
proof fn lemma_encode_ascii(s: Seq<char>)
    requires
        forall|i: int| 0 <= i < s.len() ==> (#[trigger] s[i] as u32) < 0x80,
    ensures
        encode_utf8(s).len() == s.len(),
        forall|i: int| 0 <= i < s.len() ==> #[trigger] encode_utf8(s)[i] == s[i] as u32,
    decreases s.len(),
{
    if s.len() > 0 {
        let x = s[0] as u32;
        assert(x <= 0x7f ==> x & 0x7f == x) by (bit_vector);
        assert(encode_scalar(x) =~= seq![x as u8]);
        let rest = s.drop_first();
        assert forall|i: int| 0 <= i < rest.len() implies (#[trigger] rest[i] as u32) < 0x80 by {
            assert(rest[i] == s[i + 1]);
        }
        lemma_encode_ascii(rest);
        assert forall|i: int| 0 <= i < s.len() implies #[trigger] encode_utf8(s)[i] == s[i] as u32 by {
            if i > 0 {
                assert(encode_utf8(s)[i] == encode_utf8(rest)[i - 1]);
                assert(rest[i - 1] == s[i]);
            }
        }
    }
}

/// What a download fetches is what the model listing shows: the directory of
/// a valid repository is an entry of the models directory (a single path
/// component), it lies under the data directory, and once it holds a
/// checkpoint, listing that entry gives exactly its path.
pub proof fn lemma_download_is_listed(data_dir: Seq<u8>, id: Seq<char>)
    requires
        valid_model_id(id),
    ensures
        single_component(encode_utf8(local_name(id))),
        model_location(data_dir, id) == joined(
            models_location(data_dir),
            encode_utf8(local_name(id)),
        ),
        strictly_under(data_dir, model_location(data_dir, id)),
        listed_models(
            models_location(data_dir),
            seq![ModelEntryView { name: encode_utf8(local_name(id)), is_dir: true, has_config: true }],
        ) == seq![model_location(data_dir, id)],
{
    let ln = local_name(id);
    lemma_local_name_chars(id);
    assert forall|i: int| 0 <= i < ln.len() implies (#[trigger] ln[i] as u32) < 0x80 by {
        assert(is_id_char(ln[i]));
    }
    lemma_encode_ascii(ln);
    let n = encode_utf8(ln);
    assert(n[0] == ln[0] as u32);
    assert(!n.contains(0x2fu8)) by {
        if n.contains(0x2fu8) {
            let i = choose|i: int| 0 <= i < n.len() && n[i] == 0x2fu8;
            assert(is_id_char(ln[i]));
            assert(n[i] == ln[i] as u32);
        }
    }
    assert(n != seq![0x2eu8]) by {
        if n == seq![0x2eu8] {
            assert(n[0] == 0x2eu8);
        }
    }
    assert(n != seq![0x2eu8, 0x2eu8]) by {
        if n == seq![0x2eu8, 0x2eu8] {
            assert(n[0] == 0x2eu8);
        }
    }
    lemma_joined_under(data_dir, models_segment());
    lemma_joined_under(models_location(data_dir), n);
    lemma_under_trans(data_dir, models_location(data_dir), model_location(data_dir, id));
    let e = ModelEntryView { name: n, is_dir: true, has_config: true };
    let es = seq![e];
    assert(is_model(e));
    assert(es.drop_last() =~= Seq::<ModelEntryView>::empty());
    assert(listed_models(models_location(data_dir), es.drop_last()) =~= Seq::<Seq<u8>>::empty());
    assert(listed_models(models_location(data_dir), es) =~= seq![model_location(data_dir, id)]);
}

/// Where a download stands.
#[derive(Debug, Clone, Copy, PartialEq, Eq, Structural)]
pub enum DownloadPhase {
    /// Waiting for the data directory.
    AwaitDataDir,
    /// Waiting to learn whether the repository is already present.
    AwaitCacheCheck,
    /// Waiting for the repository to be fetched.
    AwaitFetch,
    /// The download is over.
    Finished,
}

/// What the shell reports back during a download.
#[derive(Debug)]
pub enum DownloadInput {
    /// The data directory (OS path bytes), or why it is unknown.
    DataDirResolved(Result<Vec<u8>, OmniForgeError>),
    /// Whether the repository's directory is already present.
    CacheChecked(bool),
    /// The fetch finished, or failed with this text.
    Fetched(Result<(), String>),
}

/// What the shell must do next during a download.
#[derive(Debug)]
pub enum DownloadAction {
    /// Resolve the data directory.
    ResolveDataDir,
    /// Check whether this directory is present.
    CheckCache(Vec<u8>),
    /// Fetch the repository `repo_id` from the Hub into `dest`.
    Fetch { repo_id: String, dest: Vec<u8> },
    /// The download ended with this result.
    Done(Result<(), OmniForgeError>),
}

/// One download of a Hub repository.
pub struct ModelDownload {
    phase: DownloadPhase,
    repo_id: String,
    dest: Vec<u8>,
}

/// Whether `input` is what the shell reports in `phase`.
pub open spec fn download_accepts(phase: DownloadPhase, input: DownloadInput) -> bool {
    match phase {
        DownloadPhase::AwaitDataDir => input is DataDirResolved,
        DownloadPhase::AwaitCacheCheck => input is CacheChecked,
        DownloadPhase::AwaitFetch => input is Fetched,
        DownloadPhase::Finished => false,
    }
}

/// Whether `a` ends the download with a model error whose message is `text`.
pub open spec fn download_fails_with(a: DownloadAction, text: Seq<char>) -> bool {
    a matches DownloadAction::Done(Err(OmniForgeError::Model { message })) && message@ == text
}

/// Whether `a` ends the download successfully.
pub open spec fn download_succeeds(a: DownloadAction) -> bool {
    a matches DownloadAction::Done(Ok(_))
}

/// Whether `a` checks for the directory `dir`.
pub open spec fn checks_cache(a: DownloadAction, dir: Seq<u8>) -> bool {
    a matches DownloadAction::CheckCache(d) && d@ == dir
}

/// Whether `a` fetches repository `id` into `dir`.
pub open spec fn fetches(a: DownloadAction, id: Seq<char>, dir: Seq<u8>) -> bool {
    a matches DownloadAction::Fetch { repo_id, dest } && repo_id@ == id && dest@ == dir
}

fn alnum_exec(c: char) -> (r: bool)
    ensures
        r == is_alnum(c),
{
    ('a' <= c && c <= 'z') || ('A' <= c && c <= 'Z') || ('0' <= c && c <= '9')
}

fn segment_ok(cs: &Vec<char>, lo: usize, hi: usize) -> (r: bool)
    requires
        lo <= hi <= cs.len(),
    ensures
        r == valid_segment(cs@.subrange(lo as int, hi as int)),
{
    let ghost s = cs@.subrange(lo as int, hi as int);
    if lo >= hi {
        return false;
    }
    if !alnum_exec(cs[lo]) {
        assert(s[0] == cs@[lo as int]);
        return false;
    }
    if !alnum_exec(cs[hi - 1]) {
        assert(s.last() == cs@[hi - 1]);
        return false;
    }
    assert(s[0] == cs@[lo as int] && s.last() == cs@[hi - 1]);
    let mut k = lo;
    while k < hi
        invariant
            lo < hi <= cs.len(),
            lo <= k <= hi,
            s == cs@.subrange(lo as int, hi as int),
            forall|j: int| 0 <= j < k - lo ==> #[trigger] is_id_char(s[j]),
            forall|j: int| 0 <= j < k - lo && j < s.len() - 1 ==> #[trigger] no_double(s, j),
        decreases hi - k,
    {
        let c = cs[k];
        if !(alnum_exec(c) || c == '-' || c == '_' || c == '.') {
            assert(!is_id_char(s[k - lo]));
            return false;
        }
        if k + 1 < hi {
            let d = cs[k + 1];
            if (c == '-' && d == '-') || (c == '.' && d == '.') {
                assert(!no_double(s, k - lo));
                return false;
            }
            assert(no_double(s, k - lo));
        }
        k = k + 1;
    }
    true
}

/// Whether `id` is a valid repository id.
pub fn is_valid_model_id(id: &str) -> (r: bool)
    ensures
        r == valid_model_id(id@),
{
    let cs = chars_of(id);
    let k = find_char_exec(&cs, '/', 0, cs.len());
    if k >= cs.len() {
        assert(cs@.subrange(0, cs.len() as int) =~= cs@);
        segment_ok(&cs, 0, cs.len())
    } else {
        segment_ok(&cs, 0, k) && segment_ok(&cs, k + 1, cs.len())
    }
}

/// The name of the local directory of repository `id`.
fn local_name_of(id: &str) -> (r: String)
    ensures
        r@ == local_name(id@),
{
    let cs = chars_of(id);
    let k = find_char_exec(&cs, '/', 0, cs.len());
    if k >= cs.len() {
        String::from_str(id)
    } else {
        let mut r = substring(id, &cs, 0, k);
        r.append("--");
        let name = substring(id, &cs, k + 1, cs.len());
        r.append(name.as_str());
        r
    }
}

/// Starts downloading the Hub repository `model_id` into the OmniForge models
/// directory: an invalid id fails at once with a model error naming it;
/// otherwise the data directory is resolved first.
pub fn download_model(model_id: &str) -> (r: (ModelDownload, DownloadAction))
    ensures
        valid_model_id(model_id@) ==> r.0.spec_phase() == DownloadPhase::AwaitDataDir
            && r.1 is ResolveDataDir && r.0.spec_repo_id() == model_id@,
        !valid_model_id(model_id@) ==> r.0.spec_phase() == DownloadPhase::Finished
            && download_fails_with(r.1, "invalid model id: "@ + model_id@),
{
    if is_valid_model_id(model_id) {
        (
            ModelDownload {
                phase: DownloadPhase::AwaitDataDir,
                repo_id: String::from_str(model_id),
                dest: Vec::new(),
            },
            DownloadAction::ResolveDataDir,
        )
    } else {
        let mut message = String::from_str("invalid model id: ");
        message.append(model_id);
        (
            ModelDownload { phase: DownloadPhase::Finished, repo_id: String::new(), dest: Vec::new() },
            DownloadAction::Done(Err(OmniForgeError::Model { message })),
        )
    }
}

impl ModelDownload {
    /// The current phase.
    pub closed spec fn spec_phase(self) -> DownloadPhase {
        self.phase
    }

    /// The repository being downloaded.
    pub closed spec fn spec_repo_id(self) -> Seq<char> {
        self.repo_id@
    }

    /// Where the repository is kept.
    pub closed spec fn spec_dest(self) -> Seq<u8> {
        self.dest@
    }

    /// The current phase.
    pub fn phase(&self) -> (r: DownloadPhase)
        ensures
            r == self.spec_phase(),
    {
        self.phase
    }

    /// Advances the download on what the shell reports: with the data
    /// directory known, checks whether the repository's directory is present;
    /// a present repository ends the download successfully without going
    /// online; otherwise it is fetched into that directory, and the fetch's
    /// outcome ends the download (a failure as a model error that quotes it).
    pub fn step(&mut self, input: DownloadInput) -> (a: DownloadAction)
        requires
            download_accepts(old(self).spec_phase(), input),
        ensures
            final(self).spec_repo_id() == old(self).spec_repo_id(),
            match (old(self).spec_phase(), input) {
                (DownloadPhase::AwaitDataDir, DownloadInput::DataDirResolved(Err(e))) => {
                    &&& final(self).spec_phase() == DownloadPhase::Finished
                    &&& a == DownloadAction::Done(Err(e))
                },
                (DownloadPhase::AwaitDataDir, DownloadInput::DataDirResolved(Ok(d))) => {
                    &&& final(self).spec_phase() == DownloadPhase::AwaitCacheCheck
                    &&& final(self).spec_dest() == model_location(d@, old(self).spec_repo_id())
                    &&& checks_cache(a, model_location(d@, old(self).spec_repo_id()))
                },
                (DownloadPhase::AwaitCacheCheck, DownloadInput::CacheChecked(present)) => {
                    &&& present ==> final(self).spec_phase() == DownloadPhase::Finished
                        && download_succeeds(a)
                    &&& !present ==> final(self).spec_phase() == DownloadPhase::AwaitFetch
                        && fetches(a, old(self).spec_repo_id(), old(self).spec_dest())
                },
                (DownloadPhase::AwaitFetch, DownloadInput::Fetched(Ok(_))) => {
                    &&& final(self).spec_phase() == DownloadPhase::Finished
                    &&& download_succeeds(a)
                },
                (DownloadPhase::AwaitFetch, DownloadInput::Fetched(Err(t))) => {
                    &&& final(self).spec_phase() == DownloadPhase::Finished
                    &&& download_fails_with(a, "model download failed: "@ + t@)
                },
                _ => false,
            },
    {
        match (self.phase, input) {
            (DownloadPhase::AwaitDataDir, DownloadInput::DataDirResolved(resolved)) => match resolved {
                Err(e) => {
                    self.phase = DownloadPhase::Finished;
                    DownloadAction::Done(Err(e))
                },
                Ok(d) => {
                    let models = models_dir(d.as_slice());
                    let name = local_name_of(self.repo_id.as_str());
                    let dest = join(models.as_slice(), name.as_str().as_bytes());
                    let check = crate::fspath::copy_bytes(dest.as_slice());
                    self.dest = dest;
                    self.phase = DownloadPhase::AwaitCacheCheck;
                    DownloadAction::CheckCache(check)
                },
            },
            (DownloadPhase::AwaitCacheCheck, DownloadInput::CacheChecked(present)) => {
                if present {
                    self.phase = DownloadPhase::Finished;
                    DownloadAction::Done(Ok(()))
                } else {
                    self.phase = DownloadPhase::AwaitFetch;
                    let dest = crate::fspath::copy_bytes(self.dest.as_slice());
                    DownloadAction::Fetch { repo_id: self.repo_id.clone(), dest }
                }
            },
            (DownloadPhase::AwaitFetch, DownloadInput::Fetched(outcome)) => {
                self.phase = DownloadPhase::Finished;
                match outcome {
                    Ok(()) => DownloadAction::Done(Ok(())),
                    Err(t) => {
                        let mut message = String::from_str("model download failed: ");
                        message.append(t.as_str());
                        DownloadAction::Done(Err(OmniForgeError::Model { message }))
                    },
                }
            },
            _ => vstd::pervasive::unreached(),
        }
    }
}

} // verus!
