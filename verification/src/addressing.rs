//! Where the daemon of a project lives: a short fingerprint of the project
//! root names a directory of its own below the user's home.

use crate::paths::{join, joined};
use vstd::prelude::*;
use vstd::string::StringSliceAdditionalSpecFns;

verus! {

/// How many bytes of the digest go into the fingerprint.
pub const IDENTITY_BYTES: usize = 6;

/// The SHA-256 digest of `data`, as `sha2` computes it.
pub uninterp spec fn sha256(data: Seq<u8>) -> Seq<u8>;

/// `Sha256::digest` of the crate `sha2`. The digest depends on the data
/// alone, and has 32 bytes.
#[verifier::external_body]
fn sha256_digest(data: &[u8]) -> (digest: Vec<u8>)
    ensures
        digest@ == sha256(data@),
        digest@.len() == 32,
{
    <sha2::Sha256 as sha2::Digest>::digest(data).to_vec()
}

/// The digit that stands for `n`, a number below 16, in lower case.
pub open spec fn hex_digit(n: int) -> char {
    if n < 10 {
        (('0' as int) + n) as char
    } else {
        (('a' as int) + n - 10) as char
    }
}

/// Whether `c` is a hexadecimal digit in lower case.
pub open spec fn is_hex_digit(c: char) -> bool {
    ('0' <= c <= '9') || ('a' <= c <= 'f')
}

/// `bytes` in hexadecimal: two digits in lower case for each byte, the high
/// half first.
pub open spec fn hex(bytes: Seq<u8>) -> Seq<char> {
    Seq::new(
        2 * bytes.len(),
        |i: int|
            if i % 2 == 0 {
                hex_digit(bytes[i / 2] as int / 16)
            } else {
                hex_digit(bytes[i / 2] as int % 16)
            },
    )
}

/// The digit that stands for `n`.
fn hex_char(n: u8) -> (c: char)
    requires
        n < 16,
    ensures
        c == hex_digit(n as int),
        is_hex_digit(c),
{
    if n < 10 {
        (48u8 + n) as char
    } else {
        (97u8 + (n - 10)) as char
    }
}

/// The first `count` bytes of `bytes` in hexadecimal.
pub fn hex_prefix(bytes: &Vec<u8>, count: usize) -> (text: String)
    requires
        count <= bytes.len(),
    ensures
        text@ == hex(bytes@.take(count as int)),
        text@.len() == 2 * count,
        forall|i: int| 0 <= i < text@.len() ==> is_hex_digit(#[trigger] text@[i]),
{
    let mut text = String::new();
    let mut i: usize = 0;
    while i < count
        invariant
            i <= count <= bytes.len(),
            text@ =~= hex(bytes@.take(i as int)),
            forall|j: int| 0 <= j < text@.len() ==> is_hex_digit(#[trigger] text@[j]),
        decreases count - i,
    {
        let byte = bytes[i];
        let ghost before = text@;
        text.push(hex_char(byte / 16));
        text.push(hex_char(byte % 16));
        assert(text@ =~= hex(bytes@.take(i + 1))) by {
            let next = hex(bytes@.take(i + 1));
            assert(next.len() == text@.len());
            assert forall|j: int| 0 <= j < next.len() implies text@[j] == next[j] by {
                if j < 2 * i {
                    assert(before[j] == hex(bytes@.take(i as int))[j]);
                    assert(bytes@.take(i as int)[j / 2] == bytes@.take(i + 1)[j / 2]);
                } else {
                    assert(j / 2 == i);
                    assert(bytes@.take(i + 1)[j / 2] == byte);
                }
            }
        }
        i += 1;
    }
    text
}

/// The fingerprint of a project root: the first six bytes of the SHA-256
/// digest of its UTF-8 text, in hexadecimal.
pub open spec fn identity(root: Seq<char>) -> Seq<char> {
    hex(sha256(vstd::utf8::encode_utf8(root)).take(IDENTITY_BYTES as int))
}

/// The fingerprint of the project root: twelve hexadecimal digits.
pub fn project_hash(project_root: &str) -> (hash: String)
    ensures
        hash@ == identity(project_root@),
        hash@.len() == 12,
        forall|i: int| 0 <= i < hash@.len() ==> is_hex_digit(#[trigger] hash@[i]),
{
    let digest = sha256_digest(project_root.as_bytes());
    hex_prefix(&digest, IDENTITY_BYTES)
}

/// The files of one daemon.
#[derive(Debug, PartialEq, Eq)]
pub struct DaemonPaths {
    /// The directory that holds the others.
    pub dir: String,
    /// The socket that the daemon listens on.
    pub socket: String,
    /// The file that holds the daemon's process id.
    pub pid: String,
    /// The file that takes the daemon's standard error.
    pub log: String,
}

/// What a `DaemonPaths` stands for.
pub struct DaemonPathsView {
    pub dir: Seq<char>,
    pub socket: Seq<char>,
    pub pid: Seq<char>,
    pub log: Seq<char>,
}

impl View for DaemonPaths {
    type V = DaemonPathsView;

    open spec fn view(&self) -> DaemonPathsView {
        DaemonPathsView { dir: self.dir@, socket: self.socket@, pid: self.pid@, log: self.log@ }
    }
}

/// The files of the daemon whose directory is `dir`.
pub open spec fn paths_in(dir: Seq<char>) -> DaemonPathsView {
    DaemonPathsView {
        dir,
        socket: joined(dir, "daemon.sock"@),
        pid: joined(dir, "daemon.pid"@),
        log: joined(dir, "daemon.log"@),
    }
}

/// The directory of the daemon with the fingerprint `identity`, for the
/// user whose home is `home`.
pub open spec fn daemon_dir(home: Seq<char>, identity: Seq<char>) -> Seq<char> {
    joined(joined(joined(home, ".max"@), "daemons"@), identity)
}

/// The files of the daemon of the project at `root`.
pub open spec fn paths_for(home: Seq<char>, root: Seq<char>) -> DaemonPathsView {
    paths_in(daemon_dir(home, identity(root)))
}

/// The files of the daemon whose directory is `dir`.
fn paths_below(dir: String) -> (paths: DaemonPaths)
    ensures
        paths@ == paths_in(dir@),
{
    DaemonPaths {
        socket: join(dir.as_str(), "daemon.sock"),
        pid: join(dir.as_str(), "daemon.pid"),
        log: join(dir.as_str(), "daemon.log"),
        dir,
    }
}

impl DaemonPaths {
    /// The files of the daemon of the project at `project_root`, for the
    /// user whose home is `home`. All four come from the one fingerprint.
    pub fn for_project(home: &str, project_root: &str) -> (paths: DaemonPaths)
        ensures
            paths@ == paths_for(home@, project_root@),
            paths.well_formed(),
    {
        let hash = project_hash(project_root);
        let base = join(home, ".max");
        let daemons = join(base.as_str(), "daemons");
        paths_below(join(daemons.as_str(), hash.as_str()))
    }

    /// Whether the four paths belong together: the three files are the ones
    /// of the directory.
    pub open spec fn well_formed(&self) -> bool {
        self@ == paths_in(self.dir@)
    }
}

/// The files of the one daemon that serves a user whose home is `home`,
/// whatever the project.
pub fn global_daemon_paths(home: &str) -> (paths: DaemonPaths)
    ensures
        paths@ == paths_in(joined(home@, ".max"@)),
        paths.well_formed(),
{
    paths_below(join(home, ".max"))
}

/// The same project root gives the same files, whenever and wherever they
/// are computed: two results for one home and one root are equal.
pub proof fn lemma_addressing_is_deterministic(
    home: Seq<char>,
    root: Seq<char>,
    first: DaemonPaths,
    second: DaemonPaths,
)
    requires
        first@ == paths_for(home, root),
        second@ == paths_for(home, root),
    ensures
        first@ == second@,
        first.well_formed(),
        second.well_formed(),
{
}

/// The files of a daemon lie in its directory: each is the directory's path,
/// a `/` unless the directory ends with one, and the file's name.
pub proof fn lemma_files_below_dir(dir: Seq<char>)
    requires
        dir.len() > 0,
    ensures
        paths_in(dir).socket.take(dir.len() as int) == dir,
        paths_in(dir).pid.take(dir.len() as int) == dir,
        paths_in(dir).log.take(dir.len() as int) == dir,
{
    reveal_strlit("daemon.sock");
    reveal_strlit("daemon.pid");
    reveal_strlit("daemon.log");
    assert(paths_in(dir).socket.take(dir.len() as int) =~= dir);
    assert(paths_in(dir).pid.take(dir.len() as int) =~= dir);
    assert(paths_in(dir).log.take(dir.len() as int) =~= dir);
}

} // verus!
