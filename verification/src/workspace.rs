//! Workspace naming: each session owns one scratch directory under a fixed
//! root, named by a collision-resistant random identifier, holding the
//! submitted source and the built binary.
//!
//! The paths are computed here and proved well-formed; creating, writing and
//! removing the directories is the driver's I/O.

use vstd::prelude::*;
use crate::codec::append_bytes;

verus! {

/// The root under which every session workspace lives: `/work/executions/`.
pub open spec fn spec_work_root() -> Seq<u8> {
    seq![('/' as u8), ('w' as u8), ('o' as u8), ('r' as u8), ('k' as u8), ('/' as u8), ('e' as u8), ('x' as u8), ('e' as u8), ('c' as u8), ('u' as u8), ('t' as u8), ('i' as u8), ('o' as u8), ('n' as u8), ('s' as u8), ('/' as u8)]
}

/// The source file inside a workspace: `/main.rs` appended to the directory.
pub open spec fn spec_source_suffix() -> Seq<u8> {
    seq![('/' as u8), ('m' as u8), ('a' as u8), ('i' as u8), ('n' as u8), ('.' as u8), ('r' as u8), ('s' as u8)]
}

/// The built binary inside a workspace: `/main` appended to the directory.
pub open spec fn spec_binary_suffix() -> Seq<u8> {
    seq![('/' as u8), ('m' as u8), ('a' as u8), ('i' as u8), ('n' as u8)]
}

/// A byte a session identifier may hold: lowercase hex or the hyphen.
pub open spec fn is_session_id_byte(b: u8) -> bool {
    (('0' as u8) <= b && b <= ('9' as u8)) || (('a' as u8) <= b && b <= ('f' as u8)) || b == ('-' as u8)
}

/// A well-formed session identifier: the 36 bytes of a hyphenated 128-bit
/// identifier, drawn from an alphabet with no path separator in it.
pub open spec fn valid_session_id(id: Seq<u8>) -> bool {
    id.len() == 36 && (forall|i: int| 0 <= i < id.len() ==> is_session_id_byte(#[trigger] id[i]))
}

/// The scratch directory of the session named `id`.
pub open spec fn spec_work_dir(id: Seq<u8>) -> Seq<u8> {
    spec_work_root() + id
}

/// Relies on `uuid::Uuid::new_v4` and its `Display` form: a fresh random
/// 128-bit identifier, rendered as 36 bytes of lowercase hyphenated hex.
/// Nothing is assumed about which identifier comes back, only its shape.
#[verifier::external_body]
fn fresh_session_id() -> (r: Vec<u8>)
    ensures
        valid_session_id(r@),
{
    uuid::Uuid::new_v4().to_string().into_bytes()
}

/// The fixed prefix of every workspace path.
fn work_root_bytes() -> (r: Vec<u8>)
    ensures
        r@ == spec_work_root(),
{
    let mut r: Vec<u8> = Vec::new();
    r.push(('/' as u8));
    r.push(('w' as u8));
    r.push(('o' as u8));
    r.push(('r' as u8));
    r.push(('k' as u8));
    r.push(('/' as u8));
    r.push(('e' as u8));
    r.push(('x' as u8));
    r.push(('e' as u8));
    r.push(('c' as u8));
    r.push(('u' as u8));
    r.push(('t' as u8));
    r.push(('i' as u8));
    r.push(('o' as u8));
    r.push(('n' as u8));
    r.push(('s' as u8));
    r.push(('/' as u8));
    proof {
        assert(r@ =~= spec_work_root());
    }
    r
}

/// Everything the driver needs to provision one session's workspace: the
/// directory to create, the file to write the source into, and the path the
/// build step is told to place the binary at.
pub struct WorkspacePlan {
    pub session_id: Vec<u8>,
    pub work_dir: Vec<u8>,
    pub source_path: Vec<u8>,
    pub binary_path: Vec<u8>,
}

impl WorkspacePlan {
    /// The paths all belong to one well-formed session identifier.
    pub open spec fn wf(self) -> bool {
        &&& valid_session_id(self.session_id@)
        &&& self.work_dir@ == spec_work_dir(self.session_id@)
        &&& self.source_path@ == spec_work_dir(self.session_id@) + spec_source_suffix()
        &&& self.binary_path@ == spec_work_dir(self.session_id@) + spec_binary_suffix()
    }
}

/// Draw a fresh session identifier and lay out its workspace paths.
pub fn plan_workspace() -> (p: WorkspacePlan)
    ensures
        p.wf(),
{
    let session_id = fresh_session_id();
    let mut work_dir = work_root_bytes();
    append_bytes(&mut work_dir, session_id.as_slice());
    let mut source_path: Vec<u8> = Vec::new();
    append_bytes(&mut source_path, work_dir.as_slice());
    source_path.push(('/' as u8));
    source_path.push(('m' as u8));
    source_path.push(('a' as u8));
    source_path.push(('i' as u8));
    source_path.push(('n' as u8));
    let mut binary_path: Vec<u8> = Vec::new();
    append_bytes(&mut binary_path, source_path.as_slice());
    proof {
        assert(binary_path@ =~= spec_work_dir(session_id@) + spec_binary_suffix());
    }
    source_path.push(('.' as u8));
    source_path.push(('r' as u8));
    source_path.push(('s' as u8));
    proof {
        assert(source_path@ =~= spec_work_dir(session_id@) + spec_source_suffix());
    }
    WorkspacePlan { session_id, work_dir, source_path, binary_path }
}

/// Law (exclusive ownership): distinct session identifiers name distinct
/// workspace directories, so at most one session is ever bound to a given
/// path; identifier collisions are the only way to share one, and the
/// 128-bit random identifier space makes those negligible.
pub proof fn lemma_work_dir_injective(a: Seq<u8>, b: Seq<u8>)
    requires
        a.len() == b.len(),
        spec_work_dir(a) == spec_work_dir(b),
    ensures
        a == b,
{
    assert forall|i: int| 0 <= i < a.len() implies a[i] == b[i] by {
        assert(spec_work_dir(a)[17 + i] == a[i]);
        assert(spec_work_dir(b)[17 + i] == b[i]);
    }
    assert(a =~= b);
}

/// Law (containment): a session identifier holds no path separator, so a
/// workspace directory is a direct child of the fixed root and never escapes
/// it.
pub proof fn lemma_session_id_no_separator(id: Seq<u8>)
    requires
        valid_session_id(id),
    ensures
        forall|i: int| 0 <= i < id.len() ==> #[trigger] id[i] != ('/' as u8),
{
}

} // verus!
