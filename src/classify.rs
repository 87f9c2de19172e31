//! Routing capture entries by their tag.
use vstd::prelude::*;
use vstd::string::StringSliceAdditionalSpecFns;

verus! {

/// Where a capture entry goes.
#[derive(Clone, Copy, Debug, PartialEq, Eq, Structural)]
pub enum Category {
    /// A message to the auth server, handshake included: a fixed schema.
    SystemHandshake,
    /// A message to the world server: a fixed schema.
    WorldSystem,
    /// A message to a world client: a fixed schema.
    WorldClient,
    /// A replica construction: decoded through the component pipeline.
    ObjectConstruction,
    /// A replica update: decoded with the recipe cached at construction.
    ObjectUpdate,
    /// Skipped without reading the payload.
    Ignored,
}

/// Whether `p` occurs as a contiguous run in `s`.
pub open spec fn occurs(s: Seq<u8>, p: Seq<u8>) -> bool {
    exists|i: int| 0 <= i && i + p.len() <= s.len() && #[trigger] s.subrange(i, i + p.len()) == p
}

/// Whether the tag's bytes hold the bytes of `p`.
pub open spec fn mentions(tag: Seq<u8>, p: &str) -> bool {
    occurs(tag, p.spec_bytes())
}

/// World-server sub-codes that captures hold in a form the schemas do not
/// decode.
pub open spec fn world_server_denied(tag: Seq<u8>) -> bool {
    mentions(tag, "[53-04-00-16]")
        || mentions(tag, "[e6-00]")
        || mentions(tag, "[6b-03]")
        || mentions(tag, "[16-04]")
        || mentions(tag, "[49-04]")
        || mentions(tag, "[ad-04]")
        || mentions(tag, "[1c-05]")
        || mentions(tag, "[230]")
        || mentions(tag, "[875]")
        || mentions(tag, "[1046]")
        || mentions(tag, "[1097]")
        || mentions(tag, "[1197]")
        || mentions(tag, "[1308]")
}

/// World-client sub-codes that captures hold in a form the schemas do not
/// decode.
pub open spec fn world_client_denied(tag: Seq<u8>) -> bool {
    mentions(tag, "[53-05-00-00]")
        || mentions(tag, "[53-05-00-15]")
        || mentions(tag, "[53-05-00-31]")
        || mentions(tag, "[76-00]")
        || mentions(tag, "[e6-00]")
        || mentions(tag, "[ff-00]")
        || mentions(tag, "[a1-01]")
        || mentions(tag, "[7f-02]")
        || mentions(tag, "[a3-02]")
        || mentions(tag, "[cc-02]")
        || mentions(tag, "[35-03]")
        || mentions(tag, "[36-03]")
        || mentions(tag, "[4d-03]")
        || mentions(tag, "[6d-03]")
        || mentions(tag, "[91-03]")
        || mentions(tag, "[1a-05]")
        || mentions(tag, "[e6-05]")
        || mentions(tag, "[16-06]")
        || mentions(tag, "[1c-06]")
        || mentions(tag, "[6f-06]")
        || mentions(tag, "[70-06]")
        || mentions(tag, "[118]")
        || mentions(tag, "[230]")
        || mentions(tag, "[255]")
        || mentions(tag, "[417]")
        || mentions(tag, "[639]")
        || mentions(tag, "[675]")
        || mentions(tag, "[716]")
        || mentions(tag, "[821]")
        || mentions(tag, "[822]")
        || mentions(tag, "[845]")
        || mentions(tag, "[877]")
        || mentions(tag, "[913]")
        || mentions(tag, "[1306]")
        || mentions(tag, "[1510]")
        || mentions(tag, "[1558]")
        || mentions(tag, "[1564]")
        || mentions(tag, "[1647]")
        || mentions(tag, "[1648]")
}

/// The category of a tag: the first rule that matches decides.
pub open spec fn category_of(tag: Seq<u8>) -> Category {
    if mentions(tag, "of") {
        Category::Ignored
    } else if mentions(tag, "[53-01-") {
        Category::SystemHandshake
    } else if mentions(tag, "[53-04-") && !world_server_denied(tag) {
        Category::WorldSystem
    } else if mentions(tag, "[53-02-") || (mentions(tag, "[53-05-") && !world_client_denied(tag)) {
        Category::WorldClient
    } else if mentions(tag, "[24]") && mentions(tag, "(1)") {
        Category::ObjectConstruction
    } else if mentions(tag, "[27]") {
        Category::ObjectUpdate
    } else {
        Category::Ignored
    }
}

/// A tag in a world bucket whose sub-code is deny-listed is ignored, unless a
/// rule that re-admits it also matches: an earlier bucket, or a replica tag.
pub proof fn law_denied_sub_code_ignored(tag: Seq<u8>)
    requires
        (mentions(tag, "[53-04-") && world_server_denied(tag)) || (mentions(tag, "[53-05-")
            && world_client_denied(tag)),
        !mentions(tag, "[53-01-"),
        !mentions(tag, "[53-02-"),
        !(mentions(tag, "[53-04-") && !world_server_denied(tag)),
        !(mentions(tag, "[53-05-") && !world_client_denied(tag)),
        !(mentions(tag, "[24]") && mentions(tag, "(1)")),
        !mentions(tag, "[27]"),
    ensures
        category_of(tag) == Category::Ignored,
{
}

/// Whether `p` occurs in `s` at position `i`.
fn matches_at(s: &[u8], p: &[u8], i: usize) -> (r: bool)
    requires
        i + p@.len() <= s@.len(),
    ensures
        r == (s@.subrange(i as int, i + p@.len()) == p@),
{
    let n: usize = s.len();
    let mut j: usize = 0;
    while j < p.len()
        invariant
            j <= p@.len(),
            i + p@.len() <= s@.len(),
            n == s@.len(),
            s@.subrange(i as int, i + j) == p@.subrange(0, j as int),
        decreases p.len() - j,
    {
        if s[i + j] != p[j] {
            assert(s@.subrange(i as int, i + p@.len())[j as int] != p@[j as int]);
            return false;
        }
        assert(s@.subrange(i as int, i + j + 1) =~= s@.subrange(i as int, i + j).push(s@[i + j]));
        assert(p@.subrange(0, j + 1) =~= p@.subrange(0, j as int).push(p@[j as int]));
        j += 1;
    }
    assert(p@.subrange(0, p@.len() as int) =~= p@);
    true
}

/// Whether `p` occurs as a contiguous run in `s`.
pub fn contains_bytes(s: &[u8], p: &[u8]) -> (r: bool)
    ensures
        r == occurs(s@, p@),
{
    if p.len() > s.len() {
        return false;
    }
    let last: usize = s.len() - p.len();
    let mut i: usize = 0;
    loop
        invariant
            last + p@.len() == s@.len(),
            i <= last,
            forall|k: int| 0 <= k < i ==> #[trigger] s@.subrange(k, k + p@.len()) != p@,
        decreases last - i,
    {
        if matches_at(s, p, i) {
            return true;
        }
        if i == last {
            return false;
        }
        i += 1;
    }
}

fn has(tag: &[u8], p: &str) -> (r: bool)
    ensures
        r == mentions(tag@, p),
{
    contains_bytes(tag, p.as_bytes())
}

fn world_server_denied_exec(tag: &[u8]) -> (r: bool)
    ensures
        r == world_server_denied(tag@),
{
    has(tag, "[53-04-00-16]")
        || has(tag, "[e6-00]")
        || has(tag, "[6b-03]")
        || has(tag, "[16-04]")
        || has(tag, "[49-04]")
        || has(tag, "[ad-04]")
        || has(tag, "[1c-05]")
        || has(tag, "[230]")
        || has(tag, "[875]")
        || has(tag, "[1046]")
        || has(tag, "[1097]")
        || has(tag, "[1197]")
        || has(tag, "[1308]")
}

fn world_client_denied_exec(tag: &[u8]) -> (r: bool)
    ensures
        r == world_client_denied(tag@),
{
    has(tag, "[53-05-00-00]")
        || has(tag, "[53-05-00-15]")
        || has(tag, "[53-05-00-31]")
        || has(tag, "[76-00]")
        || has(tag, "[e6-00]")
        || has(tag, "[ff-00]")
        || has(tag, "[a1-01]")
        || has(tag, "[7f-02]")
        || has(tag, "[a3-02]")
        || has(tag, "[cc-02]")
        || has(tag, "[35-03]")
        || has(tag, "[36-03]")
        || has(tag, "[4d-03]")
        || has(tag, "[6d-03]")
        || has(tag, "[91-03]")
        || has(tag, "[1a-05]")
        || has(tag, "[e6-05]")
        || has(tag, "[16-06]")
        || has(tag, "[1c-06]")
        || has(tag, "[6f-06]")
        || has(tag, "[70-06]")
        || has(tag, "[118]")
        || has(tag, "[230]")
        || has(tag, "[255]")
        || has(tag, "[417]")
        || has(tag, "[639]")
        || has(tag, "[675]")
        || has(tag, "[716]")
        || has(tag, "[821]")
        || has(tag, "[822]")
        || has(tag, "[845]")
        || has(tag, "[877]")
        || has(tag, "[913]")
        || has(tag, "[1306]")
        || has(tag, "[1510]")
        || has(tag, "[1558]")
        || has(tag, "[1564]")
        || has(tag, "[1647]")
        || has(tag, "[1648]")
}

/// Classifies a capture entry by its tag.
pub fn classify(tag: &str) -> (r: Category)
    ensures
        r == category_of(tag.spec_bytes()),
{
    let t = tag.as_bytes();
    if has(t, "of") {
        Category::Ignored
    } else if has(t, "[53-01-") {
        Category::SystemHandshake
    } else if has(t, "[53-04-") && !world_server_denied_exec(t) {
        Category::WorldSystem
    } else if has(t, "[53-02-") || (has(t, "[53-05-") && !world_client_denied_exec(t)) {
        Category::WorldClient
    } else if has(t, "[24]") && has(t, "(1)") {
        Category::ObjectConstruction
    } else if has(t, "[27]") {
        Category::ObjectUpdate
    } else {
        Category::Ignored
    }
}

} // verus!
