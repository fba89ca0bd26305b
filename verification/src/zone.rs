//! The query decision engine.
//!
//! A blocked zone covers itself and every subdomain: a query name matches a
//! zone when, after normalization, it equals the zone or ends with a dot
//! followed by the zone.  Normalization removes one trailing dot and folds
//! ASCII letters to lower case.  The match respects label boundaries:
//! `ads.example.com` is blocked by zone `example.com` while `notexample.com`
//! is not.  Names are compared as their UTF-8 bytes, which for DNS names on
//! the wire are plain ASCII.

use vstd::prelude::*;
use vstd::string::StrSliceExecFns;
use vstd::utf8::encode_utf8;

verus! {

/// The outcome of the decision engine for one query.
#[derive(Clone, Copy, Debug, PartialEq, Eq, Structural)]
pub enum Verdict {
    /// The query is forwarded upstream.
    Allow,
    /// The query receives an empty answer instead of being resolved.
    Block,
}

/// ASCII upper-case letters folded to lower case; every other byte is kept.
pub open spec fn fold_byte(b: u8) -> u8 {
    if 65 <= b && b <= 90 {
        (b + 32) as u8
    } else {
        b
    }
}

/// The byte sequence with one trailing dot removed, if any.
pub open spec fn trimmed(s: Seq<u8>) -> Seq<u8> {
    if s.len() > 0 && s.last() == 46 {
        s.drop_last()
    } else {
        s
    }
}

/// The canonical form of a name: trailing dot removed, letters folded.
pub open spec fn canon(s: Seq<u8>) -> Seq<u8> {
    trimmed(s).map_values(|b: u8| fold_byte(b))
}

/// Whether a query name falls inside a zone, on canonical byte forms: the
/// query equals the zone, or ends with a dot followed by the zone.
pub open spec fn zone_matches_bytes(q: Seq<u8>, z: Seq<u8>) -> bool {
    let cq = canon(q);
    let cz = canon(z);
    cq == cz || (cq.len() > cz.len() && cq[cq.len() - cz.len() - 1] == 46 && cq.subrange(
        cq.len() - cz.len(),
        cq.len() as int,
    ) == cz)
}

/// Whether the query name `q` falls inside the zone `z`, both given as the
/// character sequences of their textual names.
pub open spec fn blocks(q: Seq<char>, z: Seq<char>) -> bool {
    zone_matches_bytes(encode_utf8(q), encode_utf8(z))
}

/// The verdict for a query name against a set of blocked zones: `Block`
/// exactly when some zone covers the name, `Allow` otherwise — in
/// particular, `Allow` when the set is empty.
pub open spec fn spec_decide(q: Seq<char>, zones: Seq<Seq<char>>) -> Verdict {
    if exists|i: int| 0 <= i < zones.len() && blocks(q, #[trigger] zones[i]) {
        Verdict::Block
    } else {
        Verdict::Allow
    }
}

fn fold_byte_x(b: u8) -> (r: u8)
    ensures
        r == fold_byte(b),
{
    if b >= 65 && b <= 90 {
        b + 32
    } else {
        b
    }
}

fn trimmed_len(v: &Vec<u8>) -> (n: usize)
    ensures
        n <= v@.len(),
        trimmed(v@) == v@.take(n as int),
{
    if v.len() > 0 && v[v.len() - 1] == 46 {
        proof {
            assert(trimmed(v@) =~= v@.take(v@.len() - 1));
        }
        v.len() - 1
    } else {
        proof {
            assert(trimmed(v@) =~= v@.take(v@.len() as int));
        }
        v.len()
    }
}

/// Whether the query name falls inside the zone.
pub fn zone_match(query: &str, zone: &str) -> (b: bool)
    ensures
        b == blocks(query@, zone@),
{
    let qv = query.as_bytes_vec();
    let zv = zone.as_bytes_vec();
    let nq = trimmed_len(&qv);
    let nz = trimmed_len(&zv);
    let ghost cq = canon(qv@);
    let ghost cz = canon(zv@);
    proof {
        assert(cq.len() == nq && forall|k: int| 0 <= k < nq ==> cq[k] == fold_byte(qv@[k]));
        assert(cz.len() == nz && forall|k: int| 0 <= k < nz ==> cz[k] == fold_byte(zv@[k]));
    }
    if nz > nq {
        return false;
    }
    let off = nq - nz;
    if off > 0 && qv[off - 1] != 46 {
        proof {
            assert(cq[off - 1] == fold_byte(qv@[off - 1]));
            assert(fold_byte(qv@[off - 1]) != 46);
        }
        return false;
    }
    let mut j: usize = 0;
    while j < nz
        invariant
            j <= nz,
            nz <= nq,
            off == nq - nz,
            nq <= qv@.len(),
            nz <= zv@.len(),
            qv@ == encode_utf8(query@),
            zv@ == encode_utf8(zone@),
            cq == canon(qv@),
            cz == canon(zv@),
            cq.len() == nq,
            cz.len() == nz,
            forall|k: int| 0 <= k < nq ==> cq[k] == fold_byte(qv@[k]),
            forall|k: int| 0 <= k < nz ==> cz[k] == fold_byte(zv@[k]),
            off > 0 ==> cq[off - 1] == 46,
            forall|k: int| 0 <= k < j ==> cq[off + k] == cz[k],
        decreases nz - j,
    {
        if fold_byte_x(qv[off + j]) != fold_byte_x(zv[j]) {
            proof {
                assert(cq[off + j] != cz[j as int]);
                if cq.len() == cz.len() {
                    assert(cq != cz);
                }
                if cq.len() > cz.len() {
                    assert(cq.subrange(cq.len() - cz.len(), cq.len() as int) != cz) by {
                        if cq.subrange(cq.len() - cz.len(), cq.len() as int) == cz {
                            assert(cq.subrange(cq.len() - cz.len(), cq.len() as int)[j as int]
                                == cq[off + j]);
                        }
                    }
                }
            }
            return false;
        }
        j += 1;
    }
    proof {
        if off == 0 {
            assert(cq =~= cz);
        } else {
            assert(cq.subrange(cq.len() - cz.len(), cq.len() as int) =~= cz);
        }
    }
    true
}

/// Decides the verdict for a query name against the blocked zones.
pub fn decide(query: &str, zones: &Vec<String>) -> (v: Verdict)
    ensures
        v == spec_decide(query@, zones@.map_values(|z: String| z@)),
{
    let ghost vs = zones@.map_values(|z: String| z@);
    let mut i: usize = 0;
    while i < zones.len()
        invariant
            i <= zones@.len(),
            vs == zones@.map_values(|z: String| z@),
            forall|k: int| 0 <= k < i ==> !blocks(query@, #[trigger] vs[k]),
        decreases zones@.len() - i,
    {
        let z = &zones[i];
        if zone_match(query, z.as_str()) {
            proof {
                assert(blocks(query@, vs[i as int]));
            }
            return Verdict::Block;
        }
        i += 1;
    }
    Verdict::Allow
}

} // verus!
