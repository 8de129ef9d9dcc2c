//! The claims contract: what an application-defined payload type must supply
//! to flow through the codec and be attached to a request context. A claims
//! type owns its canonical wire form — the JSON bytes that are signed into a
//! token — and parsing that form back must yield an equivalent value.

use vstd::prelude::*;

use crate::error::ErrorKind;
use crate::error::JWTError;

verus! {

/// The capability a type needs to travel inside a signed token.
///
/// `wire` is the canonical serialized form, `serializable` says which values
/// have one, and `equiv` says when two values carry the same application
/// data. `to_wire` and `from_wire` are inverse up to `equiv`: parsing the
/// wire form of a serializable value always succeeds and yields an
/// equivalent value.
pub trait JWTClaims: Sized {
    /// The canonical wire bytes of this value.
    spec fn wire(&self) -> Seq<u8>;

    /// Whether this value has a wire form.
    spec fn serializable(&self) -> bool;

    /// Whether two values carry the same application data.
    spec fn equiv(&self, other: &Self) -> bool;

    /// Serialize this value to its canonical wire bytes.
    fn to_wire(&self) -> (r: Result<Vec<u8>, JWTError>)
        ensures
            r matches Ok(w) ==> self.serializable() && w@ == self.wire(),
            r matches Err(e) ==> e.kind == ErrorKind::EncodingError && !self.serializable(),
    ;

    /// Parse canonical wire bytes back into a value: the inverse of
    /// `to_wire`, up to `equiv`.
    fn from_wire(w: &Vec<u8>) -> (r: Option<Self>)
        ensures
            r matches Some(v) ==> v.serializable() && w@ == v.wire(),
            forall|v: Self|
                v.serializable() && w@ == #[trigger] v.wire() ==> (r matches Some(u) && u.equiv(
                    &v,
                )),
    ;
}

/// The wire frame that `SubjectClaims` serializes into, around the subject
/// bytes: a one-member JSON object.
pub open spec fn subject_prefix() -> Seq<u8> {
    seq![123u8, 34u8, 115u8, 117u8, 98u8, 34u8, 58u8, 34u8]
}

/// The closing bytes of the `SubjectClaims` wire frame.
pub open spec fn subject_suffix() -> Seq<u8> {
    seq![34u8, 125u8]
}

/// The subject bytes that need no JSON escaping: printable ASCII without the
/// quote and the backslash. Subjects outside this range have no canonical
/// wire form and are rejected at issuance.
pub open spec fn subject_byte_ok(b: u8) -> bool {
    32 <= b <= 126 && b != 34 && b != 92
}

/// A minimal claims record: the subject identifier of the authenticated
/// principal, as in the payload `{"sub":"user1"}`.
#[derive(Debug, PartialEq, Eq)]
pub struct SubjectClaims {
    pub sub: Vec<u8>,
}

impl Clone for SubjectClaims {
    fn clone(&self) -> (r: Self)
        ensures
            r.sub@ == self.sub@,
    {
        let mut sub: Vec<u8> = Vec::new();
        let mut i: usize = 0;
        while i < self.sub.len()
            invariant
                i <= self.sub.len(),
                sub@ == self.sub@.subrange(0, i as int),
            decreases self.sub.len() - i,
        {
            sub.push(self.sub[i]);
            i = i + 1;
        }
        proof {
            assert(sub@ =~= self.sub@);
        }
        SubjectClaims { sub }
    }
}

impl JWTClaims for SubjectClaims {
    open spec fn wire(&self) -> Seq<u8> {
        subject_prefix() + self.sub@ + subject_suffix()
    }

    open spec fn serializable(&self) -> bool {
        forall|i: int| 0 <= i < self.sub@.len() ==> subject_byte_ok(#[trigger] self.sub@[i])
    }

    open spec fn equiv(&self, other: &Self) -> bool {
        self.sub@ == other.sub@
    }

    fn to_wire(&self) -> (r: Result<Vec<u8>, JWTError>) {
        let mut i: usize = 0;
        while i < self.sub.len()
            invariant
                i <= self.sub.len(),
                forall|k: int| 0 <= k < i ==> subject_byte_ok(#[trigger] self.sub@[k]),
            decreases self.sub.len() - i,
        {
            let b = self.sub[i];
            if b < 32 || b > 126 || b == 34 || b == 92 {
                return Err(JWTError { kind: ErrorKind::EncodingError });
            }
            i = i + 1;
        }
        let mut w: Vec<u8> = Vec::new();
        w.push(123);
        w.push(34);
        w.push(115);
        w.push(117);
        w.push(98);
        w.push(34);
        w.push(58);
        w.push(34);
        proof {
            assert(w@ =~= subject_prefix());
        }
        let mut j: usize = 0;
        while j < self.sub.len()
            invariant
                j <= self.sub.len(),
                w@ == subject_prefix() + self.sub@.subrange(0, j as int),
            decreases self.sub.len() - j,
        {
            w.push(self.sub[j]);
            proof {
                assert(w@ =~= subject_prefix() + self.sub@.subrange(0, j + 1 as int));
            }
            j = j + 1;
        }
        w.push(34);
        w.push(125);
        proof {
            assert(w@ =~= subject_prefix() + self.sub@ + subject_suffix());
        }
        Ok(w)
    }

    fn from_wire(w: &Vec<u8>) -> (r: Option<Self>) {
        if w.len() < 10 {
            return None;
        }
        if w[0] != 123 || w[1] != 34 || w[2] != 115 || w[3] != 117 || w[4] != 98 || w[5] != 34
            || w[6] != 58 || w[7] != 34 {
            return None;
        }
        if w[w.len() - 2] != 34 || w[w.len() - 1] != 125 {
            return None;
        }
        let end = w.len() - 2;
        let mut sub: Vec<u8> = Vec::new();
        let mut i: usize = 8;
        while i < end
            invariant
                8 <= i <= end,
                end == w@.len() - 2,
                w@.len() >= 10,
                sub@ == w@.subrange(8, i as int),
                forall|k: int| 0 <= k < sub@.len() ==> subject_byte_ok(#[trigger] sub@[k]),
            decreases end - i,
        {
            let b = w[i];
            if b < 32 || b > 126 || b == 34 || b == 92 {
                return None;
            }
            sub.push(b);
            proof {
                assert(sub@ =~= w@.subrange(8, i + 1 as int));
            }
            i = i + 1;
        }
        let parsed = SubjectClaims { sub };
        proof {
            assert(w@ =~= parsed.wire());
            assert forall|v: SubjectClaims| v.serializable() && w@ == v.wire() implies parsed.equiv(
                &v,
            ) by {
                assert(v.wire().len() == 10 + v.sub@.len());
                assert forall|k: int| 0 <= k < v.sub@.len() implies parsed.sub@[k] == v.sub@[k] by {
                    assert(v.wire()[8 + k] == v.sub@[k]);
                    assert(parsed.sub@[k] == w@[8 + k]);
                }
                assert(parsed.sub@ =~= v.sub@);
            }
        }
        Some(parsed)
    }
}

/// The canonical wire form determines the claims: two serializable subject
/// records with the same wire bytes carry the same subject. Together with the
/// codec's distinct-token guarantee this means distinct subjects can never
/// collide in a token.
pub proof fn lemma_subject_wire_injective(a: &SubjectClaims, b: &SubjectClaims)
    requires
        a.serializable(),
        b.serializable(),
        a.wire() == b.wire(),
    ensures
        a.equiv(b),
{
    assert(a.wire().len() == 10 + a.sub@.len());
    assert(b.wire().len() == 10 + b.sub@.len());
    assert(a.sub@.len() == b.sub@.len());
    assert forall|k: int| 0 <= k < a.sub@.len() implies a.sub@[k] == b.sub@[k] by {
        assert(a.wire()[8 + k] == a.sub@[k]);
        assert(b.wire()[8 + k] == b.sub@[k]);
    }
    assert(a.sub@ =~= b.sub@);
}


/// A payload in the canonical subject form: the one-member object frame of
/// `subject_prefix` and `subject_suffix` around subject bytes that need no
/// escaping. These are exactly the wire forms of serializable subject
/// records.
pub open spec fn canonical_subject_wire(p: Seq<u8>) -> bool {
    exists|s: Seq<u8>|
        p == subject_prefix() + s + subject_suffix() && (forall|i: int|
            0 <= i < s.len() ==> subject_byte_ok(#[trigger] s[i]))
}

/// A serializable subject record's wire form is in the canonical subject
/// form, so what the codec states about that form applies to it.
pub proof fn lemma_subject_wire_canonical(c: &SubjectClaims)
    requires
        c.serializable(),
    ensures
        canonical_subject_wire(c.wire()),
{
    let s = c.sub@;
    assert(c.wire() == subject_prefix() + s + subject_suffix() && (forall|i: int|
        0 <= i < s.len() ==> subject_byte_ok(#[trigger] s[i])));
}

} // verus!
