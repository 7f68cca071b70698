use vstd::prelude::*;

use crate::errors::Error;
use crate::profile::ProtocolProfile;

verus! {

/// Mathematical model of a characteristic: the textual UUID as ASCII bytes
/// and the two write-capability flags.
pub struct CharModel {
    pub uuid: Seq<u8>,
    pub write: bool,
    pub write_without_response: bool,
}

/// A GATT characteristic as the selection logic reads it: the UUID's text
/// as ASCII bytes, plus the property flags the selection rule consults.
/// The adapter layer fills this in from the radio stack's characteristic
/// records.
#[derive(Clone, Debug)]
pub struct CharacteristicRef {
    pub uuid: Vec<u8>,
    pub write: bool,
    pub write_without_response: bool,
}

impl View for CharacteristicRef {
    type V = CharModel;

    open spec fn view(&self) -> CharModel {
        CharModel {
            uuid: self.uuid@,
            write: self.write,
            write_without_response: self.write_without_response,
        }
    }
}

impl DeepView for CharacteristicRef {
    type V = CharModel;

    open spec fn deep_view(&self) -> CharModel {
        self.view()
    }
}

/// ASCII upper-casing of one byte.
pub open spec fn upper_byte(b: u8) -> u8 {
    if 0x61 <= b && b <= 0x7a {
        (b - 0x20) as u8
    } else {
        b
    }
}

/// ASCII upper-casing of a byte string.
pub open spec fn upper_seq(s: Seq<u8>) -> Seq<u8> {
    s.map_values(|b: u8| upper_byte(b))
}

/// The needle occurs at offset `i` of the haystack.
pub open spec fn occurs_at(h: Seq<u8>, n: Seq<u8>, i: int) -> bool {
    h.subrange(i, i + n.len() as int) == n
}

/// The needle occurs somewhere in the haystack.
pub open spec fn contains_bytes(h: Seq<u8>, n: Seq<u8>) -> bool {
    exists|i: int| 0 <= i && i + n.len() <= h.len() && #[trigger] occurs_at(h, n, i)
}

/// The ASCII bytes of `FFE9`.
pub open spec fn marker_ffe9() -> Seq<u8> {
    seq![0x46u8, 0x46, 0x45, 0x39]
}

/// The ASCII bytes of `FFF3`.
pub open spec fn marker_fff3() -> Seq<u8> {
    seq![0x46u8, 0x46, 0x46, 0x33]
}

/// The profile's write-characteristic predicate. ProtocolA accepts a UUID
/// whose upper-cased text contains `FFE9` or `FFF3` and ignores the
/// property flags; ProtocolB requires `FFF3` together with write or
/// write-without-response capability.
pub open spec fn char_matches(p: ProtocolProfile, c: CharModel) -> bool {
    match p {
        ProtocolProfile::ProtocolA => contains_bytes(upper_seq(c.uuid), marker_ffe9())
            || contains_bytes(upper_seq(c.uuid), marker_fff3()),
        ProtocolProfile::ProtocolB => contains_bytes(upper_seq(c.uuid), marker_fff3()) && (c.write
            || c.write_without_response),
    }
}

/// First matching index at or after `i`, scanning in list order.
pub open spec fn spec_select_from(p: ProtocolProfile, s: Seq<CharModel>, i: int) -> Option<int>
    decreases s.len() - i,
{
    if i < 0 || i >= s.len() {
        None
    } else if char_matches(p, s[i]) {
        Some(i)
    } else {
        spec_select_from(p, s, i + 1)
    }
}

/// The characteristic the profile selects: the first match in scan order.
pub open spec fn spec_select(p: ProtocolProfile, s: Seq<CharModel>) -> Option<int> {
    spec_select_from(p, s, 0)
}

fn to_upper(v: &Vec<u8>) -> (r: Vec<u8>)
    ensures
        r@ == upper_seq(v@),
{
    let mut r: Vec<u8> = Vec::new();
    let mut i: usize = 0;
    while i < v.len()
        invariant
            i <= v.len(),
            r@.len() == i,
            forall|k: int| 0 <= k < i ==> r@[k] == upper_byte(v@[k]),
        decreases v.len() - i,
    {
        let b = v[i];
        if 0x61 <= b && b <= 0x7a {
            r.push(b - 0x20);
        } else {
            r.push(b);
        }
        i += 1;
    }
    proof {
        assert(r@ =~= upper_seq(v@));
    }
    r
}

fn occurs_here(h: &Vec<u8>, n: &Vec<u8>, at: usize) -> (r: bool)
    requires
        at + n@.len() <= h@.len(),
    ensures
        r == occurs_at(h@, n@, at as int),
{
    let mut k: usize = 0;
    while k < n.len()
        invariant
            at + n.len() <= h.len(),
            k <= n@.len(),
            forall|m: int| 0 <= m < k ==> h@[at + m] == n@[m],
        decreases n.len() - k,
    {
        if h[at + k] != n[k] {
            proof {
                assert(!occurs_at(h@, n@, at as int)) by {
                    if occurs_at(h@, n@, at as int) {
                        assert(h@.subrange(at as int, at as int + n@.len() as int)[k as int]
                            == n@[k as int]);
                    }
                }
            }
            return false;
        }
        k += 1;
    }
    proof {
        assert(h@.subrange(at as int, at as int + n@.len() as int) =~= n@);
    }
    true
}

fn find_marker(h: &Vec<u8>, n: &Vec<u8>) -> (r: bool)
    ensures
        r == contains_bytes(h@, n@),
{
    if n.len() > h.len() {
        proof {
            assert(!contains_bytes(h@, n@)) by {
                if contains_bytes(h@, n@) {
                    let i = choose|i: int|
                        0 <= i && i + n@.len() <= h@.len() && #[trigger] occurs_at(h@, n@, i);
                }
            }
        }
        return false;
    }
    if n.len() == 0 {
        proof {
            assert(occurs_at(h@, n@, 0)) by {
                assert(h@.subrange(0, 0) =~= n@);
            }
            assert(0 <= 0 && 0 + n@.len() <= h@.len() && occurs_at(h@, n@, 0));
        }
        return true;
    }
    let last = h.len() - n.len();
    let mut i: usize = 0;
    while i <= last
        invariant
            1 <= n@.len() <= h@.len(),
            last == h.len() - n.len(),
            i <= last + 1,
            forall|j: int| 0 <= j < i ==> !#[trigger] occurs_at(h@, n@, j),
        decreases last + 1 - i,
    {
        if occurs_here(h, n, i) {
            proof {
                assert(0 <= i as int && i as int + n@.len() <= h@.len() && occurs_at(
                    h@,
                    n@,
                    i as int,
                ));
            }
            return true;
        }
        i += 1;
    }
    proof {
        assert(!contains_bytes(h@, n@)) by {
            if contains_bytes(h@, n@) {
                let j = choose|j: int|
                    0 <= j && j + n@.len() <= h@.len() && #[trigger] occurs_at(h@, n@, j);
                assert(j < i);
            }
        }
    }
    false
}

fn marker_ffe9_bytes() -> (r: Vec<u8>)
    ensures
        r@ == marker_ffe9(),
{
    let r: Vec<u8> = vec![0x46, 0x46, 0x45, 0x39];
    proof {
        assert(r@ =~= marker_ffe9());
    }
    r
}

fn marker_fff3_bytes() -> (r: Vec<u8>)
    ensures
        r@ == marker_fff3(),
{
    let r: Vec<u8> = vec![0x46, 0x46, 0x46, 0x33];
    proof {
        assert(r@ =~= marker_fff3());
    }
    r
}

/// Decide whether one characteristic satisfies the profile's
/// write-characteristic predicate.
pub fn characteristic_matches(p: ProtocolProfile, c: &CharacteristicRef) -> (r: bool)
    ensures
        r == char_matches(p, c@),
{
    let u = to_upper(&c.uuid);
    match p {
        ProtocolProfile::ProtocolA => {
            let e9 = marker_ffe9_bytes();
            let f3 = marker_fff3_bytes();
            find_marker(&u, &e9) || find_marker(&u, &f3)
        },
        ProtocolProfile::ProtocolB => {
            let f3 = marker_fff3_bytes();
            (c.write || c.write_without_response) && find_marker(&u, &f3)
        },
    }
}

/// Select the write characteristic: the first one in scan order that
/// satisfies the profile's predicate. Fails with `CharacteristicNotFound`
/// exactly when no characteristic in the list matches.
pub fn select_write_characteristic(p: ProtocolProfile, chars: &Vec<CharacteristicRef>) -> (r:
    Result<usize, Error>)
    ensures
        r matches Ok(i) ==> spec_select(p, chars.deep_view()) == Some(i as int) && i
            < chars@.len() && char_matches(p, chars.deep_view()[i as int]),
        r matches Err(e) ==> e == Error::CharacteristicNotFound && spec_select(
            p,
            chars.deep_view(),
        ) is None,
{
    let ghost s = chars.deep_view();
    let mut i: usize = 0;
    while i < chars.len()
        invariant
            i <= chars@.len(),
            s == chars.deep_view(),
            s.len() == chars@.len(),
            spec_select(p, s) == spec_select_from(p, s, i as int),
        decreases chars.len() - i,
    {
        proof {
            assert(s[i as int] == chars@[i as int]@);
        }
        if characteristic_matches(p, &chars[i]) {
            return Ok(i);
        }
        i += 1;
    }
    Err(Error::CharacteristicNotFound)
}

proof fn lemma_a_select_from_ignores_flags(s1: Seq<CharModel>, s2: Seq<CharModel>, i: int)
    requires
        s1.len() == s2.len(),
        forall|k: int| 0 <= k < s1.len() ==> (#[trigger] s1[k]).uuid == s2[k].uuid,
    ensures
        spec_select_from(ProtocolProfile::ProtocolA, s1, i) == spec_select_from(
            ProtocolProfile::ProtocolA,
            s2,
            i,
        ),
    decreases s1.len() - i,
{
    if i < 0 || i >= s1.len() {
    } else {
        assert(char_matches(ProtocolProfile::ProtocolA, s1[i]) == char_matches(
            ProtocolProfile::ProtocolA,
            s2[i],
        ));
        if !char_matches(ProtocolProfile::ProtocolA, s1[i]) {
            lemma_a_select_from_ignores_flags(s1, s2, i + 1);
        }
    }
}

/// ProtocolA's selection is flag-independent: two characteristic lists that
/// agree on the UUID texts select the same index, whatever their property
/// flags.
pub proof fn lemma_profile_a_selection_ignores_flags(s1: Seq<CharModel>, s2: Seq<CharModel>)
    requires
        s1.len() == s2.len(),
        forall|k: int| 0 <= k < s1.len() ==> (#[trigger] s1[k]).uuid == s2[k].uuid,
    ensures
        spec_select(ProtocolProfile::ProtocolA, s1) == spec_select(
            ProtocolProfile::ProtocolA,
            s2,
        ),
{
    lemma_a_select_from_ignores_flags(s1, s2, 0);
}

} // verus!
