use vstd::prelude::*;

verus! {

/// The UTF-8 byte-order marker.
pub open spec fn utf8_bom() -> Seq<u8> {
    seq![0xEFu8, 0xBBu8, 0xBFu8]
}

/// The UTF-16 little-endian byte-order marker.
pub open spec fn utf16le_bom() -> Seq<u8> {
    seq![0xFFu8, 0xFEu8]
}

/// The UTF-16 big-endian byte-order marker.
pub open spec fn utf16be_bom() -> Seq<u8> {
    seq![0xFEu8, 0xFFu8]
}

pub open spec fn starts_with(s: Seq<u8>, prefix: Seq<u8>) -> bool {
    prefix.len() <= s.len() && s.subrange(0, prefix.len() as int) == prefix
}

/// How many leading bytes of `s` form a known byte-order marker (0 if none).
pub open spec fn bom_len(s: Seq<u8>) -> nat {
    if starts_with(s, utf8_bom()) {
        3
    } else if starts_with(s, utf16le_bom()) || starts_with(s, utf16be_bom()) {
        2
    } else {
        0
    }
}

/// The bytes the parser sees: `s` without its marker when stripping is asked for.
pub open spec fn strip_bom(s: Seq<u8>, look_at_bom: bool) -> Seq<u8> {
    if look_at_bom {
        s.subrange(bom_len(s) as int, s.len() as int)
    } else {
        s
    }
}

/// Returns `content` without a leading UTF-8 or UTF-16 (either order)
/// byte-order marker when `look_at_bom` is set; otherwise all of `content`.
pub fn bom_check(content: &Vec<u8>, look_at_bom: bool) -> (r: &[u8])
    ensures
        r@ == strip_bom(content@, look_at_bom),
{
    let s = content.as_slice();
    let n = s.len();
    let skip: usize = if !look_at_bom {
        0
    } else if n >= 3 && s[0] == 0xEF && s[1] == 0xBB && s[2] == 0xBF {
        3
    } else if n >= 2 && ((s[0] == 0xFF && s[1] == 0xFE) || (s[0] == 0xFE && s[1] == 0xFF)) {
        2
    } else {
        0
    };
    proof {
        let c = content@;
        if look_at_bom {
            if starts_with(c, utf8_bom()) {
                assert(c[0] == c.subrange(0, 3)[0]);
                assert(c[1] == c.subrange(0, 3)[1]);
                assert(c[2] == c.subrange(0, 3)[2]);
            } else if skip == 3 {
                assert(c.subrange(0, 3) =~= utf8_bom());
            }
            if starts_with(c, utf16le_bom()) || starts_with(c, utf16be_bom()) {
                assert(c[0] == c.subrange(0, 2)[0]);
                assert(c[1] == c.subrange(0, 2)[1]);
            } else if skip == 2 {
                assert(c.subrange(0, 2) =~= utf16le_bom() || c.subrange(0, 2) =~= utf16be_bom());
            }
        }
    }
    vstd::slice::slice_subrange(s, skip, n)
}

/// Bytes that are empty or begin with an ASCII byte, as every JSON text
/// does, pass the marker step unchanged whether or not stripping is on.
/// Output of the serializer that starts this way is thus parsed as written
/// when it is processed again.
pub proof fn lemma_ascii_start_kept(s: Seq<u8>, look_at_bom: bool)
    requires
        s.len() == 0 || s[0] < 0x80,
    ensures
        strip_bom(s, look_at_bom) == s,
{
    if s.len() >= 2 {
        assert(s.subrange(0, 2)[0] == s[0]);
    }
    if s.len() >= 3 {
        assert(s.subrange(0, 3)[0] == s[0]);
    }
    assert(bom_len(s) == 0);
    assert(s.subrange(0, s.len() as int) =~= s);
}

} // verus!
