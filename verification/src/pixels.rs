use vstd::prelude::*;

verus! {

/// The byte at position `j` of the RGBA expansion of the RGB byte
/// sequence `rgb`: every fourth byte is the constant alpha 255, the
/// others are the corresponding source channel in row-major order.
pub open spec fn rgba_byte(rgb: Seq<u8>, j: int) -> u8 {
    if j % 4 == 3 {
        255u8
    } else {
        rgb[j / 4 * 3 + j % 4]
    }
}

/// RGBA expansion of a packed RGB byte sequence: each 3-byte pixel
/// becomes 4 bytes, with alpha fixed at 255.
pub open spec fn rgba_expand(rgb: Seq<u8>) -> Seq<u8> {
    Seq::new((rgb.len() / 3 * 4) as nat, |j: int| rgba_byte(rgb, j))
}

/// Every fourth byte of an RGBA expansion is the constant alpha 255,
/// and the expansion has four bytes for every three input bytes.
pub proof fn lemma_rgba_expand_alpha(rgb: Seq<u8>)
    ensures
        rgba_expand(rgb).len() == rgb.len() / 3 * 4,
        forall|j: int|
            0 <= j < rgba_expand(rgb).len() && j % 4 == 3 ==> rgba_expand(rgb)[j] == 255,
{
}

/// Expands a packed RGB buffer to RGBA with a constant alpha of 255.
pub fn rgb_to_rgba(rgb: &Vec<u8>) -> (rgba: Vec<u8>)
    requires
        rgb@.len() % 3 == 0,
        rgb@.len() <= u32::MAX,
    ensures
        rgba@ == rgba_expand(rgb@),
{
    let n_pix: usize = rgb.len() / 3;
    let mut rgba: Vec<u8> = Vec::new();
    let mut i: usize = 0;
    while i < n_pix
        invariant
            0 <= i <= n_pix,
            n_pix == rgb@.len() / 3,
            rgb@.len() % 3 == 0,
            rgb@.len() <= u32::MAX,
            rgba@.len() == 4 * i,
            forall|j: int| 0 <= j < 4 * i ==> rgba@[j] == rgba_byte(rgb@, j),
        decreases n_pix - i,
    {
        proof {
            vstd::arithmetic::div_mod::lemma_fundamental_div_mod(rgb@.len() as int, 3);
            assert(rgb@.len() == 3 * (rgb@.len() / 3));
            assert(3 * i + 2 < rgb@.len());
        }
        let r = rgb[3 * i];
        let g = rgb[3 * i + 1];
        let b = rgb[3 * i + 2];
        rgba.push(r);
        rgba.push(g);
        rgba.push(b);
        rgba.push(255);
        proof {
            let gi = i as int;
            assert forall|j: int| 4 * gi <= j < 4 * gi + 4 implies rgba@[j] == rgba_byte(
                rgb@,
                j,
            ) by {
                let k = j - 4 * gi;
                vstd::arithmetic::div_mod::lemma_fundamental_div_mod_converse(j, 4, gi, k);
                assert(j / 4 == gi && j % 4 == k);
            }
        }
        i = i + 1;
    }
    proof {
        assert(rgba@ =~= rgba_expand(rgb@));
    }
    rgba
}

} // verus!
