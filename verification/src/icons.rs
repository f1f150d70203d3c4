//! Pixel-format conversion for tray icons.

use vstd::prelude::*;

verus! {

/// The byte an RGBA-to-ARGB rotation leaves at position `j`: within each
/// complete four-byte pixel the bytes rotate right by one.
pub open spec fn spec_argb_byte(orig: Seq<u8>, j: int) -> u8 {
    if j % 4 == 0 {
        orig[j + 3]
    } else {
        orig[j - 1]
    }
}

/// Rotates every complete four-byte pixel right by one: RGBA becomes ARGB.
/// Trailing bytes that do not fill a pixel are left as they are.
pub fn rgba_to_argb(data: &mut Vec<u8>)
    ensures
        final (data)@.len() == old(data)@.len(),
        forall|j: int|
            0 <= j < (old(data)@.len() / 4) * 4 ==> #[trigger] final (data)@[j] == spec_argb_byte(
                old(data)@,
                j,
            ),
        forall|j: int|
            (old(data)@.len() / 4) * 4 <= j < old(data)@.len() ==> #[trigger] final (data)@[j]
                == old(data)@[j],
{
    let n = data.len();
    let chunks = n / 4;
    let ghost orig = data@;
    let mut c: usize = 0;
    while c < chunks
        invariant
            0 <= c <= chunks,
            chunks == n / 4,
            n == data@.len(),
            n == orig.len(),
            orig == old(data)@,
            4 * c <= n,
            forall|j: int|
                0 <= j < 4 * c ==> #[trigger] data@[j] == spec_argb_byte(orig, j),
            forall|j: int| 4 * c <= j < n ==> #[trigger] data@[j] == orig[j],
        decreases chunks - c,
    {
        let i = 4 * c;
        proof {
            assert(4 * (c + 1) <= 4 * chunks);
            assert(4 * chunks <= n) by (nonlinear_arith)
                requires
                    chunks == n / 4,
            ;
        }
        let b0 = data[i];
        let b1 = data[i + 1];
        let b2 = data[i + 2];
        let b3 = data[i + 3];
        let ghost pre = data@;
        data[i] = b3;
        data[i + 1] = b0;
        data[i + 2] = b1;
        data[i + 3] = b2;
        proof {
            let ii = i as int;
            assert(ii % 4 == 0) by (nonlinear_arith)
                requires
                    ii == 4 * (c as int),
                    c >= 0,
            ;
            assert forall|j: int| 0 <= j < 4 * (c + 1) implies #[trigger] data@[j]
                == spec_argb_byte(orig, j) by {
                if j < ii {
                    assert(data@[j] == pre[j]);
                } else {
                    assert(j == ii || j == ii + 1 || j == ii + 2 || j == ii + 3);
                    assert(data@[ii] == b3);
                    assert(data@[ii + 1] == b0);
                    assert(data@[ii + 2] == b1);
                    assert(data@[ii + 3] == b2);
                    assert((ii + 1) % 4 == 1 && (ii + 2) % 4 == 2 && (ii + 3) % 4 == 3) by (
                    nonlinear_arith)
                        requires
                            ii % 4 == 0,
                            ii >= 0,
                    ;
                    assert(pre[ii] == orig[ii] && pre[ii + 1] == orig[ii + 1] && pre[ii + 2]
                        == orig[ii + 2] && pre[ii + 3] == orig[ii + 3]);
                }
            }
            assert forall|j: int| 4 * (c + 1) <= j < n implies #[trigger] data@[j] == orig[j] by {
                assert(data@[j] == pre[j]);
            }
        }
        c += 1;
    }
    proof {
        assert(4 * (chunks as int) == (n as int / 4) * 4);
    }
}

} // verus!
