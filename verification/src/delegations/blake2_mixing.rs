use vstd::prelude::*;

use crate::cycle::state::rotate_right;
use crate::cycle::state::spec_rotr;

verus! {

/// The eight blake2s initialisation words.
pub open spec fn spec_blake2s_iv(i: int) -> u32 {
    if i == 0 {
        0x6A09E667u32
    }     else if i == 1 {
        0xBB67AE85u32
    }     else if i == 2 {
        0x3C6EF372u32
    }     else if i == 3 {
        0xA54FF53Au32
    }     else if i == 4 {
        0x510E527Fu32
    }     else if i == 5 {
        0x9B05688Cu32
    }     else if i == 6 {
        0x1F83D9ABu32
    } else {
        0x5BE0CD19u32
    }
}

pub fn blake2s_iv(i: usize) -> (r: u32)
    requires
        i < 8,
    ensures
        r == spec_blake2s_iv(i as int),
{
    if i == 0 {
        0x6A09E667
    }     else if i == 1 {
        0xBB67AE85
    }     else if i == 2 {
        0x3C6EF372
    }     else if i == 3 {
        0xA54FF53A
    }     else if i == 4 {
        0x510E527F
    }     else if i == 5 {
        0x9B05688C
    }     else if i == 6 {
        0x1F83D9AB
    } else {
        0x5BE0CD19
    }
}

/// The blake2s message schedule: which message word each of the sixteen
/// slots of a round mixes in.
pub open spec fn spec_sigma(round: int, slot: int) -> int {
    if round == 0 {
        if slot == 0 {
            0
        } else if slot == 1 {
            1
        } else if slot == 2 {
            2
        } else if slot == 3 {
            3
        } else if slot == 4 {
            4
        } else if slot == 5 {
            5
        } else if slot == 6 {
            6
        } else if slot == 7 {
            7
        } else if slot == 8 {
            8
        } else if slot == 9 {
            9
        } else if slot == 10 {
            10
        } else if slot == 11 {
            11
        } else if slot == 12 {
            12
        } else if slot == 13 {
            13
        } else if slot == 14 {
            14
        } else {
            15
        }
    } else if round == 1 {
        if slot == 0 {
            14
        } else if slot == 1 {
            10
        } else if slot == 2 {
            4
        } else if slot == 3 {
            8
        } else if slot == 4 {
            9
        } else if slot == 5 {
            15
        } else if slot == 6 {
            13
        } else if slot == 7 {
            6
        } else if slot == 8 {
            1
        } else if slot == 9 {
            12
        } else if slot == 10 {
            0
        } else if slot == 11 {
            2
        } else if slot == 12 {
            11
        } else if slot == 13 {
            7
        } else if slot == 14 {
            5
        } else {
            3
        }
    } else if round == 2 {
        if slot == 0 {
            11
        } else if slot == 1 {
            8
        } else if slot == 2 {
            12
        } else if slot == 3 {
            0
        } else if slot == 4 {
            5
        } else if slot == 5 {
            2
        } else if slot == 6 {
            15
        } else if slot == 7 {
            13
        } else if slot == 8 {
            10
        } else if slot == 9 {
            14
        } else if slot == 10 {
            3
        } else if slot == 11 {
            6
        } else if slot == 12 {
            7
        } else if slot == 13 {
            1
        } else if slot == 14 {
            9
        } else {
            4
        }
    } else if round == 3 {
        if slot == 0 {
            7
        } else if slot == 1 {
            9
        } else if slot == 2 {
            3
        } else if slot == 3 {
            1
        } else if slot == 4 {
            13
        } else if slot == 5 {
            12
        } else if slot == 6 {
            11
        } else if slot == 7 {
            14
        } else if slot == 8 {
            2
        } else if slot == 9 {
            6
        } else if slot == 10 {
            5
        } else if slot == 11 {
            10
        } else if slot == 12 {
            4
        } else if slot == 13 {
            0
        } else if slot == 14 {
            15
        } else {
            8
        }
    } else if round == 4 {
        if slot == 0 {
            9
        } else if slot == 1 {
            0
        } else if slot == 2 {
            5
        } else if slot == 3 {
            7
        } else if slot == 4 {
            2
        } else if slot == 5 {
            4
        } else if slot == 6 {
            10
        } else if slot == 7 {
            15
        } else if slot == 8 {
            14
        } else if slot == 9 {
            1
        } else if slot == 10 {
            11
        } else if slot == 11 {
            12
        } else if slot == 12 {
            6
        } else if slot == 13 {
            8
        } else if slot == 14 {
            3
        } else {
            13
        }
    } else if round == 5 {
        if slot == 0 {
            2
        } else if slot == 1 {
            12
        } else if slot == 2 {
            6
        } else if slot == 3 {
            10
        } else if slot == 4 {
            0
        } else if slot == 5 {
            11
        } else if slot == 6 {
            8
        } else if slot == 7 {
            3
        } else if slot == 8 {
            4
        } else if slot == 9 {
            13
        } else if slot == 10 {
            7
        } else if slot == 11 {
            5
        } else if slot == 12 {
            15
        } else if slot == 13 {
            14
        } else if slot == 14 {
            1
        } else {
            9
        }
    } else if round == 6 {
        if slot == 0 {
            12
        } else if slot == 1 {
            5
        } else if slot == 2 {
            1
        } else if slot == 3 {
            15
        } else if slot == 4 {
            14
        } else if slot == 5 {
            13
        } else if slot == 6 {
            4
        } else if slot == 7 {
            10
        } else if slot == 8 {
            0
        } else if slot == 9 {
            7
        } else if slot == 10 {
            6
        } else if slot == 11 {
            3
        } else if slot == 12 {
            9
        } else if slot == 13 {
            2
        } else if slot == 14 {
            8
        } else {
            11
        }
    } else if round == 7 {
        if slot == 0 {
            13
        } else if slot == 1 {
            11
        } else if slot == 2 {
            7
        } else if slot == 3 {
            14
        } else if slot == 4 {
            12
        } else if slot == 5 {
            1
        } else if slot == 6 {
            3
        } else if slot == 7 {
            9
        } else if slot == 8 {
            5
        } else if slot == 9 {
            0
        } else if slot == 10 {
            15
        } else if slot == 11 {
            4
        } else if slot == 12 {
            8
        } else if slot == 13 {
            6
        } else if slot == 14 {
            2
        } else {
            10
        }
    } else if round == 8 {
        if slot == 0 {
            6
        } else if slot == 1 {
            15
        } else if slot == 2 {
            14
        } else if slot == 3 {
            9
        } else if slot == 4 {
            11
        } else if slot == 5 {
            3
        } else if slot == 6 {
            0
        } else if slot == 7 {
            8
        } else if slot == 8 {
            12
        } else if slot == 9 {
            2
        } else if slot == 10 {
            13
        } else if slot == 11 {
            7
        } else if slot == 12 {
            1
        } else if slot == 13 {
            4
        } else if slot == 14 {
            10
        } else {
            5
        }
    } else {
        if slot == 0 {
            10
        } else if slot == 1 {
            2
        } else if slot == 2 {
            8
        } else if slot == 3 {
            4
        } else if slot == 4 {
            7
        } else if slot == 5 {
            6
        } else if slot == 6 {
            1
        } else if slot == 7 {
            5
        } else if slot == 8 {
            15
        } else if slot == 9 {
            11
        } else if slot == 10 {
            9
        } else if slot == 11 {
            14
        } else if slot == 12 {
            3
        } else if slot == 13 {
            12
        } else if slot == 14 {
            13
        } else {
            0
        }
    }
}

pub fn sigma(round: usize, slot: usize) -> (r: usize)
    requires
        round < 10,
        slot < 16,
    ensures
        r as int == spec_sigma(round as int, slot as int),
        r < 16,
{
    if round == 0 {
        if slot == 0 {
            0
        } else if slot == 1 {
            1
        } else if slot == 2 {
            2
        } else if slot == 3 {
            3
        } else if slot == 4 {
            4
        } else if slot == 5 {
            5
        } else if slot == 6 {
            6
        } else if slot == 7 {
            7
        } else if slot == 8 {
            8
        } else if slot == 9 {
            9
        } else if slot == 10 {
            10
        } else if slot == 11 {
            11
        } else if slot == 12 {
            12
        } else if slot == 13 {
            13
        } else if slot == 14 {
            14
        } else {
            15
        }
    } else if round == 1 {
        if slot == 0 {
            14
        } else if slot == 1 {
            10
        } else if slot == 2 {
            4
        } else if slot == 3 {
            8
        } else if slot == 4 {
            9
        } else if slot == 5 {
            15
        } else if slot == 6 {
            13
        } else if slot == 7 {
            6
        } else if slot == 8 {
            1
        } else if slot == 9 {
            12
        } else if slot == 10 {
            0
        } else if slot == 11 {
            2
        } else if slot == 12 {
            11
        } else if slot == 13 {
            7
        } else if slot == 14 {
            5
        } else {
            3
        }
    } else if round == 2 {
        if slot == 0 {
            11
        } else if slot == 1 {
            8
        } else if slot == 2 {
            12
        } else if slot == 3 {
            0
        } else if slot == 4 {
            5
        } else if slot == 5 {
            2
        } else if slot == 6 {
            15
        } else if slot == 7 {
            13
        } else if slot == 8 {
            10
        } else if slot == 9 {
            14
        } else if slot == 10 {
            3
        } else if slot == 11 {
            6
        } else if slot == 12 {
            7
        } else if slot == 13 {
            1
        } else if slot == 14 {
            9
        } else {
            4
        }
    } else if round == 3 {
        if slot == 0 {
            7
        } else if slot == 1 {
            9
        } else if slot == 2 {
            3
        } else if slot == 3 {
            1
        } else if slot == 4 {
            13
        } else if slot == 5 {
            12
        } else if slot == 6 {
            11
        } else if slot == 7 {
            14
        } else if slot == 8 {
            2
        } else if slot == 9 {
            6
        } else if slot == 10 {
            5
        } else if slot == 11 {
            10
        } else if slot == 12 {
            4
        } else if slot == 13 {
            0
        } else if slot == 14 {
            15
        } else {
            8
        }
    } else if round == 4 {
        if slot == 0 {
            9
        } else if slot == 1 {
            0
        } else if slot == 2 {
            5
        } else if slot == 3 {
            7
        } else if slot == 4 {
            2
        } else if slot == 5 {
            4
        } else if slot == 6 {
            10
        } else if slot == 7 {
            15
        } else if slot == 8 {
            14
        } else if slot == 9 {
            1
        } else if slot == 10 {
            11
        } else if slot == 11 {
            12
        } else if slot == 12 {
            6
        } else if slot == 13 {
            8
        } else if slot == 14 {
            3
        } else {
            13
        }
    } else if round == 5 {
        if slot == 0 {
            2
        } else if slot == 1 {
            12
        } else if slot == 2 {
            6
        } else if slot == 3 {
            10
        } else if slot == 4 {
            0
        } else if slot == 5 {
            11
        } else if slot == 6 {
            8
        } else if slot == 7 {
            3
        } else if slot == 8 {
            4
        } else if slot == 9 {
            13
        } else if slot == 10 {
            7
        } else if slot == 11 {
            5
        } else if slot == 12 {
            15
        } else if slot == 13 {
            14
        } else if slot == 14 {
            1
        } else {
            9
        }
    } else if round == 6 {
        if slot == 0 {
            12
        } else if slot == 1 {
            5
        } else if slot == 2 {
            1
        } else if slot == 3 {
            15
        } else if slot == 4 {
            14
        } else if slot == 5 {
            13
        } else if slot == 6 {
            4
        } else if slot == 7 {
            10
        } else if slot == 8 {
            0
        } else if slot == 9 {
            7
        } else if slot == 10 {
            6
        } else if slot == 11 {
            3
        } else if slot == 12 {
            9
        } else if slot == 13 {
            2
        } else if slot == 14 {
            8
        } else {
            11
        }
    } else if round == 7 {
        if slot == 0 {
            13
        } else if slot == 1 {
            11
        } else if slot == 2 {
            7
        } else if slot == 3 {
            14
        } else if slot == 4 {
            12
        } else if slot == 5 {
            1
        } else if slot == 6 {
            3
        } else if slot == 7 {
            9
        } else if slot == 8 {
            5
        } else if slot == 9 {
            0
        } else if slot == 10 {
            15
        } else if slot == 11 {
            4
        } else if slot == 12 {
            8
        } else if slot == 13 {
            6
        } else if slot == 14 {
            2
        } else {
            10
        }
    } else if round == 8 {
        if slot == 0 {
            6
        } else if slot == 1 {
            15
        } else if slot == 2 {
            14
        } else if slot == 3 {
            9
        } else if slot == 4 {
            11
        } else if slot == 5 {
            3
        } else if slot == 6 {
            0
        } else if slot == 7 {
            8
        } else if slot == 8 {
            12
        } else if slot == 9 {
            2
        } else if slot == 10 {
            13
        } else if slot == 11 {
            7
        } else if slot == 12 {
            1
        } else if slot == 13 {
            4
        } else if slot == 14 {
            10
        } else {
            5
        }
    } else {
        if slot == 0 {
            10
        } else if slot == 1 {
            2
        } else if slot == 2 {
            8
        } else if slot == 3 {
            4
        } else if slot == 4 {
            7
        } else if slot == 5 {
            6
        } else if slot == 6 {
            1
        } else if slot == 7 {
            5
        } else if slot == 8 {
            15
        } else if slot == 9 {
            11
        } else if slot == 10 {
            9
        } else if slot == 11 {
            14
        } else if slot == 12 {
            3
        } else if slot == 13 {
            12
        } else if slot == 14 {
            13
        } else {
            0
        }
    }
}

/// The blake2s quarter-round on rows (a, b, c, d) of the sixteen-word
/// state, mixing in the two message words x and y.
pub open spec fn spec_g(v: Seq<u32>, a: int, b: int, c: int, d: int, x: u32, y: u32) -> Seq<u32> {
    let va1 = v[a].wrapping_add(v[b]).wrapping_add(x);
    let vd1 = spec_rotr(v[d] ^ va1, 16);
    let vc1 = v[c].wrapping_add(vd1);
    let vb1 = spec_rotr(v[b] ^ vc1, 12);
    let va2 = va1.wrapping_add(vb1).wrapping_add(y);
    let vd2 = spec_rotr(vd1 ^ va2, 8);
    let vc2 = vc1.wrapping_add(vd2);
    let vb2 = spec_rotr(vb1 ^ vc2, 7);
    v.update(a, va2).update(b, vb2).update(c, vc2).update(d, vd2)
}

/// Executable quarter-round; the four lanes must be distinct.
pub fn g_function(v: &mut [u32; 16], a: usize, b: usize, c: usize, d: usize, x: u32, y: u32)
    requires
        a < 16 && b < 16 && c < 16 && d < 16,
        a != b && a != c && a != d && b != c && b != d && c != d,
    ensures
        final(v)@ == spec_g(old(v)@, a as int, b as int, c as int, d as int, x, y),
{
    let va1 = v[a].wrapping_add(v[b]).wrapping_add(x);
    let vd1 = rotate_right(v[d] ^ va1, 16);
    let vc1 = v[c].wrapping_add(vd1);
    let vb1 = rotate_right(v[b] ^ vc1, 12);
    let va2 = va1.wrapping_add(vb1).wrapping_add(y);
    let vd2 = rotate_right(vd1 ^ va2, 8);
    let vc2 = vc1.wrapping_add(vd2);
    let vb2 = rotate_right(vb1 ^ vc2, 7);
    v[a] = va2;
    v[b] = vb2;
    v[c] = vc2;
    v[d] = vd2;
    proof {
        assert(v@ =~= spec_g(old(v)@, a as int, b as int, c as int, d as int, x, y));
    }
}

/// One full blake2s mixing round over the sixteen-word state, with the
/// message words selected by the schedule of the given round.
pub open spec fn spec_mixing(v: Seq<u32>, m: Seq<u32>, round: int) -> Seq<u32> {
    let v1 = spec_g(v, 0, 4, 8, 12, m[spec_sigma(round, 0)], m[spec_sigma(round, 1)]);
    let v2 = spec_g(v1, 1, 5, 9, 13, m[spec_sigma(round, 2)], m[spec_sigma(round, 3)]);
    let v3 = spec_g(v2, 2, 6, 10, 14, m[spec_sigma(round, 4)], m[spec_sigma(round, 5)]);
    let v4 = spec_g(v3, 3, 7, 11, 15, m[spec_sigma(round, 6)], m[spec_sigma(round, 7)]);
    let v5 = spec_g(v4, 0, 5, 10, 15, m[spec_sigma(round, 8)], m[spec_sigma(round, 9)]);
    let v6 = spec_g(v5, 1, 6, 11, 12, m[spec_sigma(round, 10)], m[spec_sigma(round, 11)]);
    let v7 = spec_g(v6, 2, 7, 8, 13, m[spec_sigma(round, 12)], m[spec_sigma(round, 13)]);
    spec_g(v7, 3, 4, 9, 14, m[spec_sigma(round, 14)], m[spec_sigma(round, 15)])
}

/// Executable mixing round.
pub fn mixing_function(v: &mut [u32; 16], m: &[u32; 16], round: usize)
    requires
        round < 10,
    ensures
        final(v)@ == spec_mixing(old(v)@, m@, round as int),
{
    g_function(v, 0, 4, 8, 12, m[sigma(round, 0)], m[sigma(round, 1)]);
    g_function(v, 1, 5, 9, 13, m[sigma(round, 2)], m[sigma(round, 3)]);
    g_function(v, 2, 6, 10, 14, m[sigma(round, 4)], m[sigma(round, 5)]);
    g_function(v, 3, 7, 11, 15, m[sigma(round, 6)], m[sigma(round, 7)]);
    g_function(v, 0, 5, 10, 15, m[sigma(round, 8)], m[sigma(round, 9)]);
    g_function(v, 1, 6, 11, 12, m[sigma(round, 10)], m[sigma(round, 11)]);
    g_function(v, 2, 7, 8, 13, m[sigma(round, 12)], m[sigma(round, 13)]);
    g_function(v, 3, 4, 9, 14, m[sigma(round, 14)], m[sigma(round, 15)]);
}

/// The sixteen-word extended state after mixing rounds 0..n.
pub open spec fn spec_rounds(v: Seq<u32>, m: Seq<u32>, n: int) -> Seq<u32>
    decreases n,
{
    if n <= 0 {
        v
    } else {
        spec_mixing(spec_rounds(v, m, n - 1), m, n - 1)
    }
}

/// Run mixing rounds 0..n over the extended state.
pub fn run_rounds(v: &mut [u32; 16], m: &[u32; 16], n: usize)
    requires
        n <= 10,
    ensures
        final(v)@ == spec_rounds(old(v)@, m@, n as int),
{
    let mut r: usize = 0;
    while r < n
        invariant
            r <= n,
            n <= 10,
            v@ == spec_rounds(old(v)@, m@, r as int),
        decreases n - r,
    {
        mixing_function(v, m, r);
        r = r + 1;
    }
}

} // verus!
