//! Single bits of bytes and words, stated arithmetically so that the prover
//! can reason about them.
use vstd::prelude::*;

verus! {

/// The value of bit `n`: two to the power `n`, for `n` up to 15.
pub open spec fn weight(n: u8) -> int {
    if n == 0 {
        1
    } else if n == 1 {
        2
    } else if n == 2 {
        4
    } else if n == 3 {
        8
    } else if n == 4 {
        16
    } else if n == 5 {
        32
    } else if n == 6 {
        64
    } else if n == 7 {
        128
    } else if n == 8 {
        256
    } else if n == 9 {
        512
    } else if n == 10 {
        1024
    } else if n == 11 {
        2048
    } else if n == 12 {
        4096
    } else if n == 13 {
        8192
    } else if n == 14 {
        16384
    } else {
        32768
    }
}

/// Whether bit `n` of `v` is set.
pub open spec fn has_bit(v: int, n: u8) -> bool {
    if n == 0 {
        v % 2 == 1
    } else if n == 1 {
        v / 2 % 2 == 1
    } else if n == 2 {
        v / 4 % 2 == 1
    } else if n == 3 {
        v / 8 % 2 == 1
    } else if n == 4 {
        v / 16 % 2 == 1
    } else if n == 5 {
        v / 32 % 2 == 1
    } else if n == 6 {
        v / 64 % 2 == 1
    } else if n == 7 {
        v / 128 % 2 == 1
    } else if n == 8 {
        v / 256 % 2 == 1
    } else if n == 9 {
        v / 512 % 2 == 1
    } else if n == 10 {
        v / 1024 % 2 == 1
    } else if n == 11 {
        v / 2048 % 2 == 1
    } else if n == 12 {
        v / 4096 % 2 == 1
    } else if n == 13 {
        v / 8192 % 2 == 1
    } else if n == 14 {
        v / 16384 % 2 == 1
    } else {
        v / 32768 % 2 == 1
    }
}

/// `v` with bit `n` forced to `on`.
pub open spec fn with_bit(v: u8, n: u8, on: bool) -> u8 {
    if has_bit(v as int, n) == on {
        v
    } else if on {
        (v + weight(n)) as u8
    } else {
        (v - weight(n)) as u8
    }
}

/// Computes the value of bit `n`.
pub fn bit_weight(n: u8) -> (w: u16)
    requires
        n < 16,
    ensures
        w == weight(n),
{
    if n < 8 {
        if n < 4 {
            if n == 0 {
                1
            } else if n == 1 {
                2
            } else if n == 2 {
                4
            } else {
                8
            }
        } else if n == 4 {
            16
        } else if n == 5 {
            32
        } else if n == 6 {
            64
        } else {
            128
        }
    } else if n < 12 {
        if n == 8 {
            256
        } else if n == 9 {
            512
        } else if n == 10 {
            1024
        } else {
            2048
        }
    } else if n == 12 {
        4096
    } else if n == 13 {
        8192
    } else if n == 14 {
        16384
    } else {
        32768
    }
}

/// Tests bit `n` of a byte.
pub fn bit(v: u8, n: u8) -> (set: bool)
    requires
        n < 8,
    ensures
        set == has_bit(v as int, n),
{
    bit16(v as u16, n)
}

/// Tests bit `n` of a word.
pub fn bit16(v: u16, n: u8) -> (set: bool)
    requires
        n < 16,
    ensures
        set == has_bit(v as int, n),
{
    if n < 8 {
        if n < 4 {
            if n == 0 {
                v % 2 == 1
            } else if n == 1 {
                v / 2 % 2 == 1
            } else if n == 2 {
                v / 4 % 2 == 1
            } else {
                v / 8 % 2 == 1
            }
        } else if n == 4 {
            v / 16 % 2 == 1
        } else if n == 5 {
            v / 32 % 2 == 1
        } else if n == 6 {
            v / 64 % 2 == 1
        } else {
            v / 128 % 2 == 1
        }
    } else if n < 12 {
        if n == 8 {
            v / 256 % 2 == 1
        } else if n == 9 {
            v / 512 % 2 == 1
        } else if n == 10 {
            v / 1024 % 2 == 1
        } else {
            v / 2048 % 2 == 1
        }
    } else if n == 12 {
        v / 4096 % 2 == 1
    } else if n == 13 {
        v / 8192 % 2 == 1
    } else if n == 14 {
        v / 16384 % 2 == 1
    } else {
        v / 32768 % 2 == 1
    }
}

/// Forces bit `n` of a byte to `on` and leaves the other seven as they are.
pub fn set_bit(v: u8, n: u8, on: bool) -> (r: u8)
    requires
        n < 8,
    ensures
        r == with_bit(v, n, on),
{
    let w = bit_weight(n) as u8;
    proof {
        lemma_with_bit(v, n, on, n);
    }
    if bit(v, n) == on {
        v
    } else if on {
        v + w
    } else {
        v - w
    }
}

/// Forcing bit `n` stays within the byte, gives that bit the value asked for
/// and leaves every other bit `m` as it was.
pub proof fn lemma_with_bit(v: u8, n: u8, on: bool, m: u8)
    by (bit_vector)
    requires
        n < 8,
        m < 8,
    ensures
        !has_bit(v as int, n) ==> v + weight(n) < 256,
        has_bit(v as int, n) ==> v - weight(n) >= 0,
        has_bit(with_bit(v, n, on) as int, m) == if m == n {
            on
        } else {
            has_bit(v as int, m)
        },
{
}

} // verus!
