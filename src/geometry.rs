use vstd::prelude::*;

verus! {

/// A point of the world in micro-units (a millionth of a world unit).
#[derive(Clone, Copy, Debug, PartialEq, Eq, Structural)]
pub struct Position {
    pub x: i64,
    pub y: i64,
}

/// The sign of a movement along each axis: -1, 0 or 1. The unit vector of
/// travel is this vector scaled to length one.
#[derive(Clone, Copy, Debug, PartialEq, Eq, Structural)]
pub struct Direction {
    pub x: i8,
    pub y: i8,
}

impl Direction {
    pub open spec fn wf(self) -> bool {
        -1 <= self.x <= 1 && -1 <= self.y <= 1
    }

    pub open spec fn is_zero(self) -> bool {
        self.x == 0 && self.y == 0
    }
}

/// The distance in micro-units covered in `delta_ns` nanoseconds at `speed`
/// world units per second.
pub open spec fn travel(speed: int, delta_ns: int) -> int {
    speed * delta_ns / 1000
}

/// The largest `r` with `r * r <= n`.
pub open spec fn floor_sqrt(n: nat) -> nat {
    choose|r: nat| #[trigger] (r * r) <= n && n < (r + 1) * (r + 1)
}

/// Each component of a diagonal step of length `d`: the largest `k` with
/// `2 * k * k <= d * d`, that is `d / sqrt(2)` rounded down.
pub open spec fn diagonal_part(d: nat) -> nat {
    floor_sqrt(d * d / 2)
}

/// `m` with the sign `s`.
pub open spec fn signed(s: i8, m: int) -> int {
    if s > 0 {
        m
    } else if s < 0 {
        -m
    } else {
        0
    }
}

/// The offset of a move along `dir` (made a unit vector) at `speed` for
/// `delta_ns` nanoseconds, each component rounded toward zero.
pub open spec fn offset(dir: Direction, speed: int, delta_ns: int) -> (int, int) {
    let d = travel(speed, delta_ns);
    let m = if dir.x != 0 && dir.y != 0 {
        diagonal_part(d as nat) as int
    } else {
        d
    };
    (signed(dir.x, m), signed(dir.y, m))
}

/// `v` held to the range of `i64`.
pub open spec fn clamp_i64(v: int) -> i64 {
    if v > i64::MAX {
        i64::MAX
    } else if v < i64::MIN {
        i64::MIN
    } else {
        v as i64
    }
}

/// `pos` moved along `dir` at `speed` for `delta_ns` nanoseconds; each
/// coordinate stops at the bounds of the coordinate range.
pub open spec fn shifted(pos: Position, dir: Direction, speed: int, delta_ns: int) -> Position {
    let o = offset(dir, speed, delta_ns);
    Position { x: clamp_i64(pos.x + o.0), y: clamp_i64(pos.y + o.1) }
}

proof fn lemma_sqrt_unique(a: nat, b: nat, n: nat)
    requires
        a * a <= n < (a + 1) * (a + 1),
        b * b <= n < (b + 1) * (b + 1),
    ensures
        a == b,
{
    if a < b {
        assert((a + 1) * (a + 1) <= b * b) by (nonlinear_arith)
            requires
                a + 1 <= b,
        ;
    } else if b < a {
        assert((b + 1) * (b + 1) <= a * a) by (nonlinear_arith)
            requires
                b + 1 <= a,
        ;
    }
}

/// The square root of `n`, rounded down.
fn floor_sqrt_u128(n: u128) -> (r: u64)
    requires
        n < 0x4000_0000_0000_0000_0000_0000_0000_0000u128,
    ensures
        r as nat == floor_sqrt(n as nat),
        (r as nat) * (r as nat) <= n,
{
    let mut lo: u128 = 0;
    let mut hi: u128 = 0x8000_0000_0000_0000u128;
    assert(n < hi * hi) by (nonlinear_arith)
        requires
            hi == 0x8000_0000_0000_0000u128,
            n < 0x4000_0000_0000_0000_0000_0000_0000_0000u128,
    ;
    while hi - lo > 1
        invariant
            lo < hi <= 0x8000_0000_0000_0000u128,
            lo * lo <= n,
            n < hi * hi,
        decreases hi - lo,
    {
        let mid: u128 = lo + (hi - lo) / 2;
        assert(mid * mid <= 0x4000_0000_0000_0000_0000_0000_0000_0000u128) by (nonlinear_arith)
            requires
                mid <= 0x8000_0000_0000_0000u128,
        ;
        if mid * mid <= n {
            lo = mid;
        } else {
            hi = mid;
        }
    }
    assert(hi == lo + 1);
    let r: u64 = lo as u64;
    assert((r as nat) * (r as nat) <= n as nat && (n as nat) < (r as nat + 1) * (r as nat + 1));
    proof {
        let s = floor_sqrt(n as nat);
        assert(s * s <= n as nat && (n as nat) < (s + 1) * (s + 1));
        lemma_sqrt_unique(r as nat, s, n as nat);
    }
    r
}

/// Moves `pos` along `dir` at `speed` world units per second for `delta_ns`
/// nanoseconds.
pub fn shift(pos: Position, dir: Direction, speed: u64, delta_ns: u64) -> (r: Position)
    requires
        dir.wf(),
        travel(speed as int, delta_ns as int) <= i64::MAX,
    ensures
        r == shifted(pos, dir, speed as int, delta_ns as int),
{
    assert((speed as int) * (delta_ns as int) <= u128::MAX) by (nonlinear_arith)
        requires
            speed <= u64::MAX,
            delta_ns <= u64::MAX,
    ;
    let d: u128 = (speed as u128) * (delta_ns as u128) / 1000;
    assert(d as int == travel(speed as int, delta_ns as int));
    let m: u128 = if dir.x != 0 && dir.y != 0 {
        assert(d * d / 2 < 0x4000_0000_0000_0000_0000_0000_0000_0000u128) by (nonlinear_arith)
            requires
                d <= 0x7fff_ffff_ffff_ffffu128,
        ;
        let k = floor_sqrt_u128(d * d / 2);
        proof {
            let kk = k as nat;
            let dd = d as nat;
            assert(kk * kk <= dd * dd / 2);
            assert(kk <= dd) by (nonlinear_arith)
                requires
                    kk * kk <= dd * dd / 2,
            ;
        }
        k as u128
    } else {
        d
    };
    let mi: i128 = m as i128;
    let dx: i128 = if dir.x > 0 {
        mi
    } else if dir.x < 0 {
        -mi
    } else {
        0
    };
    let dy: i128 = if dir.y > 0 {
        mi
    } else if dir.y < 0 {
        -mi
    } else {
        0
    };
    let x: i128 = pos.x as i128 + dx;
    let y: i128 = pos.y as i128 + dy;
    Position { x: clamp(x), y: clamp(y) }
}

fn clamp(v: i128) -> (r: i64)
    ensures
        r == clamp_i64(v as int),
{
    if v > i64::MAX as i128 {
        i64::MAX
    } else if v < i64::MIN as i128 {
        i64::MIN
    } else {
        v as i64
    }
}

} // verus!
