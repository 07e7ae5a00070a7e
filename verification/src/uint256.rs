use vstd::prelude::*;

verus! {

/// Two to the 64th: what one step up the limbs is worth.
pub open spec fn limb_base() -> int {
    0x1_0000_0000_0000_0000
}

/// Two to the 128th.
pub open spec fn two_limbs() -> int {
    0x1_0000_0000_0000_0000_0000_0000_0000_0000int
}

/// Two to the 192nd.
pub open spec fn three_limbs() -> int {
    0x1_0000_0000_0000_0000_0000_0000_0000_0000_0000_0000_0000_0000int
}

/// Two to the 256th: the first number that no `Uint256` holds.
pub open spec fn uint256_bound() -> int {
    0x1_0000_0000_0000_0000_0000_0000_0000_0000_0000_0000_0000_0000_0000_0000_0000_0000int
}

/// The number that four limbs stand for, least significant limb first.
pub open spec fn limbs_value(l0: u64, l1: u64, l2: u64, l3: u64) -> nat {
    (l0 + l1 * limb_base() + l2 * two_limbs() + l3 * three_limbs()) as nat
}

/// An unsigned amount below two to the 256th, held as four 64-bit limbs, the least
/// significant first. Every choice of limbs is a valid amount, and two amounts are the
/// same number exactly when their limbs agree.
#[derive(Clone, Copy, Debug, PartialEq, Eq)]
pub struct Uint256 {
    pub limbs: [u64; 4],
}

impl View for Uint256 {
    type V = nat;

    open spec fn view(&self) -> nat {
        limbs_value(self.limbs[0], self.limbs[1], self.limbs[2], self.limbs[3])
    }
}

/// One limb of a subtraction: `a - b - borrow_in`, as a limb and the borrow it passes up.
fn sub_limb(a: u64, b: u64, borrow_in: u64) -> (r: (u64, u64))
    requires
        borrow_in <= 1,
    ensures
        r.1 <= 1,
        a - b - borrow_in == r.0 - r.1 * limb_base(),
{
    let lifted: u128 = 0x1_0000_0000_0000_0000 + (a as u128) - (b as u128) - (borrow_in as u128);
    if lifted < 0x1_0000_0000_0000_0000 {
        (lifted as u64, 1)
    } else {
        ((lifted - 0x1_0000_0000_0000_0000) as u64, 0)
    }
}

/// One limb of a product: `a * m + carry_in`, as a limb and the carry it passes up.
fn mul_limb(a: u64, m: u64, carry_in: u64) -> (r: (u64, u64))
    ensures
        a * m + carry_in == r.0 + r.1 * limb_base(),
{
    assert(a * m <= 0xffff_ffff_ffff_ffff * 0xffff_ffff_ffff_ffff) by (nonlinear_arith)
        requires
            a <= 0xffff_ffff_ffff_ffff,
            m <= 0xffff_ffff_ffff_ffff,
    ;
    let wide: u128 = (a as u128) * (m as u128) + (carry_in as u128);
    ((wide % 0x1_0000_0000_0000_0000) as u64, (wide / 0x1_0000_0000_0000_0000) as u64)
}

/// One limb of a division by one hundred: what is left from the limb above, followed by
/// `limb`, as a quotient limb and what is left for the limb below.
fn div_limb_by_hundred(left: u64, limb: u64) -> (r: (u64, u64))
    requires
        left < 100,
    ensures
        r.1 < 100,
        left * limb_base() + limb == r.0 * 100 + r.1,
{
    let wide: u128 = (left as u128) * 0x1_0000_0000_0000_0000 + (limb as u128);
    ((wide / 100) as u64, (wide % 100) as u64)
}

/// The `Uint256` that stands for `value`: its low and its high half as the two low limbs.
pub open spec fn uint256_of(value: u128) -> Uint256 {
    Uint256 {
        limbs: [
            (value % 0x1_0000_0000_0000_0000) as u64,
            (value / 0x1_0000_0000_0000_0000) as u64,
            0,
            0,
        ],
    }
}

impl Uint256 {
    /// The amount zero.
    pub fn zero() -> (r: Uint256)
        ensures
            r@ == 0,
    {
        Uint256 { limbs: [0, 0, 0, 0] }
    }

    /// The amount whose limbs are given, least significant first.
    pub fn from_limbs(limbs: [u64; 4]) -> (r: Uint256)
        ensures
            r.limbs == limbs,
    {
        Uint256 { limbs }
    }

    /// The same number as a `Uint256`.
    pub fn from_u128(value: u128) -> (r: Uint256)
        ensures
            r@ == value,
            r == uint256_of(value),
    {
        let low: u64 = (value % 0x1_0000_0000_0000_0000) as u64;
        let high: u64 = (value / 0x1_0000_0000_0000_0000) as u64;
        Uint256 { limbs: [low, high, 0, 0] }
    }

    /// The same number as a `u128`, where it is below two to the 128th.
    pub fn to_u128(&self) -> (r: Option<u128>)
        ensures
            self@ < two_limbs() ==> r == Some(self@ as u128),
            self@ >= two_limbs() ==> r is None,
    {
        if self.limbs[2] == 0 && self.limbs[3] == 0 {
            let high: u128 = self.limbs[1] as u128;
            let low: u128 = self.limbs[0] as u128;
            Some(high * 0x1_0000_0000_0000_0000 + low)
        } else {
            None
        }
    }

    /// Whether this amount is below `other`.
    pub fn lt(&self, other: &Uint256) -> (r: bool)
        ensures
            r == (self@ < other@),
    {
        if self.limbs[3] != other.limbs[3] {
            self.limbs[3] < other.limbs[3]
        } else if self.limbs[2] != other.limbs[2] {
            self.limbs[2] < other.limbs[2]
        } else if self.limbs[1] != other.limbs[1] {
            self.limbs[1] < other.limbs[1]
        } else {
            self.limbs[0] < other.limbs[0]
        }
    }

    /// This amount less `other`, where `other` is no larger; `None` where it is.
    pub fn checked_sub(&self, other: &Uint256) -> (r: Option<Uint256>)
        ensures
            self@ >= other@ ==> r is Some && r->0@ == self@ - other@,
            self@ < other@ ==> r is None,
    {
        if self.lt(other) {
            return None;
        }
        let (diff0, borrow0) = sub_limb(self.limbs[0], other.limbs[0], 0);
        let (diff1, borrow1) = sub_limb(self.limbs[1], other.limbs[1], borrow0);
        let (diff2, borrow2) = sub_limb(self.limbs[2], other.limbs[2], borrow1);
        let (diff3, borrow3) = sub_limb(self.limbs[3], other.limbs[3], borrow2);
        Some(Uint256 { limbs: [diff0, diff1, diff2, diff3] })
    }

    /// The given percentage of this amount, rounded down: `self * percent / 100`.
    /// `None` where that is two to the 256th or more, which takes a percentage above 100.
    pub fn percent_of(&self, percent: u64) -> (r: Option<Uint256>)
        ensures
            self@ * percent / 100 < uint256_bound() ==> r is Some && r->0@ == self@ * percent / 100,
            self@ * percent / 100 >= uint256_bound() ==> r is None,
    {
        let (part0, carry0) = mul_limb(self.limbs[0], percent, 0);
        let (part1, carry1) = mul_limb(self.limbs[1], percent, carry0);
        let (part2, carry2) = mul_limb(self.limbs[2], percent, carry1);
        let (part3, part4) = mul_limb(self.limbs[3], percent, carry2);
        let ghost product: int = part0 + part1 * limb_base() + part2 * two_limbs() + part3 * three_limbs()
            + part4 * uint256_bound();
        assert(product == self@ * percent) by (nonlinear_arith)
            requires
                product == part0 + part1 * limb_base() + part2 * two_limbs() + part3 * three_limbs() + part4
                    * uint256_bound(),
                self@ == self.limbs[0] + self.limbs[1] * limb_base() + self.limbs[2] * two_limbs()
                    + self.limbs[3] * three_limbs(),
                self.limbs[0] * percent + 0 == part0 + carry0 * limb_base(),
                self.limbs[1] * percent + carry0 == part1 + carry1 * limb_base(),
                self.limbs[2] * percent + carry1 == part2 + carry2 * limb_base(),
                self.limbs[3] * percent + carry2 == part3 + part4 * limb_base(),
                limb_base() == 0x1_0000_0000_0000_0000,
                two_limbs() == limb_base() * limb_base(),
                three_limbs() == two_limbs() * limb_base(),
                uint256_bound() == three_limbs() * limb_base(),
        ;
        let (digit4, left4) = div_limb_by_hundred(0, part4);
        let (digit3, left3) = div_limb_by_hundred(left4, part3);
        let (digit2, left2) = div_limb_by_hundred(left3, part2);
        let (digit1, left1) = div_limb_by_hundred(left2, part1);
        let (digit0, left0) = div_limb_by_hundred(left1, part0);
        let ghost quotient: int = digit0 + digit1 * limb_base() + digit2 * two_limbs() + digit3 * three_limbs()
            + digit4 * uint256_bound();
        assert(product == quotient * 100 + left0);
        assert(quotient == product / 100);
        if digit4 == 0 {
            Some(Uint256 { limbs: [digit0, digit1, digit2, digit3] })
        } else {
            None
        }
    }
}

impl From<u128> for Uint256 {
    fn from(value: u128) -> (r: Uint256) {
        Uint256::from_u128(value)
    }
}

impl vstd::std_specs::convert::FromSpecImpl<u128> for Uint256 {
    open spec fn obeys_from_spec() -> bool {
        true
    }

    open spec fn from_spec(value: u128) -> Uint256 {
        uint256_of(value)
    }
}

/// The limbs of a number are its digits to the base of two to the 64th: the lowest limb
/// is what is left of the number over that base, and the limbs above stand for the
/// quotient.
proof fn lowest_limb(low: u64, above: int, value: int)
    requires
        value == low + limb_base() * above,
    ensures
        low == value % limb_base(),
        above == value / limb_base(),
{
    vstd::arithmetic::div_mod::lemma_fundamental_div_mod_converse(
        value,
        limb_base(),
        above,
        low as int,
    );
}

/// Two amounts that stand for the same number have the same limbs.
pub proof fn same_number_same_limbs(a: Uint256, b: Uint256)
    requires
        a@ == b@,
    ensures
        a.limbs@ == b.limbs@,
{
    let upper_a2: int = a.limbs[2] + limb_base() * a.limbs[3];
    let upper_a1: int = a.limbs[1] + limb_base() * upper_a2;
    let borrow2: int = b.limbs[2] + limb_base() * b.limbs[3];
    let borrow1: int = b.limbs[1] + limb_base() * borrow2;
    lowest_limb(a.limbs[0], upper_a1, a@ as int);
    lowest_limb(b.limbs[0], borrow1, b@ as int);
    lowest_limb(a.limbs[1], upper_a2, upper_a1);
    lowest_limb(b.limbs[1], borrow2, borrow1);
    lowest_limb(a.limbs[2], a.limbs[3] as int, upper_a2);
    lowest_limb(b.limbs[2], b.limbs[3] as int, borrow2);
    assert(a.limbs@ =~= b.limbs@);
}

} // verus!
