//! From the battery byte of a sensor to its remaining capacity.
//!
//! A sensor reports its battery as a voltage in steps of 1/32 V. How much capacity
//! is left at a voltage depends on the chemistry: a lithium coin cell holds its
//! voltage for most of its life and then falls off a cliff, an alkaline cell runs
//! down evenly. Each chemistry has a discharge curve of a few points, and between
//! two points the capacity is interpolated.
use crate::protocol::telemetry::SensorType;
use vstd::prelude::*;

verus! {

/// The battery chemistries, each with a discharge curve of its own.
#[derive(Debug, Clone, Copy, PartialEq, Eq, Structural)]
pub enum BatteryChemistry {
    /// A 3 V lithium coin cell.
    Lithium3VCoinCell,
    /// One 1.5 V AAA cell, which reports at half scale.
    Alkaline1V5SingleAAA,
    /// Two AAA cells in series.
    Alkaline3VDualAAA,
}

impl BatteryChemistry {
    /// The chemistry in a sensor; nothing for what has no battery or is unknown.
    pub open spec fn of_sensor(sensor_type: SensorType) -> Option<BatteryChemistry> {
        match sensor_type {
            SensorType::ContactV1 | SensorType::MotionV1 | SensorType::LeakV2
            | SensorType::ClimateV2 => Some(BatteryChemistry::Lithium3VCoinCell),
            SensorType::ContactV2 => Some(BatteryChemistry::Alkaline1V5SingleAAA),
            SensorType::MotionV2 => Some(BatteryChemistry::Alkaline3VDualAAA),
            SensorType::Chime | SensorType::Unknown(_) => None,
        }
    }

    /// The chemistry in a sensor; nothing for what has no battery or is unknown.
    pub fn for_sensor(sensor_type: SensorType) -> (r: Option<BatteryChemistry>)
        ensures
            r == Self::of_sensor(sensor_type),
    {
        match sensor_type {
            SensorType::ContactV1 | SensorType::MotionV1 | SensorType::LeakV2
            | SensorType::ClimateV2 => Some(BatteryChemistry::Lithium3VCoinCell),
            SensorType::ContactV2 => Some(BatteryChemistry::Alkaline1V5SingleAAA),
            SensorType::MotionV2 => Some(BatteryChemistry::Alkaline3VDualAAA),
            SensorType::Chime | SensorType::Unknown(_) => None,
        }
    }

    /// The discharge curve: raw byte and capacity in percent, from full to empty.
    pub open spec fn curve(self) -> Seq<(u8, u8)> {
        match self {
            BatteryChemistry::Lithium3VCoinCell => seq![
                (99u8, 100u8),
                (93u8, 80u8),
                (90u8, 50u8),
                (86u8, 20u8),
                (83u8, 10u8),
                (80u8, 5u8),
                (67u8, 0u8),
            ],
            BatteryChemistry::Alkaline1V5SingleAAA => seq![
                (50u8, 100u8),
                (45u8, 80u8),
                (42u8, 50u8),
                (38u8, 25u8),
                (35u8, 10u8),
                (32u8, 0u8),
            ],
            BatteryChemistry::Alkaline3VDualAAA => seq![
                (99u8, 100u8),
                (90u8, 80u8),
                (83u8, 50u8),
                (77u8, 25u8),
                (70u8, 10u8),
                (64u8, 0u8),
            ],
        }
    }

    fn points(self) -> (r: Vec<(u8, u8)>)
        ensures
            r@ == self.curve(),
    {
        match self {
            BatteryChemistry::Lithium3VCoinCell => vec![
                (99u8, 100u8),
                (93u8, 80u8),
                (90u8, 50u8),
                (86u8, 20u8),
                (83u8, 10u8),
                (80u8, 5u8),
                (67u8, 0u8),
            ],
            BatteryChemistry::Alkaline1V5SingleAAA => vec![
                (50u8, 100u8),
                (45u8, 80u8),
                (42u8, 50u8),
                (38u8, 25u8),
                (35u8, 10u8),
                (32u8, 0u8),
            ],
            BatteryChemistry::Alkaline3VDualAAA => vec![
                (99u8, 100u8),
                (90u8, 80u8),
                (83u8, 50u8),
                (77u8, 25u8),
                (70u8, 10u8),
                (64u8, 0u8),
            ],
        }
    }
}

/// A curve that falls from point to point, in the raw byte and in the capacity.
pub open spec fn falling(curve: Seq<(u8, u8)>) -> bool {
    &&& curve.len() >= 1
    &&& curve[0].1 <= 100
    &&& forall|i: int, j: int|
        0 <= i < j < curve.len() ==> curve[i].0 > curve[j].0 && curve[i].1 >= curve[j].1
}

/// The capacity on the line from the point `lo` to the point `hi`, rounded to the
/// nearest percent, a half upwards.
pub open spec fn on_line(raw: u8, hi: (u8, u8), lo: (u8, u8)) -> int {
    let num = (raw - lo.0) * (hi.1 - lo.1);
    let den = hi.0 - lo.0;
    lo.1 + (2 * num + den) / (2 * den)
}

/// The capacity at a raw byte: that of the first point above it, that of the last
/// point below it, and in between what the line of its segment gives.
pub open spec fn capacity_from(raw: u8, curve: Seq<(u8, u8)>, i: int) -> int
    decreases curve.len() - i,
{
    if i + 1 >= curve.len() {
        curve[curve.len() - 1].1 as int
    } else if raw >= curve[i + 1].0 {
        on_line(raw, curve[i], curve[i + 1])
    } else {
        capacity_from(raw, curve, i + 1)
    }
}

pub open spec fn capacity(raw: u8, curve: Seq<(u8, u8)>) -> int {
    if raw >= curve[0].0 {
        curve[0].1 as int
    } else {
        capacity_from(raw, curve, 0)
    }
}

/// The segment that reaches `raw` gives a capacity between those of its ends, and
/// the lower one at its lower end.
proof fn lemma_on_line(raw: u8, hi: (u8, u8), lo: (u8, u8))
    requires
        lo.0 < hi.0,
        lo.1 <= hi.1,
        lo.0 <= raw <= hi.0,
    ensures
        lo.1 <= on_line(raw, hi, lo) <= hi.1,
        (raw - lo.0) * (hi.1 - lo.1) <= 65025,
        (raw - lo.0) * (hi.1 - lo.1) >= 0,
        raw == hi.0 ==> on_line(raw, hi, lo) == hi.1,
        raw == lo.0 ==> on_line(raw, hi, lo) == lo.1,
{
    let x = raw - lo.0;
    let h = hi.1 - lo.1;
    let den = hi.0 - lo.0;
    assert(0 <= x * h <= den * h && x * h <= 65025) by (nonlinear_arith)
        requires
            0 <= x <= den,
            0 <= h <= 255,
            0 < den <= 255,
    ;
    assert((2 * (x * h) + den) / (2 * den) <= h) by (nonlinear_arith)
        requires
            0 < den,
            x * h <= den * h,
    ;
    assert((2 * (x * h) + den) / (2 * den) >= 0) by (nonlinear_arith)
        requires
            0 < den,
            0 <= x * h,
    ;
    if x == den {
        assert((2 * (x * h) + den) / (2 * den) >= h) by (nonlinear_arith)
            requires
                0 < den,
                x == den,
        ;
    }
    if x == 0 {
        assert((2 * (x * h) + den) / (2 * den) == 0) by (nonlinear_arith)
            requires
                0 < den,
                x == 0,
        ;
    }
}

/// On one segment a higher raw byte gives no lower capacity.
proof fn lemma_on_line_grows(a: u8, b: u8, hi: (u8, u8), lo: (u8, u8))
    requires
        lo.0 < hi.0,
        lo.1 <= hi.1,
        lo.0 <= a <= b <= hi.0,
    ensures
        on_line(a, hi, lo) <= on_line(b, hi, lo),
{
    let x = a - lo.0;
    let y = b - lo.0;
    let h = hi.1 - lo.1;
    let den = hi.0 - lo.0;
    assert((2 * (x * h) + den) / (2 * den) <= (2 * (y * h) + den) / (2 * den)) by (nonlinear_arith)
        requires
            0 <= x <= y,
            0 <= h,
            0 < den,
    ;
}

/// Piecewise linear interpolation on a falling curve.
fn interpolate(raw: u8, curve: &[(u8, u8)]) -> (r: u8)
    requires
        falling(curve@),
    ensures
        r == capacity(raw, curve@),
{
    if raw >= curve[0].0 {
        return curve[0].1;
    }
    let n: usize = curve.len();
    let mut i: usize = 0;
    while i < n - 1
        invariant
            n == curve@.len(),
            i < n,
            falling(curve@),
            raw < curve@[i as int].0,
            capacity(raw, curve@) == capacity_from(raw, curve@, i as int),
        decreases n - i,
    {
        let hi = curve[i];
        let lo = curve[i + 1];
        if raw >= lo.0 {
            proof {
                lemma_on_line(raw, hi, lo);
            }
            let num: u32 = (raw - lo.0) as u32 * (hi.1 - lo.1) as u32;
            let den: u32 = (hi.0 - lo.0) as u32;
            let step: u32 = (2 * num + den) / (2 * den);
            return (lo.1 as u32 + step) as u8;
        }
        i += 1;
    }
    curve[n - 1].1
}

/// The remaining capacity in percent, from the raw battery byte.
pub fn raw_to_capacity(raw: u8, chemistry: BatteryChemistry) -> (r: u8)
    ensures
        r == capacity(raw, chemistry.curve()),
        r <= 100,
{
    let points = chemistry.points();
    proof {
        law_curves_fall(chemistry);
        law_capacity_bounds(raw, chemistry.curve());
    }
    interpolate(raw, points.as_slice())
}

/// Every discharge curve falls, from 100 percent to none.
pub proof fn law_curves_fall(chemistry: BatteryChemistry)
    ensures
        falling(chemistry.curve()),
        chemistry.curve()[0].1 == 100,
        chemistry.curve().last().1 == 0,
{
}

/// The capacity never leaves the range of the curve.
pub proof fn law_capacity_bounds(raw: u8, curve: Seq<(u8, u8)>)
    requires
        falling(curve),
    ensures
        curve.last().1 <= capacity(raw, curve) <= curve[0].1,
{
    if raw < curve[0].0 {
        lemma_capacity_from_bounds(raw, curve, 0);
    }
}

proof fn lemma_capacity_from_bounds(raw: u8, curve: Seq<(u8, u8)>, i: int)
    requires
        falling(curve),
        0 <= i < curve.len(),
        raw < curve[i].0,
    ensures
        curve.last().1 <= capacity_from(raw, curve, i) <= curve[i].1,
    decreases curve.len() - i,
{
    if i + 1 < curve.len() {
        if raw >= curve[i + 1].0 {
            lemma_on_line(raw, curve[i], curve[i + 1]);
        } else {
            lemma_capacity_from_bounds(raw, curve, i + 1);
        }
    }
}

/// A battery that reports a higher voltage is never said to hold less.
pub proof fn law_capacity_is_monotone(a: u8, b: u8, curve: Seq<(u8, u8)>)
    requires
        falling(curve),
        a <= b,
    ensures
        capacity(a, curve) <= capacity(b, curve),
{
    if b >= curve[0].0 {
        law_capacity_bounds(a, curve);
    } else {
        lemma_capacity_from_grows(a, b, curve, 0);
    }
}

proof fn lemma_capacity_from_grows(a: u8, b: u8, curve: Seq<(u8, u8)>, i: int)
    requires
        falling(curve),
        0 <= i < curve.len(),
        a <= b < curve[i].0,
    ensures
        capacity_from(a, curve, i) <= capacity_from(b, curve, i),
    decreases curve.len() - i,
{
    if i + 1 < curve.len() {
        if a >= curve[i + 1].0 {
            lemma_on_line_grows(a, b, curve[i], curve[i + 1]);
        } else if b >= curve[i + 1].0 {
            lemma_on_line(b, curve[i], curve[i + 1]);
            lemma_capacity_from_bounds(a, curve, i + 1);
        } else {
            lemma_capacity_from_grows(a, b, curve, i + 1);
        }
    }
}

/// Between two points of a falling curve the capacity is the nearest percentage to the
/// straight line through them; above the first point and below the last it is theirs.
pub proof fn law_capacity_follows_the_line(raw: u8, curve: Seq<(u8, u8)>, i: int)
    requires
        falling(curve),
        0 <= i < curve.len() - 1,
    ensures
        curve[i].0 >= raw >= curve[i + 1].0 ==> {
            let (hi, lo) = (curve[i], curve[i + 1]);
            let off = (capacity(raw, curve) - lo.1) * (hi.0 - lo.0) - (raw - lo.0) * (hi.1 - lo.1);
            -(hi.0 - lo.0) <= 2 * off <= hi.0 - lo.0
        },
        raw >= curve[0].0 ==> capacity(raw, curve) == curve[0].1,
        raw <= curve.last().0 ==> capacity(raw, curve) == curve.last().1,
{
    if curve[i].0 >= raw >= curve[i + 1].0 {
        lemma_segment(raw, curve, 0, i);
        let (hi, lo) = (curve[i], curve[i + 1]);
        let cap = capacity(raw, curve);
        lemma_on_line(raw, hi, lo);
        assert(cap == on_line(raw, hi, lo));
        let num = (raw - lo.0) * (hi.1 - lo.1);
        let den = hi.0 - lo.0;
        let step = (2 * num + den) / (2 * den);
        assert(-den <= 2 * (step * den - num) <= den) by (nonlinear_arith)
            requires
                den > 0,
                step == (2 * num + den) / (2 * den),
        ;
    }
    if raw <= curve.last().0 {
        law_capacity_bounds(raw, curve);
        lemma_last(raw, curve, 0);
    }
}

proof fn lemma_segment(raw: u8, curve: Seq<(u8, u8)>, from: int, i: int)
    requires
        falling(curve),
        0 <= from <= i < curve.len() - 1,
        curve[i].0 >= raw >= curve[i + 1].0,
    ensures
        capacity_from(raw, curve, from) == on_line(raw, curve[i], curve[i + 1]),
    decreases i - from,
{
    if from < i {
        if raw >= curve[from + 1].0 {
            assert(from + 1 == i);
            lemma_on_line(raw, curve[from], curve[i]);
            lemma_on_line(raw, curve[i], curve[i + 1]);
        } else {
            lemma_segment(raw, curve, from + 1, i);
        }
    }
}

proof fn lemma_last(raw: u8, curve: Seq<(u8, u8)>, i: int)
    requires
        falling(curve),
        0 <= i < curve.len(),
        raw <= curve.last().0,
    ensures
        capacity_from(raw, curve, i) == curve.last().1,
    decreases curve.len() - i,
{
    if i + 1 < curve.len() {
        if raw >= curve[i + 1].0 {
            assert(i + 1 == curve.len() - 1);
            lemma_on_line(raw, curve[i], curve[i + 1]);
        } else {
            lemma_last(raw, curve, i + 1);
        }
    }
}

/// At every point of a falling curve the capacity is that of the point.
proof fn lemma_at_point(curve: Seq<(u8, u8)>, i: int)
    requires
        falling(curve),
        0 <= i < curve.len() - 1,
    ensures
        capacity(curve[i].0, curve) == curve[i].1,
{
    lemma_segment(curve[i].0, curve, 0, i);
    lemma_on_line(curve[i].0, curve[i], curve[i + 1]);
}

/// A coin cell is full from 3.1 V up and empty from 2.1 V down, two AAA cells in series
/// from 3.1 V and 2.0 V, and a single AAA cell at half of that, always in steps of 1/32 V.
/// A coin cell keeps 80 percent down to a raw byte of 93, and from there falls off; what is
/// left at its other marks stands in between.
pub proof fn law_full_and_empty(raw: u8)
    ensures
        raw >= 99 ==> capacity(raw, BatteryChemistry::Lithium3VCoinCell.curve()) == 100,
        raw <= 67 ==> capacity(raw, BatteryChemistry::Lithium3VCoinCell.curve()) == 0,
        raw >= 50 ==> capacity(raw, BatteryChemistry::Alkaline1V5SingleAAA.curve()) == 100,
        raw <= 32 ==> capacity(raw, BatteryChemistry::Alkaline1V5SingleAAA.curve()) == 0,
        raw >= 99 ==> capacity(raw, BatteryChemistry::Alkaline3VDualAAA.curve()) == 100,
        raw <= 64 ==> capacity(raw, BatteryChemistry::Alkaline3VDualAAA.curve()) == 0,
        ({
            let c = BatteryChemistry::Lithium3VCoinCell.curve();
            &&& capacity(93, c) == 80
            &&& capacity(90, c) == 50
            &&& capacity(86, c) == 20
            &&& capacity(83, c) == 10
            &&& capacity(80, c) == 5
        }),
        ({
            let c = BatteryChemistry::Alkaline1V5SingleAAA.curve();
            &&& capacity(45, c) == 80
            &&& capacity(42, c) == 50
            &&& capacity(38, c) == 25
            &&& capacity(35, c) == 10
        }),
        ({
            let c = BatteryChemistry::Alkaline3VDualAAA.curve();
            &&& capacity(90, c) == 80
            &&& capacity(83, c) == 50
            &&& capacity(77, c) == 25
            &&& capacity(70, c) == 10
        }),
{
    let coin = BatteryChemistry::Lithium3VCoinCell;
    let one = BatteryChemistry::Alkaline1V5SingleAAA;
    let two = BatteryChemistry::Alkaline3VDualAAA;
    law_curves_fall(coin);
    law_curves_fall(one);
    law_curves_fall(two);
    law_capacity_follows_the_line(raw, coin.curve(), 0);
    law_capacity_follows_the_line(raw, one.curve(), 0);
    law_capacity_follows_the_line(raw, two.curve(), 0);
    lemma_at_point(coin.curve(), 1);
    lemma_at_point(coin.curve(), 2);
    lemma_at_point(coin.curve(), 3);
    lemma_at_point(coin.curve(), 4);
    lemma_at_point(coin.curve(), 5);
    lemma_at_point(one.curve(), 1);
    lemma_at_point(one.curve(), 2);
    lemma_at_point(one.curve(), 3);
    lemma_at_point(one.curve(), 4);
    lemma_at_point(two.curve(), 1);
    lemma_at_point(two.curve(), 2);
    lemma_at_point(two.curve(), 3);
    lemma_at_point(two.curve(), 4);
}

} // verus!
