use vstd::prelude::*;
use crate::Measurement;

verus! {

/// Hard-iron centre, soft-iron scale and target radius used to correct raw
/// magnetometer samples.  A usable calibration has strictly positive scale on
/// every axis (the per-axis divisor) and a non-negative radius; `wf` states
/// that invariant.
#[derive(Clone, Copy, PartialEq, Eq, Structural, Debug)]
pub struct Calibration {
    pub center: Measurement,
    pub scale: Measurement,
    pub radius: i32,
}

impl Calibration {
    pub open spec fn wf(self) -> bool {
        &&& self.scale.x > 0
        &&& self.scale.y > 0
        &&& self.scale.z > 0
        &&& self.radius >= 0
    }
}

/// Integer division that truncates toward zero, as the `/` of the machine
/// does, defined here for positive divisors.
pub open spec fn div_toward_zero(a: int, b: int) -> int
    recommends
        b > 0,
{
    if a >= 0 {
        a / b
    } else {
        -((-a) / b)
    }
}

/// What calibration does to one axis: remove the constant bias `center`,
/// then rescale the per-axis gain `scale` to the common `radius`.
pub open spec fn calibrated_axis(raw: int, center: int, scale: int, radius: int) -> int {
    div_toward_zero((raw - center) * radius, scale)
}

/// The corrected value of one axis fits the sensor's integer width.
pub open spec fn axis_fits(raw: int, center: int, scale: int, radius: int) -> bool {
    i32::MIN <= calibrated_axis(raw, center, scale, radius) <= i32::MAX
}

/// Every axis of `m`, corrected by `c`, fits the sensor's integer width.
pub open spec fn calibrated_fits(m: Measurement, c: Calibration) -> bool {
    &&& axis_fits(m.x as int, c.center.x as int, c.scale.x as int, c.radius as int)
    &&& axis_fits(m.y as int, c.center.y as int, c.scale.y as int, c.radius as int)
    &&& axis_fits(m.z as int, c.center.z as int, c.scale.z as int, c.radius as int)
}

/// Divides truncating toward zero, as the machine's signed `/` does.
fn div_toward_zero_i64(a: i64, b: i64) -> (r: i64)
    requires
        b > 0,
        a > i64::MIN,
    ensures
        r as int == div_toward_zero(a as int, b as int),
{
    let mag: u64 = if a < 0 {
        (-a) as u64
    } else {
        a as u64
    };
    let q: u64 = mag / (b as u64);
    proof {
        vstd::arithmetic::div_mod::lemma_div_nonincreasing(mag as int, b as int);
    }
    if a < 0 {
        -(q as i64)
    } else {
        q as i64
    }
}

fn calibrate_axis_wide(raw: i32, center: i32, scale: i32, radius: i32) -> (r: i64)
    requires
        scale > 0,
        radius >= 0,
    ensures
        r as int == calibrated_axis(raw as int, center as int, scale as int, radius as int),
{
    let diff: i64 = raw as i64 - center as i64;
    proof {
        assert(diff * (radius as i64) < 0x8000_0000_0000_0000 && -0x8000_0000_0000_0000
            < diff * (radius as i64)) by (nonlinear_arith)
            requires
                -0x1_0000_0000 < diff < 0x1_0000_0000,
                0 <= radius < 0x8000_0000,
        ;
    }
    let num: i64 = diff * (radius as i64);
    div_toward_zero_i64(num, scale as i64)
}

fn calibrate_axis(raw: i32, center: i32, scale: i32, radius: i32) -> (r: i32)
    requires
        scale > 0,
        radius >= 0,
        axis_fits(raw as int, center as int, scale as int, radius as int),
    ensures
        r as int == calibrated_axis(raw as int, center as int, scale as int, radius as int),
{
    calibrate_axis_wide(raw, center, scale, radius) as i32
}

/// Corrects a raw sample: per axis, `(raw - center) * radius / scale`, the
/// division truncating toward zero.  Removes the hard-iron bias and evens the
/// soft-iron gain so that on-sphere samples come out with magnitude `radius`.
pub fn calibrated_measurement(m: Measurement, calibration: &Calibration) -> (r: Measurement)
    requires
        calibration.wf(),
        calibrated_fits(m, *calibration),
    ensures
        r.x as int == calibrated_axis(m.x as int, calibration.center.x as int,
            calibration.scale.x as int, calibration.radius as int),
        r.y as int == calibrated_axis(m.y as int, calibration.center.y as int,
            calibration.scale.y as int, calibration.radius as int),
        r.z as int == calibrated_axis(m.z as int, calibration.center.z as int,
            calibration.scale.z as int, calibration.radius as int),
{
    Measurement {
        x: calibrate_axis(m.x, calibration.center.x, calibration.scale.x, calibration.radius),
        y: calibrate_axis(m.y, calibration.center.y, calibration.scale.y, calibration.radius),
        z: calibrate_axis(m.z, calibration.center.z, calibration.scale.z, calibration.radius),
    }
}

proof fn lemma_axis_exact(center: int, scale: int, radius: int, k: int)
    requires
        scale > 0,
        radius >= 0,
        -1 <= k <= 1,
    ensures
        calibrated_axis(center + scale * k, center, scale, radius) == k * radius,
{
    let num = (center + scale * k - center) * radius;
    vstd::arithmetic::div_mod::lemma_div_by_multiple(radius, scale);
    if radius == 0 {
        assert(num == 0) by (nonlinear_arith)
            requires
                num == (center + scale * k - center) * radius,
                radius == 0,
        ;
        vstd::arithmetic::div_mod::lemma_div_of0(scale);
        assert(div_toward_zero(num, scale) == 0);
        assert(k * radius == 0) by (nonlinear_arith)
            requires
                radius == 0,
        ;
    } else if k == 1 {
        assert(num == radius * scale) by (nonlinear_arith)
            requires
                num == (center + scale * k - center) * radius,
                k == 1,
        ;
        assert(radius * scale > 0) by (nonlinear_arith)
            requires
                radius > 0,
                scale > 0,
        ;
        assert(div_toward_zero(num, scale) == radius);
    } else if k == 0 {
        assert(num == 0) by (nonlinear_arith)
            requires
                num == (center + scale * k - center) * radius,
                k == 0,
        ;
        vstd::arithmetic::div_mod::lemma_div_of0(scale);
        assert(div_toward_zero(num, scale) == 0);
    } else {
        assert(num == -(radius * scale)) by (nonlinear_arith)
            requires
                num == (center + scale * k - center) * radius,
                k == -1,
        ;
        assert(radius * scale > 0) by (nonlinear_arith)
            requires
                radius > 0,
                scale > 0,
        ;
        assert(num < 0);
        assert(div_toward_zero(num, scale) == -((radius * scale) / scale));
        assert(div_toward_zero(num, scale) == -radius);
    }
}

/// Synthetic raw samples lying exactly on the calibration ellipsoid come out
/// with magnitude exactly `radius`: displace the centre by the scale along a
/// unit direction with integer components, and each corrected axis is the
/// signed radius or zero, so the squared magnitude of the corrected sample
/// is exactly `radius * radius`.
pub proof fn lemma_on_sphere_magnitude(c: Calibration, kx: int, ky: int, kz: int)
    requires
        c.wf(),
        kx * kx + ky * ky + kz * kz == 1,
    ensures
        ({
            let rx = calibrated_axis(
                c.center.x + c.scale.x * kx,
                c.center.x as int,
                c.scale.x as int,
                c.radius as int,
            );
            let ry = calibrated_axis(
                c.center.y + c.scale.y * ky,
                c.center.y as int,
                c.scale.y as int,
                c.radius as int,
            );
            let rz = calibrated_axis(
                c.center.z + c.scale.z * kz,
                c.center.z as int,
                c.scale.z as int,
                c.radius as int,
            );
            &&& rx == kx * c.radius
            &&& ry == ky * c.radius
            &&& rz == kz * c.radius
            &&& rx * rx + ry * ry + rz * rz == c.radius * c.radius
        }),
{
    assert(-1 <= kx <= 1 && -1 <= ky <= 1 && -1 <= kz <= 1) by (nonlinear_arith)
        requires
            kx * kx + ky * ky + kz * kz == 1,
    ;
    lemma_axis_exact(c.center.x as int, c.scale.x as int, c.radius as int, kx);
    lemma_axis_exact(c.center.y as int, c.scale.y as int, c.radius as int, ky);
    lemma_axis_exact(c.center.z as int, c.scale.z as int, c.radius as int, kz);
    let r = c.radius as int;
    assert((kx * r) * (kx * r) + (ky * r) * (ky * r) + (kz * r) * (kz * r) == r * r)
        by (nonlinear_arith)
        requires
            kx * kx + ky * ky + kz * kz == 1,
    ;
}

/// Corrects a raw sample like `calibrated_measurement`, but accepts any raw
/// sample and reports the out-of-range case instead of assuming it away:
/// the corrected sample comes back exactly when every corrected axis fits
/// the sensor's integer width.
pub fn try_calibrated_measurement(m: Measurement, calibration: &Calibration) -> (r: Option<
    Measurement,
>)
    requires
        calibration.wf(),
    ensures
        r is Some <==> calibrated_fits(m, *calibration),
        r matches Some(cm) ==> {
            &&& cm.x as int == calibrated_axis(m.x as int, calibration.center.x as int,
                calibration.scale.x as int, calibration.radius as int)
            &&& cm.y as int == calibrated_axis(m.y as int, calibration.center.y as int,
                calibration.scale.y as int, calibration.radius as int)
            &&& cm.z as int == calibrated_axis(m.z as int, calibration.center.z as int,
                calibration.scale.z as int, calibration.radius as int)
        },
{
    let wx = calibrate_axis_wide(m.x, calibration.center.x, calibration.scale.x,
        calibration.radius);
    let wy = calibrate_axis_wide(m.y, calibration.center.y, calibration.scale.y,
        calibration.radius);
    let wz = calibrate_axis_wide(m.z, calibration.center.z, calibration.scale.z,
        calibration.radius);
    if -0x8000_0000i64 <= wx && wx <= 0x7FFF_FFFFi64 && -0x8000_0000i64 <= wy
        && wy <= 0x7FFF_FFFFi64 && -0x8000_0000i64 <= wz && wz <= 0x7FFF_FFFFi64 {
        Some(Measurement { x: wx as i32, y: wy as i32, z: wz as i32 })
    } else {
        None
    }
}

/// The least value in a non-empty sequence.
pub open spec fn seq_min(s: Seq<int>) -> int
    recommends
        s.len() > 0,
    decreases s.len(),
{
    if s.len() <= 1 {
        s[0]
    } else {
        let m = seq_min(s.drop_last());
        if s.last() <= m {
            s.last()
        } else {
            m
        }
    }
}

/// The greatest value in a non-empty sequence.
pub open spec fn seq_max(s: Seq<int>) -> int
    recommends
        s.len() > 0,
    decreases s.len(),
{
    if s.len() <= 1 {
        s[0]
    } else {
        let m = seq_max(s.drop_last());
        if s.last() >= m {
            s.last()
        } else {
            m
        }
    }
}

pub open spec fn xs(s: Seq<Measurement>) -> Seq<int> {
    s.map(|i: int, m: Measurement| m.x as int)
}

pub open spec fn ys(s: Seq<Measurement>) -> Seq<int> {
    s.map(|i: int, m: Measurement| m.y as int)
}

pub open spec fn zs(s: Seq<Measurement>) -> Seq<int> {
    s.map(|i: int, m: Measurement| m.z as int)
}

/// The hard-iron centre one axis's sweep gives: the midpoint of the observed
/// extremes, rounded toward zero.
pub open spec fn axis_center(vals: Seq<int>) -> int {
    div_toward_zero(seq_min(vals) + seq_max(vals), 2)
}

/// The soft-iron scale one axis's sweep gives: half the observed spread.
pub open spec fn axis_scale(vals: Seq<int>) -> int {
    (seq_max(vals) - seq_min(vals)) / 2
}

/// A sweep is usable when every axis shows enough spread for a strictly
/// positive scale.
pub open spec fn spread_ok(s: Seq<Measurement>) -> bool {
    &&& axis_scale(xs(s)) > 0
    &&& axis_scale(ys(s)) > 0
    &&& axis_scale(zs(s)) > 0
}

/// Derives a calibration from raw samples gathered while sweeping the device
/// through a full rotation: per axis the centre is the midpoint of the
/// extremes and the scale half their spread, and the radius is the mean of
/// the three scales.  Yields a calibration exactly when the sweep is
/// non-empty and shows spread on every axis; what comes back then satisfies
/// the calibration invariant.
pub fn calc_calibration(samples: &Vec<Measurement>) -> (r: Option<Calibration>)
    ensures
        r is Some <==> samples@.len() > 0 && spread_ok(samples@),
        r matches Some(c) ==> {
            &&& c.center.x as int == axis_center(xs(samples@))
            &&& c.center.y as int == axis_center(ys(samples@))
            &&& c.center.z as int == axis_center(zs(samples@))
            &&& c.scale.x as int == axis_scale(xs(samples@))
            &&& c.scale.y as int == axis_scale(ys(samples@))
            &&& c.scale.z as int == axis_scale(zs(samples@))
            &&& c.radius as int == (axis_scale(xs(samples@)) + axis_scale(ys(samples@))
                + axis_scale(zs(samples@))) / 3
            &&& c.wf()
        },
{
    if samples.len() == 0 {
        return None;
    }
    let ghost gx = xs(samples@);
    let ghost gy = ys(samples@);
    let ghost gz = zs(samples@);
    let first = samples[0];
    let mut mn_x = first.x;
    let mut mx_x = first.x;
    let mut mn_y = first.y;
    let mut mx_y = first.y;
    let mut mn_z = first.z;
    let mut mx_z = first.z;
    let mut i: usize = 1;
    proof {
        assert(gx.take(1) =~= seq![gx[0]]);
        assert(gy.take(1) =~= seq![gy[0]]);
        assert(gz.take(1) =~= seq![gz[0]]);
    }
    while i < samples.len()
        invariant
            1 <= i <= samples@.len(),
            gx == xs(samples@),
            gy == ys(samples@),
            gz == zs(samples@),
            mn_x <= mx_x,
            mn_y <= mx_y,
            mn_z <= mx_z,
            mn_x as int == seq_min(gx.take(i as int)),
            mx_x as int == seq_max(gx.take(i as int)),
            mn_y as int == seq_min(gy.take(i as int)),
            mx_y as int == seq_max(gy.take(i as int)),
            mn_z as int == seq_min(gz.take(i as int)),
            mx_z as int == seq_max(gz.take(i as int)),
        decreases samples@.len() - i,
    {
        let m = samples[i];
        proof {
            assert(gx.take(i + 1).drop_last() =~= gx.take(i as int));
            assert(gy.take(i + 1).drop_last() =~= gy.take(i as int));
            assert(gz.take(i + 1).drop_last() =~= gz.take(i as int));
            assert(gx.take(i + 1).last() == m.x as int);
            assert(gy.take(i + 1).last() == m.y as int);
            assert(gz.take(i + 1).last() == m.z as int);
        }
        if m.x < mn_x {
            mn_x = m.x;
        }
        if m.x > mx_x {
            mx_x = m.x;
        }
        if m.y < mn_y {
            mn_y = m.y;
        }
        if m.y > mx_y {
            mx_y = m.y;
        }
        if m.z < mn_z {
            mn_z = m.z;
        }
        if m.z > mx_z {
            mx_z = m.z;
        }
        i += 1;
    }
    proof {
        assert(gx.take(samples@.len() as int) =~= gx);
        assert(gy.take(samples@.len() as int) =~= gy);
        assert(gz.take(samples@.len() as int) =~= gz);
    }
    proof {
        vstd::arithmetic::div_mod::lemma_div_is_ordered(mx_x - mn_x, 0xFFFF_FFFF, 2);
        vstd::arithmetic::div_mod::lemma_div_is_ordered(mx_y - mn_y, 0xFFFF_FFFF, 2);
        vstd::arithmetic::div_mod::lemma_div_is_ordered(mx_z - mn_z, 0xFFFF_FFFF, 2);
        vstd::arithmetic::div_mod::lemma_div_is_ordered(mn_x + mx_x, 0xFFFF_FFFE, 2);
        vstd::arithmetic::div_mod::lemma_div_is_ordered(mn_y + mx_y, 0xFFFF_FFFE, 2);
        vstd::arithmetic::div_mod::lemma_div_is_ordered(mn_z + mx_z, 0xFFFF_FFFE, 2);
        vstd::arithmetic::div_mod::lemma_div_is_ordered(-(mn_x + mx_x), 0x1_0000_0000, 2);
        vstd::arithmetic::div_mod::lemma_div_is_ordered(-(mn_y + mx_y), 0x1_0000_0000, 2);
        vstd::arithmetic::div_mod::lemma_div_is_ordered(-(mn_z + mx_z), 0x1_0000_0000, 2);
    }
    let center_x = div_toward_zero_i64(mn_x as i64 + mx_x as i64, 2) as i32;
    let center_y = div_toward_zero_i64(mn_y as i64 + mx_y as i64, 2) as i32;
    let center_z = div_toward_zero_i64(mn_z as i64 + mx_z as i64, 2) as i32;
    let scale_x = ((mx_x as i64 - mn_x as i64) as u64 / 2) as i64;
    let scale_y = ((mx_y as i64 - mn_y as i64) as u64 / 2) as i64;
    let scale_z = ((mx_z as i64 - mn_z as i64) as u64 / 2) as i64;
    proof {
        vstd::arithmetic::div_mod::lemma_div_is_ordered(
            scale_x + scale_y + scale_z,
            (3 * 0x7FFF_FFFF) as int,
            3,
        );
    }
    let radius = ((scale_x as u64 + scale_y as u64 + scale_z as u64) / 3) as i64;
    if scale_x > 0 && scale_y > 0 && scale_z > 0 {
        Some(
            Calibration {
                center: Measurement { x: center_x, y: center_y, z: center_z },
                scale: Measurement { x: scale_x as i32, y: scale_y as i32, z: scale_z as i32 },
                radius: radius as i32,
            },
        )
    } else {
        None
    }
}

/// The calibration the device ships with, measured once for the reference
/// board.
pub fn default_calibration() -> (c: Calibration)
    ensures
        c.center == (Measurement { x: -24728i32, y: 32424i32, z: 86592i32 }),
        c.scale == (Measurement { x: 1289i32, y: 1309i32, z: 1348i32 }),
        c.radius == 42624,
        c.wf(),
{
    Calibration {
        center: Measurement { x: -24728, y: 32424, z: 86592 },
        scale: Measurement { x: 1289, y: 1309, z: 1348 },
        radius: 42624,
    }
}

} // verus!
