//! Analog-to-temperature conversion: a fixed calibration table with linear
//! interpolation, followed by per-channel exponential smoothing.
//!
//! Temperatures are carried as plain integers in thousandths of a degree
//! Celsius (milli-degrees), the finest grid on which the table interpolation
//! is exact: the table stores hundredths of a degree per ten-code bucket, so
//! one analog code step moves the result by whole milli-degrees. Readers of
//! the published values get hundredths of a degree, rounded only at that
//! boundary.

use vstd::prelude::*;

use vstd::math::{abs, max};

use crate::store::{SharedStateStore, SharedStateStoreView};

verus! {

/// The calibration table: entry `i` is the temperature, in hundredths of a
/// degree Celsius, of analog code `10 * i`. It increases monotonically over
/// the sensor's usable range and is saturated at both ends.
pub open spec fn table_seq() -> Seq<i16> {
    seq![
        -7300i16, -7300i16, -6440i16, -5901i16, -5500i16, -5177i16, -4906i16, -4671i16, -4463i16, -4275i16, -4105i16, -3948i16,
        -3802i16, -3666i16, -3539i16, -3419i16, -3305i16, -3196i16, -3093i16, -2995i16, -2900i16, -2809i16, -2722i16, -2637i16,
        -2555i16, -2476i16, -2400i16, -2326i16, -2253i16, -2183i16, -2115i16, -2048i16, -1983i16, -1919i16, -1857i16, -1796i16,
        -1736i16, -1678i16, -1621i16, -1565i16, -1510i16, -1456i16, -1402i16, -1350i16, -1299i16, -1248i16, -1198i16, -1149i16,
        -1101i16, -1053i16, -1006i16, -960i16, -914i16, -869i16, -825i16, -781i16, -737i16, -694i16, -652i16, -610i16,
        -568i16, -527i16, -486i16, -446i16, -406i16, -367i16, -328i16, -289i16, -250i16, -212i16, -175i16, -137i16,
        -100i16, -63i16, -27i16, 9i16, 45i16, 81i16, 116i16, 151i16, 186i16, 221i16, 255i16, 289i16,
        323i16, 357i16, 391i16, 424i16, 457i16, 490i16, 523i16, 555i16, 588i16, 620i16, 652i16, 684i16,
        715i16, 747i16, 778i16, 810i16, 841i16, 872i16, 903i16, 933i16, 964i16, 994i16, 1025i16, 1055i16,
        1085i16, 1115i16, 1145i16, 1174i16, 1204i16, 1233i16, 1263i16, 1292i16, 1321i16, 1351i16, 1380i16, 1409i16,
        1437i16, 1466i16, 1495i16, 1523i16, 1552i16, 1581i16, 1609i16, 1637i16, 1666i16, 1694i16, 1722i16, 1750i16,
        1778i16, 1806i16, 1834i16, 1862i16, 1890i16, 1917i16, 1945i16, 1973i16, 2000i16, 2028i16, 2055i16, 2083i16,
        2110i16, 2138i16, 2165i16, 2192i16, 2220i16, 2247i16, 2274i16, 2302i16, 2329i16, 2356i16, 2383i16, 2410i16,
        2437i16, 2464i16, 2492i16, 2519i16, 2546i16, 2573i16, 2600i16, 2627i16, 2654i16, 2681i16, 2708i16, 2735i16,
        2762i16, 2789i16, 2816i16, 2843i16, 2870i16, 2897i16, 2924i16, 2951i16, 2978i16, 3005i16, 3032i16, 3059i16,
        3086i16, 3113i16, 3141i16, 3168i16, 3195i16, 3222i16, 3249i16, 3277i16, 3304i16, 3331i16, 3358i16, 3386i16,
        3413i16, 3441i16, 3468i16, 3495i16, 3523i16, 3550i16, 3578i16, 3606i16, 3633i16, 3661i16, 3689i16, 3717i16,
        3744i16, 3772i16, 3800i16, 3828i16, 3856i16, 3884i16, 3913i16, 3941i16, 3969i16, 3997i16, 4026i16, 4054i16,
        4083i16, 4111i16, 4140i16, 4169i16, 4198i16, 4227i16, 4256i16, 4285i16, 4314i16, 4343i16, 4372i16, 4402i16,
        4431i16, 4461i16, 4490i16, 4520i16, 4550i16, 4580i16, 4610i16, 4640i16, 4670i16, 4700i16, 4731i16, 4761i16,
        4792i16, 4823i16, 4853i16, 4884i16, 4916i16, 4947i16, 4978i16, 5010i16, 5041i16, 5073i16, 5105i16, 5137i16,
        5169i16, 5201i16, 5234i16, 5266i16, 5299i16, 5332i16, 5365i16, 5398i16, 5431i16, 5465i16, 5498i16, 5532i16,
        5566i16, 5600i16, 5635i16, 5669i16, 5704i16, 5739i16, 5774i16, 5809i16, 5845i16, 5880i16, 5916i16, 5952i16,
        5989i16, 6025i16, 6062i16, 6099i16, 6136i16, 6174i16, 6212i16, 6250i16, 6288i16, 6326i16, 6365i16, 6404i16,
        6443i16, 6483i16, 6523i16, 6563i16, 6603i16, 6644i16, 6685i16, 6727i16, 6768i16, 6810i16, 6853i16, 6895i16,
        6939i16, 6982i16, 7026i16, 7070i16, 7114i16, 7159i16, 7205i16, 7251i16, 7297i16, 7343i16, 7390i16, 7438i16,
        7486i16, 7534i16, 7583i16, 7633i16, 7683i16, 7733i16, 7784i16, 7835i16, 7888i16, 7940i16, 7993i16, 8047i16,
        8102i16, 8157i16, 8213i16, 8269i16, 8326i16, 8384i16, 8443i16, 8502i16, 8562i16, 8623i16, 8685i16, 8748i16,
        8811i16, 8876i16, 8941i16, 9007i16, 9075i16, 9143i16, 9212i16, 9283i16, 9354i16, 9427i16, 9501i16, 9577i16,
        9653i16, 9731i16, 9810i16, 9891i16, 9974i16, 10058i16, 10143i16, 10230i16, 10319i16, 10410i16, 10503i16, 10598i16,
        10695i16, 10794i16, 10896i16, 10999i16, 11106i16, 11215i16, 11327i16, 11442i16, 11560i16, 11681i16, 11806i16, 11934i16,
        12067i16, 12203i16, 12344i16, 12490i16, 12640i16, 12796i16, 12958i16, 13125i16, 13300i16, 13481i16, 13670i16, 13867i16,
        14074i16, 14290i16, 14517i16, 14756i16, 15008i16, 15274i16, 15557i16, 15858i16, 16179i16, 16523i16, 16894i16, 17296i16,
        17732i16, 18211i16, 18740i16, 19329i16, 19992i16, 20749i16, 21626i16, 22665i16, 23929i16, 25525i16, 27652i16, 30748i16,
        32767i16, 32767i16, 32767i16,
    ]
}

/// The calibration table has one entry per ten-code bucket of the 12-bit
/// code range, plus one entry past the end so every bucket has a successor
/// to interpolate towards.
pub proof fn lemma_table_len()
    ensures
        table_seq().len() == 411,
{
}

/// Codes are clipped to the 12-bit converter range before lookup.
pub open spec fn clamp_code(code: int) -> int {
    if code < 4096 {
        code
    } else {
        4095
    }
}

/// The table value for a clipped analog code, in milli-degrees Celsius,
/// linearly interpolated between the entry of the code's bucket and the
/// next entry. The interpolation fraction is `code % 10`, the code's offset
/// within its ten-code-wide bucket, in tenths: a code on a bucket boundary
/// maps exactly to its table entry. (Subtracting the bucket index from the
/// code instead of taking the remainder would send the fraction far outside
/// the unit range for all but the smallest codes, so the offset within the
/// bucket is the quantity interpolated here.)
pub open spec fn interp_milli(code: int) -> int {
    let v = clamp_code(code);
    let base = table_seq()[v / 10] as int;
    let next = table_seq()[v / 10 + 1] as int;
    base * 10 + (next - base) * (v % 10)
}

/// Holds the calibration table of the analog temperature sensors.
pub struct TemperatureCurve {
    table: Vec<i16>,
}

impl View for TemperatureCurve {
    type V = Seq<i16>;

    closed spec fn view(&self) -> Seq<i16> {
        self.table@
    }
}

impl TemperatureCurve {
    /// The curve carries exactly the calibration table.
    pub open spec fn wf(self) -> bool {
        self@ == table_seq()
    }

    /// Build the calibration curve.
    pub fn new() -> (r: Self)
        ensures
            r.wf(),
    {
        let table: Vec<i16> = vec![
        -7300, -7300, -6440, -5901, -5500, -5177, -4906, -4671, -4463, -4275, -4105, -3948,
        -3802, -3666, -3539, -3419, -3305, -3196, -3093, -2995, -2900, -2809, -2722, -2637,
        -2555, -2476, -2400, -2326, -2253, -2183, -2115, -2048, -1983, -1919, -1857, -1796,
        -1736, -1678, -1621, -1565, -1510, -1456, -1402, -1350, -1299, -1248, -1198, -1149,
        -1101, -1053, -1006, -960, -914, -869, -825, -781, -737, -694, -652, -610,
        -568, -527, -486, -446, -406, -367, -328, -289, -250, -212, -175, -137,
        -100, -63, -27, 9, 45, 81, 116, 151, 186, 221, 255, 289,
        323, 357, 391, 424, 457, 490, 523, 555, 588, 620, 652, 684,
        715, 747, 778, 810, 841, 872, 903, 933, 964, 994, 1025, 1055,
        1085, 1115, 1145, 1174, 1204, 1233, 1263, 1292, 1321, 1351, 1380, 1409,
        1437, 1466, 1495, 1523, 1552, 1581, 1609, 1637, 1666, 1694, 1722, 1750,
        1778, 1806, 1834, 1862, 1890, 1917, 1945, 1973, 2000, 2028, 2055, 2083,
        2110, 2138, 2165, 2192, 2220, 2247, 2274, 2302, 2329, 2356, 2383, 2410,
        2437, 2464, 2492, 2519, 2546, 2573, 2600, 2627, 2654, 2681, 2708, 2735,
        2762, 2789, 2816, 2843, 2870, 2897, 2924, 2951, 2978, 3005, 3032, 3059,
        3086, 3113, 3141, 3168, 3195, 3222, 3249, 3277, 3304, 3331, 3358, 3386,
        3413, 3441, 3468, 3495, 3523, 3550, 3578, 3606, 3633, 3661, 3689, 3717,
        3744, 3772, 3800, 3828, 3856, 3884, 3913, 3941, 3969, 3997, 4026, 4054,
        4083, 4111, 4140, 4169, 4198, 4227, 4256, 4285, 4314, 4343, 4372, 4402,
        4431, 4461, 4490, 4520, 4550, 4580, 4610, 4640, 4670, 4700, 4731, 4761,
        4792, 4823, 4853, 4884, 4916, 4947, 4978, 5010, 5041, 5073, 5105, 5137,
        5169, 5201, 5234, 5266, 5299, 5332, 5365, 5398, 5431, 5465, 5498, 5532,
        5566, 5600, 5635, 5669, 5704, 5739, 5774, 5809, 5845, 5880, 5916, 5952,
        5989, 6025, 6062, 6099, 6136, 6174, 6212, 6250, 6288, 6326, 6365, 6404,
        6443, 6483, 6523, 6563, 6603, 6644, 6685, 6727, 6768, 6810, 6853, 6895,
        6939, 6982, 7026, 7070, 7114, 7159, 7205, 7251, 7297, 7343, 7390, 7438,
        7486, 7534, 7583, 7633, 7683, 7733, 7784, 7835, 7888, 7940, 7993, 8047,
        8102, 8157, 8213, 8269, 8326, 8384, 8443, 8502, 8562, 8623, 8685, 8748,
        8811, 8876, 8941, 9007, 9075, 9143, 9212, 9283, 9354, 9427, 9501, 9577,
        9653, 9731, 9810, 9891, 9974, 10058, 10143, 10230, 10319, 10410, 10503, 10598,
        10695, 10794, 10896, 10999, 11106, 11215, 11327, 11442, 11560, 11681, 11806, 11934,
        12067, 12203, 12344, 12490, 12640, 12796, 12958, 13125, 13300, 13481, 13670, 13867,
        14074, 14290, 14517, 14756, 15008, 15274, 15557, 15858, 16179, 16523, 16894, 17296,
        17732, 18211, 18740, 19329, 19992, 20749, 21626, 22665, 23929, 25525, 27652, 30748,
        32767, 32767, 32767,
        ];
        let r = Self { table };
        proof {
            assert(r@ =~= table_seq());
        }
        r
    }
}

/// Convert a raw analog code to milli-degrees Celsius by table lookup and
/// linear interpolation inside the code's ten-wide bucket.
pub fn get_tempareture_from_table(curve: &TemperatureCurve, adc_value: u16) -> (t: i32)
    requires
        curve.wf(),
    ensures
        t == interp_milli(adc_value as int),
        -327680 <= t <= 327670,
{
    proof {
        lemma_table_len();
    }
    // Clipping 12bit ADC range
    let v: usize = if adc_value < 4096 {
        adc_value as usize
    } else {
        4095
    };
    let idx: usize = v / 10;
    let base: i32 = curve.table[idx] as i32;
    let next: i32 = curve.table[idx + 1] as i32;
    let frac: i32 = (v % 10) as i32;
    let diff: i32 = next - base;
    proof {
        assert(-327680 <= base * 10 + diff * frac <= 327670) by (nonlinear_arith)
            requires
                -32768 <= base <= 32767,
                -32768 <= next <= 32767,
                diff == next - base,
                0 <= frac <= 9;
    }
    let t: i32 = base * 10 + diff * frac;
    t
}

/// Law: at a bucket boundary (a code that is a multiple of ten) the
/// interpolation term vanishes, so the conversion returns the bucket's
/// table entry exactly, with zero interpolation error.
pub proof fn lemma_curve_exact_at_bucket_boundary(code: int)
    requires
        0 <= code <= 4095,
        code % 10 == 0,
    ensures
        interp_milli(code) == table_seq()[code / 10] * 10,
{
    let base = table_seq()[code / 10] as int;
    let next = table_seq()[code / 10 + 1] as int;
    assert((next - base) * (code % 10) == 0) by (nonlinear_arith)
        requires
            code % 10 == 0,
    ;
}

/// The mathematical state of a [`Thermometer`].
pub struct ThermometerView {
    /// Last smoothed output, in milli-degrees Celsius.
    pub tempareture: int,
    /// Smoothing factor, in hundredths: the weight of the newest sample.
    pub exp_mov_ave_alpha: int,
}

/// One step of the exponential moving average with weight `alpha` (in
/// hundredths) on the newest value, computed on the milli-degree grid and
/// rounded towards minus infinity.
pub open spec fn ema_next(alpha: int, prev: int, cur: int) -> int {
    (alpha * cur + (100 - alpha) * prev) / 100
}

/// The smoothed value after `n` further samples that all convert to
/// `target`, starting from `prev`.
pub open spec fn ema_iter(alpha: int, prev: int, target: int, n: nat) -> int
    decreases n,
{
    if n == 0 {
        prev
    } else {
        ema_next(alpha, ema_iter(alpha, prev, target, (n - 1) as nat), target)
    }
}

/// Law: one smoothing step on a held target moves the value towards the
/// target and never past it — strictly whenever it is above the target,
/// and strictly from below whenever the gap is at least `100 / alpha`
/// milli-degrees.
pub proof fn lemma_smoother_step_towards_target(alpha: int, prev: int, target: int)
    requires
        0 < alpha < 100,
    ensures
        prev >= target ==> target <= ema_next(alpha, prev, target) <= prev,
        prev > target ==> ema_next(alpha, prev, target) < prev,
        prev <= target ==> prev <= ema_next(alpha, prev, target) <= target,
        alpha * (target - prev) >= 100 ==> ema_next(alpha, prev, target) >= prev + 1,
{
    let x = alpha * target + (100 - alpha) * prev;
    vstd::arithmetic::div_mod::lemma_div_multiples_vanish(target, 100);
    vstd::arithmetic::div_mod::lemma_div_multiples_vanish(prev, 100);
    if prev >= target {
        assert(100 * target <= x <= 100 * prev) by (nonlinear_arith)
            requires
                0 < alpha < 100,
                prev >= target,
                x == alpha * target + (100 - alpha) * prev,
        ;
        vstd::arithmetic::div_mod::lemma_div_is_ordered(100 * target, x, 100);
        vstd::arithmetic::div_mod::lemma_div_is_ordered(x, 100 * prev, 100);
    }
    if prev > target {
        assert(x <= 100 * (prev - 1) + 99) by (nonlinear_arith)
            requires
                0 < alpha < 100,
                prev > target,
                x == alpha * target + (100 - alpha) * prev,
        ;
        vstd::arithmetic::div_mod::lemma_div_is_ordered(x, 100 * (prev - 1) + 99, 100);
        vstd::arithmetic::div_mod::lemma_div_multiples_vanish_fancy(prev - 1, 99, 100);
    }
    if prev <= target {
        assert(100 * prev <= x <= 100 * target) by (nonlinear_arith)
            requires
                0 < alpha < 100,
                prev <= target,
                x == alpha * target + (100 - alpha) * prev,
        ;
        vstd::arithmetic::div_mod::lemma_div_is_ordered(100 * prev, x, 100);
        vstd::arithmetic::div_mod::lemma_div_is_ordered(x, 100 * target, 100);
    }
    if alpha * (target - prev) >= 100 {
        assert(x >= 100 * (prev + 1)) by (nonlinear_arith)
            requires
                alpha * (target - prev) >= 100,
                x == alpha * target + (100 - alpha) * prev,
        ;
        vstd::arithmetic::div_mod::lemma_div_is_ordered(100 * (prev + 1), x, 100);
        vstd::arithmetic::div_mod::lemma_div_multiples_vanish(prev + 1, 100);
    }
}

/// Law: on a held input the smoothed value converges. It always stays
/// between its starting value and the target, and after `n` samples its
/// distance to the target is at most the larger of the initial distance
/// less `n` and `99 / alpha`: the filter gains at least one milli-degree
/// per sample until it is within `99 / alpha` milli-degrees of the
/// target — under half a hundredth of a degree for the configured
/// weight of `22` — and never drifts away again.
pub proof fn lemma_smoother_converges(alpha: int, prev: int, target: int, n: nat)
    requires
        0 < alpha < 100,
    ensures
        prev >= target ==> target <= ema_iter(alpha, prev, target, n) <= prev,
        prev <= target ==> prev <= ema_iter(alpha, prev, target, n) <= target,
        abs(ema_iter(alpha, prev, target, n) - target) <= max(abs(prev - target) - n, 99int / alpha),
    decreases n,
{
    vstd::arithmetic::div_mod::lemma_div_pos_is_pos(99, alpha);
    if n > 0 {
        lemma_smoother_converges(alpha, prev, target, (n - 1) as nat);
        let x = ema_iter(alpha, prev, target, (n - 1) as nat);
        lemma_smoother_step_towards_target(alpha, x, target);
        if x < target && alpha * (target - x) <= 99 {
            vstd::arithmetic::div_mod::lemma_div_is_ordered(alpha * (target - x), 99, alpha);
            vstd::arithmetic::div_mod::lemma_div_multiples_vanish(target - x, alpha);
        }
    }
}

/// A per-channel low-pass filter over successive conversions of one analog
/// channel. Each monitored channel owns an independent instance; the state
/// starts at zero degrees.
pub struct Thermometer {
    tempareture: i32,
    exp_mov_ave_alpha: u32,
}

impl View for Thermometer {
    type V = ThermometerView;

    closed spec fn view(&self) -> ThermometerView {
        ThermometerView {
            tempareture: self.tempareture as int,
            exp_mov_ave_alpha: self.exp_mov_ave_alpha as int,
        }
    }
}

impl Thermometer {
    /// The smoothing factor is a proper fraction and the state stays on the
    /// range the calibration table can produce.
    pub open spec fn wf(self) -> bool {
        &&& 0 < self@.exp_mov_ave_alpha < 100
        &&& -327680 <= self@.tempareture <= 327670
    }

    /// A fresh smoother with the given weight for the newest sample, in
    /// hundredths, and an initial output of zero degrees.
    pub fn new(alpha: u32) -> (r: Self)
        requires
            0 < alpha < 100,
        ensures
            r@.tempareture == 0,
            r@.exp_mov_ave_alpha == alpha as int,
            r.wf(),
    {
        Self { tempareture: 0, exp_mov_ave_alpha: alpha }
    }

    /// Convert one raw analog code through the calibration curve and fold
    /// it into the moving average; returns the new smoothed value in
    /// milli-degrees Celsius.
    pub fn calc_next(&mut self, curve: &TemperatureCurve, adc_value: u16) -> (t: i32)
        requires
            old(self).wf(),
            curve.wf(),
        ensures
            final(self)@.exp_mov_ave_alpha == old(self)@.exp_mov_ave_alpha,
            final(self)@.tempareture == ema_next(
                old(self)@.exp_mov_ave_alpha,
                old(self)@.tempareture,
                interp_milli(adc_value as int),
            ),
            t as int == final(self)@.tempareture,
            final(self).wf(),
    {
        let current_temp: i32 = get_tempareture_from_table(curve, adc_value);
        let alpha: i64 = self.exp_mov_ave_alpha as i64;
        proof {
            assert({
                &&& -32440320 <= alpha * current_temp <= 32440320
                &&& -32440320 <= (100 - alpha) * self.tempareture <= 32440320
                &&& -32768000 <= alpha * current_temp + (100 - alpha) * self.tempareture
                    <= 32767000
            }) by (nonlinear_arith)
                requires
                    1 <= alpha <= 99,
                    -327680 <= current_temp <= 327670,
                    -327680 <= self.tempareture <= 327670,
            ;
        }
        let num: i64 = alpha * (current_temp as i64) + (100 - alpha) * (self.tempareture as i64);
        proof {
            vstd::arithmetic::div_mod::lemma_div_is_ordered(-32768000, num as int, 100);
            vstd::arithmetic::div_mod::lemma_div_is_ordered(num as int, 32767000, 100);
        }
        let next = match num.checked_div_euclid(100) {
            Some(q) => q,
            None => 0,
        };
        self.tempareture = next as i32;
        self.tempareture
    }
}

/// The processor's internal sensor converted to milli-degrees Celsius on
/// the linear formula its datasheet gives: 27 degrees at 0.706 V, falling
/// by one degree for every 1.721 mV above that, with a 3.3 V full-scale
/// 12-bit reading. Computed in nanovolt fixed point; divisions round
/// towards minus infinity.
pub open spec fn cpu_celsius_milli(raw: int) -> int {
    27000 - (raw * 3300000000 / 4096 - 706000000) / 1721
}

/// Convert a raw reading of the processor's internal temperature sensor to
/// milli-degrees Celsius.
pub fn convert_to_celsius(raw_temp: u16) -> (t: i32)
    ensures
        t as int == cpu_celsius_milli(raw_temp as int),
{
    let volts_nano: u64 = (raw_temp as u64) * 3300000000 / 4096;
    let delta_nano: i64 = (volts_nano as i64) - 706000000;
    let q: i64 = match delta_nano.checked_div_euclid(1721) {
        Some(q) => q,
        None => 0,
    };
    proof {
        vstd::arithmetic::div_mod::lemma_div_is_ordered(-706000000, delta_nano as int, 1721);
        vstd::arithmetic::div_mod::lemma_div_is_ordered(
            delta_nano as int,
            52807617187 - 706000000,
            1721,
        );
    }
    27000 - (q as i32)
}

/// Published temperatures are rounded from milli-degrees to hundredths of
/// a degree: the nearest hundredth, with a half rounding up. The sign is
/// kept, so readings below zero come through as they are.
pub open spec fn round_to_hundredths(milli: int) -> int {
    (milli + 5) / 10
}

/// Round a milli-degree value to hundredths for the read boundary.
pub fn to_hundredths(milli: i32) -> (h: i32)
    ensures
        h as int == round_to_hundredths(milli as int),
{
    let shifted: i64 = (milli as i64) + 5;
    let q: i64 = match shifted.checked_div_euclid(10) {
        Some(q) => q,
        None => 0,
    };
    proof {
        vstd::arithmetic::div_mod::lemma_div_is_ordered(shifted as int, 0x7fffffffint + 5, 10);
        vstd::arithmetic::div_mod::lemma_div_is_ordered(-0x80000000int + 5, shifted as int, 10);
    }
    q as i32
}

/// One 20 ms sampling cycle: convert and smooth the two heater-channel
/// codes, convert the processor reading, and publish all three to the
/// store. The rest of the store is left untouched.
pub fn thermometer_cycle(
    heater1: &mut Thermometer,
    heater2: &mut Thermometer,
    curve: &TemperatureCurve,
    heater1_level: u16,
    heater2_level: u16,
    cpu_raw: u16,
    store: &mut SharedStateStore,
)
    requires
        old(heater1).wf(),
        old(heater2).wf(),
        curve.wf(),
    ensures
        final(heater1).wf(),
        final(heater2).wf(),
        final(heater1)@.exp_mov_ave_alpha == old(heater1)@.exp_mov_ave_alpha,
        final(heater2)@.exp_mov_ave_alpha == old(heater2)@.exp_mov_ave_alpha,
        final(heater1)@.tempareture == ema_next(
            old(heater1)@.exp_mov_ave_alpha,
            old(heater1)@.tempareture,
            interp_milli(heater1_level as int),
        ),
        final(heater2)@.tempareture == ema_next(
            old(heater2)@.exp_mov_ave_alpha,
            old(heater2)@.tempareture,
            interp_milli(heater2_level as int),
        ),
        final(store)@ == (SharedStateStoreView {
            heater1_temp: final(heater1)@.tempareture,
            heater2_temp: final(heater2)@.tempareture,
            cpu_temp: cpu_celsius_milli(cpu_raw as int),
            ..old(store)@
        }),
{
    let heater1_current_temp = heater1.calc_next(curve, heater1_level);
    let heater2_current_temp = heater2.calc_next(curve, heater2_level);
    let cpu_temp = convert_to_celsius(cpu_raw);
    store.write_temperatures(heater1_current_temp, heater2_current_temp, cpu_temp);
}

/// The published heater-element temperature in hundredths of a degree
/// Celsius, rounded at this read boundary only.
pub fn heater1_tempareture(store: &SharedStateStore) -> (t: i32)
    ensures
        t as int == round_to_hundredths(store@.heater1_temp),
{
    to_hundredths(store.heater1_temp())
}

/// The published secondary-channel temperature in hundredths of a degree
/// Celsius, rounded at this read boundary only.
pub fn heater2_tempareture(store: &SharedStateStore) -> (t: i32)
    ensures
        t as int == round_to_hundredths(store@.heater2_temp),
{
    to_hundredths(store.heater2_temp())
}

/// The published processor temperature in hundredths of a degree Celsius,
/// rounded at this read boundary only.
pub fn cpu_tempareture(store: &SharedStateStore) -> (t: i32)
    ensures
        t as int == round_to_hundredths(store@.cpu_temp),
{
    to_hundredths(store.cpu_temp())
}

} // verus!
