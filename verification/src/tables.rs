//! The two lookup tables behind the angle's trigonometry, as fixed-point
//! integers, with the facts about them that the rest of the library uses.

use vstd::prelude::*;

verus! {

/// The fixed-point integer that stands for `1.0`: all fractional quantities
/// of this library count units of `2^-29`.
///
/// Every entry of both tables is a single-precision value, and `2^-29` is the
/// coarsest grid on which all of them are whole numbers.
pub const UNIT: i32 = 0x2000_0000;

/// Quarter-wave sine table: entry `i` is the sine of `i / 256` of a turn in
/// units of `2^-29`, for `i` in `0..=64`.
pub const QUARTER_WAVE: [i32; 65] = [
    0, 13175472, 26343008, 39494676, 52622552, 65718732,
    78775320, 91784472, 104738320, 117629080, 130449000, 143190336,
    155845392, 168406608, 180866368, 193217184, 205451616, 217562288,
    229541888, 241383248, 253079200, 264622720, 276006816, 287224672,
    298269504, 309134688, 319813632, 330299968, 340587328, 350669504,
    360540480, 370194272, 379625056, 388827200, 397795136, 406523424,
    415006816, 423240256, 431218752, 438937504, 446391872, 453577312,
    460489568, 467124384, 473477888, 479546144, 485325568, 490812640,
    496004032, 500896704, 505487616, 509774080, 513753440, 517423328,
    520781568, 523826080, 526555104, 528966912, 531060096, 532833408,
    534285728, 535416224, 536224224, 536709216, 536870912,
];

/// Byte-to-radian table: entry `i` is `i / 256 * 2 pi` in units of `2^-29`,
/// rounded to single precision.
pub const BYTE_TO_RAD: [u32; 256] = [
    0, 13176795, 26353590, 39530384, 52707180, 65883972,
    79060768, 92237560, 105414360, 118591152, 131767944, 144944736,
    158121536, 171298336, 184475120, 197651920, 210828720, 224005504,
    237182304, 250359104, 263535888, 276712672, 289889472, 303066272,
    316243072, 329419872, 342596672, 355773440, 368950240, 382127040,
    395303840, 408480640, 421657440, 434834208, 448011008, 461187808,
    474364608, 487541408, 500718208, 513894976, 527071776, 540248576,
    553425344, 566602176, 579778944, 592955776, 606132544, 619309376,
    632486144, 645662912, 658839744, 672016512, 685193344, 698370112,
    711546880, 724723712, 737900480, 751077312, 764254080, 777430912,
    790607680, 803784448, 816961280, 830138048, 843314880, 856491648,
    869668416, 882845248, 896022016, 909198848, 922375616, 935552448,
    948729216, 961905984, 975082816, 988259584, 1001436416, 1014613184,
    1027789952, 1040966784, 1054143552, 1067320384, 1080497152, 1093673984,
    1106850688, 1120027520, 1133204352, 1146381184, 1159557888, 1172734720,
    1185911552, 1199088256, 1212265088, 1225441920, 1238618752, 1251795456,
    1264972288, 1278149120, 1291325824, 1304502656, 1317679488, 1330856320,
    1344033024, 1357209856, 1370386688, 1383563392, 1396740224, 1409917056,
    1423093760, 1436270592, 1449447424, 1462624256, 1475800960, 1488977792,
    1502154624, 1515331328, 1528508160, 1541684992, 1554861824, 1568038528,
    1581215360, 1594392192, 1607568896, 1620745728, 1633922560, 1647099392,
    1660276096, 1673452928, 1686629760, 1699806464, 1712983296, 1726160128,
    1739336832, 1752513664, 1765690496, 1778867328, 1792044032, 1805220864,
    1818397696, 1831574400, 1844751232, 1857928064, 1871104896, 1884281600,
    1897458432, 1910635264, 1923811968, 1936988800, 1950165632, 1963342464,
    1976519168, 1989696000, 2002872832, 2016049536, 2029226368, 2042403200,
    2055579904, 2068756736, 2081933568, 2095110400, 2108287104, 2121463936,
    2134640768, 2147817472, 2160994304, 2174171136, 2187347968, 2200524800,
    2213701376, 2226878208, 2240055040, 2253231872, 2266408704, 2279585536,
    2292762368, 2305938944, 2319115776, 2332292608, 2345469440, 2358646272,
    2371823104, 2384999936, 2398176512, 2411353344, 2424530176, 2437707008,
    2450883840, 2464060672, 2477237504, 2490414080, 2503590912, 2516767744,
    2529944576, 2543121408, 2556298240, 2569475072, 2582651648, 2595828480,
    2609005312, 2622182144, 2635358976, 2648535808, 2661712640, 2674889216,
    2688066048, 2701242880, 2714419712, 2727596544, 2740773376, 2753949952,
    2767126784, 2780303616, 2793480448, 2806657280, 2819834112, 2833010944,
    2846187520, 2859364352, 2872541184, 2885718016, 2898894848, 2912071680,
    2925248512, 2938425088, 2951601920, 2964778752, 2977955584, 2991132416,
    3004309248, 3017486080, 3030662656, 3043839488, 3057016320, 3070193152,
    3083369984, 3096546816, 3109723648, 3122900224, 3136077056, 3149253888,
    3162430720, 3175607552, 3188784384, 3201961216, 3215137792, 3228314624,
    3241491456, 3254668288, 3267845120, 3281021952, 3294198784, 3307375360,
    3320552192, 3333729024, 3346905856, 3360082688,
];

/// Whether consecutive entries of the sine table rise from index `i` on.
spec fn wave_rises_from(i: int) -> bool
    decreases 64 - i,
{
    if i >= 64 {
        true
    } else {
        QUARTER_WAVE[i] < QUARTER_WAVE[i + 1] && wave_rises_from(i + 1)
    }
}

proof fn lemma_wave_rises_between(i: int, j: int)
    requires
        0 <= i <= j <= 64,
        wave_rises_from(i),
    ensures
        i < j ==> QUARTER_WAVE[i] < QUARTER_WAVE[j],
    decreases j - i,
{
    if i < j {
        lemma_wave_rises_between(i + 1, j);
    }
}

proof fn lemma_wave_rises_suffix(i: int)
    requires
        0 <= i <= 64,
        wave_rises_from(0),
    ensures
        wave_rises_from(i),
    decreases i,
{
    if i > 0 {
        lemma_wave_rises_suffix(i - 1);
    }
}

/// The sine table rises strictly: a larger index holds a larger entry.
pub proof fn lemma_quarter_wave_rising(i: int, j: int)
    requires
        0 <= i < j <= 64,
    ensures
        QUARTER_WAVE[i] < QUARTER_WAVE[j],
{
    assert(wave_rises_from(0)) by {
        reveal_with_fuel(wave_rises_from, 65);
    }
    lemma_wave_rises_suffix(i);
    lemma_wave_rises_between(i, j);
}

/// The sine table starts at zero and ends at one.
pub proof fn lemma_quarter_wave_ends()
    ensures
        QUARTER_WAVE[0] == 0,
        QUARTER_WAVE[64] == UNIT,
{
}

/// Every entry of the sine table lies between zero and one.
pub proof fn lemma_quarter_wave_bounds(i: int)
    requires
        0 <= i <= 64,
    ensures
        0 <= QUARTER_WAVE[i] <= UNIT,
{
    if 0 < i {
        lemma_quarter_wave_rising(0, i);
    }
    if i < 64 {
        lemma_quarter_wave_rising(i, 64);
    }
}

/// Whether `s^2 + c^2` is within `10^-5` of one, for `s` and `c` in units
/// of `2^-29`.
pub open spec fn near_unit(s: int, c: int) -> bool {
    let d = s * s + c * c - UNIT * UNIT;
    -UNIT * UNIT <= 100000 * d <= UNIT * UNIT
}

/// An entry and the one that mirrors it in the quarter lie on the unit
/// circle, to within `10^-5`.
pub proof fn lemma_quarter_wave_on_unit_circle(p: int)
    requires
        0 <= p <= 64,
    ensures
        near_unit(QUARTER_WAVE[p] as int, QUARTER_WAVE[64 - p] as int),
        near_unit(QUARTER_WAVE[64 - p] as int, QUARTER_WAVE[p] as int),
{
    if p == 0 || p == 64 {
        assert(near_unit(0, 536870912)) by (nonlinear_arith);
    } else if p == 1 || p == 63 {
        assert(near_unit(13175472, 536709216)) by (nonlinear_arith);
    } else if p == 2 || p == 62 {
        assert(near_unit(26343008, 536224224)) by (nonlinear_arith);
    } else if p == 3 || p == 61 {
        assert(near_unit(39494676, 535416224)) by (nonlinear_arith);
    } else if p == 4 || p == 60 {
        assert(near_unit(52622552, 534285728)) by (nonlinear_arith);
    } else if p == 5 || p == 59 {
        assert(near_unit(65718732, 532833408)) by (nonlinear_arith);
    } else if p == 6 || p == 58 {
        assert(near_unit(78775320, 531060096)) by (nonlinear_arith);
    } else if p == 7 || p == 57 {
        assert(near_unit(91784472, 528966912)) by (nonlinear_arith);
    } else if p == 8 || p == 56 {
        assert(near_unit(104738320, 526555104)) by (nonlinear_arith);
    } else if p == 9 || p == 55 {
        assert(near_unit(117629080, 523826080)) by (nonlinear_arith);
    } else if p == 10 || p == 54 {
        assert(near_unit(130449000, 520781568)) by (nonlinear_arith);
    } else if p == 11 || p == 53 {
        assert(near_unit(143190336, 517423328)) by (nonlinear_arith);
    } else if p == 12 || p == 52 {
        assert(near_unit(155845392, 513753440)) by (nonlinear_arith);
    } else if p == 13 || p == 51 {
        assert(near_unit(168406608, 509774080)) by (nonlinear_arith);
    } else if p == 14 || p == 50 {
        assert(near_unit(180866368, 505487616)) by (nonlinear_arith);
    } else if p == 15 || p == 49 {
        assert(near_unit(193217184, 500896704)) by (nonlinear_arith);
    } else if p == 16 || p == 48 {
        assert(near_unit(205451616, 496004032)) by (nonlinear_arith);
    } else if p == 17 || p == 47 {
        assert(near_unit(217562288, 490812640)) by (nonlinear_arith);
    } else if p == 18 || p == 46 {
        assert(near_unit(229541888, 485325568)) by (nonlinear_arith);
    } else if p == 19 || p == 45 {
        assert(near_unit(241383248, 479546144)) by (nonlinear_arith);
    } else if p == 20 || p == 44 {
        assert(near_unit(253079200, 473477888)) by (nonlinear_arith);
    } else if p == 21 || p == 43 {
        assert(near_unit(264622720, 467124384)) by (nonlinear_arith);
    } else if p == 22 || p == 42 {
        assert(near_unit(276006816, 460489568)) by (nonlinear_arith);
    } else if p == 23 || p == 41 {
        assert(near_unit(287224672, 453577312)) by (nonlinear_arith);
    } else if p == 24 || p == 40 {
        assert(near_unit(298269504, 446391872)) by (nonlinear_arith);
    } else if p == 25 || p == 39 {
        assert(near_unit(309134688, 438937504)) by (nonlinear_arith);
    } else if p == 26 || p == 38 {
        assert(near_unit(319813632, 431218752)) by (nonlinear_arith);
    } else if p == 27 || p == 37 {
        assert(near_unit(330299968, 423240256)) by (nonlinear_arith);
    } else if p == 28 || p == 36 {
        assert(near_unit(340587328, 415006816)) by (nonlinear_arith);
    } else if p == 29 || p == 35 {
        assert(near_unit(350669504, 406523424)) by (nonlinear_arith);
    } else if p == 30 || p == 34 {
        assert(near_unit(360540480, 397795136)) by (nonlinear_arith);
    } else if p == 31 || p == 33 {
        assert(near_unit(370194272, 388827200)) by (nonlinear_arith);
    } else if p == 32 {
        assert(near_unit(379625056, 379625056)) by (nonlinear_arith);
    }
}

/// Whether `sum` is the sine of the sum of two angles with sines `s`, `t`
/// and cosines `c`, `d`, to within `10^-7`: the addition formula
/// `sin(a + b) = sin a cos b + cos a sin b`, in units of `2^-29`.
pub open spec fn near_sum(s: int, c: int, t: int, d: int, sum: int) -> bool {
    let e = sum * UNIT - (s * d + c * t);
    -UNIT * UNIT <= 10000000 * e <= UNIT * UNIT
}

/// Each entry of the sine table follows from the one before by the addition
/// formula, with the table's own sine and cosine of one step. Together with
/// the ends of the table and the unit circle this ties the table to the sine
/// of `i / 256` of a turn.
pub proof fn lemma_quarter_wave_steps(i: int)
    requires
        0 <= i < 64,
    ensures
        near_sum(
            QUARTER_WAVE[i] as int,
            QUARTER_WAVE[64 - i] as int,
            QUARTER_WAVE[1] as int,
            QUARTER_WAVE[63] as int,
            QUARTER_WAVE[i + 1] as int,
        ),
{
    if i == 0 {
        assert(near_sum(0, 536870912, 13175472, 536709216, 13175472)) by (nonlinear_arith);
    } else if i == 1 {
        assert(near_sum(13175472, 536709216, 13175472, 536709216, 26343008)) by (nonlinear_arith);
    } else if i == 2 {
        assert(near_sum(26343008, 536224224, 13175472, 536709216, 39494676)) by (nonlinear_arith);
    } else if i == 3 {
        assert(near_sum(39494676, 535416224, 13175472, 536709216, 52622552)) by (nonlinear_arith);
    } else if i == 4 {
        assert(near_sum(52622552, 534285728, 13175472, 536709216, 65718732)) by (nonlinear_arith);
    } else if i == 5 {
        assert(near_sum(65718732, 532833408, 13175472, 536709216, 78775320)) by (nonlinear_arith);
    } else if i == 6 {
        assert(near_sum(78775320, 531060096, 13175472, 536709216, 91784472)) by (nonlinear_arith);
    } else if i == 7 {
        assert(near_sum(91784472, 528966912, 13175472, 536709216, 104738320)) by (nonlinear_arith);
    } else if i == 8 {
        assert(near_sum(104738320, 526555104, 13175472, 536709216, 117629080)) by (nonlinear_arith);
    } else if i == 9 {
        assert(near_sum(117629080, 523826080, 13175472, 536709216, 130449000)) by (nonlinear_arith);
    } else if i == 10 {
        assert(near_sum(130449000, 520781568, 13175472, 536709216, 143190336)) by (nonlinear_arith);
    } else if i == 11 {
        assert(near_sum(143190336, 517423328, 13175472, 536709216, 155845392)) by (nonlinear_arith);
    } else if i == 12 {
        assert(near_sum(155845392, 513753440, 13175472, 536709216, 168406608)) by (nonlinear_arith);
    } else if i == 13 {
        assert(near_sum(168406608, 509774080, 13175472, 536709216, 180866368)) by (nonlinear_arith);
    } else if i == 14 {
        assert(near_sum(180866368, 505487616, 13175472, 536709216, 193217184)) by (nonlinear_arith);
    } else if i == 15 {
        assert(near_sum(193217184, 500896704, 13175472, 536709216, 205451616)) by (nonlinear_arith);
    } else if i == 16 {
        assert(near_sum(205451616, 496004032, 13175472, 536709216, 217562288)) by (nonlinear_arith);
    } else if i == 17 {
        assert(near_sum(217562288, 490812640, 13175472, 536709216, 229541888)) by (nonlinear_arith);
    } else if i == 18 {
        assert(near_sum(229541888, 485325568, 13175472, 536709216, 241383248)) by (nonlinear_arith);
    } else if i == 19 {
        assert(near_sum(241383248, 479546144, 13175472, 536709216, 253079200)) by (nonlinear_arith);
    } else if i == 20 {
        assert(near_sum(253079200, 473477888, 13175472, 536709216, 264622720)) by (nonlinear_arith);
    } else if i == 21 {
        assert(near_sum(264622720, 467124384, 13175472, 536709216, 276006816)) by (nonlinear_arith);
    } else if i == 22 {
        assert(near_sum(276006816, 460489568, 13175472, 536709216, 287224672)) by (nonlinear_arith);
    } else if i == 23 {
        assert(near_sum(287224672, 453577312, 13175472, 536709216, 298269504)) by (nonlinear_arith);
    } else if i == 24 {
        assert(near_sum(298269504, 446391872, 13175472, 536709216, 309134688)) by (nonlinear_arith);
    } else if i == 25 {
        assert(near_sum(309134688, 438937504, 13175472, 536709216, 319813632)) by (nonlinear_arith);
    } else if i == 26 {
        assert(near_sum(319813632, 431218752, 13175472, 536709216, 330299968)) by (nonlinear_arith);
    } else if i == 27 {
        assert(near_sum(330299968, 423240256, 13175472, 536709216, 340587328)) by (nonlinear_arith);
    } else if i == 28 {
        assert(near_sum(340587328, 415006816, 13175472, 536709216, 350669504)) by (nonlinear_arith);
    } else if i == 29 {
        assert(near_sum(350669504, 406523424, 13175472, 536709216, 360540480)) by (nonlinear_arith);
    } else if i == 30 {
        assert(near_sum(360540480, 397795136, 13175472, 536709216, 370194272)) by (nonlinear_arith);
    } else if i == 31 {
        assert(near_sum(370194272, 388827200, 13175472, 536709216, 379625056)) by (nonlinear_arith);
    } else if i == 32 {
        assert(near_sum(379625056, 379625056, 13175472, 536709216, 388827200)) by (nonlinear_arith);
    } else if i == 33 {
        assert(near_sum(388827200, 370194272, 13175472, 536709216, 397795136)) by (nonlinear_arith);
    } else if i == 34 {
        assert(near_sum(397795136, 360540480, 13175472, 536709216, 406523424)) by (nonlinear_arith);
    } else if i == 35 {
        assert(near_sum(406523424, 350669504, 13175472, 536709216, 415006816)) by (nonlinear_arith);
    } else if i == 36 {
        assert(near_sum(415006816, 340587328, 13175472, 536709216, 423240256)) by (nonlinear_arith);
    } else if i == 37 {
        assert(near_sum(423240256, 330299968, 13175472, 536709216, 431218752)) by (nonlinear_arith);
    } else if i == 38 {
        assert(near_sum(431218752, 319813632, 13175472, 536709216, 438937504)) by (nonlinear_arith);
    } else if i == 39 {
        assert(near_sum(438937504, 309134688, 13175472, 536709216, 446391872)) by (nonlinear_arith);
    } else if i == 40 {
        assert(near_sum(446391872, 298269504, 13175472, 536709216, 453577312)) by (nonlinear_arith);
    } else if i == 41 {
        assert(near_sum(453577312, 287224672, 13175472, 536709216, 460489568)) by (nonlinear_arith);
    } else if i == 42 {
        assert(near_sum(460489568, 276006816, 13175472, 536709216, 467124384)) by (nonlinear_arith);
    } else if i == 43 {
        assert(near_sum(467124384, 264622720, 13175472, 536709216, 473477888)) by (nonlinear_arith);
    } else if i == 44 {
        assert(near_sum(473477888, 253079200, 13175472, 536709216, 479546144)) by (nonlinear_arith);
    } else if i == 45 {
        assert(near_sum(479546144, 241383248, 13175472, 536709216, 485325568)) by (nonlinear_arith);
    } else if i == 46 {
        assert(near_sum(485325568, 229541888, 13175472, 536709216, 490812640)) by (nonlinear_arith);
    } else if i == 47 {
        assert(near_sum(490812640, 217562288, 13175472, 536709216, 496004032)) by (nonlinear_arith);
    } else if i == 48 {
        assert(near_sum(496004032, 205451616, 13175472, 536709216, 500896704)) by (nonlinear_arith);
    } else if i == 49 {
        assert(near_sum(500896704, 193217184, 13175472, 536709216, 505487616)) by (nonlinear_arith);
    } else if i == 50 {
        assert(near_sum(505487616, 180866368, 13175472, 536709216, 509774080)) by (nonlinear_arith);
    } else if i == 51 {
        assert(near_sum(509774080, 168406608, 13175472, 536709216, 513753440)) by (nonlinear_arith);
    } else if i == 52 {
        assert(near_sum(513753440, 155845392, 13175472, 536709216, 517423328)) by (nonlinear_arith);
    } else if i == 53 {
        assert(near_sum(517423328, 143190336, 13175472, 536709216, 520781568)) by (nonlinear_arith);
    } else if i == 54 {
        assert(near_sum(520781568, 130449000, 13175472, 536709216, 523826080)) by (nonlinear_arith);
    } else if i == 55 {
        assert(near_sum(523826080, 117629080, 13175472, 536709216, 526555104)) by (nonlinear_arith);
    } else if i == 56 {
        assert(near_sum(526555104, 104738320, 13175472, 536709216, 528966912)) by (nonlinear_arith);
    } else if i == 57 {
        assert(near_sum(528966912, 91784472, 13175472, 536709216, 531060096)) by (nonlinear_arith);
    } else if i == 58 {
        assert(near_sum(531060096, 78775320, 13175472, 536709216, 532833408)) by (nonlinear_arith);
    } else if i == 59 {
        assert(near_sum(532833408, 65718732, 13175472, 536709216, 534285728)) by (nonlinear_arith);
    } else if i == 60 {
        assert(near_sum(534285728, 52622552, 13175472, 536709216, 535416224)) by (nonlinear_arith);
    } else if i == 61 {
        assert(near_sum(535416224, 39494676, 13175472, 536709216, 536224224)) by (nonlinear_arith);
    } else if i == 62 {
        assert(near_sum(536224224, 26343008, 13175472, 536709216, 536709216)) by (nonlinear_arith);
    } else if i == 63 {
        assert(near_sum(536709216, 13175472, 13175472, 536709216, 536870912)) by (nonlinear_arith);
    }
}

/// The integer part of `pi` in units of `2^-29`: `pi` lies between this and
/// the next integer.
pub open spec fn pi_floor() -> int {
    1686629713
}

/// Whether `r` is `i / 256 * 2 pi` to within `2^-22`, the rounding of a
/// single-precision value below eight.
pub open spec fn near_radians(i: int, r: int) -> bool {
    i * pi_floor() - 16384 <= 128 * r <= i * (pi_floor() + 1) + 16384
}

/// Whether the entries of the radian table from `i` up to `end` (exclusive)
/// are accurate.
spec fn radians_near_between(i: int, end: int) -> bool
    decreases end - i,
{
    if i >= end {
        true
    } else {
        near_radians(i, BYTE_TO_RAD[i] as int) && radians_near_between(i + 1, end)
    }
}

proof fn lemma_radians_near_at(i: int, j: int, end: int)
    requires
        0 <= i <= j < end <= 256,
        radians_near_between(i, end),
    ensures
        near_radians(j, BYTE_TO_RAD[j] as int),
    decreases j - i,
{
    if i < j {
        lemma_radians_near_at(i + 1, j, end);
    }
}

/// Every entry of the radian table is its index times `2 pi / 256`, to
/// within single-precision rounding.
pub proof fn lemma_byte_to_rad_accurate(i: int)
    requires
        0 <= i < 256,
    ensures
        near_radians(i, BYTE_TO_RAD[i] as int),
{
    if i < 64 {
        assert(radians_near_between(0, 64)) by {
            reveal_with_fuel(radians_near_between, 65);
        }
        lemma_radians_near_at(0, i, 64);
    } else if i < 128 {
        assert(radians_near_between(64, 128)) by {
            reveal_with_fuel(radians_near_between, 65);
        }
        lemma_radians_near_at(64, i, 128);
    } else if i < 192 {
        assert(radians_near_between(128, 192)) by {
            reveal_with_fuel(radians_near_between, 65);
        }
        lemma_radians_near_at(128, i, 192);
    } else {
        assert(radians_near_between(192, 256)) by {
            reveal_with_fuel(radians_near_between, 65);
        }
        lemma_radians_near_at(192, i, 256);
    }
}

} // verus!
