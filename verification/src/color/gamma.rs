//! The sRGB transfer curve between linear and gamma-encoded 8-bit channels.
//!
//! A channel value `c` stands for the fraction `c / 255`. Compressing takes
//! a linear fraction `x` to `12.92 x` where `x <= 0.0031308` and to
//! `1.055 x^(1/2.4) - 0.055` above; expanding takes an encoded fraction `y`
//! to `y / 12.92` where `y <= 0.04045` and to `((y + 0.055) / 1.055)^2.4`
//! above. Results are cut down to the next whole channel value.
//!
//! Since `2.4 = 12 / 5`, the curve relates a linear `l` and an encoded `e` by
//! comparing `(l / 255)^5` with `((e / 255 + 0.055) / 1.055)^12`, and
//! `(e / 255 + 0.055) / 1.055` is `(40 e + 561) / 10761`. Cleared of
//! denominators this is a comparison of whole numbers, which is how the
//! curve is stated here.
//!
//! These tables are what a conversion between the two 8-bit formats means:
//! the exact curve, cut down once, so that 0 goes to 0 and 255 to 255. The
//! curve on single-precision channels, in `transfer`, rounds each step, and
//! a way through such channels can give one less, as 254 at full scale.

use vstd::prelude::*;

verus! {

/// `x` to the power 5.
pub open spec fn pow5(x: int) -> int {
    x * x * x * x * x
}

/// `x` to the power 12.
pub open spec fn pow12(x: int) -> int {
    let x3 = x * x * x;
    let x6 = x3 * x3;
    x6 * x6
}

/// `((e / 255 + 0.055) / 1.055)^12`, times `255^5 * 10761^12`.
pub open spec fn encoded_power(e: int) -> int {
    pow12(40 * e + 561) * pow5(255)
}

/// `(l / 255)^5`, times `255^5 * 10761^12`.
pub open spec fn linear_power(l: int) -> int {
    pow5(l) * pow12(10761)
}

/// `e` is the encoded channel value of the linear `l`: `255 * compress(l /
/// 255)`, cut down to a whole number.
pub open spec fn is_srgb_of_linear(l: int, e: int) -> bool {
    &&& 0 <= e <= 255
    &&& if 10_000_000 * l <= 31_308 * 255 {
        e == (1292 * l) / 100
    } else {
        &&& encoded_power(e) <= linear_power(l)
        &&& (e == 255 || linear_power(l) < encoded_power(e + 1))
    }
}

/// `l` is the linear channel value of the encoded `e`: `255 * expand(e /
/// 255)`, cut down to a whole number.
pub open spec fn is_linear_of_srgb(e: int, l: int) -> bool {
    &&& 0 <= l <= 255
    &&& if 100_000 * e <= 4_045 * 255 {
        l == (100 * e) / 1292
    } else {
        &&& linear_power(l) <= encoded_power(e)
        &&& (l == 255 || encoded_power(e) < linear_power(l + 1))
    }
}

/// The encoded channel value of each linear channel value.
pub const SRGB_FROM_LINEAR: [u8; 256] = [
    0, 12, 21, 28, 33, 38, 42, 46, 49, 52, 55, 58, 61, 63, 66, 68,
    70, 73, 75, 77, 79, 81, 82, 84, 86, 88, 89, 91, 93, 94, 96, 97,
    99, 100, 102, 103, 104, 106, 107, 109, 110, 111, 112, 114, 115, 116, 117, 118,
    120, 121, 122, 123, 124, 125, 126, 127, 129, 130, 131, 132, 133, 134, 135, 136,
    137, 138, 139, 140, 141, 142, 142, 143, 144, 145, 146, 147, 148, 149, 150, 151,
    151, 152, 153, 154, 155, 156, 157, 157, 158, 159, 160, 161, 161, 162, 163, 164,
    165, 165, 166, 167, 168, 168, 169, 170, 171, 171, 172, 173, 174, 174, 175, 176,
    176, 177, 178, 179, 179, 180, 181, 181, 182, 183, 183, 184, 185, 185, 186, 187,
    187, 188, 189, 189, 190, 191, 191, 192, 193, 193, 194, 194, 195, 196, 196, 197,
    197, 198, 199, 199, 200, 201, 201, 202, 202, 203, 204, 204, 205, 205, 206, 206,
    207, 208, 208, 209, 209, 210, 210, 211, 212, 212, 213, 213, 214, 214, 215, 215,
    216, 217, 217, 218, 218, 219, 219, 220, 220, 221, 221, 222, 222, 223, 223, 224,
    224, 225, 226, 226, 227, 227, 228, 228, 229, 229, 230, 230, 231, 231, 232, 232,
    233, 233, 234, 234, 235, 235, 236, 236, 237, 237, 237, 238, 238, 239, 239, 240,
    240, 241, 241, 242, 242, 243, 243, 244, 244, 245, 245, 245, 246, 246, 247, 247,
    248, 248, 249, 249, 250, 250, 251, 251, 251, 252, 252, 253, 253, 254, 254, 255,
];

/// The linear channel value of each encoded channel value.
pub const LINEAR_FROM_SRGB: [u8; 256] = [
    0, 0, 0, 0, 0, 0, 0, 0, 0, 0, 0, 0, 0, 1, 1, 1,
    1, 1, 1, 1, 1, 1, 2, 2, 2, 2, 2, 2, 2, 3, 3, 3,
    3, 3, 4, 4, 4, 4, 4, 5, 5, 5, 5, 6, 6, 6, 6, 7,
    7, 7, 8, 8, 8, 9, 9, 9, 10, 10, 10, 11, 11, 11, 12, 12,
    13, 13, 13, 14, 14, 15, 15, 16, 16, 16, 17, 17, 18, 18, 19, 19,
    20, 20, 21, 22, 22, 23, 23, 24, 24, 25, 26, 26, 27, 27, 28, 29,
    29, 30, 31, 31, 32, 33, 33, 34, 35, 36, 36, 37, 38, 38, 39, 40,
    41, 42, 42, 43, 44, 45, 46, 47, 47, 48, 49, 50, 51, 52, 53, 54,
    55, 55, 56, 57, 58, 59, 60, 61, 62, 63, 64, 65, 66, 67, 68, 70,
    71, 72, 73, 74, 75, 76, 77, 78, 80, 81, 82, 83, 84, 85, 87, 88,
    89, 90, 92, 93, 94, 95, 97, 98, 99, 101, 102, 103, 105, 106, 107, 109,
    110, 112, 113, 114, 116, 117, 119, 120, 122, 123, 125, 126, 128, 129, 131, 132,
    134, 135, 137, 139, 140, 142, 144, 145, 147, 148, 150, 152, 153, 155, 157, 159,
    160, 162, 164, 166, 167, 169, 171, 173, 175, 176, 178, 180, 182, 184, 186, 188,
    190, 192, 193, 195, 197, 199, 201, 203, 205, 207, 209, 211, 213, 215, 218, 220,
    222, 224, 226, 228, 230, 232, 235, 237, 239, 241, 243, 245, 248, 250, 252, 255,
];

/// The encoded channel value of a linear one.
pub open spec fn spec_srgb_gamma_compress(channel: u8) -> u8 {
    SRGB_FROM_LINEAR[channel as int]
}

/// The linear channel value of an encoded one.
pub open spec fn spec_srgb_gamma_expand(channel: u8) -> u8 {
    LINEAR_FROM_SRGB[channel as int]
}

/// Linear to gamma-encoded, for one 8-bit channel.
pub fn srgb_gamma_compress(channel: u8) -> (encoded: u8)
    ensures
        encoded == spec_srgb_gamma_compress(channel),
        is_srgb_of_linear(channel as int, encoded as int),
{
    proof {
        lemma_srgb_from_linear(channel);
    }
    SRGB_FROM_LINEAR[channel as usize]
}

/// Gamma-encoded to linear, for one 8-bit channel.
pub fn srgb_gamma_expand(channel: u8) -> (linear: u8)
    ensures
        linear == spec_srgb_gamma_expand(channel),
        is_linear_of_srgb(channel as int, linear as int),
{
    proof {
        lemma_linear_from_srgb(channel);
    }
    LINEAR_FROM_SRGB[channel as usize]
}

/// The entries 0 to 63 of the table are what the curve gives.
proof fn lemma_srgb_from_linear_0(x: int)
    requires
        0 <= x < 64,
    ensures
        is_srgb_of_linear(x, SRGB_FROM_LINEAR[x] as int),
{
    assert({
        &&& is_srgb_of_linear(0, 0)
        &&& is_srgb_of_linear(1, 12)
        &&& is_srgb_of_linear(2, 21)
        &&& is_srgb_of_linear(3, 28)
        &&& is_srgb_of_linear(4, 33)
        &&& is_srgb_of_linear(5, 38)
        &&& is_srgb_of_linear(6, 42)
        &&& is_srgb_of_linear(7, 46)
        &&& is_srgb_of_linear(8, 49)
        &&& is_srgb_of_linear(9, 52)
        &&& is_srgb_of_linear(10, 55)
        &&& is_srgb_of_linear(11, 58)
        &&& is_srgb_of_linear(12, 61)
        &&& is_srgb_of_linear(13, 63)
        &&& is_srgb_of_linear(14, 66)
        &&& is_srgb_of_linear(15, 68)
        &&& is_srgb_of_linear(16, 70)
        &&& is_srgb_of_linear(17, 73)
        &&& is_srgb_of_linear(18, 75)
        &&& is_srgb_of_linear(19, 77)
        &&& is_srgb_of_linear(20, 79)
        &&& is_srgb_of_linear(21, 81)
        &&& is_srgb_of_linear(22, 82)
        &&& is_srgb_of_linear(23, 84)
        &&& is_srgb_of_linear(24, 86)
        &&& is_srgb_of_linear(25, 88)
        &&& is_srgb_of_linear(26, 89)
        &&& is_srgb_of_linear(27, 91)
        &&& is_srgb_of_linear(28, 93)
        &&& is_srgb_of_linear(29, 94)
        &&& is_srgb_of_linear(30, 96)
        &&& is_srgb_of_linear(31, 97)
        &&& is_srgb_of_linear(32, 99)
        &&& is_srgb_of_linear(33, 100)
        &&& is_srgb_of_linear(34, 102)
        &&& is_srgb_of_linear(35, 103)
        &&& is_srgb_of_linear(36, 104)
        &&& is_srgb_of_linear(37, 106)
        &&& is_srgb_of_linear(38, 107)
        &&& is_srgb_of_linear(39, 109)
        &&& is_srgb_of_linear(40, 110)
        &&& is_srgb_of_linear(41, 111)
        &&& is_srgb_of_linear(42, 112)
        &&& is_srgb_of_linear(43, 114)
        &&& is_srgb_of_linear(44, 115)
        &&& is_srgb_of_linear(45, 116)
        &&& is_srgb_of_linear(46, 117)
        &&& is_srgb_of_linear(47, 118)
        &&& is_srgb_of_linear(48, 120)
        &&& is_srgb_of_linear(49, 121)
        &&& is_srgb_of_linear(50, 122)
        &&& is_srgb_of_linear(51, 123)
        &&& is_srgb_of_linear(52, 124)
        &&& is_srgb_of_linear(53, 125)
        &&& is_srgb_of_linear(54, 126)
        &&& is_srgb_of_linear(55, 127)
        &&& is_srgb_of_linear(56, 129)
        &&& is_srgb_of_linear(57, 130)
        &&& is_srgb_of_linear(58, 131)
        &&& is_srgb_of_linear(59, 132)
        &&& is_srgb_of_linear(60, 133)
        &&& is_srgb_of_linear(61, 134)
        &&& is_srgb_of_linear(62, 135)
        &&& is_srgb_of_linear(63, 136)
    }) by (nonlinear_arith);
}

/// The entries 64 to 127 of the table are what the curve gives.
proof fn lemma_srgb_from_linear_64(x: int)
    requires
        64 <= x < 128,
    ensures
        is_srgb_of_linear(x, SRGB_FROM_LINEAR[x] as int),
{
    assert({
        &&& is_srgb_of_linear(64, 137)
        &&& is_srgb_of_linear(65, 138)
        &&& is_srgb_of_linear(66, 139)
        &&& is_srgb_of_linear(67, 140)
        &&& is_srgb_of_linear(68, 141)
        &&& is_srgb_of_linear(69, 142)
        &&& is_srgb_of_linear(70, 142)
        &&& is_srgb_of_linear(71, 143)
        &&& is_srgb_of_linear(72, 144)
        &&& is_srgb_of_linear(73, 145)
        &&& is_srgb_of_linear(74, 146)
        &&& is_srgb_of_linear(75, 147)
        &&& is_srgb_of_linear(76, 148)
        &&& is_srgb_of_linear(77, 149)
        &&& is_srgb_of_linear(78, 150)
        &&& is_srgb_of_linear(79, 151)
        &&& is_srgb_of_linear(80, 151)
        &&& is_srgb_of_linear(81, 152)
        &&& is_srgb_of_linear(82, 153)
        &&& is_srgb_of_linear(83, 154)
        &&& is_srgb_of_linear(84, 155)
        &&& is_srgb_of_linear(85, 156)
        &&& is_srgb_of_linear(86, 157)
        &&& is_srgb_of_linear(87, 157)
        &&& is_srgb_of_linear(88, 158)
        &&& is_srgb_of_linear(89, 159)
        &&& is_srgb_of_linear(90, 160)
        &&& is_srgb_of_linear(91, 161)
        &&& is_srgb_of_linear(92, 161)
        &&& is_srgb_of_linear(93, 162)
        &&& is_srgb_of_linear(94, 163)
        &&& is_srgb_of_linear(95, 164)
        &&& is_srgb_of_linear(96, 165)
        &&& is_srgb_of_linear(97, 165)
        &&& is_srgb_of_linear(98, 166)
        &&& is_srgb_of_linear(99, 167)
        &&& is_srgb_of_linear(100, 168)
        &&& is_srgb_of_linear(101, 168)
        &&& is_srgb_of_linear(102, 169)
        &&& is_srgb_of_linear(103, 170)
        &&& is_srgb_of_linear(104, 171)
        &&& is_srgb_of_linear(105, 171)
        &&& is_srgb_of_linear(106, 172)
        &&& is_srgb_of_linear(107, 173)
        &&& is_srgb_of_linear(108, 174)
        &&& is_srgb_of_linear(109, 174)
        &&& is_srgb_of_linear(110, 175)
        &&& is_srgb_of_linear(111, 176)
        &&& is_srgb_of_linear(112, 176)
        &&& is_srgb_of_linear(113, 177)
        &&& is_srgb_of_linear(114, 178)
        &&& is_srgb_of_linear(115, 179)
        &&& is_srgb_of_linear(116, 179)
        &&& is_srgb_of_linear(117, 180)
        &&& is_srgb_of_linear(118, 181)
        &&& is_srgb_of_linear(119, 181)
        &&& is_srgb_of_linear(120, 182)
        &&& is_srgb_of_linear(121, 183)
        &&& is_srgb_of_linear(122, 183)
        &&& is_srgb_of_linear(123, 184)
        &&& is_srgb_of_linear(124, 185)
        &&& is_srgb_of_linear(125, 185)
        &&& is_srgb_of_linear(126, 186)
        &&& is_srgb_of_linear(127, 187)
    }) by (nonlinear_arith);
}

/// The entries 128 to 191 of the table are what the curve gives.
proof fn lemma_srgb_from_linear_128(x: int)
    requires
        128 <= x < 192,
    ensures
        is_srgb_of_linear(x, SRGB_FROM_LINEAR[x] as int),
{
    assert({
        &&& is_srgb_of_linear(128, 187)
        &&& is_srgb_of_linear(129, 188)
        &&& is_srgb_of_linear(130, 189)
        &&& is_srgb_of_linear(131, 189)
        &&& is_srgb_of_linear(132, 190)
        &&& is_srgb_of_linear(133, 191)
        &&& is_srgb_of_linear(134, 191)
        &&& is_srgb_of_linear(135, 192)
        &&& is_srgb_of_linear(136, 193)
        &&& is_srgb_of_linear(137, 193)
        &&& is_srgb_of_linear(138, 194)
        &&& is_srgb_of_linear(139, 194)
        &&& is_srgb_of_linear(140, 195)
        &&& is_srgb_of_linear(141, 196)
        &&& is_srgb_of_linear(142, 196)
        &&& is_srgb_of_linear(143, 197)
        &&& is_srgb_of_linear(144, 197)
        &&& is_srgb_of_linear(145, 198)
        &&& is_srgb_of_linear(146, 199)
        &&& is_srgb_of_linear(147, 199)
        &&& is_srgb_of_linear(148, 200)
        &&& is_srgb_of_linear(149, 201)
        &&& is_srgb_of_linear(150, 201)
        &&& is_srgb_of_linear(151, 202)
        &&& is_srgb_of_linear(152, 202)
        &&& is_srgb_of_linear(153, 203)
        &&& is_srgb_of_linear(154, 204)
        &&& is_srgb_of_linear(155, 204)
        &&& is_srgb_of_linear(156, 205)
        &&& is_srgb_of_linear(157, 205)
        &&& is_srgb_of_linear(158, 206)
        &&& is_srgb_of_linear(159, 206)
        &&& is_srgb_of_linear(160, 207)
        &&& is_srgb_of_linear(161, 208)
        &&& is_srgb_of_linear(162, 208)
        &&& is_srgb_of_linear(163, 209)
        &&& is_srgb_of_linear(164, 209)
        &&& is_srgb_of_linear(165, 210)
        &&& is_srgb_of_linear(166, 210)
        &&& is_srgb_of_linear(167, 211)
        &&& is_srgb_of_linear(168, 212)
        &&& is_srgb_of_linear(169, 212)
        &&& is_srgb_of_linear(170, 213)
        &&& is_srgb_of_linear(171, 213)
        &&& is_srgb_of_linear(172, 214)
        &&& is_srgb_of_linear(173, 214)
        &&& is_srgb_of_linear(174, 215)
        &&& is_srgb_of_linear(175, 215)
        &&& is_srgb_of_linear(176, 216)
        &&& is_srgb_of_linear(177, 217)
        &&& is_srgb_of_linear(178, 217)
        &&& is_srgb_of_linear(179, 218)
        &&& is_srgb_of_linear(180, 218)
        &&& is_srgb_of_linear(181, 219)
        &&& is_srgb_of_linear(182, 219)
        &&& is_srgb_of_linear(183, 220)
        &&& is_srgb_of_linear(184, 220)
        &&& is_srgb_of_linear(185, 221)
        &&& is_srgb_of_linear(186, 221)
        &&& is_srgb_of_linear(187, 222)
        &&& is_srgb_of_linear(188, 222)
        &&& is_srgb_of_linear(189, 223)
        &&& is_srgb_of_linear(190, 223)
        &&& is_srgb_of_linear(191, 224)
    }) by (nonlinear_arith);
}

/// The entries 192 to 255 of the table are what the curve gives.
proof fn lemma_srgb_from_linear_192(x: int)
    requires
        192 <= x < 256,
    ensures
        is_srgb_of_linear(x, SRGB_FROM_LINEAR[x] as int),
{
    assert({
        &&& is_srgb_of_linear(192, 224)
        &&& is_srgb_of_linear(193, 225)
        &&& is_srgb_of_linear(194, 226)
        &&& is_srgb_of_linear(195, 226)
        &&& is_srgb_of_linear(196, 227)
        &&& is_srgb_of_linear(197, 227)
        &&& is_srgb_of_linear(198, 228)
        &&& is_srgb_of_linear(199, 228)
        &&& is_srgb_of_linear(200, 229)
        &&& is_srgb_of_linear(201, 229)
        &&& is_srgb_of_linear(202, 230)
        &&& is_srgb_of_linear(203, 230)
        &&& is_srgb_of_linear(204, 231)
        &&& is_srgb_of_linear(205, 231)
        &&& is_srgb_of_linear(206, 232)
        &&& is_srgb_of_linear(207, 232)
        &&& is_srgb_of_linear(208, 233)
        &&& is_srgb_of_linear(209, 233)
        &&& is_srgb_of_linear(210, 234)
        &&& is_srgb_of_linear(211, 234)
        &&& is_srgb_of_linear(212, 235)
        &&& is_srgb_of_linear(213, 235)
        &&& is_srgb_of_linear(214, 236)
        &&& is_srgb_of_linear(215, 236)
        &&& is_srgb_of_linear(216, 237)
        &&& is_srgb_of_linear(217, 237)
        &&& is_srgb_of_linear(218, 237)
        &&& is_srgb_of_linear(219, 238)
        &&& is_srgb_of_linear(220, 238)
        &&& is_srgb_of_linear(221, 239)
        &&& is_srgb_of_linear(222, 239)
        &&& is_srgb_of_linear(223, 240)
        &&& is_srgb_of_linear(224, 240)
        &&& is_srgb_of_linear(225, 241)
        &&& is_srgb_of_linear(226, 241)
        &&& is_srgb_of_linear(227, 242)
        &&& is_srgb_of_linear(228, 242)
        &&& is_srgb_of_linear(229, 243)
        &&& is_srgb_of_linear(230, 243)
        &&& is_srgb_of_linear(231, 244)
        &&& is_srgb_of_linear(232, 244)
        &&& is_srgb_of_linear(233, 245)
        &&& is_srgb_of_linear(234, 245)
        &&& is_srgb_of_linear(235, 245)
        &&& is_srgb_of_linear(236, 246)
        &&& is_srgb_of_linear(237, 246)
        &&& is_srgb_of_linear(238, 247)
        &&& is_srgb_of_linear(239, 247)
        &&& is_srgb_of_linear(240, 248)
        &&& is_srgb_of_linear(241, 248)
        &&& is_srgb_of_linear(242, 249)
        &&& is_srgb_of_linear(243, 249)
        &&& is_srgb_of_linear(244, 250)
        &&& is_srgb_of_linear(245, 250)
        &&& is_srgb_of_linear(246, 251)
        &&& is_srgb_of_linear(247, 251)
        &&& is_srgb_of_linear(248, 251)
        &&& is_srgb_of_linear(249, 252)
        &&& is_srgb_of_linear(250, 252)
        &&& is_srgb_of_linear(251, 253)
        &&& is_srgb_of_linear(252, 253)
        &&& is_srgb_of_linear(253, 254)
        &&& is_srgb_of_linear(254, 254)
        &&& is_srgb_of_linear(255, 255)
    }) by (nonlinear_arith);
}

/// Every entry of the table is what the curve gives.
pub proof fn lemma_srgb_from_linear(x: u8)
    ensures
        is_srgb_of_linear(x as int, SRGB_FROM_LINEAR[x as int] as int),
{
    if x < 64 {
        lemma_srgb_from_linear_0(x as int);
    } else if x < 128 {
        lemma_srgb_from_linear_64(x as int);
    } else if x < 192 {
        lemma_srgb_from_linear_128(x as int);
    } else {
        lemma_srgb_from_linear_192(x as int);
    }
}

/// The entries 0 to 63 of the table are what the curve gives.
proof fn lemma_linear_from_srgb_0(x: int)
    requires
        0 <= x < 64,
    ensures
        is_linear_of_srgb(x, LINEAR_FROM_SRGB[x] as int),
{
    assert({
        &&& is_linear_of_srgb(0, 0)
        &&& is_linear_of_srgb(1, 0)
        &&& is_linear_of_srgb(2, 0)
        &&& is_linear_of_srgb(3, 0)
        &&& is_linear_of_srgb(4, 0)
        &&& is_linear_of_srgb(5, 0)
        &&& is_linear_of_srgb(6, 0)
        &&& is_linear_of_srgb(7, 0)
        &&& is_linear_of_srgb(8, 0)
        &&& is_linear_of_srgb(9, 0)
        &&& is_linear_of_srgb(10, 0)
        &&& is_linear_of_srgb(11, 0)
        &&& is_linear_of_srgb(12, 0)
        &&& is_linear_of_srgb(13, 1)
        &&& is_linear_of_srgb(14, 1)
        &&& is_linear_of_srgb(15, 1)
        &&& is_linear_of_srgb(16, 1)
        &&& is_linear_of_srgb(17, 1)
        &&& is_linear_of_srgb(18, 1)
        &&& is_linear_of_srgb(19, 1)
        &&& is_linear_of_srgb(20, 1)
        &&& is_linear_of_srgb(21, 1)
        &&& is_linear_of_srgb(22, 2)
        &&& is_linear_of_srgb(23, 2)
        &&& is_linear_of_srgb(24, 2)
        &&& is_linear_of_srgb(25, 2)
        &&& is_linear_of_srgb(26, 2)
        &&& is_linear_of_srgb(27, 2)
        &&& is_linear_of_srgb(28, 2)
        &&& is_linear_of_srgb(29, 3)
        &&& is_linear_of_srgb(30, 3)
        &&& is_linear_of_srgb(31, 3)
        &&& is_linear_of_srgb(32, 3)
        &&& is_linear_of_srgb(33, 3)
        &&& is_linear_of_srgb(34, 4)
        &&& is_linear_of_srgb(35, 4)
        &&& is_linear_of_srgb(36, 4)
        &&& is_linear_of_srgb(37, 4)
        &&& is_linear_of_srgb(38, 4)
        &&& is_linear_of_srgb(39, 5)
        &&& is_linear_of_srgb(40, 5)
        &&& is_linear_of_srgb(41, 5)
        &&& is_linear_of_srgb(42, 5)
        &&& is_linear_of_srgb(43, 6)
        &&& is_linear_of_srgb(44, 6)
        &&& is_linear_of_srgb(45, 6)
        &&& is_linear_of_srgb(46, 6)
        &&& is_linear_of_srgb(47, 7)
        &&& is_linear_of_srgb(48, 7)
        &&& is_linear_of_srgb(49, 7)
        &&& is_linear_of_srgb(50, 8)
        &&& is_linear_of_srgb(51, 8)
        &&& is_linear_of_srgb(52, 8)
        &&& is_linear_of_srgb(53, 9)
        &&& is_linear_of_srgb(54, 9)
        &&& is_linear_of_srgb(55, 9)
        &&& is_linear_of_srgb(56, 10)
        &&& is_linear_of_srgb(57, 10)
        &&& is_linear_of_srgb(58, 10)
        &&& is_linear_of_srgb(59, 11)
        &&& is_linear_of_srgb(60, 11)
        &&& is_linear_of_srgb(61, 11)
        &&& is_linear_of_srgb(62, 12)
        &&& is_linear_of_srgb(63, 12)
    }) by (nonlinear_arith);
}

/// The entries 64 to 127 of the table are what the curve gives.
proof fn lemma_linear_from_srgb_64(x: int)
    requires
        64 <= x < 128,
    ensures
        is_linear_of_srgb(x, LINEAR_FROM_SRGB[x] as int),
{
    assert({
        &&& is_linear_of_srgb(64, 13)
        &&& is_linear_of_srgb(65, 13)
        &&& is_linear_of_srgb(66, 13)
        &&& is_linear_of_srgb(67, 14)
        &&& is_linear_of_srgb(68, 14)
        &&& is_linear_of_srgb(69, 15)
        &&& is_linear_of_srgb(70, 15)
        &&& is_linear_of_srgb(71, 16)
        &&& is_linear_of_srgb(72, 16)
        &&& is_linear_of_srgb(73, 16)
        &&& is_linear_of_srgb(74, 17)
        &&& is_linear_of_srgb(75, 17)
        &&& is_linear_of_srgb(76, 18)
        &&& is_linear_of_srgb(77, 18)
        &&& is_linear_of_srgb(78, 19)
        &&& is_linear_of_srgb(79, 19)
        &&& is_linear_of_srgb(80, 20)
        &&& is_linear_of_srgb(81, 20)
        &&& is_linear_of_srgb(82, 21)
        &&& is_linear_of_srgb(83, 22)
        &&& is_linear_of_srgb(84, 22)
        &&& is_linear_of_srgb(85, 23)
        &&& is_linear_of_srgb(86, 23)
        &&& is_linear_of_srgb(87, 24)
        &&& is_linear_of_srgb(88, 24)
        &&& is_linear_of_srgb(89, 25)
        &&& is_linear_of_srgb(90, 26)
        &&& is_linear_of_srgb(91, 26)
        &&& is_linear_of_srgb(92, 27)
        &&& is_linear_of_srgb(93, 27)
        &&& is_linear_of_srgb(94, 28)
        &&& is_linear_of_srgb(95, 29)
        &&& is_linear_of_srgb(96, 29)
        &&& is_linear_of_srgb(97, 30)
        &&& is_linear_of_srgb(98, 31)
        &&& is_linear_of_srgb(99, 31)
        &&& is_linear_of_srgb(100, 32)
        &&& is_linear_of_srgb(101, 33)
        &&& is_linear_of_srgb(102, 33)
        &&& is_linear_of_srgb(103, 34)
        &&& is_linear_of_srgb(104, 35)
        &&& is_linear_of_srgb(105, 36)
        &&& is_linear_of_srgb(106, 36)
        &&& is_linear_of_srgb(107, 37)
        &&& is_linear_of_srgb(108, 38)
        &&& is_linear_of_srgb(109, 38)
        &&& is_linear_of_srgb(110, 39)
        &&& is_linear_of_srgb(111, 40)
        &&& is_linear_of_srgb(112, 41)
        &&& is_linear_of_srgb(113, 42)
        &&& is_linear_of_srgb(114, 42)
        &&& is_linear_of_srgb(115, 43)
        &&& is_linear_of_srgb(116, 44)
        &&& is_linear_of_srgb(117, 45)
        &&& is_linear_of_srgb(118, 46)
        &&& is_linear_of_srgb(119, 47)
        &&& is_linear_of_srgb(120, 47)
        &&& is_linear_of_srgb(121, 48)
        &&& is_linear_of_srgb(122, 49)
        &&& is_linear_of_srgb(123, 50)
        &&& is_linear_of_srgb(124, 51)
        &&& is_linear_of_srgb(125, 52)
        &&& is_linear_of_srgb(126, 53)
        &&& is_linear_of_srgb(127, 54)
    }) by (nonlinear_arith);
}

/// The entries 128 to 191 of the table are what the curve gives.
proof fn lemma_linear_from_srgb_128(x: int)
    requires
        128 <= x < 192,
    ensures
        is_linear_of_srgb(x, LINEAR_FROM_SRGB[x] as int),
{
    assert({
        &&& is_linear_of_srgb(128, 55)
        &&& is_linear_of_srgb(129, 55)
        &&& is_linear_of_srgb(130, 56)
        &&& is_linear_of_srgb(131, 57)
        &&& is_linear_of_srgb(132, 58)
        &&& is_linear_of_srgb(133, 59)
        &&& is_linear_of_srgb(134, 60)
        &&& is_linear_of_srgb(135, 61)
        &&& is_linear_of_srgb(136, 62)
        &&& is_linear_of_srgb(137, 63)
        &&& is_linear_of_srgb(138, 64)
        &&& is_linear_of_srgb(139, 65)
        &&& is_linear_of_srgb(140, 66)
        &&& is_linear_of_srgb(141, 67)
        &&& is_linear_of_srgb(142, 68)
        &&& is_linear_of_srgb(143, 70)
        &&& is_linear_of_srgb(144, 71)
        &&& is_linear_of_srgb(145, 72)
        &&& is_linear_of_srgb(146, 73)
        &&& is_linear_of_srgb(147, 74)
        &&& is_linear_of_srgb(148, 75)
        &&& is_linear_of_srgb(149, 76)
        &&& is_linear_of_srgb(150, 77)
        &&& is_linear_of_srgb(151, 78)
        &&& is_linear_of_srgb(152, 80)
        &&& is_linear_of_srgb(153, 81)
        &&& is_linear_of_srgb(154, 82)
        &&& is_linear_of_srgb(155, 83)
        &&& is_linear_of_srgb(156, 84)
        &&& is_linear_of_srgb(157, 85)
        &&& is_linear_of_srgb(158, 87)
        &&& is_linear_of_srgb(159, 88)
        &&& is_linear_of_srgb(160, 89)
        &&& is_linear_of_srgb(161, 90)
        &&& is_linear_of_srgb(162, 92)
        &&& is_linear_of_srgb(163, 93)
        &&& is_linear_of_srgb(164, 94)
        &&& is_linear_of_srgb(165, 95)
        &&& is_linear_of_srgb(166, 97)
        &&& is_linear_of_srgb(167, 98)
        &&& is_linear_of_srgb(168, 99)
        &&& is_linear_of_srgb(169, 101)
        &&& is_linear_of_srgb(170, 102)
        &&& is_linear_of_srgb(171, 103)
        &&& is_linear_of_srgb(172, 105)
        &&& is_linear_of_srgb(173, 106)
        &&& is_linear_of_srgb(174, 107)
        &&& is_linear_of_srgb(175, 109)
        &&& is_linear_of_srgb(176, 110)
        &&& is_linear_of_srgb(177, 112)
        &&& is_linear_of_srgb(178, 113)
        &&& is_linear_of_srgb(179, 114)
        &&& is_linear_of_srgb(180, 116)
        &&& is_linear_of_srgb(181, 117)
        &&& is_linear_of_srgb(182, 119)
        &&& is_linear_of_srgb(183, 120)
        &&& is_linear_of_srgb(184, 122)
        &&& is_linear_of_srgb(185, 123)
        &&& is_linear_of_srgb(186, 125)
        &&& is_linear_of_srgb(187, 126)
        &&& is_linear_of_srgb(188, 128)
        &&& is_linear_of_srgb(189, 129)
        &&& is_linear_of_srgb(190, 131)
        &&& is_linear_of_srgb(191, 132)
    }) by (nonlinear_arith);
}

/// The entries 192 to 255 of the table are what the curve gives.
proof fn lemma_linear_from_srgb_192(x: int)
    requires
        192 <= x < 256,
    ensures
        is_linear_of_srgb(x, LINEAR_FROM_SRGB[x] as int),
{
    assert({
        &&& is_linear_of_srgb(192, 134)
        &&& is_linear_of_srgb(193, 135)
        &&& is_linear_of_srgb(194, 137)
        &&& is_linear_of_srgb(195, 139)
        &&& is_linear_of_srgb(196, 140)
        &&& is_linear_of_srgb(197, 142)
        &&& is_linear_of_srgb(198, 144)
        &&& is_linear_of_srgb(199, 145)
        &&& is_linear_of_srgb(200, 147)
        &&& is_linear_of_srgb(201, 148)
        &&& is_linear_of_srgb(202, 150)
        &&& is_linear_of_srgb(203, 152)
        &&& is_linear_of_srgb(204, 153)
        &&& is_linear_of_srgb(205, 155)
        &&& is_linear_of_srgb(206, 157)
        &&& is_linear_of_srgb(207, 159)
        &&& is_linear_of_srgb(208, 160)
        &&& is_linear_of_srgb(209, 162)
        &&& is_linear_of_srgb(210, 164)
        &&& is_linear_of_srgb(211, 166)
        &&& is_linear_of_srgb(212, 167)
        &&& is_linear_of_srgb(213, 169)
        &&& is_linear_of_srgb(214, 171)
        &&& is_linear_of_srgb(215, 173)
        &&& is_linear_of_srgb(216, 175)
        &&& is_linear_of_srgb(217, 176)
        &&& is_linear_of_srgb(218, 178)
        &&& is_linear_of_srgb(219, 180)
        &&& is_linear_of_srgb(220, 182)
        &&& is_linear_of_srgb(221, 184)
        &&& is_linear_of_srgb(222, 186)
        &&& is_linear_of_srgb(223, 188)
        &&& is_linear_of_srgb(224, 190)
        &&& is_linear_of_srgb(225, 192)
        &&& is_linear_of_srgb(226, 193)
        &&& is_linear_of_srgb(227, 195)
        &&& is_linear_of_srgb(228, 197)
        &&& is_linear_of_srgb(229, 199)
        &&& is_linear_of_srgb(230, 201)
        &&& is_linear_of_srgb(231, 203)
        &&& is_linear_of_srgb(232, 205)
        &&& is_linear_of_srgb(233, 207)
        &&& is_linear_of_srgb(234, 209)
        &&& is_linear_of_srgb(235, 211)
        &&& is_linear_of_srgb(236, 213)
        &&& is_linear_of_srgb(237, 215)
        &&& is_linear_of_srgb(238, 218)
        &&& is_linear_of_srgb(239, 220)
        &&& is_linear_of_srgb(240, 222)
        &&& is_linear_of_srgb(241, 224)
        &&& is_linear_of_srgb(242, 226)
        &&& is_linear_of_srgb(243, 228)
        &&& is_linear_of_srgb(244, 230)
        &&& is_linear_of_srgb(245, 232)
        &&& is_linear_of_srgb(246, 235)
        &&& is_linear_of_srgb(247, 237)
        &&& is_linear_of_srgb(248, 239)
        &&& is_linear_of_srgb(249, 241)
        &&& is_linear_of_srgb(250, 243)
        &&& is_linear_of_srgb(251, 245)
        &&& is_linear_of_srgb(252, 248)
        &&& is_linear_of_srgb(253, 250)
        &&& is_linear_of_srgb(254, 252)
        &&& is_linear_of_srgb(255, 255)
    }) by (nonlinear_arith);
}

/// Every entry of the table is what the curve gives.
pub proof fn lemma_linear_from_srgb(x: u8)
    ensures
        is_linear_of_srgb(x as int, LINEAR_FROM_SRGB[x as int] as int),
{
    if x < 64 {
        lemma_linear_from_srgb_0(x as int);
    } else if x < 128 {
        lemma_linear_from_srgb_64(x as int);
    } else if x < 192 {
        lemma_linear_from_srgb_128(x as int);
    } else {
        lemma_linear_from_srgb_192(x as int);
    }
}

} // verus!
