//! The fixed catalog of perceptually-derived 8x8 quantization table pairs,
//! and the pure quality scaling applied to a table at configuration time.
//!
//! A named family provides a luma and a chroma variant (several families use
//! one table for both). The catalog is immutable constant data; a lookup
//! returns a fresh copy and nothing ever mutates it. Scaling is a pure
//! function of (base table, quality), monotonically decreasing in quality:
//! higher quality gives smaller-or-equal quantizer step sizes.

use vstd::arithmetic::div_mod::lemma_fundamental_div_mod;
use vstd::prelude::*;

verus! {

/// A named family in the quantization-table catalog.
#[derive(Clone, Copy, PartialEq, Eq, Structural, Debug)]
pub enum TableFamily {
    AhumadaWatsonPeterson,
    AnnexK,
    Flat,
    KleinSilversteinCarney,
    Msssim,
    NRobidoux,
    Psnrhvs,
    PetersonAhumadaWatson,
    WatsonTaylorBorthwick,
}

/// Base step sizes of the catalog: one 8x8 table in row-major order.
pub open spec fn spec_annex_k_luma() -> Seq<u16> {
    seq![
        16u16, 11, 10, 16, 24, 40, 51, 61,
        12, 12, 14, 19, 26, 58, 60, 55,
        14, 13, 16, 24, 40, 57, 69, 56,
        14, 17, 22, 29, 51, 87, 80, 62,
        18, 22, 37, 56, 68, 109, 103, 77,
        24, 35, 55, 64, 81, 104, 113, 92,
        49, 64, 78, 87, 103, 121, 120, 101,
        72, 92, 95, 98, 112, 100, 103, 99,
    ]
}

fn annex_k_luma() -> (r: Vec<u16>)
    ensures
        r@ == spec_annex_k_luma(),
{
    let t: Vec<u16> = vec![
        16u16, 11, 10, 16, 24, 40, 51, 61,
        12, 12, 14, 19, 26, 58, 60, 55,
        14, 13, 16, 24, 40, 57, 69, 56,
        14, 17, 22, 29, 51, 87, 80, 62,
        18, 22, 37, 56, 68, 109, 103, 77,
        24, 35, 55, 64, 81, 104, 113, 92,
        49, 64, 78, 87, 103, 121, 120, 101,
        72, 92, 95, 98, 112, 100, 103, 99,
    ];
    assert(t@ =~= spec_annex_k_luma());
    t
}

/// Base step sizes of the catalog: one 8x8 table in row-major order.
pub open spec fn spec_annex_k_chroma() -> Seq<u16> {
    seq![
        17u16, 18, 24, 47, 99, 99, 99, 99,
        18, 21, 26, 66, 99, 99, 99, 99,
        24, 26, 56, 99, 99, 99, 99, 99,
        47, 66, 99, 99, 99, 99, 99, 99,
        99, 99, 99, 99, 99, 99, 99, 99,
        99, 99, 99, 99, 99, 99, 99, 99,
        99, 99, 99, 99, 99, 99, 99, 99,
        99, 99, 99, 99, 99, 99, 99, 99,
    ]
}

fn annex_k_chroma() -> (r: Vec<u16>)
    ensures
        r@ == spec_annex_k_chroma(),
{
    let t: Vec<u16> = vec![
        17u16, 18, 24, 47, 99, 99, 99, 99,
        18, 21, 26, 66, 99, 99, 99, 99,
        24, 26, 56, 99, 99, 99, 99, 99,
        47, 66, 99, 99, 99, 99, 99, 99,
        99, 99, 99, 99, 99, 99, 99, 99,
        99, 99, 99, 99, 99, 99, 99, 99,
        99, 99, 99, 99, 99, 99, 99, 99,
        99, 99, 99, 99, 99, 99, 99, 99,
    ];
    assert(t@ =~= spec_annex_k_chroma());
    t
}

/// Base step sizes of the catalog: one 8x8 table in row-major order.
pub open spec fn spec_flat() -> Seq<u16> {
    seq![
        16u16, 16, 16, 16, 16, 16, 16, 16,
        16, 16, 16, 16, 16, 16, 16, 16,
        16, 16, 16, 16, 16, 16, 16, 16,
        16, 16, 16, 16, 16, 16, 16, 16,
        16, 16, 16, 16, 16, 16, 16, 16,
        16, 16, 16, 16, 16, 16, 16, 16,
        16, 16, 16, 16, 16, 16, 16, 16,
        16, 16, 16, 16, 16, 16, 16, 16,
    ]
}

fn flat() -> (r: Vec<u16>)
    ensures
        r@ == spec_flat(),
{
    let t: Vec<u16> = vec![
        16u16, 16, 16, 16, 16, 16, 16, 16,
        16, 16, 16, 16, 16, 16, 16, 16,
        16, 16, 16, 16, 16, 16, 16, 16,
        16, 16, 16, 16, 16, 16, 16, 16,
        16, 16, 16, 16, 16, 16, 16, 16,
        16, 16, 16, 16, 16, 16, 16, 16,
        16, 16, 16, 16, 16, 16, 16, 16,
        16, 16, 16, 16, 16, 16, 16, 16,
    ];
    assert(t@ =~= spec_flat());
    t
}

/// Base step sizes of the catalog: one 8x8 table in row-major order.
pub open spec fn spec_msssim_luma() -> Seq<u16> {
    seq![
        12u16, 17, 20, 21, 30, 34, 56, 63,
        18, 20, 20, 26, 28, 51, 61, 55,
        19, 20, 21, 26, 33, 58, 69, 55,
        26, 26, 26, 30, 46, 87, 86, 66,
        31, 33, 36, 40, 46, 96, 100, 73,
        40, 35, 46, 62, 81, 100, 111, 91,
        46, 66, 76, 86, 102, 121, 120, 101,
        68, 90, 90, 96, 113, 102, 105, 103,
    ]
}

fn msssim_luma() -> (r: Vec<u16>)
    ensures
        r@ == spec_msssim_luma(),
{
    let t: Vec<u16> = vec![
        12u16, 17, 20, 21, 30, 34, 56, 63,
        18, 20, 20, 26, 28, 51, 61, 55,
        19, 20, 21, 26, 33, 58, 69, 55,
        26, 26, 26, 30, 46, 87, 86, 66,
        31, 33, 36, 40, 46, 96, 100, 73,
        40, 35, 46, 62, 81, 100, 111, 91,
        46, 66, 76, 86, 102, 121, 120, 101,
        68, 90, 90, 96, 113, 102, 105, 103,
    ];
    assert(t@ =~= spec_msssim_luma());
    t
}

/// Base step sizes of the catalog: one 8x8 table in row-major order.
pub open spec fn spec_msssim_chroma() -> Seq<u16> {
    seq![
        8u16, 12, 15, 15, 86, 96, 96, 98,
        13, 13, 15, 26, 90, 96, 99, 98,
        12, 15, 18, 96, 99, 99, 99, 99,
        17, 16, 90, 96, 99, 99, 99, 99,
        96, 96, 99, 99, 99, 99, 99, 99,
        99, 99, 99, 99, 99, 99, 99, 99,
        99, 99, 99, 99, 99, 99, 99, 99,
        99, 99, 99, 99, 99, 99, 99, 99,
    ]
}

fn msssim_chroma() -> (r: Vec<u16>)
    ensures
        r@ == spec_msssim_chroma(),
{
    let t: Vec<u16> = vec![
        8u16, 12, 15, 15, 86, 96, 96, 98,
        13, 13, 15, 26, 90, 96, 99, 98,
        12, 15, 18, 96, 99, 99, 99, 99,
        17, 16, 90, 96, 99, 99, 99, 99,
        96, 96, 99, 99, 99, 99, 99, 99,
        99, 99, 99, 99, 99, 99, 99, 99,
        99, 99, 99, 99, 99, 99, 99, 99,
        99, 99, 99, 99, 99, 99, 99, 99,
    ];
    assert(t@ =~= spec_msssim_chroma());
    t
}

/// Base step sizes of the catalog: one 8x8 table in row-major order.
pub open spec fn spec_n_robidoux() -> Seq<u16> {
    seq![
        16u16, 16, 16, 18, 25, 37, 56, 85,
        16, 17, 20, 27, 34, 40, 53, 75,
        16, 20, 24, 31, 43, 62, 91, 135,
        18, 27, 31, 40, 53, 74, 106, 156,
        25, 34, 43, 53, 69, 94, 131, 189,
        37, 40, 62, 74, 94, 124, 169, 238,
        56, 53, 91, 106, 131, 169, 226, 311,
        85, 75, 135, 156, 189, 238, 311, 418,
    ]
}

fn n_robidoux() -> (r: Vec<u16>)
    ensures
        r@ == spec_n_robidoux(),
{
    let t: Vec<u16> = vec![
        16u16, 16, 16, 18, 25, 37, 56, 85,
        16, 17, 20, 27, 34, 40, 53, 75,
        16, 20, 24, 31, 43, 62, 91, 135,
        18, 27, 31, 40, 53, 74, 106, 156,
        25, 34, 43, 53, 69, 94, 131, 189,
        37, 40, 62, 74, 94, 124, 169, 238,
        56, 53, 91, 106, 131, 169, 226, 311,
        85, 75, 135, 156, 189, 238, 311, 418,
    ];
    assert(t@ =~= spec_n_robidoux());
    t
}

/// Base step sizes of the catalog: one 8x8 table in row-major order.
pub open spec fn spec_psnrhvs_luma() -> Seq<u16> {
    seq![
        9u16, 10, 12, 14, 27, 32, 51, 62,
        11, 12, 14, 19, 27, 44, 59, 73,
        12, 14, 18, 25, 42, 59, 79, 78,
        17, 18, 25, 42, 61, 92, 87, 92,
        23, 28, 42, 75, 79, 112, 112, 99,
        40, 42, 59, 84, 88, 124, 132, 111,
        42, 64, 78, 95, 105, 126, 125, 99,
        70, 75, 100, 102, 116, 100, 107, 98,
    ]
}

fn psnrhvs_luma() -> (r: Vec<u16>)
    ensures
        r@ == spec_psnrhvs_luma(),
{
    let t: Vec<u16> = vec![
        9u16, 10, 12, 14, 27, 32, 51, 62,
        11, 12, 14, 19, 27, 44, 59, 73,
        12, 14, 18, 25, 42, 59, 79, 78,
        17, 18, 25, 42, 61, 92, 87, 92,
        23, 28, 42, 75, 79, 112, 112, 99,
        40, 42, 59, 84, 88, 124, 132, 111,
        42, 64, 78, 95, 105, 126, 125, 99,
        70, 75, 100, 102, 116, 100, 107, 98,
    ];
    assert(t@ =~= spec_psnrhvs_luma());
    t
}

/// Base step sizes of the catalog: one 8x8 table in row-major order.
pub open spec fn spec_psnrhvs_chroma() -> Seq<u16> {
    seq![
        9u16, 10, 17, 19, 62, 89, 91, 97,
        12, 13, 18, 29, 84, 91, 88, 98,
        14, 19, 29, 93, 95, 95, 98, 97,
        20, 26, 84, 88, 95, 95, 98, 94,
        26, 86, 91, 93, 97, 99, 98, 99,
        99, 100, 98, 99, 99, 99, 99, 99,
        99, 99, 99, 99, 99, 99, 99, 99,
        97, 97, 99, 99, 99, 99, 97, 99,
    ]
}

fn psnrhvs_chroma() -> (r: Vec<u16>)
    ensures
        r@ == spec_psnrhvs_chroma(),
{
    let t: Vec<u16> = vec![
        9u16, 10, 17, 19, 62, 89, 91, 97,
        12, 13, 18, 29, 84, 91, 88, 98,
        14, 19, 29, 93, 95, 95, 98, 97,
        20, 26, 84, 88, 95, 95, 98, 94,
        26, 86, 91, 93, 97, 99, 98, 99,
        99, 100, 98, 99, 99, 99, 99, 99,
        99, 99, 99, 99, 99, 99, 99, 99,
        97, 97, 99, 99, 99, 99, 97, 99,
    ];
    assert(t@ =~= spec_psnrhvs_chroma());
    t
}

/// Base step sizes of the catalog: one 8x8 table in row-major order.
pub open spec fn spec_klein_silverstein_carney() -> Seq<u16> {
    seq![
        10u16, 12, 14, 19, 26, 38, 57, 86,
        12, 18, 21, 28, 35, 41, 54, 76,
        14, 21, 25, 32, 44, 63, 92, 136,
        19, 28, 32, 41, 54, 75, 107, 157,
        26, 35, 44, 54, 70, 95, 132, 190,
        38, 41, 63, 75, 95, 125, 170, 239,
        57, 54, 92, 107, 132, 170, 227, 312,
        86, 76, 136, 157, 190, 239, 312, 419,
    ]
}

fn klein_silverstein_carney() -> (r: Vec<u16>)
    ensures
        r@ == spec_klein_silverstein_carney(),
{
    let t: Vec<u16> = vec![
        10u16, 12, 14, 19, 26, 38, 57, 86,
        12, 18, 21, 28, 35, 41, 54, 76,
        14, 21, 25, 32, 44, 63, 92, 136,
        19, 28, 32, 41, 54, 75, 107, 157,
        26, 35, 44, 54, 70, 95, 132, 190,
        38, 41, 63, 75, 95, 125, 170, 239,
        57, 54, 92, 107, 132, 170, 227, 312,
        86, 76, 136, 157, 190, 239, 312, 419,
    ];
    assert(t@ =~= spec_klein_silverstein_carney());
    t
}

/// Base step sizes of the catalog: one 8x8 table in row-major order.
pub open spec fn spec_watson_taylor_borthwick() -> Seq<u16> {
    seq![
        7u16, 8, 10, 14, 23, 44, 95, 241,
        8, 8, 11, 15, 25, 47, 102, 255,
        10, 11, 13, 19, 31, 58, 127, 255,
        14, 15, 19, 27, 44, 83, 181, 255,
        23, 25, 31, 44, 72, 136, 255, 255,
        44, 47, 58, 83, 136, 255, 255, 255,
        95, 102, 127, 181, 255, 255, 255, 255,
        241, 255, 255, 255, 255, 255, 255, 255,
    ]
}

fn watson_taylor_borthwick() -> (r: Vec<u16>)
    ensures
        r@ == spec_watson_taylor_borthwick(),
{
    let t: Vec<u16> = vec![
        7u16, 8, 10, 14, 23, 44, 95, 241,
        8, 8, 11, 15, 25, 47, 102, 255,
        10, 11, 13, 19, 31, 58, 127, 255,
        14, 15, 19, 27, 44, 83, 181, 255,
        23, 25, 31, 44, 72, 136, 255, 255,
        44, 47, 58, 83, 136, 255, 255, 255,
        95, 102, 127, 181, 255, 255, 255, 255,
        241, 255, 255, 255, 255, 255, 255, 255,
    ];
    assert(t@ =~= spec_watson_taylor_borthwick());
    t
}

/// Base step sizes of the catalog: one 8x8 table in row-major order.
pub open spec fn spec_ahumada_watson_peterson() -> Seq<u16> {
    seq![
        15u16, 11, 11, 12, 15, 19, 25, 32,
        11, 13, 10, 10, 12, 15, 19, 24,
        11, 10, 14, 14, 16, 18, 22, 27,
        12, 10, 14, 18, 21, 24, 28, 33,
        15, 12, 16, 21, 26, 31, 36, 42,
        19, 15, 18, 24, 31, 38, 45, 53,
        25, 19, 22, 28, 36, 45, 55, 65,
        32, 24, 27, 33, 42, 53, 65, 77,
    ]
}

fn ahumada_watson_peterson() -> (r: Vec<u16>)
    ensures
        r@ == spec_ahumada_watson_peterson(),
{
    let t: Vec<u16> = vec![
        15u16, 11, 11, 12, 15, 19, 25, 32,
        11, 13, 10, 10, 12, 15, 19, 24,
        11, 10, 14, 14, 16, 18, 22, 27,
        12, 10, 14, 18, 21, 24, 28, 33,
        15, 12, 16, 21, 26, 31, 36, 42,
        19, 15, 18, 24, 31, 38, 45, 53,
        25, 19, 22, 28, 36, 45, 55, 65,
        32, 24, 27, 33, 42, 53, 65, 77,
    ];
    assert(t@ =~= spec_ahumada_watson_peterson());
    t
}

/// Base step sizes of the catalog: one 8x8 table in row-major order.
pub open spec fn spec_peterson_ahumada_watson() -> Seq<u16> {
    seq![
        14u16, 10, 11, 14, 19, 25, 34, 45,
        10, 11, 11, 12, 15, 20, 26, 33,
        11, 11, 15, 18, 21, 25, 31, 38,
        14, 12, 18, 24, 28, 33, 39, 47,
        19, 15, 21, 28, 36, 43, 51, 59,
        25, 20, 25, 33, 43, 54, 64, 74,
        34, 26, 31, 39, 51, 64, 77, 91,
        45, 33, 38, 47, 59, 74, 91, 108,
    ]
}

fn peterson_ahumada_watson() -> (r: Vec<u16>)
    ensures
        r@ == spec_peterson_ahumada_watson(),
{
    let t: Vec<u16> = vec![
        14u16, 10, 11, 14, 19, 25, 34, 45,
        10, 11, 11, 12, 15, 20, 26, 33,
        11, 11, 15, 18, 21, 25, 31, 38,
        14, 12, 18, 24, 28, 33, 39, 47,
        19, 15, 21, 28, 36, 43, 51, 59,
        25, 20, 25, 33, 43, 54, 64, 74,
        34, 26, 31, 39, 51, 64, 77, 91,
        45, 33, 38, 47, 59, 74, 91, 108,
    ];
    assert(t@ =~= spec_peterson_ahumada_watson());
    t
}
/// The luma base table of a family.
pub open spec fn spec_luma_base(f: TableFamily) -> Seq<u16> {
    match f {
        TableFamily::AhumadaWatsonPeterson => spec_ahumada_watson_peterson(),
        TableFamily::AnnexK => spec_annex_k_luma(),
        TableFamily::Flat => spec_flat(),
        TableFamily::KleinSilversteinCarney => spec_klein_silverstein_carney(),
        TableFamily::Msssim => spec_msssim_luma(),
        TableFamily::NRobidoux => spec_n_robidoux(),
        TableFamily::Psnrhvs => spec_psnrhvs_luma(),
        TableFamily::PetersonAhumadaWatson => spec_peterson_ahumada_watson(),
        TableFamily::WatsonTaylorBorthwick => spec_watson_taylor_borthwick(),
    }
}

/// The chroma base table of a family; families without a dedicated chroma
/// variant use the same table for both.
pub open spec fn spec_chroma_base(f: TableFamily) -> Seq<u16> {
    match f {
        TableFamily::AhumadaWatsonPeterson => spec_ahumada_watson_peterson(),
        TableFamily::AnnexK => spec_annex_k_chroma(),
        TableFamily::Flat => spec_flat(),
        TableFamily::KleinSilversteinCarney => spec_klein_silverstein_carney(),
        TableFamily::Msssim => spec_msssim_chroma(),
        TableFamily::NRobidoux => spec_n_robidoux(),
        TableFamily::Psnrhvs => spec_psnrhvs_chroma(),
        TableFamily::PetersonAhumadaWatson => spec_peterson_ahumada_watson(),
        TableFamily::WatsonTaylorBorthwick => spec_watson_taylor_borthwick(),
    }
}

/// Look up a family's luma base table.
pub fn luma_base(f: TableFamily) -> (r: Vec<u16>)
    ensures
        r@ == spec_luma_base(f),
{
    match f {
        TableFamily::AhumadaWatsonPeterson => ahumada_watson_peterson(),
        TableFamily::AnnexK => annex_k_luma(),
        TableFamily::Flat => flat(),
        TableFamily::KleinSilversteinCarney => klein_silverstein_carney(),
        TableFamily::Msssim => msssim_luma(),
        TableFamily::NRobidoux => n_robidoux(),
        TableFamily::Psnrhvs => psnrhvs_luma(),
        TableFamily::PetersonAhumadaWatson => peterson_ahumada_watson(),
        TableFamily::WatsonTaylorBorthwick => watson_taylor_borthwick(),
    }
}

/// Look up a family's chroma base table.
pub fn chroma_base(f: TableFamily) -> (r: Vec<u16>)
    ensures
        r@ == spec_chroma_base(f),
{
    match f {
        TableFamily::AhumadaWatsonPeterson => ahumada_watson_peterson(),
        TableFamily::AnnexK => annex_k_chroma(),
        TableFamily::Flat => flat(),
        TableFamily::KleinSilversteinCarney => klein_silverstein_carney(),
        TableFamily::Msssim => msssim_chroma(),
        TableFamily::NRobidoux => n_robidoux(),
        TableFamily::Psnrhvs => psnrhvs_chroma(),
        TableFamily::PetersonAhumadaWatson => peterson_ahumada_watson(),
        TableFamily::WatsonTaylorBorthwick => watson_taylor_borthwick(),
    }
}

/// Numerator of the scale factor for a quality in 1..=100.
pub open spec fn spec_scale_num(q: int) -> int {
    if q < 50 {
        50
    } else {
        100 - q
    }
}

/// Denominator of the scale factor for a quality in 1..=100.
pub open spec fn spec_scale_den(q: int) -> int {
    if q < 50 {
        q
    } else {
        50
    }
}

/// n / d rounded to the nearest integer (half away from zero), for d > 0.
pub open spec fn spec_round_ratio(n: int, d: int) -> int {
    (2 * n + d) / (2 * d)
}

/// Clamp a scaled step size into the encodable range 1..=255.
pub open spec fn spec_clamp_entry(v: int) -> int {
    if v < 1 {
        1
    } else if v > 255 {
        255
    } else {
        v
    }
}

/// One base step size scaled by a quality in 1..=100.
pub open spec fn spec_scaled_entry(base: int, q: int) -> int {
    spec_clamp_entry(spec_round_ratio(base * spec_scale_num(q), spec_scale_den(q)))
}

/// Scale one base step size by a quality factor.
pub fn scaled_entry(base: u16, quality: u8) -> (r: u16)
    requires
        1 <= quality <= 100,
    ensures
        r == spec_scaled_entry(base as int, quality as int),
        1 <= r <= 255,
{
    let b = base as u64;
    let q = quality as u64;
    proof {
        assert(b * 50 <= 65535 * 50) by (nonlinear_arith)
            requires b <= 65535;
        assert(q <= 100 ==> b * (100 - q) <= 65535 * 100) by (nonlinear_arith)
            requires b <= 65535;
    }
    let (num, den): (u64, u64) = if quality < 50 {
        (b * 50, q)
    } else {
        (b * (100 - q), 50)
    };
    let v = (2 * num + den) / (2 * den);
    if v < 1 {
        1
    } else if v > 255 {
        255
    } else {
        v as u16
    }
}

/// Scale a whole base table by a quality factor.
pub fn scaled_table(base: &Vec<u16>, quality: u8) -> (r: Vec<u16>)
    requires
        1 <= quality <= 100,
    ensures
        r@.len() == base@.len(),
        forall|i: int| 0 <= i < r@.len() ==>
            r@[i] == spec_scaled_entry(base@[i] as int, quality as int),
        forall|i: int| 0 <= i < r@.len() ==> 1 <= #[trigger] r@[i] <= 255,
{
    let mut out: Vec<u16> = Vec::new();
    let n = base.len();
    let mut i: usize = 0;
    while i < n
        invariant
            0 <= i <= n,
            n == base@.len(),
            1 <= quality <= 100,
            out@.len() == i,
            forall|j: int| 0 <= j < i ==>
                out@[j] == spec_scaled_entry(base@[j] as int, quality as int),
            forall|j: int| 0 <= j < i ==> 1 <= #[trigger] out@[j] <= 255,
        decreases n - i,
    {
        out.push(scaled_entry(base[i], quality));
        i = i + 1;
    }
    out
}

/// Rounding a ratio is monotone: a ratio at least as large (by cross
/// multiplication) rounds to a value at least as large.
proof fn lemma_round_ratio_monotone(n1: int, d1: int, n2: int, d2: int)
    requires
        d1 > 0,
        d2 > 0,
        n1 >= 0,
        n2 >= 0,
        n1 * d2 >= n2 * d1,
    ensures
        spec_round_ratio(n1, d1) >= spec_round_ratio(n2, d2),
{
    let k = spec_round_ratio(n2, d2);
    lemma_fundamental_div_mod(2 * n2 + d2, 2 * d2);
    assert(2 * n2 + d2 >= (2 * d2) * k);
    assert(2 * n1 + d1 >= (2 * d1) * k) by (nonlinear_arith)
        requires
            d1 > 0,
            d2 > 0,
            n1 * d2 >= n2 * d1,
            2 * n2 + d2 >= (2 * d2) * k,
    ;
    lemma_fundamental_div_mod(2 * n1 + d1, 2 * d1);
    assert((2 * n1 + d1) / (2 * d1) >= k) by (nonlinear_arith)
        requires
            d1 > 0,
            2 * n1 + d1 >= (2 * d1) * k,
            2 * n1 + d1 == (2 * d1) * ((2 * n1 + d1) / (2 * d1)) + (2 * n1 + d1) % (2 * d1),
            0 <= (2 * n1 + d1) % (2 * d1) < 2 * d1,
    ;
}

/// The scale factor is monotonically decreasing in quality, stated by cross
/// multiplication of the two ratios.
proof fn lemma_scale_factor_monotone(q1: int, q2: int)
    requires
        1 <= q1 <= q2 <= 100,
    ensures
        spec_scale_num(q1) * spec_scale_den(q2) >= spec_scale_num(q2) * spec_scale_den(q1),
{
    if q1 < 50 && q2 < 50 {
        assert(50 * q2 >= 50 * q1);
    } else if q1 < 50 {
        assert(50 * 50 >= (100 - q2) * q1) by (nonlinear_arith)
            requires 1 <= q1 < 50 <= q2 <= 100;
    } else {
        assert((100 - q1) * 50 >= (100 - q2) * 50);
    }
}

/// Scaling one step size is antitone in quality: a higher quality never
/// yields a larger step size.
pub proof fn lemma_scaled_entry_antitone(base: int, q1: int, q2: int)
    requires
        base >= 0,
        1 <= q1 <= q2 <= 100,
    ensures
        spec_scaled_entry(base, q2) <= spec_scaled_entry(base, q1),
{
    lemma_scale_factor_monotone(q1, q2);
    assert(base * spec_scale_num(q1) * spec_scale_den(q2)
        >= base * spec_scale_num(q2) * spec_scale_den(q1)) by (nonlinear_arith)
        requires
            base >= 0,
            spec_scale_num(q1) * spec_scale_den(q2) >= spec_scale_num(q2) * spec_scale_den(q1),
    ;
    assert(base * spec_scale_num(q1) >= 0) by (nonlinear_arith)
        requires base >= 0 && spec_scale_num(q1) >= 0;
    assert(base * spec_scale_num(q2) >= 0) by (nonlinear_arith)
        requires base >= 0 && spec_scale_num(q2) >= 0;
    lemma_round_ratio_monotone(
        base * spec_scale_num(q1),
        spec_scale_den(q1),
        base * spec_scale_num(q2),
        spec_scale_den(q2),
    );
}

/// Scaling a whole table is antitone in quality: every entry of the table
/// scaled at the higher quality is smaller or equal to the same entry scaled
/// at the lower quality.
pub proof fn lemma_scaled_table_antitone(base: Seq<u16>, q1: int, q2: int)
    requires
        1 <= q1 <= q2 <= 100,
    ensures
        forall|i: int| 0 <= i < base.len() ==>
            spec_scaled_entry(base[i] as int, q2) <= spec_scaled_entry(base[i] as int, q1),
{
    assert forall|i: int| 0 <= i < base.len() implies
        spec_scaled_entry(base[i] as int, q2) <= spec_scaled_entry(base[i] as int, q1) by {
        lemma_scaled_entry_antitone(base[i] as int, q1, q2);
    }
}

/// At full quality the scale factor is zero, so every entry scales to the
/// minimum step size.
pub proof fn lemma_scaled_entry_at_full_quality(base: int)
    requires
        base >= 0,
    ensures
        spec_scaled_entry(base, 100) == 1,
{
    assert(base * 0 == 0) by (nonlinear_arith);
    assert(spec_round_ratio(0, 50) == 0) by {
        lemma_fundamental_div_mod(50, 100);
    }
}

} // verus!
