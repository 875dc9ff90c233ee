//! Output size of a resize: either the requested size as it stands, or the
//! size that keeps the source's aspect ratio with the smaller requested side
//! honoured exactly.

use vstd::prelude::*;
use crate::error::ProcessingError;
use crate::resizer::ImageResizer;

verus! {

/// `numerator / denominator` rounded to the nearest integer, a half rounding up.
pub open spec fn rounded_quotient(numerator: nat, denominator: nat) -> nat
    recommends
        denominator > 0,
{
    (2 * numerator + denominator) / (2 * denominator)
}

/// A derived side as it is stored: at least one pixel, at most what a `u32` holds.
pub open spec fn clamp_side(side: nat) -> u32 {
    if side < 1 {
        1u32
    } else if side > u32::MAX {
        u32::MAX
    } else {
        side as u32
    }
}

/// The side derived from `kept` so that `kept : derived` is as `along : across`.
pub open spec fn derived_side(kept: u32, along: u32, across: u32) -> u32
    recommends
        along > 0,
{
    clamp_side(rounded_quotient(kept as nat * across as nat, along as nat))
}

/// The size an image of `original_width` by `original_height` is resized to.
pub open spec fn resolved_size(
    original_width: u32,
    original_height: u32,
    target_width: u32,
    target_height: u32,
    maintain_aspect_ratio: bool,
) -> Result<(u32, u32), ProcessingError> {
    if !maintain_aspect_ratio {
        Ok((target_width, target_height))
    } else if original_width == 0 || original_height == 0 {
        Err(ProcessingError::DegenerateImage)
    } else if target_width <= target_height {
        Ok((target_width, derived_side(target_width, original_width, original_height)))
    } else {
        Ok((derived_side(target_height, original_height, original_width), target_height))
    }
}

/// Computes `derived_side` without leaving 128-bit arithmetic.
fn derive_side(kept: u32, along: u32, across: u32) -> (side: u32)
    requires
        along > 0,
    ensures
        side == derived_side(kept, along, across),
{
    assert(kept as nat * across as nat <= 0xffff_ffff * 0xffff_ffff) by (nonlinear_arith)
        requires
            kept <= 0xffff_ffff,
            across <= 0xffff_ffff,
    ;
    let product: u128 = kept as u128 * across as u128;
    let rounded: u128 = (2 * product + along as u128) / (2 * along as u128);
    if rounded < 1 {
        1
    } else if rounded > u32::MAX as u128 {
        u32::MAX
    } else {
        rounded as u32
    }
}

impl ImageResizer {
    /// The size that keeps the source's aspect ratio: the smaller target side
    /// is kept as it is, and the other follows the ratio, rounded to the
    /// nearest pixel and never below one. A source without area is refused.
    pub fn calculate_aspect_ratio_size(
        original_width: u32,
        original_height: u32,
        target_width: u32,
        target_height: u32,
    ) -> (size: Result<(u32, u32), ProcessingError>)
        ensures
            size == resolved_size(
                original_width,
                original_height,
                target_width,
                target_height,
                true,
            ),
    {
        if original_width == 0 || original_height == 0 {
            Err(ProcessingError::DegenerateImage)
        } else if target_width <= target_height {
            Ok((target_width, derive_side(target_width, original_width, original_height)))
        } else {
            Ok((derive_side(target_height, original_height, original_width), target_height))
        }
    }

    /// The size that an image of `original_width` by `original_height` is
    /// resized to: the target as it stands, or, with `maintain_aspect_ratio`,
    /// what `calculate_aspect_ratio_size` gives.
    pub fn resolve_dimensions(
        original_width: u32,
        original_height: u32,
        target_width: u32,
        target_height: u32,
        maintain_aspect_ratio: bool,
    ) -> (size: Result<(u32, u32), ProcessingError>)
        ensures
            size == resolved_size(
                original_width,
                original_height,
                target_width,
                target_height,
                maintain_aspect_ratio,
            ),
    {
        if maintain_aspect_ratio {
            Self::calculate_aspect_ratio_size(
                original_width,
                original_height,
                target_width,
                target_height,
            )
        } else {
            Ok((target_width, target_height))
        }
    }
}

/// The rounded quotient is the integer nearest to the exact quotient: it is
/// off by at most a half, and by less than a half from above.
pub proof fn lemma_rounded_quotient_nearest(numerator: nat, denominator: nat)
    requires
        denominator > 0,
    ensures
        2 * rounded_quotient(numerator, denominator) * denominator - denominator <= 2 * numerator,
        2 * numerator < 2 * rounded_quotient(numerator, denominator) * denominator + denominator,
{
    let q = rounded_quotient(numerator, denominator);
    let a = (2 * numerator + denominator) as int;
    let b = (2 * denominator) as int;
    assert(a == b * (a / b) + a % b && 0 <= a % b < b) by (nonlinear_arith)
        requires
            b > 0,
    ;
    assert(2 * q * denominator == b * (a / b)) by (nonlinear_arith)
        requires
            q == a / b,
            b == 2 * denominator,
    ;
}

/// With the aspect ratio kept and a target no wider than high, the width is
/// the target's and the height follows the source's ratio: it is the rounded
/// quotient of `target_width * original_height` by `original_width` wherever
/// that is at least one pixel and fits, and at least one pixel always.
pub proof fn lemma_width_kept(
    original_width: u32,
    original_height: u32,
    target_width: u32,
    target_height: u32,
)
    requires
        original_width > 0,
        original_height > 0,
        target_width <= target_height,
    ensures
        resolved_size(original_width, original_height, target_width, target_height, true) is Ok,
        ({
            let size = resolved_size(
                original_width,
                original_height,
                target_width,
                target_height,
                true,
            )->Ok_0;
            let exact = rounded_quotient(
                target_width as nat * original_height as nat,
                original_width as nat,
            );
            &&& size.0 == target_width
            &&& size.1 >= 1
            &&& 1 <= exact <= u32::MAX ==> size.1 == exact
        }),
{
}

/// With the aspect ratio kept and a target wider than high, the height is the
/// target's and the width follows the source's ratio: it is the rounded
/// quotient of `target_height * original_width` by `original_height` wherever
/// that is at least one pixel and fits, and at least one pixel always.
pub proof fn lemma_height_kept(
    original_width: u32,
    original_height: u32,
    target_width: u32,
    target_height: u32,
)
    requires
        original_width > 0,
        original_height > 0,
        target_height < target_width,
    ensures
        resolved_size(original_width, original_height, target_width, target_height, true) is Ok,
        ({
            let size = resolved_size(
                original_width,
                original_height,
                target_width,
                target_height,
                true,
            )->Ok_0;
            let exact = rounded_quotient(
                target_height as nat * original_width as nat,
                original_height as nat,
            );
            &&& size.1 == target_height
            &&& size.0 >= 1
            &&& 1 <= exact <= u32::MAX ==> size.0 == exact
        }),
{
}

/// Without the aspect ratio kept, the size is the target, whatever the
/// source's size.
pub proof fn lemma_exact_size_is_target(
    original_width: u32,
    original_height: u32,
    target_width: u32,
    target_height: u32,
)
    ensures
        resolved_size(original_width, original_height, target_width, target_height, false) == Ok::<
            (u32, u32),
            ProcessingError,
        >((target_width, target_height)),
{
}

/// A source without area has no aspect ratio to keep: it is refused as
/// degenerate.
pub proof fn lemma_degenerate_source_refused(
    original_width: u32,
    original_height: u32,
    target_width: u32,
    target_height: u32,
)
    requires
        original_width == 0 || original_height == 0,
    ensures
        resolved_size(original_width, original_height, target_width, target_height, true) == Err::<
            (u32, u32),
            ProcessingError,
        >(ProcessingError::DegenerateImage),
{
}

} // verus!
