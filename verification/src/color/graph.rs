//! The conversion graph: which pairs of formats have a pairwise conversion,
//! and through which format a conversion goes where the pair has none.
//!
//! A conversion from one format to another walks the graph: it takes the
//! pairwise conversion to the target where there is one, and otherwise the
//! pairwise conversion to an intermediary chosen for the pair, and goes on
//! from there. Every walk ends at the target after at most three pairwise
//! conversions, and meets no format twice.

use crate::color::format::ColorFormatName;
use vstd::prelude::*;

verus! {

/// There is a pairwise conversion from `from` to `to`.
pub open spec fn spec_is_direct(from: ColorFormatName, to: ColorFormatName) -> bool {
    match from {
        ColorFormatName::Gray8 => match to {
            ColorFormatName::Gray16
            | ColorFormatName::Grayf
            | ColorFormatName::RGB
            | ColorFormatName::RGBA => true,
            _ => false,
        },
        ColorFormatName::Gray16 => match to {
            ColorFormatName::Gray8
            | ColorFormatName::Grayf
            | ColorFormatName::RGB
            | ColorFormatName::RGB48
            | ColorFormatName::RGBA64
            | ColorFormatName::RGBf
            | ColorFormatName::RGBAf => true,
            _ => false,
        },
        ColorFormatName::Grayf => match to {
            ColorFormatName::Gray8
            | ColorFormatName::Gray16
            | ColorFormatName::RGB
            | ColorFormatName::SRGB
            | ColorFormatName::RGB48
            | ColorFormatName::RGBA
            | ColorFormatName::RGBA64
            | ColorFormatName::RGBf
            | ColorFormatName::SRGBf
            | ColorFormatName::RGBAf => true,
            _ => false,
        },
        ColorFormatName::RGB => match to {
            ColorFormatName::Gray8
            | ColorFormatName::Gray16
            | ColorFormatName::Grayf
            | ColorFormatName::SRGB
            | ColorFormatName::RGB48
            | ColorFormatName::RGBA
            | ColorFormatName::RGBA64
            | ColorFormatName::RGBf
            | ColorFormatName::SRGBf
            | ColorFormatName::RGBAf
            | ColorFormatName::HSV
            | ColorFormatName::HSL
            | ColorFormatName::CIEXYZ => true,
            _ => false,
        },
        ColorFormatName::SRGB => match to {
            ColorFormatName::Grayf
            | ColorFormatName::RGB
            | ColorFormatName::RGBf
            | ColorFormatName::SRGBf
            | ColorFormatName::HSV
            | ColorFormatName::HSL
            | ColorFormatName::CIEXYZ => true,
            _ => false,
        },
        ColorFormatName::RGB48 => match to {
            ColorFormatName::Gray16
            | ColorFormatName::Grayf
            | ColorFormatName::RGB
            | ColorFormatName::RGBA64
            | ColorFormatName::RGBf => true,
            _ => false,
        },
        ColorFormatName::RGBA => match to {
            ColorFormatName::Gray8
            | ColorFormatName::Gray16
            | ColorFormatName::Grayf
            | ColorFormatName::RGB
            | ColorFormatName::RGBA64
            | ColorFormatName::RGBf
            | ColorFormatName::RGBAf => true,
            _ => false,
        },
        ColorFormatName::RGBA64 => match to {
            ColorFormatName::Gray16
            | ColorFormatName::Grayf
            | ColorFormatName::RGB48
            | ColorFormatName::RGBA
            | ColorFormatName::RGBf
            | ColorFormatName::RGBAf => true,
            _ => false,
        },
        ColorFormatName::RGBf => match to {
            ColorFormatName::Gray8
            | ColorFormatName::Gray16
            | ColorFormatName::Grayf
            | ColorFormatName::RGB
            | ColorFormatName::SRGB
            | ColorFormatName::RGB48
            | ColorFormatName::RGBA
            | ColorFormatName::RGBA64
            | ColorFormatName::SRGBf
            | ColorFormatName::RGBAf
            | ColorFormatName::HSV
            | ColorFormatName::HSL
            | ColorFormatName::CIEXYZ => true,
            _ => false,
        },
        ColorFormatName::SRGBf => match to {
            ColorFormatName::Grayf
            | ColorFormatName::RGB
            | ColorFormatName::SRGB
            | ColorFormatName::RGBf
            | ColorFormatName::HSV
            | ColorFormatName::HSL
            | ColorFormatName::CIEXYZ => true,
            _ => false,
        },
        ColorFormatName::RGBAf => match to {
            ColorFormatName::Gray8
            | ColorFormatName::Gray16
            | ColorFormatName::Grayf
            | ColorFormatName::RGB
            | ColorFormatName::SRGB
            | ColorFormatName::RGB48
            | ColorFormatName::RGBA
            | ColorFormatName::RGBA64
            | ColorFormatName::RGBf
            | ColorFormatName::SRGBf
            | ColorFormatName::HSV
            | ColorFormatName::HSL
            | ColorFormatName::CIEXYZ => true,
            _ => false,
        },
        ColorFormatName::HSV => match to {
            ColorFormatName::RGB
            | ColorFormatName::SRGB
            | ColorFormatName::RGBf
            | ColorFormatName::SRGBf
            | ColorFormatName::HSL => true,
            _ => false,
        },
        ColorFormatName::HSL => match to {
            ColorFormatName::RGB
            | ColorFormatName::SRGB
            | ColorFormatName::RGBf
            | ColorFormatName::SRGBf
            | ColorFormatName::HSV => true,
            _ => false,
        },
        ColorFormatName::CIEXYZ => match to {
            ColorFormatName::Grayf
            | ColorFormatName::RGB
            | ColorFormatName::SRGB
            | ColorFormatName::RGBf
            | ColorFormatName::SRGBf
            | ColorFormatName::CIELab => true,
            _ => false,
        },
        ColorFormatName::CIELab => match to {
            ColorFormatName::Grayf | ColorFormatName::CIEXYZ => true,
            _ => false,
        },
    }
}

/// The format through which a conversion from `from` to `to` goes, for a
/// pair without a pairwise conversion.
pub open spec fn spec_intermediary(from: ColorFormatName, to: ColorFormatName) -> ColorFormatName {
    match from {
        ColorFormatName::Gray8 => match to {
            ColorFormatName::RGBA64 | ColorFormatName::RGBAf => ColorFormatName::RGBA,
            _ => ColorFormatName::RGB,
        },
        ColorFormatName::Gray16 => match to {
            ColorFormatName::SRGB => ColorFormatName::RGB,
            ColorFormatName::RGBA => ColorFormatName::RGBAf,
            _ => ColorFormatName::RGBf,
        },
        ColorFormatName::Grayf
        | ColorFormatName::RGBA64
        | ColorFormatName::HSV
        | ColorFormatName::HSL => ColorFormatName::RGBf,
        ColorFormatName::RGB | ColorFormatName::RGBf | ColorFormatName::RGBAf => ColorFormatName::CIEXYZ,
        ColorFormatName::SRGB => match to {
            ColorFormatName::Gray8 | ColorFormatName::Gray16 => ColorFormatName::Grayf,
            ColorFormatName::RGB48 | ColorFormatName::RGBA | ColorFormatName::RGBA64 => ColorFormatName::RGB,
            ColorFormatName::RGBAf => ColorFormatName::RGBf,
            _ => ColorFormatName::CIEXYZ,
        },
        ColorFormatName::RGB48 => match to {
            ColorFormatName::RGBA | ColorFormatName::RGBAf => ColorFormatName::RGBA64,
            _ => ColorFormatName::RGBf,
        },
        ColorFormatName::RGBA => match to {
            ColorFormatName::SRGB | ColorFormatName::RGB48 | ColorFormatName::SRGBf => ColorFormatName::RGB,
            _ => ColorFormatName::RGBf,
        },
        ColorFormatName::SRGBf => match to {
            ColorFormatName::RGBA => ColorFormatName::RGB,
            ColorFormatName::Gray8 | ColorFormatName::Gray16 => ColorFormatName::Grayf,
            ColorFormatName::CIELab => ColorFormatName::CIEXYZ,
            _ => ColorFormatName::RGBf,
        },
        ColorFormatName::CIEXYZ => match to {
            ColorFormatName::RGBA => ColorFormatName::RGB,
            ColorFormatName::Gray8 | ColorFormatName::Gray16 => ColorFormatName::Grayf,
            _ => ColorFormatName::RGBf,
        },
        ColorFormatName::CIELab => match to {
            ColorFormatName::Gray8 | ColorFormatName::Gray16 => ColorFormatName::Grayf,
            _ => ColorFormatName::CIEXYZ,
        },
    }
}

/// The format of the value after the next pairwise conversion on the way
/// from `from` to `to`: `to` itself where the pair has a pairwise conversion
/// or the way is over, the intermediary otherwise.
pub open spec fn spec_next_hop(from: ColorFormatName, to: ColorFormatName) -> ColorFormatName {
    if from == to || spec_is_direct(from, to) {
        to
    } else {
        spec_intermediary(from, to)
    }
}

/// The number of pairwise conversions on the way from `from` to `to`.
pub open spec fn spec_hops(from: ColorFormatName, to: ColorFormatName) -> nat {
    if from == to {
        0
    } else if spec_next_hop(from, to) == to {
        1
    } else if spec_next_hop(spec_next_hop(from, to), to) == to {
        2
    } else {
        3
    }
}

/// The formats that a conversion from `from` to `to` passes, in order,
/// without `from` and ending with `to`; nothing where the two are the same.
pub open spec fn spec_route(from: ColorFormatName, to: ColorFormatName) -> Seq<ColorFormatName>
    decreases spec_hops(from, to),
    via spec_route_decreases
{
    if from == to {
        Seq::empty()
    } else {
        seq![spec_next_hop(from, to)] + spec_route(spec_next_hop(from, to), to)
    }
}

#[via_fn]
proof fn spec_route_decreases(from: ColorFormatName, to: ColorFormatName) {
    lemma_next_hop(from, to);
}

/// Every step of a conversion is a pairwise conversion that exists, leads
/// to another format, and leaves one step less to go; no conversion takes
/// more than three steps.
pub proof fn lemma_next_hop(from: ColorFormatName, to: ColorFormatName)
    ensures
        spec_hops(from, to) <= 3,
        from != to ==> spec_is_direct(from, spec_next_hop(from, to)),
        from != to ==> spec_next_hop(from, to) != from,
        from != to ==> spec_hops(spec_next_hop(from, to), to) + 1 == spec_hops(from, to),
{
    let a = spec_next_hop(from, to);
    let b = spec_next_hop(a, to);
    let c = spec_next_hop(b, to);
    assert(from != to ==> spec_is_direct(from, a));
    assert(a != to ==> spec_is_direct(a, b));
    assert(b != to ==> spec_is_direct(b, c));
    assert(a != to && b != to ==> c == to);
}

/// The format at each place of a route has as many pairwise conversions
/// to go as places follow it.
pub proof fn lemma_route_hops(from: ColorFormatName, to: ColorFormatName, i: int)
    requires
        0 <= i < spec_route(from, to).len(),
    ensures
        spec_route(from, to).len() == spec_hops(from, to),
        spec_hops(spec_route(from, to)[i], to) == spec_route(from, to).len() - 1 - i,
    decreases spec_hops(from, to),
{
    lemma_next_hop(from, to);
    lemma_route_len(from, to);
    if from != to {
        let next = spec_next_hop(from, to);
        lemma_route_len(next, to);
        if i > 0 {
            lemma_route_hops(next, to, i - 1);
        }
    }
}

/// A route has as many formats as there are pairwise conversions to go.
pub proof fn lemma_route_len(from: ColorFormatName, to: ColorFormatName)
    ensures
        spec_route(from, to).len() == spec_hops(from, to),
        from != to ==> spec_route(from, to).last() == to,
    decreases spec_hops(from, to),
{
    lemma_next_hop(from, to);
    if from != to {
        lemma_route_len(spec_next_hop(from, to), to);
    }
}

/// A conversion meets no format twice: the formats of a route differ from
/// each other and from the format that the conversion starts from.
pub proof fn lemma_route_without_repeats(
    from: ColorFormatName,
    to: ColorFormatName,
    i: int,
    j: int,
)
    requires
        0 <= i < j < spec_route(from, to).len(),
    ensures
        spec_route(from, to)[i] != spec_route(from, to)[j],
        spec_route(from, to)[i] != from,
        spec_route(from, to)[j] != from,
{
    lemma_route_hops(from, to, i);
    lemma_route_hops(from, to, j);
}

/// There is a pairwise conversion from `from` to `to`.
pub fn is_direct(from: ColorFormatName, to: ColorFormatName) -> (direct: bool)
    ensures
        direct == spec_is_direct(from, to),
{
    match from {
        ColorFormatName::Gray8 => match to {
            ColorFormatName::Gray16
            | ColorFormatName::Grayf
            | ColorFormatName::RGB
            | ColorFormatName::RGBA => true,
            _ => false,
        },
        ColorFormatName::Gray16 => match to {
            ColorFormatName::Gray8
            | ColorFormatName::Grayf
            | ColorFormatName::RGB
            | ColorFormatName::RGB48
            | ColorFormatName::RGBA64
            | ColorFormatName::RGBf
            | ColorFormatName::RGBAf => true,
            _ => false,
        },
        ColorFormatName::Grayf => match to {
            ColorFormatName::Gray8
            | ColorFormatName::Gray16
            | ColorFormatName::RGB
            | ColorFormatName::SRGB
            | ColorFormatName::RGB48
            | ColorFormatName::RGBA
            | ColorFormatName::RGBA64
            | ColorFormatName::RGBf
            | ColorFormatName::SRGBf
            | ColorFormatName::RGBAf => true,
            _ => false,
        },
        ColorFormatName::RGB => match to {
            ColorFormatName::Gray8
            | ColorFormatName::Gray16
            | ColorFormatName::Grayf
            | ColorFormatName::SRGB
            | ColorFormatName::RGB48
            | ColorFormatName::RGBA
            | ColorFormatName::RGBA64
            | ColorFormatName::RGBf
            | ColorFormatName::SRGBf
            | ColorFormatName::RGBAf
            | ColorFormatName::HSV
            | ColorFormatName::HSL
            | ColorFormatName::CIEXYZ => true,
            _ => false,
        },
        ColorFormatName::SRGB => match to {
            ColorFormatName::Grayf
            | ColorFormatName::RGB
            | ColorFormatName::RGBf
            | ColorFormatName::SRGBf
            | ColorFormatName::HSV
            | ColorFormatName::HSL
            | ColorFormatName::CIEXYZ => true,
            _ => false,
        },
        ColorFormatName::RGB48 => match to {
            ColorFormatName::Gray16
            | ColorFormatName::Grayf
            | ColorFormatName::RGB
            | ColorFormatName::RGBA64
            | ColorFormatName::RGBf => true,
            _ => false,
        },
        ColorFormatName::RGBA => match to {
            ColorFormatName::Gray8
            | ColorFormatName::Gray16
            | ColorFormatName::Grayf
            | ColorFormatName::RGB
            | ColorFormatName::RGBA64
            | ColorFormatName::RGBf
            | ColorFormatName::RGBAf => true,
            _ => false,
        },
        ColorFormatName::RGBA64 => match to {
            ColorFormatName::Gray16
            | ColorFormatName::Grayf
            | ColorFormatName::RGB48
            | ColorFormatName::RGBA
            | ColorFormatName::RGBf
            | ColorFormatName::RGBAf => true,
            _ => false,
        },
        ColorFormatName::RGBf => match to {
            ColorFormatName::Gray8
            | ColorFormatName::Gray16
            | ColorFormatName::Grayf
            | ColorFormatName::RGB
            | ColorFormatName::SRGB
            | ColorFormatName::RGB48
            | ColorFormatName::RGBA
            | ColorFormatName::RGBA64
            | ColorFormatName::SRGBf
            | ColorFormatName::RGBAf
            | ColorFormatName::HSV
            | ColorFormatName::HSL
            | ColorFormatName::CIEXYZ => true,
            _ => false,
        },
        ColorFormatName::SRGBf => match to {
            ColorFormatName::Grayf
            | ColorFormatName::RGB
            | ColorFormatName::SRGB
            | ColorFormatName::RGBf
            | ColorFormatName::HSV
            | ColorFormatName::HSL
            | ColorFormatName::CIEXYZ => true,
            _ => false,
        },
        ColorFormatName::RGBAf => match to {
            ColorFormatName::Gray8
            | ColorFormatName::Gray16
            | ColorFormatName::Grayf
            | ColorFormatName::RGB
            | ColorFormatName::SRGB
            | ColorFormatName::RGB48
            | ColorFormatName::RGBA
            | ColorFormatName::RGBA64
            | ColorFormatName::RGBf
            | ColorFormatName::SRGBf
            | ColorFormatName::HSV
            | ColorFormatName::HSL
            | ColorFormatName::CIEXYZ => true,
            _ => false,
        },
        ColorFormatName::HSV => match to {
            ColorFormatName::RGB
            | ColorFormatName::SRGB
            | ColorFormatName::RGBf
            | ColorFormatName::SRGBf
            | ColorFormatName::HSL => true,
            _ => false,
        },
        ColorFormatName::HSL => match to {
            ColorFormatName::RGB
            | ColorFormatName::SRGB
            | ColorFormatName::RGBf
            | ColorFormatName::SRGBf
            | ColorFormatName::HSV => true,
            _ => false,
        },
        ColorFormatName::CIEXYZ => match to {
            ColorFormatName::Grayf
            | ColorFormatName::RGB
            | ColorFormatName::SRGB
            | ColorFormatName::RGBf
            | ColorFormatName::SRGBf
            | ColorFormatName::CIELab => true,
            _ => false,
        },
        ColorFormatName::CIELab => match to {
            ColorFormatName::Grayf | ColorFormatName::CIEXYZ => true,
            _ => false,
        },
    }
}

/// The format through which a conversion from `from` to `to` goes, for a
/// pair without a pairwise conversion.
fn intermediary(from: ColorFormatName, to: ColorFormatName) -> (middle: ColorFormatName)
    ensures
        middle == spec_intermediary(from, to),
{
    match from {
        ColorFormatName::Gray8 => match to {
            ColorFormatName::RGBA64 | ColorFormatName::RGBAf => ColorFormatName::RGBA,
            _ => ColorFormatName::RGB,
        },
        ColorFormatName::Gray16 => match to {
            ColorFormatName::SRGB => ColorFormatName::RGB,
            ColorFormatName::RGBA => ColorFormatName::RGBAf,
            _ => ColorFormatName::RGBf,
        },
        ColorFormatName::Grayf
        | ColorFormatName::RGBA64
        | ColorFormatName::HSV
        | ColorFormatName::HSL => ColorFormatName::RGBf,
        ColorFormatName::RGB | ColorFormatName::RGBf | ColorFormatName::RGBAf => ColorFormatName::CIEXYZ,
        ColorFormatName::SRGB => match to {
            ColorFormatName::Gray8 | ColorFormatName::Gray16 => ColorFormatName::Grayf,
            ColorFormatName::RGB48 | ColorFormatName::RGBA | ColorFormatName::RGBA64 => ColorFormatName::RGB,
            ColorFormatName::RGBAf => ColorFormatName::RGBf,
            _ => ColorFormatName::CIEXYZ,
        },
        ColorFormatName::RGB48 => match to {
            ColorFormatName::RGBA | ColorFormatName::RGBAf => ColorFormatName::RGBA64,
            _ => ColorFormatName::RGBf,
        },
        ColorFormatName::RGBA => match to {
            ColorFormatName::SRGB | ColorFormatName::RGB48 | ColorFormatName::SRGBf => ColorFormatName::RGB,
            _ => ColorFormatName::RGBf,
        },
        ColorFormatName::SRGBf => match to {
            ColorFormatName::RGBA => ColorFormatName::RGB,
            ColorFormatName::Gray8 | ColorFormatName::Gray16 => ColorFormatName::Grayf,
            ColorFormatName::CIELab => ColorFormatName::CIEXYZ,
            _ => ColorFormatName::RGBf,
        },
        ColorFormatName::CIEXYZ => match to {
            ColorFormatName::RGBA => ColorFormatName::RGB,
            ColorFormatName::Gray8 | ColorFormatName::Gray16 => ColorFormatName::Grayf,
            _ => ColorFormatName::RGBf,
        },
        ColorFormatName::CIELab => match to {
            ColorFormatName::Gray8 | ColorFormatName::Gray16 => ColorFormatName::Grayf,
            _ => ColorFormatName::CIEXYZ,
        },
    }
}

/// The format of the value after the next pairwise conversion on the way
/// from `from` to `to`; `to` where the two are the same.
pub fn next_hop(from: ColorFormatName, to: ColorFormatName) -> (next: ColorFormatName)
    ensures
        next == spec_next_hop(from, to),
        from != to ==> spec_is_direct(from, next) && next != from,
        from != to ==> spec_hops(next, to) < spec_hops(from, to),
{
    proof {
        lemma_next_hop(from, to);
    }
    if from == to || is_direct(from, to) {
        to
    } else {
        intermediary(from, to)
    }
}

/// The formats that a conversion from `from` to `to` passes, in order,
/// without `from` and ending with `to`.
pub fn route(from: ColorFormatName, to: ColorFormatName) -> (formats: Vec<ColorFormatName>)
    ensures
        formats@ == spec_route(from, to),
        formats@.len() == spec_hops(from, to),
        formats@.len() <= 3,
{
    let mut formats: Vec<ColorFormatName> = Vec::new();
    let mut current = from;
    proof {
        lemma_next_hop(from, to);
    }
    while current != to
        invariant
            formats@ + spec_route(current, to) == spec_route(from, to),
            formats@.len() + spec_hops(current, to) == spec_hops(from, to),
            spec_hops(from, to) <= 3,
        decreases spec_hops(current, to),
    {
        let next = next_hop(current, to);
        proof {
            lemma_next_hop(current, to);
            assert(spec_route(current, to) == seq![next] + spec_route(next, to));
            assert(formats@.push(next) + spec_route(next, to) =~= formats@ + (seq![next]
                + spec_route(next, to)));
        }
        formats.push(next);
        current = next;
    }
    proof {
        assert(spec_route(to, to) =~= Seq::<ColorFormatName>::empty());
        assert(formats@ + Seq::<ColorFormatName>::empty() =~= formats@);
    }
    formats
}

} // verus!
