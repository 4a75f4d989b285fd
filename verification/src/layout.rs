//! The arithmetic of the comparison image: how wide the identity border of a
//! page is, how large the canvas that holds the bordered page, and where each
//! page stands in the composite.

use vstd::prelude::*;

verus! {

/// The width of a border as a fraction of the shorter side of a page. The
/// denominator of a fraction is never zero.
#[derive(Copy, Clone, Debug)]
pub struct BorderFraction {
    numerator: u32,
    denominator: u32,
}

/// The smaller of two natural numbers.
pub open spec fn shorter_side(width: nat, height: nat) -> nat {
    if width <= height {
        width
    } else {
        height
    }
}

/// The border of a page of the given size under the fraction
/// `numerator / denominator`: that fraction of its shorter side, rounded
/// down.
pub open spec fn spec_border_width(width: nat, height: nat, numerator: nat, denominator: nat) -> nat
    recommends
        denominator > 0,
{
    (shorter_side(width, height) * numerator) / denominator
}

impl BorderFraction {
    #[verifier::type_invariant]
    spec fn nonzero_denominator(self) -> bool {
        self.denominator > 0
    }

    /// The numerator of the fraction.
    pub closed spec fn spec_numerator(self) -> nat {
        self.numerator as nat
    }

    /// The denominator of the fraction.
    pub closed spec fn spec_denominator(self) -> nat {
        self.denominator as nat
    }

    /// The border that this fraction gives a page of the given size.
    pub open spec fn spec_border(self, width: nat, height: nat) -> nat {
        spec_border_width(width, height, self.spec_numerator(), self.spec_denominator())
    }

    /// The fraction `numerator / denominator`, or `None` for a zero
    /// denominator.
    pub fn new(numerator: u32, denominator: u32) -> (result: Option<BorderFraction>)
        ensures
            result is Some <==> denominator > 0,
            result matches Some(f) ==> f.spec_numerator() == numerator && f.spec_denominator()
                == denominator,
    {
        if denominator > 0 {
            Some(BorderFraction { numerator, denominator })
        } else {
            None
        }
    }

    /// The numerator of the fraction.
    pub fn numerator(&self) -> (n: u32)
        ensures
            n == self.spec_numerator(),
    {
        self.numerator
    }

    /// The denominator of the fraction.
    pub fn denominator(&self) -> (d: u32)
        ensures
            d == self.spec_denominator(),
            d > 0,
    {
        proof {
            use_type_invariant(self);
        }
        self.denominator
    }

    /// The width of the border that this fraction gives a page of the given
    /// size, or `None` when it does not fit in 32 bits.
    pub fn border_width(&self, width: u32, height: u32) -> (result: Option<u32>)
        ensures
            result == if self.spec_border(width as nat, height as nat) <= u32::MAX {
                Some(self.spec_border(width as nat, height as nat) as u32)
            } else {
                None
            },
    {
        proof {
            use_type_invariant(self);
        }
        let side: u64 = if width <= height {
            width as u64
        } else {
            height as u64
        };
        assert(side * (self.numerator as u64) <= 0xffff_ffff * 0xffff_ffff) by (nonlinear_arith)
            requires
                side <= 0xffff_ffff,
                self.numerator as u64 <= 0xffff_ffff,
        ;
        let border: u64 = side * (self.numerator as u64) / (self.denominator as u64);
        if border <= u32::MAX as u64 {
            Some(border as u32)
        } else {
            None
        }
    }
}

/// How a page is set on its canvas: the page keeps its size, the canvas is
/// larger by the border in each dimension, and the page is pasted at the
/// offset of one border from the canvas origin.
#[derive(Copy, Clone, PartialEq, Eq, Structural, Debug)]
pub struct BorderLayout {
    /// The width of the page as rendered.
    pub page_width: u32,
    /// The height of the page as rendered.
    pub page_height: u32,
    /// The width of the border; also the thickness of the stroke.
    pub border: u32,
    /// The width of the canvas that holds page and border.
    pub canvas_width: u32,
    /// The height of the canvas that holds page and border.
    pub canvas_height: u32,
}

/// The layout of a page of the given size under an optional border
/// fraction, where the canvas fits in 32 bits in each dimension.
pub open spec fn spec_layout(width: u32, height: u32, fraction: Option<BorderFraction>) -> Option<
    BorderLayout,
> {
    let border = match fraction {
        Some(f) => f.spec_border(width as nat, height as nat),
        None => 0,
    };
    if width + border <= u32::MAX && height + border <= u32::MAX {
        Some(
            BorderLayout {
                page_width: width,
                page_height: height,
                border: border as u32,
                canvas_width: (width + border) as u32,
                canvas_height: (height + border) as u32,
            },
        )
    } else {
        None
    }
}

impl BorderLayout {
    /// The canvas exceeds the page by exactly the border in each dimension.
    pub open spec fn wf(self) -> bool {
        &&& self.canvas_width == self.page_width + self.border
        &&& self.canvas_height == self.page_height + self.border
    }

    /// Lay out a page of the given size. Without a fraction the page passes
    /// through: no border, and a canvas of the page's size. The result is
    /// `None` exactly when the canvas would not fit in 32 bits.
    pub fn plan(width: u32, height: u32, fraction: Option<BorderFraction>) -> (result: Option<
        BorderLayout,
    >)
        ensures
            result == spec_layout(width, height, fraction),
            result matches Some(layout) ==> layout.wf(),
    {
        let border: u32 = match fraction {
            Some(f) => match f.border_width(width, height) {
                Some(b) => b,
                None => {
                    return None;
                },
            },
            None => 0,
        };
        if border <= u32::MAX - width && border <= u32::MAX - height {
            Some(
                BorderLayout {
                    page_width: width,
                    page_height: height,
                    border,
                    canvas_width: width + border,
                    canvas_height: height + border,
                },
            )
        } else {
            None
        }
    }

    /// Where the left edge of the pasted page stands on the canvas.
    pub fn paste_x(&self) -> (x: u32)
        ensures
            x == self.border,
    {
        self.border
    }

    /// Where the top edge of the pasted page stands on the canvas.
    pub fn paste_y(&self) -> (y: u32)
        ensures
            y == self.border,
    {
        self.border
    }
}

/// The sum of the widths of the given sizes.
pub open spec fn total_width(sizes: Seq<(u32, u32)>) -> nat
    decreases sizes.len(),
{
    if sizes.len() == 0 {
        0
    } else {
        total_width(sizes.drop_last()) + sizes.last().0 as nat
    }
}

/// The largest of the heights of the given sizes; zero when there is none.
pub open spec fn max_height(sizes: Seq<(u32, u32)>) -> nat
    decreases sizes.len(),
{
    if sizes.len() == 0 {
        0
    } else {
        let rest = max_height(sizes.drop_last());
        if rest >= sizes.last().1 as nat {
            rest
        } else {
            sizes.last().1 as nat
        }
    }
}

/// The horizontal offset of the page at `index` in the composite: the sum
/// of the widths of the pages before it.
pub open spec fn offset_of(sizes: Seq<(u32, u32)>, index: int) -> nat
    recommends
        0 <= index <= sizes.len(),
{
    total_width(sizes.take(index))
}

/// The widths before a page never exceed the widths of all pages.
pub proof fn lemma_offset_within_total(sizes: Seq<(u32, u32)>, index: int)
    requires
        0 <= index <= sizes.len(),
    ensures
        offset_of(sizes, index) <= total_width(sizes),
        index < sizes.len() ==> offset_of(sizes, index) + sizes[index].0 <= total_width(sizes),
    decreases sizes.len() - index,
{
    if index == sizes.len() {
        assert(sizes.take(index) =~= sizes);
    } else {
        lemma_offset_within_total(sizes, index + 1);
        assert(sizes.take(index + 1).drop_last() =~= sizes.take(index));
    }
}

/// No page is taller than the composite.
pub proof fn lemma_height_within_max(sizes: Seq<(u32, u32)>, index: int)
    requires
        0 <= index < sizes.len(),
    ensures
        sizes[index].1 <= max_height(sizes),
    decreases sizes.len(),
{
    if index < sizes.len() - 1 {
        lemma_height_within_max(sizes.drop_last(), index);
    }
}

/// The size of the image that holds the given pages side by side: as wide
/// as all of them together and as tall as the tallest. `None` exactly when
/// the width does not fit in 32 bits.
pub fn composite_size(sizes: &Vec<(u32, u32)>) -> (result: Option<(u32, u32)>)
    ensures
        result is Some <==> total_width(sizes@) <= u32::MAX,
        result matches Some((width, height)) ==> width == total_width(sizes@) && height
            == max_height(sizes@),
{
    let mut width: u32 = 0;
    let mut height: u32 = 0;
    let mut i: usize = 0;
    while i < sizes.len()
        invariant
            0 <= i <= sizes.len(),
            width == total_width(sizes@.take(i as int)),
            height == max_height(sizes@.take(i as int)),
        decreases sizes.len() - i,
    {
        let (w, h) = sizes[i];
        proof {
            assert(sizes@.take(i + 1).drop_last() =~= sizes@.take(i as int));
            lemma_offset_within_total(sizes@, i + 1);
        }
        if w > u32::MAX - width {
            return None;
        }
        width = width + w;
        if h > height {
            height = h;
        }
        i = i + 1;
    }
    proof {
        assert(sizes@.take(i as int) =~= sizes@);
    }
    Some((width, height))
}

/// The horizontal offsets at which the given pages are pasted, left to
/// right, each after all pages before it. `None` exactly when the total
/// width does not fit in 32 bits.
pub fn offsets(sizes: &Vec<(u32, u32)>) -> (result: Option<Vec<u32>>)
    ensures
        result is Some <==> total_width(sizes@) <= u32::MAX,
        result matches Some(xs) ==> xs.len() == sizes.len() && forall|i: int|
            0 <= i < xs.len() ==> xs[i] == offset_of(sizes@, i),
{
    let mut xs: Vec<u32> = Vec::new();
    let mut cursor: u32 = 0;
    let mut i: usize = 0;
    while i < sizes.len()
        invariant
            0 <= i <= sizes.len(),
            xs.len() == i,
            cursor == offset_of(sizes@, i as int),
            forall|j: int| 0 <= j < i ==> xs[j] == offset_of(sizes@, j),
        decreases sizes.len() - i,
    {
        let (w, _h) = sizes[i];
        proof {
            assert(sizes@.take(i + 1).drop_last() =~= sizes@.take(i as int));
            lemma_offset_within_total(sizes@, i + 1);
        }
        if w > u32::MAX - cursor {
            return None;
        }
        xs.push(cursor);
        cursor = cursor + w;
        i = i + 1;
    }
    proof {
        assert(sizes@.take(i as int) =~= sizes@);
    }
    Some(xs)
}

} // verus!
