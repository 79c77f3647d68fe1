use vstd::prelude::*;
use crate::models::Country;

verus! {

pub const CHART_WIDTH: u32 = 1000;

pub const CHART_HEIGHT: u32 = 700;

/// At most this many bars are drawn.
pub const MAX_BARS: usize = 5;

/// Left edge of every bar.
pub const BAR_LEFT: u32 = 50;

/// Top edge of the first bar.
pub const BAR_TOP: u32 = 100;

/// Distance between the top edges of two consecutive bars.
pub const BAR_SPACING: u32 = 100;

pub const BAR_HEIGHT: u32 = 60;

pub const MAX_BAR_WIDTH: u32 = 800;

/// One pixel of bar width stands for this much estimated GDP.
pub const GDP_PER_PIXEL: i128 = 1_000_000_000;

/// An RGB pixel.
pub type Rgb = (u8, u8, u8);

pub open spec fn bar_color() -> Rgb {
    (0u8, 150u8, 0u8)
}

/// The red and green level of the background at row `y`: 255 at the top,
/// falling linearly towards the bottom.
pub open spec fn gradient_level(y: int) -> int {
    255 - (y * 255) / (CHART_HEIGHT as int)
}

/// The background at row `y`.
pub open spec fn background(y: int) -> Rgb {
    (gradient_level(y) as u8, gradient_level(y) as u8, 255u8)
}

/// The width of the bar of an estimated GDP: one pixel per `GDP_PER_PIXEL`,
/// at most `MAX_BAR_WIDTH`; none or a non-positive GDP gives no width.
pub open spec fn bar_width_of(gdp: Option<i128>) -> int {
    match gdp {
        Some(g) => if g <= 0 {
            0
        } else if g / GDP_PER_PIXEL >= MAX_BAR_WIDTH {
            MAX_BAR_WIDTH as int
        } else {
            g / GDP_PER_PIXEL
        },
        None => 0,
    }
}

/// The bar whose slot covers row `y`, when `count` bars are drawn.
pub open spec fn bar_at_row(count: int, y: int) -> Option<int> {
    if y >= BAR_TOP && (y - BAR_TOP) % (BAR_SPACING as int) < BAR_HEIGHT && (y - BAR_TOP) / (
    BAR_SPACING as int) < count {
        Some((y - BAR_TOP) / (BAR_SPACING as int))
    } else {
        None
    }
}

/// The colour of pixel `(x, y)` of a chart with bars of the given widths.
pub open spec fn chart_pixel(widths: Seq<int>, x: int, y: int) -> Rgb {
    match bar_at_row(widths.len() as int, y) {
        Some(i) => if BAR_LEFT <= x < BAR_LEFT + widths[i] {
            bar_color()
        } else {
            background(y)
        },
        None => background(y),
    }
}

/// The bar widths of the first `MAX_BARS` countries.
pub open spec fn bar_widths(countries: Seq<Country>) -> Seq<int> {
    let k: nat = if countries.len() < MAX_BARS { countries.len() } else { MAX_BARS as nat };
    Seq::new(k, |i: int| bar_width_of(countries[i].estimated_gdp))
}

/// A raster image held row by row.
pub struct Canvas {
    rows: Vec<Vec<Rgb>>,
}

impl View for Canvas {
    type V = Seq<Seq<Rgb>>;

    closed spec fn view(&self) -> Seq<Seq<Rgb>> {
        self.rows@.map_values(|r: Vec<Rgb>| r@)
    }
}

impl Canvas {
    pub fn height(&self) -> (r: usize)
        ensures
            r == self@.len(),
    {
        self.rows.len()
    }

    /// The width of row `y`.
    pub fn row_width(&self, y: usize) -> (r: usize)
        requires
            y < self@.len(),
        ensures
            r == self@[y as int].len(),
    {
        self.rows[y].len()
    }

    /// The pixel at column `x` of row `y`.
    pub fn pixel(&self, x: usize, y: usize) -> (r: Rgb)
        requires
            y < self@.len(),
            x < self@[y as int].len(),
        ensures
            r == self@[y as int][x as int],
    {
        self.rows[y][x]
    }
}

/// The bar width of an estimated GDP, see `bar_width_of`.
pub fn bar_width(gdp: Option<i128>) -> (r: u32)
    ensures
        r == bar_width_of(gdp),
{
    match gdp {
        Some(g) => if g <= 0 {
            0
        } else if g / GDP_PER_PIXEL >= MAX_BAR_WIDTH as i128 {
            MAX_BAR_WIDTH
        } else {
            (g / GDP_PER_PIXEL) as u32
        },
        None => 0,
    }
}

/// Paints the summary chart.
pub struct ImageGenerator;

impl ImageGenerator {
    /// The chart of the given countries, largest first: a vertical gradient
    /// and one bar per country for the first `MAX_BARS` of them.
    pub fn generate(top_countries: &Vec<Country>, _total_countries: i32, _last_refreshed_at: i64) -> (r:
        Canvas)
        ensures
            r@.len() == CHART_HEIGHT,
            forall|y: int| 0 <= y < CHART_HEIGHT ==> #[trigger] r@[y].len() == CHART_WIDTH,
            forall|x: int, y: int|
                0 <= x < CHART_WIDTH && 0 <= y < CHART_HEIGHT ==> #[trigger] r@[y][x]
                    == chart_pixel(bar_widths(top_countries@), x, y),
    {
        let ghost widths_spec = bar_widths(top_countries@);
        let count: usize = if top_countries.len() < MAX_BARS {
            top_countries.len()
        } else {
            MAX_BARS
        };
        let mut widths: Vec<u32> = Vec::new();
        let mut i: usize = 0;
        while i < count
            invariant
                count == widths_spec.len(),
                count <= top_countries.len(),
                widths_spec == bar_widths(top_countries@),
                i <= count,
                widths@.len() == i,
                forall|j: int| 0 <= j < i ==> widths@[j] == widths_spec[j],
            decreases count - i,
        {
            widths.push(bar_width(top_countries[i].estimated_gdp));
            i = i + 1;
        }
        assert forall|j: int| 0 <= j < widths_spec.len() implies 0 <= #[trigger] widths_spec[j]
            <= MAX_BAR_WIDTH by {
            assert(widths_spec[j] == bar_width_of(top_countries@[j].estimated_gdp));
        }
        let mut rows: Vec<Vec<Rgb>> = Vec::new();
        let mut y: u32 = 0;
        while y < CHART_HEIGHT
            invariant
                widths_spec == bar_widths(top_countries@),
                widths@.len() == widths_spec.len(),
                widths_spec.len() <= MAX_BARS,
                forall|j: int| 0 <= j < widths@.len() ==> widths@[j] == widths_spec[j],
                forall|j: int| 0 <= j < widths_spec.len() ==> 0 <= #[trigger] widths_spec[j] <= MAX_BAR_WIDTH,
                y <= CHART_HEIGHT,
                rows@.len() == y,
                forall|yy: int| 0 <= yy < y ==> #[trigger] rows@[yy]@.len() == CHART_WIDTH,
                forall|x: int, yy: int|
                    0 <= x < CHART_WIDTH && 0 <= yy < y ==> #[trigger] rows@[yy]@[x]
                        == chart_pixel(widths_spec, x, yy),
            decreases CHART_HEIGHT - y,
        {
            assert(y * 255 <= 699 * 255) by (nonlinear_arith)
                requires y < 700;
            let level: u8 = (255 - (y * 255) / CHART_HEIGHT) as u8;
            let bg: Rgb = (level, level, 255u8);
            let in_slot: bool = y >= BAR_TOP && (y - BAR_TOP) % BAR_SPACING < BAR_HEIGHT;
            let slot: usize = if y >= BAR_TOP {
                ((y - BAR_TOP) / BAR_SPACING) as usize
            } else {
                0
            };
            let bar_end: u32 = if in_slot && slot < widths.len() {
                let w = widths[slot];
                assert(w == widths_spec[slot as int]);
                BAR_LEFT + w
            } else {
                0
            };
            let mut row: Vec<Rgb> = Vec::new();
            let mut x: u32 = 0;
            while x < CHART_WIDTH
                invariant
                    y < CHART_HEIGHT,
                    bg == background(y as int),
                    bar_at_row(widths_spec.len() as int, y as int) matches Some(b) ==> bar_end
                        == BAR_LEFT + widths_spec[b],
                    bar_at_row(widths_spec.len() as int, y as int) is None ==> bar_end == 0,
                    x <= CHART_WIDTH,
                    row@.len() == x,
                    forall|xx: int|
                        0 <= xx < x ==> #[trigger] row@[xx] == chart_pixel(widths_spec, xx, y as int),
                decreases CHART_WIDTH - x,
            {
                let px: Rgb = if BAR_LEFT <= x && x < bar_end {
                    (0u8, 150u8, 0u8)
                } else {
                    bg
                };
                row.push(px);
                x = x + 1;
            }
            rows.push(row);
            y = y + 1;
        }
        Canvas { rows }
    }
}

} // verus!
